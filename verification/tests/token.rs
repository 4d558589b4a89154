use default_backend::context::{extract, ErrorContext, Extraction, RequestHeaders};
use default_backend::token::{encode, encode_rendered, record, seal, CaptureInstant};

fn context(
    code: &str,
    uri: &str,
    namespace: Option<&str>,
    ingress: Option<&str>,
    service: Option<&str>,
    port: Option<&str>,
    request_id: &str,
    method: &str,
) -> ErrorContext {
    let headers = RequestHeaders {
        format: None,
        accept: None,
        code: Some(code.to_string()),
        original_uri: Some(uri.to_string()),
        namespace: namespace.map(|v| v.to_string()),
        ingress_name: ingress.map(|v| v.to_string()),
        service_name: service.map(|v| v.to_string()),
        service_port: port.map(|v| v.to_string()),
        request_id: Some(request_id.to_string()),
    };
    match extract(&headers, method) {
        Extraction::Applicable(c) => c,
        _ => panic!("no context"),
    }
}

fn plain() -> ErrorContext {
    context("503", "/foo", None, None, None, None, "abc123", "GET")
}

fn full() -> ErrorContext {
    context("404", "/a/b?c=d", Some("prod"), Some("web"), Some("frontend"), Some("8080"), "req-9", "POST")
}

fn hex(bytes: &[u8]) -> String {
    let mut out = String::new();
    for b in bytes {
        out.push_str(&format!("{:02x}", b));
    }
    out
}

fn url_safe(token: &str) -> bool {
    token.chars().all(|c| c.is_ascii_alphanumeric() || c == '-' || c == '_')
}

const PLAIN_RECORD: &str = "a961631901f7616f642f666f6f616e6061696061736061700061646661626331323361747818323032302d30312d30325430333a30343a30352e3637385a616d63474554";

const PLAIN_TOKEN: &str =
    "qWFjGQH3YW9kL2Zvb2FuYGFpYGFzYGFwAGFkZmFiYzEyM2F0eBgyMDIwLTAxLTAyVDAzOjA0OjA1LjY3OFphbWNHRVQ";

const PLAIN_TOKEN_WHOLE_SECOND: &str =
    "qWFjGQH3YW9kL2Zvb2FuYGFpYGFzYGFwAGFkZmFiYzEyM2F0dDIwMjAtMDEtMDJUMDM6MDQ6MDVaYW1jR0VU";

const FULL_TOKEN: &str = "qWFjGQGUYW9oL2EvYj9jPWRhbmRwcm9kYWljd2ViYXNoZnJvbnRlbmRhcBkfkGFkZXJlcS05YXR4GzIwMjEtMDYtMzBUMjM6NTk6NTkuMDAwMDAxWmFtZFBPU1Q";

#[test]
fn the_record_is_a_cbor_map_in_the_fixed_order() {
    let bytes = record(&plain(), "2020-01-02T03:04:05.678Z").expect("a record");
    assert_eq!(hex(&bytes), PLAIN_RECORD);
}

#[test]
fn the_record_uses_the_shortest_heads() {
    let uri = format!("/{}", "x".repeat(300));
    let namespace = "n".repeat(24);
    let ctx = context("200", &uri, Some(&namespace), Some("\u{fc}"), None, Some("65535"), "r", "PATCH");
    let bytes = record(&ctx, "1970-01-01T00:00:00Z").expect("a record");
    let mut expected = String::from("a9616318c8616f79012d2f");
    expected.push_str(&"78".repeat(300));
    expected.push_str("616e7818");
    expected.push_str(&"6e".repeat(24));
    expected.push_str("616962c3bc617360617019ffff61646172617474313937302d30312d30315430303a30303a30305a616d655041544348");
    assert_eq!(hex(&bytes), expected);
}

#[test]
fn the_record_holds_long_texts() {
    let uri = "u".repeat(70000);
    let ctx = context("500", &uri, None, None, None, Some("23"), "id", "GET");
    let bytes = record(&ctx, "t").expect("a record");
    let mut expected = String::from("a961631901f4616f7a00011170");
    expected.push_str(&"75".repeat(70000));
    expected.push_str("616e60616960617360617017616462696461746174616d63474554");
    assert_eq!(hex(&bytes), expected);
}

#[test]
fn numbers_below_24_take_one_byte() {
    let ctx = context("503", "/", None, None, None, Some("23"), "r", "GET");
    let bytes = record(&ctx, "").expect("a record");
    assert_eq!(hex(&bytes), "a961631901f7616f612f616e6061696061736061701761646172617460616d63474554");
    let ctx = context("503", "/", None, None, None, Some("24"), "r", "GET");
    let bytes = record(&ctx, "").expect("a record");
    assert_eq!(hex(&bytes), "a961631901f7616f612f616e606169606173606170181861646172617460616d63474554");
    let ctx = context("503", "/", None, None, None, Some("255"), "r", "GET");
    let bytes = record(&ctx, "").expect("a record");
    assert_eq!(hex(&bytes), "a961631901f7616f612f616e60616960617360617018ff61646172617460616d63474554");
    let ctx = context("503", "/", None, None, None, Some("256"), "r", "GET");
    let bytes = record(&ctx, "").expect("a record");
    assert_eq!(hex(&bytes), "a961631901f7616f612f616e60616960617360617019010061646172617460616d63474554");
}

#[test]
fn numbers_are_written_as_serde_cbor_writes_them() {
    for port in [0u16, 1, 22, 23, 24, 25, 100, 254, 255, 256, 257, 1000, 8080, 32767, 32768, 65534, 65535] {
        let ctx = context("503", "/", None, None, None, Some(&format!("{}", port)), "r", "GET");
        let bytes = record(&ctx, "").expect("a record");
        let mut expected = vec![0xa9, 0x61, 0x63, 0x19, 0x01, 0xf7, 0x61, 0x6f, 0x61, 0x2f];
        expected.extend_from_slice(&[0x61, 0x6e, 0x60, 0x61, 0x69, 0x60, 0x61, 0x73, 0x60, 0x61, 0x70]);
        expected.extend_from_slice(&serde_cbor::to_vec(&port).expect("a number"));
        expected.extend_from_slice(&[0x61, 0x64, 0x61, 0x72, 0x61, 0x74, 0x60, 0x61, 0x6d, 0x63, 0x47, 0x45, 0x54]);
        assert_eq!(bytes, expected, "on {}", port);
    }
    for code in ["100", "200", "226", "404", "451", "511"] {
        let ctx = context(code, "/", None, None, None, None, "r", "GET");
        let bytes = record(&ctx, "").expect("a record");
        let number: u16 = code.parse().expect("a code");
        let written = serde_cbor::to_vec(&number).expect("a number");
        assert_eq!(&bytes[3..3 + written.len()], &written[..]);
    }
}

#[test]
fn texts_are_written_as_serde_cbor_writes_them() {
    for uri in ["", "/", "/foo", "\u{e4}\u{1f600}", "a b\u{0}c"] {
        let ctx = context("503", uri, None, None, None, None, "r", "GET");
        let bytes = record(&ctx, "").expect("a record");
        let written = serde_cbor::to_vec(&uri).expect("a text");
        assert_eq!(&bytes[8..8 + written.len()], &written[..], "on {:?}", uri);
    }
    let long = "y".repeat(300);
    let ctx = context("503", &long, None, None, None, None, "r", "GET");
    let bytes = record(&ctx, "").expect("a record");
    let written = serde_cbor::to_vec(&long).expect("a text");
    assert_eq!(&bytes[8..8 + written.len()], &written[..]);
}

#[test]
fn sealing_is_base64_without_padding() {
    assert_eq!(seal(Some(vec![])), "");
    assert_eq!(seal(Some(b"f".to_vec())), "Zg");
    assert_eq!(seal(Some(b"fo".to_vec())), "Zm8");
    assert_eq!(seal(Some(b"foo".to_vec())), "Zm9v");
    assert_eq!(seal(Some(b"foob".to_vec())), "Zm9vYg");
    assert_eq!(seal(Some(b"fooba".to_vec())), "Zm9vYmE");
    assert_eq!(seal(Some(b"foobar".to_vec())), "Zm9vYmFy");
}

#[test]
fn sealing_uses_the_url_safe_alphabet() {
    assert_eq!(seal(Some(vec![0xfb, 0xff, 0xfe])), "-__-");
    assert_eq!(seal(Some(vec![0xff, 0xef])), "_-8");
    let all: Vec<u8> = (0..=255u8).collect();
    let token = seal(Some(all));
    assert_eq!(token.len(), 342);
    assert!(url_safe(&token));
}

#[test]
fn a_record_that_failed_gives_the_empty_token() {
    assert_eq!(seal(None), "");
}

#[test]
fn the_token_of_a_rendered_instant() {
    assert_eq!(encode_rendered(&plain(), "2020-01-02T03:04:05.678Z"), PLAIN_TOKEN);
    assert_eq!(encode_rendered(&plain(), "2020-01-02T03:04:05Z"), PLAIN_TOKEN_WHOLE_SECOND);
    assert_eq!(encode_rendered(&full(), "2021-06-30T23:59:59.000001Z"), FULL_TOKEN);
}

#[test]
fn the_token_of_an_instant() {
    let at = CaptureInstant { seconds: 1577934245, nanoseconds: 678_000_000 };
    assert_eq!(encode(&plain(), at), PLAIN_TOKEN);
    let at = CaptureInstant { seconds: 1577934245, nanoseconds: 0 };
    assert_eq!(encode(&plain(), at), PLAIN_TOKEN_WHOLE_SECOND);
    let at = CaptureInstant { seconds: 1625097599, nanoseconds: 1_000 };
    assert_eq!(encode(&full(), at), FULL_TOKEN);
}

#[test]
fn the_instant_is_rendered_as_chrono_serialises_it() {
    let samples = [
        (0i64, 0u32),
        (0, 1),
        (1, 999_999_999),
        (1577934245, 678_000_000),
        (1577934245, 678_900_000),
        (1577934245, 678_912_345),
        (-1, 0),
        (253402300799, 0),
        (253402300800, 0),
        (-62167219201, 5),
    ];
    for (seconds, nanoseconds) in samples {
        let at = chrono::DateTime::from_timestamp(seconds, nanoseconds).expect("in range");
        let quoted = serde_json::to_string(&at).expect("a string");
        let text = &quoted[1..quoted.len() - 1];
        assert_eq!(
            encode(&plain(), CaptureInstant { seconds, nanoseconds }),
            encode_rendered(&plain(), text),
            "at {} s {} ns",
            seconds,
            nanoseconds
        );
    }
}

#[test]
fn the_token_is_reproducible() {
    let at = CaptureInstant { seconds: 1577934245, nanoseconds: 678_000_000 };
    let first = encode(&plain(), at);
    let second = encode(&plain(), at);
    assert_eq!(first, second);
    assert!(!first.is_empty());
}

#[test]
fn two_instants_give_two_tokens() {
    let first = encode(&plain(), CaptureInstant { seconds: 1577934245, nanoseconds: 678_000_000 });
    let second = encode(&plain(), CaptureInstant { seconds: 1577934245, nanoseconds: 678_000_001 });
    let third = encode(&plain(), CaptureInstant { seconds: 1577934246, nanoseconds: 678_000_000 });
    assert_ne!(first, second);
    assert_ne!(first, third);
    assert_ne!(second, third);
}

#[test]
fn every_field_tells_on_the_token() {
    let at = "2020-01-02T03:04:05Z";
    let base = encode_rendered(&context("503", "/foo", Some("n"), Some("i"), Some("s"), Some("1"), "id", "GET"), at);
    let others = [
        context("502", "/foo", Some("n"), Some("i"), Some("s"), Some("1"), "id", "GET"),
        context("503", "/fop", Some("n"), Some("i"), Some("s"), Some("1"), "id", "GET"),
        context("503", "/foo", Some("m"), Some("i"), Some("s"), Some("1"), "id", "GET"),
        context("503", "/foo", Some("n"), Some("j"), Some("s"), Some("1"), "id", "GET"),
        context("503", "/foo", Some("n"), Some("i"), Some("t"), Some("1"), "id", "GET"),
        context("503", "/foo", Some("n"), Some("i"), Some("s"), Some("2"), "id", "GET"),
        context("503", "/foo", Some("n"), Some("i"), Some("s"), Some("1"), "ie", "GET"),
        context("503", "/foo", Some("n"), Some("i"), Some("s"), Some("1"), "id", "PUT"),
        context("503", "/foo", Some("ni"), Some(""), Some("s"), Some("1"), "id", "GET"),
    ];
    for other in &others {
        assert_ne!(encode_rendered(other, at), base);
    }
}

#[test]
fn an_instant_out_of_range_gives_the_empty_token() {
    assert_eq!(encode(&plain(), CaptureInstant { seconds: i64::MAX, nanoseconds: 0 }), "");
    assert_eq!(encode(&plain(), CaptureInstant { seconds: i64::MIN, nanoseconds: 0 }), "");
    assert_eq!(encode(&plain(), CaptureInstant { seconds: 0, nanoseconds: 2_000_000_000 }), "");
}

#[test]
fn tokens_are_url_safe() {
    let uri = "/\u{e4}\u{f6}\u{fc}?q=\"<&>\"#\u{1f600}";
    let ctx = context("418", uri, Some("a b"), Some("~"), Some("\u{0}"), Some("9"), "\u{ffff}", "OPTIONS");
    for nanoseconds in [0u32, 1, 500, 999_999_999] {
        let token = encode(&ctx, CaptureInstant { seconds: 1700000000, nanoseconds });
        assert!(!token.is_empty());
        assert!(url_safe(&token), "{}", token);
    }
}
