//! The diagnostic token: an error context and the instant of its capture,
//! written as one CBOR map and that map in URL-safe base64 without padding.
//!
//! The token is opaque to clients. What it owes its readers is that a context
//! and an instant have one token, and that the token tells two captures
//! apart. Where no token can be made, the empty text stands in its place.

use vstd::prelude::*;
use vstd::string::*;
use vstd::utf8::encode_utf8;
use crate::context::{ContextView, ErrorContext};
use crate::token_laws::lemma_base64_is_url_safe;

verus! {

/// The instant at which a failure was captured: seconds since the Unix epoch,
/// and nanoseconds into that second.
#[derive(Clone, Copy, Debug, PartialEq, Eq, Structural)]
pub struct CaptureInstant {
    pub seconds: i64,
    pub nanoseconds: u32,
}

/// The `width` low-order bytes of a number, most significant first.
pub open spec fn be_bytes(n: nat, width: nat) -> Seq<u8>
    decreases width,
{
    if width == 0 {
        Seq::empty()
    } else {
        be_bytes(n / 256, (width - 1) as nat).push((n % 256) as u8)
    }
}

/// The number of bytes that follow the initial byte of a CBOR head with the
/// given argument: the shortest form is used.
pub open spec fn argument_width(n: nat) -> nat {
    if n < 24 {
        0
    } else if n < 0x100 {
        1
    } else if n < 0x1_0000 {
        2
    } else if n < 0x1_0000_0000 {
        4
    } else {
        8
    }
}

/// The low five bits of the initial byte of a CBOR head: the argument itself
/// where it is below 24, else the code of the width that follows.
pub open spec fn additional_info(n: nat) -> nat {
    if n < 24 {
        n
    } else if n < 0x100 {
        24
    } else if n < 0x1_0000 {
        25
    } else if n < 0x1_0000_0000 {
        26
    } else {
        27
    }
}

/// The head of a CBOR data item: major type and argument.
pub open spec fn cbor_head(major: nat, n: nat) -> Seq<u8> {
    seq![(major * 32 + additional_info(n)) as u8] + be_bytes(n, argument_width(n))
}

/// A number as a CBOR unsigned integer (major type 0).
pub open spec fn cbor_unsigned(n: u16) -> Seq<u8> {
    cbor_head(0, n as nat)
}

/// A text as a CBOR text string (major type 3): the head gives the length of
/// the UTF-8 bytes that follow.
pub open spec fn cbor_text(text: Seq<char>) -> Seq<u8> {
    cbor_head(3, encode_utf8(text).len()) + encode_utf8(text)
}

/// A map entry with a number for its value.
pub open spec fn number_entry(key: Seq<char>, n: u16) -> Seq<u8> {
    cbor_text(key) + cbor_unsigned(n)
}

/// A map entry with a text for its value.
pub open spec fn text_entry(key: Seq<char>, text: Seq<char>) -> Seq<u8> {
    cbor_text(key) + cbor_text(text)
}

/// The record behind a token: a CBOR map of nine entries under one-letter
/// keys, in this order: status code, original URI, namespace, ingress name,
/// service name, service port, request id, instant of capture, method.
pub open spec fn record_bytes(c: ContextView, captured_at: Seq<char>) -> Seq<u8> {
    seq![0xa9u8] + number_entry("c"@, c.status_code) + text_entry("o"@, c.original_uri)
        + text_entry("n"@, c.namespace) + text_entry("i"@, c.ingress_name) + text_entry(
        "s"@,
        c.service_name,
    ) + number_entry("p"@, c.service_port) + text_entry("d"@, c.request_id) + text_entry(
        "t"@,
        captured_at,
    ) + text_entry("m"@, c.method)
}

/// The character of a six-bit value in the URL-safe alphabet: `A` to `Z`,
/// `a` to `z`, `0` to `9`, `-`, `_`.
pub open spec fn sextet_char(v: int) -> char {
    if v < 26 {
        (0x41 + v) as char
    } else if v < 52 {
        (0x61 + (v - 26)) as char
    } else if v < 62 {
        (0x30 + (v - 52)) as char
    } else if v == 62 {
        '-'
    } else {
        '_'
    }
}

/// Bytes in URL-safe base64 without padding: each group of three bytes gives
/// four characters, a last group of one byte gives two, of two bytes three.
pub open spec fn base64_text(bytes: Seq<u8>) -> Seq<char>
    decreases bytes.len(),
{
    if bytes.len() == 0 {
        Seq::empty()
    } else if bytes.len() == 1 {
        let a = bytes[0] as int;
        seq![sextet_char(a / 4), sextet_char((a % 4) * 16)]
    } else if bytes.len() == 2 {
        let a = bytes[0] as int;
        let b = bytes[1] as int;
        seq![sextet_char(a / 4), sextet_char((a % 4) * 16 + b / 16), sextet_char((b % 16) * 4)]
    } else {
        let a = bytes[0] as int;
        let b = bytes[1] as int;
        let c = bytes[2] as int;
        seq![
            sextet_char(a / 4),
            sextet_char((a % 4) * 16 + b / 16),
            sextet_char((b % 16) * 4 + c / 64),
            sextet_char(c % 64),
        ] + base64_text(bytes.subrange(3, bytes.len() as int))
    }
}

/// The character may stand in a URL, in a JSON string, in XML text and in an
/// HTML attribute as it is: a letter or a digit of ASCII, `-` or `_`.
pub open spec fn is_url_safe(c: char) -> bool {
    ||| 'A' <= c && c <= 'Z'
    ||| 'a' <= c && c <= 'z'
    ||| '0' <= c && c <= '9'
    ||| c == '-'
    ||| c == '_'
}

/// Every character of the text is URL-safe.
pub open spec fn all_url_safe(text: Seq<char>) -> bool {
    forall|i: int| 0 <= i < text.len() ==> is_url_safe(#[trigger] text[i])
}

/// The token of a context and a rendered instant of capture.
pub open spec fn token_text(c: ContextView, captured_at: Seq<char>) -> Seq<char> {
    base64_text(record_bytes(c, captured_at))
}

/// The token that goes with a serialised record: its base64 text, and the
/// empty text where serialising failed.
pub open spec fn sealed(record: Option<Seq<u8>>) -> Seq<char> {
    match record {
        Some(bytes) => base64_text(bytes),
        None => Seq::empty(),
    }
}

/// The text of an instant in UTC: RFC 3339 with `Z` for the offset and no
/// more fractional digits than the instant needs. `None` for an instant that
/// is out of range. It stands for `chrono`'s rendering of a `DateTime<Utc>`.
pub uninterp spec fn instant_text(seconds: i64, nanoseconds: u32) -> Option<Seq<char>>;

/// Serialises a text with `serde_cbor::to_vec`. The call cannot fail:
/// `to_vec` writes into a vector, which takes every write, and a text is
/// written as its head and its bytes, with nothing else that could fail. So
/// the result is always `Some`, and the bytes are the CBOR text string of
/// the text.
#[verifier::external_body]
fn cbor_of_text(text: &str) -> (r: Option<Vec<u8>>)
    ensures
        r is Some,
        r.unwrap()@ == cbor_text(text@),
{
    serde_cbor::to_vec(&text).ok()
}

/// A number as a CBOR unsigned integer: in the initial byte where it is
/// below 24, else in the one or two bytes that follow it.
fn cbor_of_number(n: u16) -> (bytes: Vec<u8>)
    ensures
        bytes@ == cbor_unsigned(n),
{
    let mut bytes: Vec<u8> = Vec::new();
    if n < 24 {
        bytes.push(n as u8);
    } else if n < 0x100 {
        bytes.push(24);
        bytes.push(n as u8);
    } else {
        bytes.push(25);
        bytes.push((n / 256) as u8);
        bytes.push((n % 256) as u8);
    }
    proof {
        reveal_with_fuel(be_bytes, 3);
        assert(bytes@ =~= cbor_unsigned(n));
    }
    bytes
}

/// Encodes bytes with `base64::encode_config` under `URL_SAFE_NO_PAD`: the
/// result is the base64 text of the bytes in the URL-safe alphabet, without
/// padding.
#[verifier::external_body]
fn base64_of(bytes: &[u8]) -> (r: String)
    ensures
        r@ == base64_text(bytes@),
{
    base64::encode_config(bytes, base64::URL_SAFE_NO_PAD)
}

/// Renders an instant with `chrono`: `DateTime::from_timestamp`, then
/// `DateTime::to_rfc3339_opts` with `SecondsFormat::AutoSi` and `Z`. The
/// result is named [`instant_text`]; it is `None` where `from_timestamp`
/// finds the instant out of range.
#[verifier::external_body]
fn render_instant(seconds: i64, nanoseconds: u32) -> (r: Option<String>)
    ensures
        r.deep_view() == instant_text(seconds, nanoseconds),
{
    let at = chrono::DateTime::from_timestamp(seconds, nanoseconds)?;
    Some(at.to_rfc3339_opts(chrono::SecondsFormat::AutoSi, true))
}

/// Appends a map entry with a number for its value: the key as a text, then
/// the number. Returns whether serialising went through, which it always
/// does.
fn put_number(out: &mut Vec<u8>, key: &str, n: u16) -> (done: bool)
    ensures
        done,
        final(out)@ == old(out)@ + number_entry(key@, n),
{
    let mut k = match cbor_of_text(key) {
        Some(bytes) => bytes,
        None => {
            return false;
        },
    };
    let mut v = cbor_of_number(n);
    out.append(&mut k);
    out.append(&mut v);
    assert(out@ =~= old(out)@ + number_entry(key@, n));
    true
}

/// Appends a map entry with a text for its value: the key as a text, then
/// the value. Returns whether serialising went through, which it always
/// does.
fn put_text(out: &mut Vec<u8>, key: &str, text: &str) -> (done: bool)
    ensures
        done,
        final(out)@ == old(out)@ + text_entry(key@, text@),
{
    let mut k = match cbor_of_text(key) {
        Some(bytes) => bytes,
        None => {
            return false;
        },
    };
    let mut v = match cbor_of_text(text) {
        Some(bytes) => bytes,
        None => {
            return false;
        },
    };
    out.append(&mut k);
    out.append(&mut v);
    assert(out@ =~= old(out)@ + text_entry(key@, text@));
    true
}

/// Serialises the record behind a token. The `Option` is the serialiser's:
/// on texts it does not fail, so the result is always `Some`.
pub fn record(ctx: &ErrorContext, captured_at: &str) -> (r: Option<Vec<u8>>)
    ensures
        r matches Some(bytes) && bytes@ == record_bytes(ctx@, captured_at@),
{
    let mut out: Vec<u8> = Vec::new();
    out.push(0xa9);
    let done = put_number(&mut out, "c", ctx.status_code()) && put_text(
        &mut out,
        "o",
        ctx.original_uri(),
    ) && put_text(&mut out, "n", ctx.namespace()) && put_text(&mut out, "i", ctx.ingress_name())
        && put_text(&mut out, "s", ctx.service_name()) && put_number(
        &mut out,
        "p",
        ctx.service_port(),
    ) && put_text(&mut out, "d", ctx.request_id()) && put_text(&mut out, "t", captured_at)
        && put_text(&mut out, "m", ctx.method());
    if done {
        Some(out)
    } else {
        None
    }
}

/// Turns a serialised record into a token. A record that could not be
/// serialised gives the empty token: the token is an aid, and a response is
/// not given up for it.
pub fn seal(record: Option<Vec<u8>>) -> (token: String)
    ensures
        token@ == sealed(
            match record {
                Some(bytes) => Some(bytes@),
                None => None,
            },
        ),
        all_url_safe(token@),
{
    match record {
        Some(bytes) => {
            proof {
                lemma_base64_is_url_safe(bytes@);
            }
            base64_of(bytes.as_slice())
        },
        None => String::new(),
    }
}

/// The token of a context and a rendered instant of capture.
pub fn encode_rendered(ctx: &ErrorContext, captured_at: &str) -> (token: String)
    ensures
        token@ == token_text(ctx@, captured_at@),
        all_url_safe(token@),
{
    seal(record(ctx, captured_at))
}

/// The token of a context captured at an instant, given the text of the
/// instant if it has one: the token of context and text, and the empty text
/// for an instant that has none.
pub open spec fn token_at(c: ContextView, rendered: Option<Seq<char>>) -> Seq<char> {
    match rendered {
        Some(t) => token_text(c, t),
        None => Seq::empty(),
    }
}

/// The token of a context and the instant of its capture. It is empty where
/// the instant is out of range, and only there.
pub fn encode(ctx: &ErrorContext, captured_at: CaptureInstant) -> (token: String)
    ensures
        token@ == token_at(
            ctx@,
            instant_text(captured_at.seconds, captured_at.nanoseconds),
        ),
        all_url_safe(token@),
{
    match render_instant(captured_at.seconds, captured_at.nanoseconds) {
        Some(text) => encode_rendered(ctx, text.as_str()),
        None => String::new(),
    }
}

} // verus!
