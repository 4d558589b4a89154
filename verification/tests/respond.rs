use default_backend::context::{ExtractError, RequestHeaders};
use default_backend::format::FormatChoice;
use default_backend::respond::{
    document, health, not_found, rejected, render, respond, Body, ContentType, Reply, Template,
};
use default_backend::context::{extract, ErrorContext, Extraction};
use default_backend::token::{encode, CaptureInstant};

const METHODS: [&str; 7] = ["GET", "PUT", "POST", "DELETE", "HEAD", "OPTIONS", "PATCH"];

const AT: CaptureInstant = CaptureInstant { seconds: 1577934245, nanoseconds: 678_000_000 };

const TOKEN_FOR_GET: &str =
    "qWFjGQH3YW9kL2Zvb2FuYGFpYGFzYGFwAGFkZmFiYzEyM2F0eBgyMDIwLTAxLTAyVDAzOjA0OjA1LjY3OFphbWNHRVQ";

fn no_headers() -> RequestHeaders {
    RequestHeaders {
        format: None,
        accept: None,
        code: None,
        original_uri: None,
        namespace: None,
        ingress_name: None,
        service_name: None,
        service_port: None,
        request_id: None,
    }
}

fn text(s: &str) -> Option<String> {
    Some(s.to_string())
}

fn failing(format: Option<&str>) -> RequestHeaders {
    RequestHeaders {
        format: format.map(|v| v.to_string()),
        code: text("503"),
        original_uri: text("/foo"),
        request_id: text("abc123"),
        ..no_headers()
    }
}

fn context(headers: &RequestHeaders, method: &str) -> ErrorContext {
    match extract(headers, method) {
        Extraction::Applicable(c) => c,
        _ => panic!("no context"),
    }
}

fn document_of(reply: &Reply) -> (ContentType, &str) {
    match &reply.body {
        Body::Document { content_type, text } => (*content_type, text.as_str()),
        _ => panic!("no document"),
    }
}

fn instance_in_json(body: &str) -> String {
    let value: serde_json::Value = serde_json::from_str(body).expect("valid json");
    value["instance"].as_str().expect("an instance").to_string()
}

#[test]
fn json_is_served_when_the_override_prefers_it() {
    for method in METHODS {
        let headers = failing(Some("application/json"));
        let reply = respond(&headers, method, AT);
        assert_eq!(reply.status, 503);
        assert_eq!(reply.reason, "Service Unavailable");
        let (content_type, body) = document_of(&reply);
        assert_eq!(content_type, ContentType::ProblemJson);
        assert_eq!(content_type.as_str(), "application/problem+json");
        assert!(body.contains("\"status\":503"), "{}", body);
        let instance = instance_in_json(body);
        assert!(!instance.is_empty());
        assert_eq!(instance, encode(&context(&headers, method), AT));
    }
}

#[test]
fn the_json_document_of_a_failure() {
    let reply = respond(&failing(Some("application/json")), "GET", AT);
    let (_, body) = document_of(&reply);
    assert_eq!(
        body,
        format!("{{\"title\":\"Service Unavailable\",\"status\":503,\"instance\":\"{}\"}}", TOKEN_FOR_GET)
    );
}

#[test]
fn xml_is_served_when_the_override_prefers_it() {
    for method in METHODS {
        let headers = failing(Some("text/xml"));
        let reply = respond(&headers, method, AT);
        assert_eq!(reply.status, 503);
        assert_eq!(reply.reason, "Service Unavailable");
        let (content_type, body) = document_of(&reply);
        assert_eq!(content_type, ContentType::ProblemXml);
        assert_eq!(content_type.as_str(), "application/problem+xml");
        assert!(body.contains("<problem xmlns=\"urn:ietf:rfc:7807\">"), "{}", body);
        assert!(body.ends_with("</problem>"), "{}", body);
        assert!(body.contains("<status>503</status>"), "{}", body);
        let token = encode(&context(&headers, method), AT);
        assert!(!token.is_empty());
        assert!(body.contains(&format!("<instance>{}</instance>", token)), "{}", body);
    }
}

#[test]
fn the_xml_document_of_a_failure() {
    let reply = respond(&failing(Some("text/xml")), "GET", AT);
    let (_, body) = document_of(&reply);
    assert_eq!(
        body,
        format!(
            "<?xml version=\"1.0\" encoding=\"UTF-8\"><problem xmlns=\"urn:ietf:rfc:7807\"><title>Service Unavailable</title><status>503</status><instance>{}</instance></problem>",
            TOKEN_FOR_GET
        )
    );
}

#[test]
fn html_is_served_without_a_usable_override() {
    for format in [None, Some("text/html"), Some("not a media type"), Some(""), Some("application/xml")] {
        for method in METHODS {
            let headers = failing(format);
            let reply = respond(&headers, method, AT);
            assert_eq!(reply.status, 503);
            assert_eq!(reply.reason, "Service Unavailable");
            match &reply.body {
                Body::Page { template, context: Some(page) } => {
                    assert_eq!(*template, Template::Base);
                    assert_eq!(template.name(), "base");
                    assert_eq!(page.info.status_code(), 503);
                    assert_eq!(page.info.status_reason(), "Service Unavailable");
                    assert_eq!(page.info.original_uri(), "/foo");
                    assert_eq!(page.info.request_id(), "abc123");
                    assert_eq!(page.info.method(), method);
                    assert_eq!(page.identifier, encode(&context(&headers, method), AT));
                    assert!(!page.identifier.is_empty());
                }
                _ => panic!("no page"),
            }
        }
    }
}

#[test]
fn html_ignores_accept() {
    let mut headers = failing(None);
    headers.accept = text("application/json");
    let reply = respond(&headers, "GET", AT);
    assert!(matches!(reply.body, Body::Page { template: Template::Base, context: Some(_) }));
    assert_eq!(reply.status, 503);
}

#[test]
fn a_request_without_code_gets_the_fallback_with_200() {
    for accept in [
        None,
        Some("application/json"),
        Some("text/xml"),
        Some("text/html"),
        Some("*/*"),
        Some("application/json, text/html"),
        Some("image/png;q=0.3"),
        Some("garbage"),
        Some(""),
    ] {
        for method in METHODS {
            let headers = RequestHeaders {
                accept: accept.map(|v| v.to_string()),
                format: text("application/json"),
                original_uri: text("/foo"),
                request_id: text("abc123"),
                ..no_headers()
            };
            let reply = respond(&headers, method, AT);
            assert_eq!(reply.status, 200, "on {:?}", accept);
            assert_eq!(reply.reason, "OK");
            let direct = not_found(&headers);
            assert_eq!(direct.status, 200);
            assert_eq!(direct.reason, "OK");
        }
    }
}

#[test]
fn the_fallback_in_each_representation() {
    let headers = RequestHeaders { accept: text("application/json"), ..no_headers() };
    let reply = not_found(&headers);
    assert_eq!(reply.status, 200);
    let (content_type, body) = document_of(&reply);
    assert_eq!(content_type, ContentType::ProblemJson);
    assert_eq!(
        body,
        "{\"title\":\"Not found\",\"status\":404,\"detail\":\"We don't know where to direct your request, we're probably not responsible for this domain.\"}"
    );

    let headers = RequestHeaders { accept: text("text/xml"), ..no_headers() };
    let reply = not_found(&headers);
    assert_eq!(reply.status, 200);
    let (content_type, body) = document_of(&reply);
    assert_eq!(content_type, ContentType::ProblemXml);
    assert_eq!(
        body,
        "<?xml version=\"1.0\" encoding=\"UTF-8\"><problem xmlns=\"urn:ietf:rfc:7807\"><title>Not found</title><status>404</status><detail>We don't know where to direct your request, we're probably not responsible for this domain.</detail></problem>"
    );

    for accept in [None, Some("text/html"), Some("application/json;q=0.5, text/html"), Some("nonsense")] {
        let headers = RequestHeaders { accept: accept.map(|v| v.to_string()), ..no_headers() };
        let reply = not_found(&headers);
        assert_eq!(reply.status, 200);
        assert_eq!(reply.reason, "OK");
        match &reply.body {
            Body::Page { template, context: None } => {
                assert_eq!(*template, Template::Unknown);
                assert_eq!(template.name(), "unknown");
            }
            _ => panic!("no page"),
        }
    }
}

#[test]
fn the_fallback_goes_by_the_preference_of_accept() {
    const JSON: &str = "{\"title\":\"Not found\",\"status\":404,\"detail\":\"We don't know where to direct your request, we're probably not responsible for this domain.\"}";
    for accept in ["application/json, text/html", "application/json;q=0.9", "text/html;q=0.5, application/json"] {
        let headers = RequestHeaders { accept: text(accept), ..no_headers() };
        let reply = not_found(&headers);
        assert_eq!(reply.status, 200);
        assert_eq!(reply.reason, "OK");
        assert_eq!(document_of(&reply), (ContentType::ProblemJson, JSON), "on {:?}", accept);
    }
    for accept in ["text/xml, text/html", "text/xml;q=0.9", "text/html;q=0.5, text/xml"] {
        let headers = RequestHeaders { accept: text(accept), ..no_headers() };
        let reply = not_found(&headers);
        assert_eq!(reply.status, 200);
        assert_eq!(document_of(&reply).0, ContentType::ProblemXml, "on {:?}", accept);
    }
}

#[test]
fn the_fallback_is_the_same_for_one_accept() {
    for accept in [None, Some("application/json"), Some("text/xml"), Some("text/html")] {
        let plain = RequestHeaders { accept: accept.map(|v| v.to_string()), ..no_headers() };
        let busy = RequestHeaders {
            accept: accept.map(|v| v.to_string()),
            format: text("text/xml"),
            original_uri: text("/x"),
            request_id: text("id"),
            namespace: text("n"),
            ..no_headers()
        };
        let first = respond(&plain, "GET", AT);
        let second = respond(&busy, "DELETE", CaptureInstant { seconds: 1, nanoseconds: 2 });
        assert_eq!(first.status, second.status);
        assert_eq!(first.reason, second.reason);
        match (&first.body, &second.body) {
            (
                Body::Document { content_type: a, text: x },
                Body::Document { content_type: b, text: y },
            ) => {
                assert_eq!(a, b);
                assert_eq!(x, y);
            }
            (Body::Page { template: a, context: None }, Body::Page { template: b, context: None }) => {
                assert_eq!(a, b);
            }
            _ => panic!("two kinds of body"),
        }
    }
}

#[test]
fn the_fallback_ignores_the_override() {
    let headers = RequestHeaders { format: text("application/json"), accept: text("text/xml"), ..no_headers() };
    let reply = not_found(&headers);
    let (content_type, _) = document_of(&reply);
    assert_eq!(content_type, ContentType::ProblemXml);
}

#[test]
fn a_request_without_original_uri_gets_the_fallback() {
    let headers = RequestHeaders { original_uri: None, ..failing(Some("application/json")) };
    let reply = respond(&headers, "GET", AT);
    assert_eq!(reply.status, 200);
    assert!(matches!(reply.body, Body::Page { template: Template::Unknown, context: None }));
}

#[test]
fn a_request_without_request_id_is_rejected_with_500() {
    for code in ["200", "404", "503"] {
        for format in [None, Some("application/json"), Some("text/xml")] {
            for method in METHODS {
                let headers = RequestHeaders {
                    code: text(code),
                    request_id: None,
                    ..failing(format)
                };
                let bare = RequestHeaders { original_uri: None, ..failing(format) };
                let bare = RequestHeaders { code: text(code), request_id: None, ..bare };
                let reply = respond(&bare, method, AT);
                assert_eq!(reply.status, 500);
                assert!(matches!(
                    reply.body,
                    Body::Diagnostic(ExtractError::MissingRequiredField)
                ));
                let reply = respond(&headers, method, AT);
                assert_eq!(reply.status, 500);
                assert_eq!(reply.reason, "Internal Server Error");
                match &reply.body {
                    Body::Diagnostic(e) => {
                        assert_eq!(*e, ExtractError::MissingRequiredField);
                        assert_eq!(e.diagnostic(), "X-Request-ID header not present");
                    }
                    _ => panic!("no diagnostic"),
                }
            }
        }
    }
}

#[test]
fn a_malformed_code_is_rejected_with_500() {
    for code in ["", "abc", "600", "70000"] {
        let headers = RequestHeaders { code: text(code), ..failing(Some("application/json")) };
        let reply = respond(&headers, "GET", AT);
        assert_eq!(reply.status, 500);
        match &reply.body {
            Body::Diagnostic(e) => {
                assert_eq!(*e, ExtractError::MalformedInput);
                assert_eq!(e.diagnostic(), "Invalid X-Code header");
            }
            _ => panic!("no diagnostic"),
        }
    }
}

#[test]
fn the_status_line_mirrors_the_upstream_status() {
    for (code, status, reason) in [("404", 404u16, "Not Found"), ("200", 200, "OK"), ("502", 502, "Bad Gateway")] {
        for format in [None, Some("application/json"), Some("text/xml")] {
            let headers = RequestHeaders { code: text(code), ..failing(format) };
            let reply = respond(&headers, "GET", AT);
            assert_eq!(reply.status, status);
            assert_eq!(reply.reason, reason);
        }
    }
}

#[test]
fn replies_differ_by_the_instant_alone() {
    let headers = failing(Some("application/json"));
    let first = respond(&headers, "GET", AT);
    let again = respond(&headers, "GET", AT);
    let later = respond(&headers, "GET", CaptureInstant { seconds: AT.seconds + 1, nanoseconds: AT.nanoseconds });
    assert_eq!(document_of(&first).1, document_of(&again).1);
    assert_ne!(document_of(&first).1, document_of(&later).1);
    assert_ne!(instance_in_json(document_of(&first).1), instance_in_json(document_of(&later).1));
}

#[test]
fn an_instant_out_of_range_leaves_the_instance_empty() {
    let headers = failing(Some("application/json"));
    let reply = respond(&headers, "GET", CaptureInstant { seconds: i64::MAX, nanoseconds: 0 });
    assert_eq!(reply.status, 503);
    let (_, body) = document_of(&reply);
    assert_eq!(body, "{\"title\":\"Service Unavailable\",\"status\":503,\"instance\":\"\"}");
}

#[test]
fn health_is_200_without_a_body() {
    let reply = health();
    assert_eq!(reply.status, 200);
    assert_eq!(reply.reason, "OK");
    assert!(matches!(reply.body, Body::Empty));
}

#[test]
fn renders_a_context_in_each_representation() {
    let headers = failing(None);
    let reply = render(context(&headers, "GET"), FormatChoice::Json, "T".to_string());
    assert_eq!(reply.status, 503);
    assert_eq!(document_of(&reply), (ContentType::ProblemJson, "{\"title\":\"Service Unavailable\",\"status\":503,\"instance\":\"T\"}"));
    let reply = render(context(&headers, "GET"), FormatChoice::Xml, "T".to_string());
    assert_eq!(reply.status, 503);
    assert_eq!(document_of(&reply).0, ContentType::ProblemXml);
    assert!(document_of(&reply).1.ends_with("<status>503</status><instance>T</instance></problem>"));
    let reply = render(context(&headers, "GET"), FormatChoice::Html, "T".to_string());
    assert_eq!(reply.status, 503);
    match reply.body {
        Body::Page { template: Template::Base, context: Some(page) } => {
            assert_eq!(page.identifier, "T");
            assert_eq!(page.info.original_uri(), "/foo");
        }
        _ => panic!("no page"),
    }
}

#[test]
fn a_document_that_failed_to_serialise_gives_500() {
    let reply = document(503, "Service Unavailable", ContentType::ProblemJson, None);
    assert_eq!(reply.status, 500);
    assert_eq!(reply.reason, "Internal Server Error");
    assert!(matches!(reply.body, Body::Empty));
    let reply = document(503, "Service Unavailable", ContentType::ProblemJson, Some("{}".to_string()));
    assert_eq!(reply.status, 503);
    assert_eq!(reply.reason, "Service Unavailable");
    assert_eq!(document_of(&reply), (ContentType::ProblemJson, "{}"));
}

#[test]
fn a_rejection_carries_the_failure() {
    let reply = rejected(ExtractError::MalformedInput);
    assert_eq!(reply.status, 500);
    assert_eq!(reply.reason, "Internal Server Error");
    assert!(matches!(reply.body, Body::Diagnostic(ExtractError::MalformedInput)));
}
