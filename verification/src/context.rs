//! The error context: what the proxy says, in headers, about the request that
//! failed upstream, checked and brought into one record.

use vstd::prelude::*;
use vstd::string::*;
use vstd::utf8::encode_utf8;
use crate::decimal::{parse_u16, parsed_u16};

verus! {

/// The headers of an inbound request that the responder reads. A field is
/// `None` where the request does not carry the header.
pub struct RequestHeaders {
    /// `X-Format`: the proxy's choice of representation.
    pub format: Option<String>,
    /// `Accept`: what the client asked for.
    pub accept: Option<String>,
    /// `X-Code`: the status of the upstream failure.
    pub code: Option<String>,
    /// `X-Original-URI`.
    pub original_uri: Option<String>,
    /// `X-Namespace`.
    pub namespace: Option<String>,
    /// `X-Ingress-Name`.
    pub ingress_name: Option<String>,
    /// `X-Service-Name`.
    pub service_name: Option<String>,
    /// `X-Service-Port`.
    pub service_port: Option<String>,
    /// `X-Request-ID`.
    pub request_id: Option<String>,
}

/// The headers as mathematical values.
pub struct HeadersView {
    pub format: Option<Seq<char>>,
    pub accept: Option<Seq<char>>,
    pub code: Option<Seq<char>>,
    pub original_uri: Option<Seq<char>>,
    pub namespace: Option<Seq<char>>,
    pub ingress_name: Option<Seq<char>>,
    pub service_name: Option<Seq<char>>,
    pub service_port: Option<Seq<char>>,
    pub request_id: Option<Seq<char>>,
}

impl View for RequestHeaders {
    type V = HeadersView;

    open spec fn view(&self) -> HeadersView {
        HeadersView {
            format: self.format.deep_view(),
            accept: self.accept.deep_view(),
            code: self.code.deep_view(),
            original_uri: self.original_uri.deep_view(),
            namespace: self.namespace.deep_view(),
            ingress_name: self.ingress_name.deep_view(),
            service_name: self.service_name.deep_view(),
            service_port: self.service_port.deep_view(),
            request_id: self.request_id.deep_view(),
        }
    }
}

/// Why no error context could be built from a request that carries `X-Code`.
#[derive(Clone, Copy, Debug, PartialEq, Eq, Structural)]
pub enum ExtractError {
    /// `X-Code` is no number, or no status that is known.
    MalformedInput,
    /// `X-Request-ID` is absent or empty.
    MissingRequiredField,
}

/// The fixed text that goes with each failure.
pub open spec fn diagnostic_text(e: ExtractError) -> Seq<char> {
    match e {
        ExtractError::MalformedInput => "Invalid X-Code header"@,
        ExtractError::MissingRequiredField => "X-Request-ID header not present"@,
    }
}

impl ExtractError {
    /// The fixed text that goes with the failure.
    pub fn diagnostic(&self) -> (t: &'static str)
        ensures
            t@ == diagnostic_text(*self),
    {
        match self {
            ExtractError::MalformedInput => "Invalid X-Code header",
            ExtractError::MissingRequiredField => "X-Request-ID header not present",
        }
    }
}

/// The record of one failed upstream request. It is built once, by
/// [`extract`], and only read afterwards.
pub struct ErrorContext {
    status_code: u16,
    status_reason: String,
    original_uri: String,
    namespace: String,
    ingress_name: String,
    service_name: String,
    service_port: u16,
    request_id: String,
    method: String,
}

/// An error context as mathematical values.
pub struct ContextView {
    pub status_code: u16,
    pub status_reason: Seq<char>,
    pub original_uri: Seq<char>,
    pub namespace: Seq<char>,
    pub ingress_name: Seq<char>,
    pub service_name: Seq<char>,
    pub service_port: u16,
    pub request_id: Seq<char>,
    pub method: Seq<char>,
}

/// The reason phrase that goes with a status code, `None` for a code that is
/// no known status. It stands for the table of statuses in `rocket::http`.
pub uninterp spec fn reason_phrase(code: u16) -> Option<Seq<char>>;

/// What every error context satisfies: its status is a known one and carries
/// that status's reason phrase, and its request id is not empty.
pub open spec fn well_formed(c: ContextView) -> bool {
    &&& reason_phrase(c.status_code) == Some(c.status_reason)
    &&& c.request_id.len() > 0
}

impl View for ErrorContext {
    type V = ContextView;

    closed spec fn view(&self) -> ContextView {
        ContextView {
            status_code: self.status_code,
            status_reason: self.status_reason@,
            original_uri: self.original_uri@,
            namespace: self.namespace@,
            ingress_name: self.ingress_name@,
            service_name: self.service_name@,
            service_port: self.service_port,
            request_id: self.request_id@,
            method: self.method@,
        }
    }
}

impl ErrorContext {
    #[verifier::type_invariant]
    spec fn inv(&self) -> bool {
        well_formed(self@)
    }

    /// The status of the upstream failure, always a known one.
    pub fn status_code(&self) -> (r: u16)
        ensures
            r == self@.status_code,
            reason_phrase(r) == Some(self@.status_reason),
    {
        proof {
            use_type_invariant(self);
        }
        self.status_code
    }

    /// The reason phrase of the status.
    pub fn status_reason(&self) -> (r: &str)
        ensures
            r@ == self@.status_reason,
            reason_phrase(self@.status_code) == Some(r@),
    {
        proof {
            use_type_invariant(self);
        }
        self.status_reason.as_str()
    }

    /// The URI that the client asked the proxy for.
    pub fn original_uri(&self) -> (r: &str)
        ensures
            r@ == self@.original_uri,
    {
        self.original_uri.as_str()
    }

    /// The namespace of the upstream service, empty where none was given.
    pub fn namespace(&self) -> (r: &str)
        ensures
            r@ == self@.namespace,
    {
        self.namespace.as_str()
    }

    /// The name of the ingress, empty where none was given.
    pub fn ingress_name(&self) -> (r: &str)
        ensures
            r@ == self@.ingress_name,
    {
        self.ingress_name.as_str()
    }

    /// The name of the upstream service, empty where none was given.
    pub fn service_name(&self) -> (r: &str)
        ensures
            r@ == self@.service_name,
    {
        self.service_name.as_str()
    }

    /// The port of the upstream service, zero where none was given.
    pub fn service_port(&self) -> (r: u16)
        ensures
            r == self@.service_port,
    {
        self.service_port
    }

    /// The id of the request, never empty.
    pub fn request_id(&self) -> (r: &str)
        ensures
            r@ == self@.request_id,
            r@.len() > 0,
    {
        proof {
            use_type_invariant(self);
        }
        self.request_id.as_str()
    }

    /// The method of the inbound request.
    pub fn method(&self) -> (r: &str)
        ensures
            r@ == self@.method,
    {
        self.method.as_str()
    }
}

/// What the extractor makes of a request.
pub enum Extraction {
    /// The request reports an upstream failure.
    Applicable(ErrorContext),
    /// The request reports none: it is for the not-found fallback.
    NotApplicable,
    /// The request reports one, but not in a form that can be used.
    Error(ExtractError),
}

/// An extraction as mathematical values.
pub enum ExtractionView {
    Applicable(ContextView),
    NotApplicable,
    Error(ExtractError),
}

impl View for Extraction {
    type V = ExtractionView;

    open spec fn view(&self) -> ExtractionView {
        match self {
            Extraction::Applicable(c) => ExtractionView::Applicable(c@),
            Extraction::NotApplicable => ExtractionView::NotApplicable,
            Extraction::Error(e) => ExtractionView::Error(*e),
        }
    }
}

/// The text of an optional header, empty where the header is absent.
pub open spec fn text_or_empty(value: Option<Seq<char>>) -> Seq<char> {
    match value {
        Some(t) => t,
        None => Seq::empty(),
    }
}

/// The number in an optional header, zero where the header is absent or holds
/// no number.
pub open spec fn number_or_zero(value: Option<Seq<char>>) -> u16 {
    match value {
        Some(t) => match parsed_u16(encode_utf8(t)) {
            Some(n) => n,
            None => 0,
        },
        None => 0,
    }
}

/// What is made of a request once its `X-Code` has been read as `code` and
/// looked up: `reason` is the reason phrase found for it, if any.
pub open spec fn extraction_with(
    h: HeadersView,
    method: Seq<char>,
    code: u16,
    reason: Option<Seq<char>>,
) -> ExtractionView {
    if reason is None {
        ExtractionView::Error(ExtractError::MalformedInput)
    } else if h.request_id is None || h.request_id->0.len() == 0 {
        ExtractionView::Error(ExtractError::MissingRequiredField)
    } else if h.original_uri is None {
        ExtractionView::NotApplicable
    } else {
        ExtractionView::Applicable(
            ContextView {
                status_code: code,
                status_reason: reason->0,
                original_uri: h.original_uri->0,
                namespace: text_or_empty(h.namespace),
                ingress_name: text_or_empty(h.ingress_name),
                service_name: text_or_empty(h.service_name),
                service_port: number_or_zero(h.service_port),
                request_id: h.request_id->0,
                method: method,
            },
        )
    }
}

/// What is made of a request. Without `X-Code` it reports no upstream failure.
/// With an `X-Code` that is no number or no known status it is malformed,
/// whatever else it carries. With a known status `X-Request-ID` is required:
/// without it, or with an empty one, the request is rejected. A request that
/// has both but no `X-Original-URI` reports no failure that could be shown.
pub open spec fn extraction(h: HeadersView, method: Seq<char>) -> ExtractionView {
    match h.code {
        None => ExtractionView::NotApplicable,
        Some(text) => match parsed_u16(encode_utf8(text)) {
            None => ExtractionView::Error(ExtractError::MalformedInput),
            Some(code) => extraction_with(h, method, code, reason_phrase(code)),
        },
    }
}

/// Looks a status code up in `rocket::http::Status`: `Status::from_code` and,
/// for a status that it knows, `Status::reason`. The result is the reason
/// phrase of the table, named [`reason_phrase`]; it is `None` exactly for the
/// codes that the table does not hold.
#[verifier::external_body]
fn lookup_reason(code: u16) -> (r: Option<String>)
    ensures
        r.deep_view() == reason_phrase(code),
{
    let status = rocket::http::Status::from_code(code)?;
    Some(status.reason()?.to_string())
}

/// A copy of an optional header's text, empty where the header is absent.
fn owned_or_empty(value: &Option<String>) -> (r: String)
    ensures
        r@ == text_or_empty(value.deep_view()),
{
    match value {
        Some(t) => t.clone(),
        None => String::new(),
    }
}

/// Builds the error context of a request whose `X-Code` has been read as `code`
/// and looked up, with `reason` the reason phrase that was found, if any.
pub fn extract_with(
    headers: &RequestHeaders,
    method: &str,
    code: u16,
    reason: Option<String>,
) -> (out: Extraction)
    requires
        reason.deep_view() == reason_phrase(code),
    ensures
        out@ == extraction_with(headers@, method@, code, reason.deep_view()),
{
    let status_reason = match reason {
        Some(r) => r,
        None => {
            return Extraction::Error(ExtractError::MalformedInput);
        },
    };
    let request_id = match &headers.request_id {
        Some(id) => {
            if id.as_str().is_empty() {
                return Extraction::Error(ExtractError::MissingRequiredField);
            }
            id.clone()
        },
        None => {
            return Extraction::Error(ExtractError::MissingRequiredField);
        },
    };
    let original_uri = match &headers.original_uri {
        Some(u) => u.clone(),
        None => {
            return Extraction::NotApplicable;
        },
    };
    let service_port: u16 = match &headers.service_port {
        Some(p) => match parse_u16(p.as_str()) {
            Some(n) => n,
            None => 0,
        },
        None => 0,
    };
    Extraction::Applicable(
        ErrorContext {
            status_code: code,
            status_reason,
            original_uri,
            namespace: owned_or_empty(&headers.namespace),
            ingress_name: owned_or_empty(&headers.ingress_name),
            service_name: owned_or_empty(&headers.service_name),
            service_port,
            request_id,
            method: String::from_str(method),
        },
    )
}

/// Builds the error context of a request from its headers and its method, or
/// says why there is none.
pub fn extract(headers: &RequestHeaders, method: &str) -> (out: Extraction)
    ensures
        out@ == extraction(headers@, method@),
{
    let code: u16 = match &headers.code {
        None => {
            return Extraction::NotApplicable;
        },
        Some(text) => match parse_u16(text.as_str()) {
            None => {
                return Extraction::Error(ExtractError::MalformedInput);
            },
            Some(code) => code,
        },
    };
    let reason = lookup_reason(code);
    extract_with(headers, method, code, reason)
}

/// Every error context that the extractor builds is well formed: its status
/// is known and carries its reason phrase, and its request id is not empty.
pub proof fn lemma_extracted_is_well_formed(h: HeadersView, method: Seq<char>)
    ensures
        extraction(h, method) matches ExtractionView::Applicable(c) ==> well_formed(c),
{
}

} // verus!
