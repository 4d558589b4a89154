//! The responder: from a request's headers to the reply that is owed.
//!
//! A reply is a status line and a body. Where the body is an HTML page, the
//! reply names the template and gives its context: rendering it is left to the
//! caller.

use vstd::prelude::*;
use vstd::string::*;
use crate::context::{
    extract,
    extraction,
    ContextView,
    ErrorContext,
    ExtractError,
    Extraction,
    ExtractionView,
    HeadersView,
    RequestHeaders,
};
use crate::format::{
    fallback_format,
    select_fallback_format,
    select_format,
    selected_format,
    FormatChoice,
};
use crate::problem::{not_found_problem, problem_json, problem_of, problem_xml, Problem};
use crate::token::{encode, instant_text, token_at, CaptureInstant};

verus! {

/// The media type of a problem document.
#[derive(Clone, Copy, Debug, PartialEq, Eq, Structural)]
pub enum ContentType {
    ProblemJson,
    ProblemXml,
}

/// The text of a media type, as it stands in `Content-Type`.
pub open spec fn content_type_text(t: ContentType) -> Seq<char> {
    match t {
        ContentType::ProblemJson => "application/problem+json"@,
        ContentType::ProblemXml => "application/problem+xml"@,
    }
}

impl ContentType {
    /// The text of the media type, as it stands in `Content-Type`.
    pub fn as_str(&self) -> (t: &'static str)
        ensures
            t@ == content_type_text(*self),
    {
        match self {
            ContentType::ProblemJson => "application/problem+json",
            ContentType::ProblemXml => "application/problem+xml",
        }
    }
}

/// The HTML templates.
#[derive(Clone, Copy, Debug, PartialEq, Eq, Structural)]
pub enum Template {
    /// The page for an upstream failure.
    Base,
    /// The page for a request that matched no route.
    Unknown,
}

/// The name under which a template is known to the templating layer.
pub open spec fn template_name(t: Template) -> Seq<char> {
    match t {
        Template::Base => "base"@,
        Template::Unknown => "unknown"@,
    }
}

impl Template {
    /// The name under which the template is known to the templating layer.
    pub fn name(&self) -> (t: &'static str)
        ensures
            t@ == template_name(*self),
    {
        match self {
            Template::Base => "base",
            Template::Unknown => "unknown",
        }
    }
}

/// What the page for an upstream failure is rendered with.
pub struct PageContext {
    pub info: ErrorContext,
    pub identifier: String,
}

/// The body of a reply.
pub enum Body {
    /// No body.
    Empty,
    /// A finished document.
    Document { content_type: ContentType, text: String },
    /// An HTML page that is still to be rendered from a template.
    Page { template: Template, context: Option<PageContext> },
    /// The fixed text of a failure.
    Diagnostic(ExtractError),
}

/// A reply: the status line and the body.
pub struct Reply {
    pub status: u16,
    pub reason: String,
    pub body: Body,
}

/// A body as mathematical values. The context of a page is the error context
/// and the token.
pub enum BodyView {
    Empty,
    Document { content_type: ContentType, text: Seq<char> },
    Page { template: Template, context: Option<(ContextView, Seq<char>)> },
    Diagnostic(ExtractError),
}

/// A reply as mathematical values.
pub struct ReplyView {
    pub status: u16,
    pub reason: Seq<char>,
    pub body: BodyView,
}

impl View for Body {
    type V = BodyView;

    open spec fn view(&self) -> BodyView {
        match self {
            Body::Empty => BodyView::Empty,
            Body::Document { content_type, text } => BodyView::Document {
                content_type: *content_type,
                text: text@,
            },
            Body::Page { template, context } => BodyView::Page {
                template: *template,
                context: match context {
                    Some(c) => Some((c.info@, c.identifier@)),
                    None => None,
                },
            },
            Body::Diagnostic(e) => BodyView::Diagnostic(*e),
        }
    }
}

impl View for Reply {
    type V = ReplyView;

    open spec fn view(&self) -> ReplyView {
        ReplyView { status: self.status, reason: self.reason@, body: self.body@ }
    }
}

/// The reply of the liveness probe: `200 OK` without a body.
pub open spec fn healthy() -> ReplyView {
    ReplyView { status: 200, reason: "OK"@, body: BodyView::Empty }
}

/// The reply to a request whose error context is unusable: `500` with the
/// fixed text of the failure.
pub open spec fn rejection(e: ExtractError) -> ReplyView {
    ReplyView { status: 500, reason: "Internal Server Error"@, body: BodyView::Diagnostic(e) }
}

/// The reply where a document could not be serialised: `500` without a body.
pub open spec fn unserializable() -> ReplyView {
    ReplyView { status: 500, reason: "Internal Server Error"@, body: BodyView::Empty }
}

/// The reply that carries a document under a status line, or the failure
/// reply where there is no document because serialising it failed.
pub open spec fn document_reply(
    status: u16,
    reason: Seq<char>,
    content_type: ContentType,
    text: Option<Seq<char>>,
) -> ReplyView {
    match text {
        Some(t) => ReplyView {
            status: status,
            reason: reason,
            body: BodyView::Document { content_type: content_type, text: t },
        },
        None => unserializable(),
    }
}

/// The reply that reports the failure of a context in the chosen
/// representation, with the given token. The status line is that of the
/// failure. JSON and XML carry the problem document of their media type;
/// HTML names the template `base` and gives it the context and the token.
pub open spec fn failure_reply(c: ContextView, choice: FormatChoice, token: Seq<char>) -> ReplyView {
    let problem = problem_of(c.status_code, c.status_reason, token);
    match choice {
        FormatChoice::Json => document_reply(
            c.status_code,
            c.status_reason,
            ContentType::ProblemJson,
            Some(problem_json(problem)),
        ),
        FormatChoice::Xml => document_reply(
            c.status_code,
            c.status_reason,
            ContentType::ProblemXml,
            Some(problem_xml(problem)),
        ),
        FormatChoice::Html => ReplyView {
            status: c.status_code,
            reason: c.status_reason,
            body: BodyView::Page { template: Template::Base, context: Some((c, token)) },
        },
    }
}

/// The reply to a request that matched no route. Whatever the
/// representation, the status line is `200 OK`, though the document speaks of
/// `404`. HTML names the template `unknown` and gives it nothing.
pub open spec fn fallback_reply(h: HeadersView) -> ReplyView {
    match fallback_format(h) {
        FormatChoice::Json => document_reply(
            200,
            "OK"@,
            ContentType::ProblemJson,
            Some(problem_json(not_found_problem())),
        ),
        FormatChoice::Xml => document_reply(
            200,
            "OK"@,
            ContentType::ProblemXml,
            Some(problem_xml(not_found_problem())),
        ),
        FormatChoice::Html => ReplyView {
            status: 200,
            reason: "OK"@,
            body: BodyView::Page { template: Template::Unknown, context: None },
        },
    }
}

/// The reply to a request on the root path, where `rendered` is the text of
/// the instant of capture, if it has one. A request that reports no upstream
/// failure gets the fallback; one whose report is unusable is rejected; any
/// other gets the report in the selected representation, with the token of
/// context and instant.
pub open spec fn owed_reply(h: HeadersView, method: Seq<char>, rendered: Option<Seq<char>>) -> ReplyView {
    match extraction(h, method) {
        ExtractionView::NotApplicable => fallback_reply(h),
        ExtractionView::Error(e) => rejection(e),
        ExtractionView::Applicable(c) => failure_reply(c, selected_format(h), token_at(c, rendered)),
    }
}

/// The reply of the liveness probe.
pub fn health() -> (r: Reply)
    ensures
        r@ == healthy(),
{
    Reply { status: 200, reason: String::from_str("OK"), body: Body::Empty }
}

/// The reply to a request whose error context is unusable.
pub fn rejected(e: ExtractError) -> (r: Reply)
    ensures
        r@ == rejection(e),
{
    Reply {
        status: 500,
        reason: String::from_str("Internal Server Error"),
        body: Body::Diagnostic(e),
    }
}

/// The reply that carries a document under a status line. `text` is the
/// serialised document, `None` where serialising failed.
pub fn document(status: u16, reason: &str, content_type: ContentType, text: Option<String>) -> (r:
    Reply)
    ensures
        r@ == document_reply(status, reason@, content_type, text.deep_view()),
{
    match text {
        Some(t) => Reply {
            status,
            reason: String::from_str(reason),
            body: Body::Document { content_type, text: t },
        },
        None => Reply {
            status: 500,
            reason: String::from_str("Internal Server Error"),
            body: Body::Empty,
        },
    }
}

/// Reports the failure of a context in the chosen representation, with the
/// given token.
pub fn render(ctx: ErrorContext, choice: FormatChoice, token: String) -> (r: Reply)
    ensures
        r@ == failure_reply(ctx@, choice, token@),
{
    match choice {
        FormatChoice::Json => {
            let problem = Problem::for_context(&ctx, token);
            document(
                ctx.status_code(),
                ctx.status_reason(),
                ContentType::ProblemJson,
                problem.to_json(),
            )
        },
        FormatChoice::Xml => {
            let problem = Problem::for_context(&ctx, token);
            document(
                ctx.status_code(),
                ctx.status_reason(),
                ContentType::ProblemXml,
                Some(problem.to_xml()),
            )
        },
        FormatChoice::Html => {
            let status: u16 = ctx.status_code();
            let reason = String::from_str(ctx.status_reason());
            Reply {
                status,
                reason,
                body: Body::Page {
                    template: Template::Base,
                    context: Some(PageContext { info: ctx, identifier: token }),
                },
            }
        },
    }
}

/// Replies to a request that matched no route. Only `Accept` is read.
pub fn not_found(headers: &RequestHeaders) -> (r: Reply)
    ensures
        r@ == fallback_reply(headers@),
{
    match select_fallback_format(headers) {
        FormatChoice::Json => document(200, "OK", ContentType::ProblemJson, Problem::not_found().to_json()),
        FormatChoice::Xml => document(
            200,
            "OK",
            ContentType::ProblemXml,
            Some(Problem::not_found().to_xml()),
        ),
        FormatChoice::Html => Reply {
            status: 200,
            reason: String::from_str("OK"),
            body: Body::Page { template: Template::Unknown, context: None },
        },
    }
}

/// Replies to a request on the root path, whatever its method.
pub fn respond(headers: &RequestHeaders, method: &str, captured_at: CaptureInstant) -> (r: Reply)
    ensures
        r@ == owed_reply(
            headers@,
            method@,
            instant_text(captured_at.seconds, captured_at.nanoseconds),
        ),
{
    match extract(headers, method) {
        Extraction::NotApplicable => not_found(headers),
        Extraction::Error(e) => rejected(e),
        Extraction::Applicable(ctx) => {
            let token = encode(&ctx, captured_at);
            render(ctx, select_format(headers), token)
        },
    }
}

} // verus!
