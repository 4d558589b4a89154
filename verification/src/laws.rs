//! What holds of the responder as a whole.

use vstd::prelude::*;
use vstd::utf8::encode_utf8;
use crate::context::{
    extraction,
    reason_phrase,
    ContextView,
    ExtractError,
    ExtractionView,
    HeadersView,
};
use crate::decimal::{decimal_digits, parsed_u16};
use crate::format::FormatChoice;
use crate::problem::{json_escape, json_escaped, json_string, problem_json, problem_of, problem_xml};
use crate::respond::{
    failure_reply,
    fallback_reply,
    owed_reply,
    rejection,
    BodyView,
    ContentType,
    ReplyView,
    Template,
};
use crate::format::selected_format;
use crate::token::{all_url_safe, is_url_safe, token_at};
use crate::token_laws::lemma_token_is_not_empty;

verus! {

/// A context with another method in the place of its own.
pub open spec fn with_method(c: ContextView, method: Seq<char>) -> ContextView {
    ContextView { method: method, ..c }
}

/// The method is carried, and nothing else: what is made of a request does
/// not depend on its method, but for the method that the context records.
pub proof fn lemma_method_is_only_carried(h: HeadersView, m: Seq<char>, n: Seq<char>)
    ensures
        match extraction(h, m) {
            ExtractionView::Applicable(c) => extraction(h, n) == ExtractionView::Applicable(
                with_method(c, n),
            ),
            other => extraction(h, n) == other,
        },
{
}

/// A request without `X-Code` gets the reply for an unknown route, whatever
/// its method and its other headers.
pub proof fn lemma_no_code_takes_fallback(
    h: HeadersView,
    method: Seq<char>,
    rendered: Option<Seq<char>>,
)
    requires
        h.code is None,
    ensures
        owed_reply(h, method, rendered) == fallback_reply(h),
{
}

/// The reply for an unknown route has the status line `200 OK`, whatever
/// `Accept` says.
pub proof fn lemma_fallback_is_ok(h: HeadersView)
    ensures
        fallback_reply(h).status == 200,
        fallback_reply(h).reason == "OK"@,
{
}

/// The reply for an unknown route is a function of `Accept` alone: two
/// requests that agree on that header get the same reply.
pub proof fn lemma_fallback_reads_accept_alone(a: HeadersView, b: HeadersView)
    requires
        a.accept == b.accept,
    ensures
        fallback_reply(a) == fallback_reply(b),
{
}

/// A request that reports a failure with a known status but carries no
/// `X-Request-ID`, or an empty one, is rejected with `500` and the fixed text
/// for the missing header, whatever else it carries.
pub proof fn lemma_request_id_is_required(
    h: HeadersView,
    method: Seq<char>,
    rendered: Option<Seq<char>>,
)
    requires
        h.code matches Some(text) && parsed_u16(encode_utf8(text)) matches Some(code)
            && reason_phrase(code) is Some,
        h.request_id is None || h.request_id->0.len() == 0,
    ensures
        owed_reply(h, method, rendered) == rejection(ExtractError::MissingRequiredField),
        owed_reply(h, method, rendered).status == 500,
{
}

/// A report of an upstream failure mirrors the upstream status line, in
/// every representation.
pub proof fn lemma_status_mirrors_upstream(c: ContextView, choice: FormatChoice, token: Seq<char>)
    ensures
        failure_reply(c, choice, token).status == c.status_code,
        failure_reply(c, choice, token).reason == c.status_reason,
{
}

/// The representation decides the kind of body: a problem document of the
/// matching media type for JSON and XML, the page of the template `base` for
/// HTML.
pub proof fn lemma_body_follows_choice(c: ContextView, choice: FormatChoice, token: Seq<char>)
    ensures
        match choice {
            FormatChoice::Json => failure_reply(c, choice, token).body == BodyView::Document {
                content_type: ContentType::ProblemJson,
                text: problem_json(problem_of(c.status_code, c.status_reason, token)),
            },
            FormatChoice::Xml => failure_reply(c, choice, token).body == BodyView::Document {
                content_type: ContentType::ProblemXml,
                text: problem_xml(problem_of(c.status_code, c.status_reason, token)),
            },
            FormatChoice::Html => failure_reply(c, choice, token).body == BodyView::Page {
                template: Template::Base,
                context: Some((c, token)),
            },
        },
{
}

/// A request that reports an upstream failure and whose `X-Format` prefers
/// JSON gets, whatever its method, the problem document as
/// `application/problem+json` under the upstream status line, with the token
/// of context and instant as the instance. The token is not empty where the
/// instant has a text.
pub proof fn lemma_json_reply_to_failure(
    h: HeadersView,
    method: Seq<char>,
    rendered: Option<Seq<char>>,
    c: ContextView,
)
    requires
        extraction(h, method) == ExtractionView::Applicable(c),
        selected_format(h) == FormatChoice::Json,
    ensures
        owed_reply(h, method, rendered) == (ReplyView {
            status: c.status_code,
            reason: c.status_reason,
            body: BodyView::Document {
                content_type: ContentType::ProblemJson,
                text: problem_json(problem_of(c.status_code, c.status_reason, token_at(c, rendered))),
            },
        }),
        rendered is Some ==> token_at(c, rendered).len() > 0,
{
    if rendered is Some {
        lemma_token_is_not_empty(c, rendered->0);
    }
}

/// The JSON document of a failure: the reason phrase as the title, the
/// status as a number, the token as the instance, and no other member.
pub proof fn lemma_failure_json(status: u16, reason: Seq<char>, token: Seq<char>)
    ensures
        problem_json(problem_of(status, reason, token)) == "{\"title\":"@ + json_string(reason)
            + ",\"status\":"@ + decimal_digits(status as nat) + ",\"instance\":"@ + json_string(
            token,
        ) + "}"@,
{
    let none = Seq::<char>::empty();
    let title = "\"title\":"@ + json_string(reason);
    let number = ",\"status\":"@ + decimal_digits(status as nat);
    let instance = ",\"instance\":"@ + json_string(token);
    assert(instance + none =~= instance);
    assert("{"@ + none =~= "{"@);
    assert("{"@ + "\"title\":"@ + json_string(reason) + ",\"status\":"@ + decimal_digits(
        status as nat,
    ) + none =~= "{"@ + title + number);
    assert("{"@ + title + number + instance + "}"@ =~= "{\"title\":"@ + json_string(reason)
        + ",\"status\":"@ + decimal_digits(status as nat) + ",\"instance\":"@ + json_string(
        token,
    ) + "}"@) by {
        reveal_strlit("{");
        reveal_strlit("\"title\":");
        reveal_strlit("{\"title\":");
    }
}

/// The XML document of a failure: the reason phrase as the title, the status
/// as a number, the token as the instance, and no other child.
pub proof fn lemma_failure_xml(status: u16, reason: Seq<char>, token: Seq<char>)
    ensures
        problem_xml(problem_of(status, reason, token))
            == "<?xml version=\"1.0\" encoding=\"UTF-8\"><problem xmlns=\"urn:ietf:rfc:7807\"><title>"@
            + reason + "</title><status>"@ + decimal_digits(status as nat) + "</status>"@
            + "<instance>"@ + token + "</instance>"@ + "</problem>"@,
{
    assert(problem_xml(problem_of(status, reason, token))
        =~= "<?xml version=\"1.0\" encoding=\"UTF-8\"><problem xmlns=\"urn:ietf:rfc:7807\"><title>"@
        + reason + "</title><status>"@ + decimal_digits(status as nat) + "</status>"@
        + "<instance>"@ + token + "</instance>"@ + "</problem>"@);
}

/// A text of URL-safe characters stands in a JSON string as it is: nothing
/// in it is escaped. This holds of every token.
pub proof fn lemma_url_safe_text_needs_no_escape(text: Seq<char>)
    requires
        all_url_safe(text),
    ensures
        json_escaped(text) == text,
        json_string(text) == seq!['"'] + text + seq!['"'],
    decreases text.len(),
{
    if text.len() > 0 {
        let front = text.drop_last();
        assert forall|i: int| 0 <= i < front.len() implies is_url_safe(#[trigger] front[i]) by {
            assert(front[i] == text[i]);
        }
        lemma_url_safe_text_needs_no_escape(front);
        assert(is_url_safe(text[text.len() - 1]));
        assert(json_escape(text.last()) == seq![text.last()]);
        assert(front + seq![text.last()] =~= text);
    } else {
        assert(json_escaped(text) =~= text);
    }
}

} // verus!
