//! Problem documents: the payload that the JSON and the XML representation
//! share, and how each of the two writes it out.

use vstd::prelude::*;
use vstd::string::*;
use crate::context::ErrorContext;
use crate::decimal::{decimal_digits, decimal_text};

verus! {

/// The payload of a problem document.
pub struct Problem {
    /// A URI for the kind of problem.
    pub problem_type: Option<String>,
    /// A short summary: the reason phrase of the status.
    pub title: String,
    /// The HTTP status that the document speaks of.
    pub status: u16,
    /// An explanation for a human reader.
    pub detail: Option<String>,
    /// What identifies this occurrence: the diagnostic token.
    pub instance: Option<String>,
}

/// A problem document as mathematical values.
pub struct ProblemView {
    pub problem_type: Option<Seq<char>>,
    pub title: Seq<char>,
    pub status: u16,
    pub detail: Option<Seq<char>>,
    pub instance: Option<Seq<char>>,
}

impl View for Problem {
    type V = ProblemView;

    open spec fn view(&self) -> ProblemView {
        ProblemView {
            problem_type: self.problem_type.deep_view(),
            title: self.title@,
            status: self.status,
            detail: self.detail.deep_view(),
            instance: self.instance.deep_view(),
        }
    }
}

/// The explanation that the document for an unknown route carries.
pub open spec fn not_found_detail() -> Seq<char> {
    "We don't know where to direct your request, we're probably not responsible for this domain."@
}

/// The problem that reports an upstream failure: the status and its reason
/// phrase, and the token as the instance. It has no type and no detail.
pub open spec fn problem_of(status: u16, reason: Seq<char>, token: Seq<char>) -> ProblemView {
    ProblemView {
        problem_type: None,
        title: reason,
        status: status,
        detail: None,
        instance: Some(token),
    }
}

/// The problem that reports a request for which no route is known.
pub open spec fn not_found_problem() -> ProblemView {
    ProblemView {
        problem_type: None,
        title: "Not found"@,
        status: 404,
        detail: Some(not_found_detail()),
        instance: None,
    }
}

/// A lower-case hexadecimal digit.
pub open spec fn hex_digit(v: int) -> char {
    if v < 10 {
        (0x30 + v) as char
    } else {
        (0x61 + (v - 10)) as char
    }
}

/// How one character stands inside a JSON string: the quotation mark and the
/// backslash behind a backslash, the control characters below U+0020 by their
/// short escape where there is one and as `\u00XX` else, any other character
/// as itself.
pub open spec fn json_escape(c: char) -> Seq<char> {
    if c == '"' {
        seq!['\\', '"']
    } else if c == '\\' {
        seq!['\\', '\\']
    } else if c == '\u{8}' {
        seq!['\\', 'b']
    } else if c == '\t' {
        seq!['\\', 't']
    } else if c == '\n' {
        seq!['\\', 'n']
    } else if c == '\u{c}' {
        seq!['\\', 'f']
    } else if c == '\r' {
        seq!['\\', 'r']
    } else if (c as int) < 0x20 {
        seq!['\\', 'u', '0', '0', hex_digit((c as int) / 16), hex_digit((c as int) % 16)]
    } else {
        seq![c]
    }
}

/// The characters of a text, each as it stands inside a JSON string.
pub open spec fn json_escaped(text: Seq<char>) -> Seq<char>
    decreases text.len(),
{
    if text.len() == 0 {
        Seq::empty()
    } else {
        json_escaped(text.drop_last()) + json_escape(text.last())
    }
}

/// A text as a JSON string: escaped, between quotation marks.
pub open spec fn json_string(text: Seq<char>) -> Seq<char> {
    seq!['"'] + json_escaped(text) + seq!['"']
}

/// An object member that is left out where there is no value: the text before
/// the value, then the value.
pub open spec fn optional_part(lead: Seq<char>, value: Option<Seq<char>>, tail: Seq<char>) -> Seq<char> {
    match value {
        Some(v) => lead + v + tail,
        None => Seq::empty(),
    }
}

/// A JSON object from members that are serialised already. `type`, `detail`
/// and `instance` are left out where absent; the members stand in the order
/// type, title, status, detail, instance, with nothing between the tokens.
pub open spec fn json_object(
    problem_type: Option<Seq<char>>,
    title: Seq<char>,
    status: Seq<char>,
    detail: Option<Seq<char>>,
    instance: Option<Seq<char>>,
) -> Seq<char> {
    "{"@ + optional_part("\"type\":"@, problem_type, ","@) + "\"title\":"@ + title
        + ",\"status\":"@ + status + optional_part(",\"detail\":"@, detail, Seq::empty())
        + optional_part(",\"instance\":"@, instance, Seq::empty()) + "}"@
}

/// A text member as a JSON string, where the member is there.
pub open spec fn json_string_of(value: Option<Seq<char>>) -> Option<Seq<char>> {
    match value {
        Some(v) => Some(json_string(v)),
        None => None,
    }
}

/// The JSON representation of a problem.
pub open spec fn problem_json(p: ProblemView) -> Seq<char> {
    json_object(
        json_string_of(p.problem_type),
        json_string(p.title),
        decimal_digits(p.status as nat),
        json_string_of(p.detail),
        json_string_of(p.instance),
    )
}

/// The XML representation of a problem: the declaration, then the element
/// `problem` in the namespace `urn:ietf:rfc:7807` with the children title,
/// status and, where present, type, detail and instance. The values stand as
/// they are: nothing is escaped.
pub open spec fn problem_xml(p: ProblemView) -> Seq<char> {
    "<?xml version=\"1.0\" encoding=\"UTF-8\"><problem xmlns=\"urn:ietf:rfc:7807\"><title>"@
        + p.title + "</title><status>"@ + decimal_digits(p.status as nat) + "</status>"@
        + optional_part("<type>"@, p.problem_type, "</type>"@) + optional_part(
        "<detail>"@,
        p.detail,
        "</detail>"@,
    ) + optional_part("<instance>"@, p.instance, "</instance>"@) + "</problem>"@
}

/// Serialises a text with `serde_json::to_string`. The call cannot fail:
/// it fails only where the value's own way of serialising fails or a map has
/// keys that are no strings, and a text does neither. So the result is always
/// `Some`, and it is the text as a JSON string.
#[verifier::external_body]
fn json_of_text(text: &str) -> (r: Option<String>)
    ensures
        r is Some,
        r.unwrap()@ == json_string(text@),
{
    serde_json::to_string(text).ok()
}

/// Appends a part that is left out where there is no value.
fn append_optional(out: &mut String, lead: &str, value: Option<&str>, tail: &str)
    ensures
        final(out)@ == old(out)@ + optional_part(
            lead@,
            match value {
                Some(v) => Some(v@),
                None => None,
            },
            tail@,
        ),
{
    match value {
        Some(v) => {
            out.append(lead);
            out.append(v);
            out.append(tail);
            assert(out@ =~= old(out)@ + (lead@ + v@ + tail@));
        },
        None => {
            assert(out@ =~= old(out)@ + Seq::<char>::empty());
        },
    }
}

/// The text of an optional member.
fn text_of(value: &Option<String>) -> (r: Option<&str>)
    ensures
        match r {
            Some(v) => value.deep_view() == Some(v@),
            None => value.deep_view() is None,
        },
{
    match value {
        Some(v) => Some(v.as_str()),
        None => None,
    }
}

/// Writes a JSON object from members that are serialised already.
pub fn json_document(
    problem_type: Option<&str>,
    title: &str,
    status: &str,
    detail: Option<&str>,
    instance: Option<&str>,
) -> (body: String)
    ensures
        body@ == json_object(
            match problem_type {
                Some(v) => Some(v@),
                None => None,
            },
            title@,
            status@,
            match detail {
                Some(v) => Some(v@),
                None => None,
            },
            match instance {
                Some(v) => Some(v@),
                None => None,
            },
        ),
{
    proof {
        reveal_strlit("");
        assert(""@ =~= Seq::<char>::empty());
    }
    let mut body = String::from_str("{");
    append_optional(&mut body, "\"type\":", problem_type, ",");
    body.append("\"title\":");
    body.append(title);
    body.append(",\"status\":");
    body.append(status);
    append_optional(&mut body, ",\"detail\":", detail, "");
    append_optional(&mut body, ",\"instance\":", instance, "");
    body.append("}");
    body
}

/// Serialises an optional text member: a member that is there as a JSON
/// string, one that is not as nothing. The outer `Option` is the
/// serialiser's, and is always `Some`.
fn json_of_optional(value: &Option<String>) -> (r: Option<Option<String>>)
    ensures
        r matches Some(q) && q.deep_view() == json_string_of(value.deep_view()),
{
    match value {
        Some(v) => match json_of_text(v.as_str()) {
            Some(q) => Some(Some(q)),
            None => None,
        },
        None => Some(None),
    }
}

impl Problem {
    /// The problem that reports the failure of a context, with the token of
    /// that failure.
    pub fn for_context(ctx: &ErrorContext, token: String) -> (p: Problem)
        ensures
            p@ == problem_of(ctx@.status_code, ctx@.status_reason, token@),
    {
        Problem {
            problem_type: None,
            title: String::from_str(ctx.status_reason()),
            status: ctx.status_code(),
            detail: None,
            instance: Some(token),
        }
    }

    /// The problem that reports a request for which no route is known.
    pub fn not_found() -> (p: Problem)
        ensures
            p@ == not_found_problem(),
    {
        Problem {
            problem_type: None,
            title: String::from_str("Not found"),
            status: 404,
            detail: Some(
                String::from_str(
                    "We don't know where to direct your request, we're probably not responsible for this domain.",
                ),
            ),
            instance: None,
        }
    }

    /// The body of the problem as `application/problem+json`. The `Option` is
    /// the serialiser's: on texts it does not fail, so the result is always
    /// `Some`.
    pub fn to_json(&self) -> (r: Option<String>)
        ensures
            r matches Some(body) && body@ == problem_json(self@),
    {
        let problem_type = match json_of_optional(&self.problem_type) {
            Some(q) => q,
            None => {
                return None;
            },
        };
        let title = match json_of_text(self.title.as_str()) {
            Some(q) => q,
            None => {
                return None;
            },
        };
        let status = decimal_text(self.status);
        let detail = match json_of_optional(&self.detail) {
            Some(q) => q,
            None => {
                return None;
            },
        };
        let instance = match json_of_optional(&self.instance) {
            Some(q) => q,
            None => {
                return None;
            },
        };
        Some(
            json_document(
                text_of(&problem_type),
                title.as_str(),
                status.as_str(),
                text_of(&detail),
                text_of(&instance),
            ),
        )
    }

    /// The body of the problem as `application/problem+xml`.
    pub fn to_xml(&self) -> (body: String)
        ensures
            body@ == problem_xml(self@),
    {
        let mut body = String::from_str(
            "<?xml version=\"1.0\" encoding=\"UTF-8\"><problem xmlns=\"urn:ietf:rfc:7807\"><title>",
        );
        body.append(self.title.as_str());
        body.append("</title><status>");
        let status = decimal_text(self.status);
        body.append(status.as_str());
        body.append("</status>");
        append_optional(&mut body, "<type>", text_of(&self.problem_type), "</type>");
        append_optional(&mut body, "<detail>", text_of(&self.detail), "</detail>");
        append_optional(&mut body, "<instance>", text_of(&self.instance), "</instance>");
        body.append("</problem>");
        body
    }
}

} // verus!
