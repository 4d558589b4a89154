//! The choice of a representation: JSON, XML or HTML.
//!
//! For an upstream failure the proxy decides, through `X-Format`. For a
//! request that matched no route only the client's `Accept` is consulted.
//! Either header is read as a list of media preferences, and its most
//! preferred entry decides. HTML is what is left whenever it names neither
//! JSON nor XML.

use vstd::prelude::*;
use vstd::string::*;
use vstd::utf8::encode_utf8;
use crate::context::{HeadersView, RequestHeaders};

verus! {

/// The representation in which an error document is produced.
#[derive(Clone, Copy, Debug, PartialEq, Eq, Structural)]
pub enum FormatChoice {
    Json,
    Xml,
    Html,
}

/// One entry of a parsed list of media preferences: its top-level type and
/// its subtype.
pub struct MediaRange {
    pub top: String,
    pub sub: String,
}

impl View for MediaRange {
    type V = (Seq<char>, Seq<char>);

    open spec fn view(&self) -> (Seq<char>, Seq<char>) {
        (self.top@, self.sub@)
    }
}

impl DeepView for MediaRange {
    type V = (Seq<char>, Seq<char>);

    open spec fn deep_view(&self) -> (Seq<char>, Seq<char>) {
        self@
    }
}

/// An ASCII upper-case letter is taken to lower case; any other byte stays.
pub open spec fn lowered(b: u8) -> u8 {
    if 0x41 <= b && b <= 0x5a {
        (b + 0x20) as u8
    } else {
        b
    }
}

/// Two byte strings are equal up to the case of their ASCII letters.
pub open spec fn same_ignoring_case(a: Seq<u8>, b: Seq<u8>) -> bool {
    &&& a.len() == b.len()
    &&& forall|i: int| 0 <= i < a.len() ==> lowered(#[trigger] a[i]) == lowered(b[i])
}

/// The entry names the given media type, whatever its parameters.
pub open spec fn names_media(m: (Seq<char>, Seq<char>), top: Seq<char>, sub: Seq<char>) -> bool {
    &&& same_ignoring_case(encode_utf8(m.0), encode_utf8(top))
    &&& same_ignoring_case(encode_utf8(m.1), encode_utf8(sub))
}

/// The entry names the JSON media type, `application/json`.
pub open spec fn is_json(m: (Seq<char>, Seq<char>)) -> bool {
    names_media(m, "application"@, "json"@)
}

/// The entry names the XML media type, `text/xml`.
pub open spec fn is_xml(m: (Seq<char>, Seq<char>)) -> bool {
    names_media(m, "text"@, "xml"@)
}

/// The most preferred entry of a header value read as a list of media
/// preferences, `None` where the value is no such list. It stands for
/// `rocket::http::Accept`: its parser, then `Accept::preferred`.
pub uninterp spec fn preferred_range(value: Seq<char>) -> Option<(Seq<char>, Seq<char>)>;

/// The representation that goes with a most preferred entry: JSON or XML
/// where it names that media type, HTML for any other and for none.
pub open spec fn format_for(preferred: Option<(Seq<char>, Seq<char>)>) -> FormatChoice {
    match preferred {
        Some(m) => if is_json(m) {
            FormatChoice::Json
        } else if is_xml(m) {
            FormatChoice::Xml
        } else {
            FormatChoice::Html
        },
        None => FormatChoice::Html,
    }
}

/// The representation for an upstream failure. Only `X-Format` counts: its
/// most preferred entry decides, and a value that is absent or no list of
/// media preferences leaves HTML.
pub open spec fn selected_format(h: HeadersView) -> FormatChoice {
    match h.format {
        Some(value) => format_for(preferred_range(value)),
        None => FormatChoice::Html,
    }
}

/// The representation for a request that matched no route. Only `Accept`
/// counts: its most preferred entry decides, and a value that is absent or
/// no list of media preferences leaves HTML.
pub open spec fn fallback_format(h: HeadersView) -> FormatChoice {
    match h.accept {
        Some(value) => format_for(preferred_range(value)),
        None => FormatChoice::Html,
    }
}

/// Parses a header value with `rocket::http::Accept`'s `FromStr` and takes
/// `Accept::preferred` of the result. The entry is handed back as its
/// top-level type and its subtype; the result is named [`preferred_range`]
/// and is `None` where the parser fails.
#[verifier::external_body]
fn parse_preferred(value: &str) -> (r: Option<MediaRange>)
    ensures
        r.deep_view() == preferred_range(value@),
{
    let accept = value.parse::<rocket::http::Accept>().ok()?;
    let q = accept.preferred();
    Some(MediaRange { top: q.top().to_string(), sub: q.sub().to_string() })
}

/// Whether two texts are equal up to the case of their ASCII letters.
pub fn eq_ignoring_case(a: &str, b: &str) -> (r: bool)
    ensures
        r == same_ignoring_case(a.spec_bytes(), b.spec_bytes()),
{
    let x = a.as_bytes();
    let y = b.as_bytes();
    let n: usize = x.len();
    if n != y.len() {
        return false;
    }
    let mut i: usize = 0;
    while i < n
        invariant
            i <= n,
            n == x@.len(),
            n == y@.len(),
            x@ == a.spec_bytes(),
            y@ == b.spec_bytes(),
            forall|j: int| 0 <= j < i ==> lowered(#[trigger] x@[j]) == lowered(y@[j]),
        decreases n - i,
    {
        let p: u8 = x[i];
        let q: u8 = y[i];
        let lp: u8 = if 0x41 <= p && p <= 0x5a {
            p + 0x20
        } else {
            p
        };
        let lq: u8 = if 0x41 <= q && q <= 0x5a {
            q + 0x20
        } else {
            q
        };
        if lp != lq {
            assert(lowered(x@[i as int]) != lowered(y@[i as int]));
            return false;
        }
        i += 1;
    }
    true
}

impl MediaRange {
    /// Whether the entry names the JSON media type.
    pub fn is_json(&self) -> (r: bool)
        ensures
            r == is_json(self@),
    {
        eq_ignoring_case(self.top.as_str(), "application") && eq_ignoring_case(
            self.sub.as_str(),
            "json",
        )
    }

    /// Whether the entry names the XML media type.
    pub fn is_xml(&self) -> (r: bool)
        ensures
            r == is_xml(self@),
    {
        eq_ignoring_case(self.top.as_str(), "text") && eq_ignoring_case(self.sub.as_str(), "xml")
    }
}

/// The representation that goes with the most preferred entry of a list of
/// media preferences, or with none.
pub fn choose_format(preferred: Option<&MediaRange>) -> (choice: FormatChoice)
    ensures
        choice == format_for(preferred.deep_view()),
{
    match preferred {
        Some(m) => {
            if m.is_json() {
                FormatChoice::Json
            } else if m.is_xml() {
                FormatChoice::Xml
            } else {
                FormatChoice::Html
            }
        },
        None => FormatChoice::Html,
    }
}

/// Selects the representation for an upstream failure from the request's
/// headers.
pub fn select_format(headers: &RequestHeaders) -> (choice: FormatChoice)
    ensures
        choice == selected_format(headers@),
{
    match &headers.format {
        Some(value) => {
            let preferred = parse_preferred(value.as_str());
            choose_format(preferred.as_ref())
        },
        None => FormatChoice::Html,
    }
}

/// Selects the representation for a request that matched no route from the
/// request's headers.
pub fn select_fallback_format(headers: &RequestHeaders) -> (choice: FormatChoice)
    ensures
        choice == fallback_format(headers@),
{
    match &headers.accept {
        Some(value) => {
            let preferred = parse_preferred(value.as_str());
            choose_format(preferred.as_ref())
        },
        None => FormatChoice::Html,
    }
}

/// The selection is a function of `X-Format` alone: two requests that agree on
/// that header get the same representation, whatever else they carry.
pub proof fn lemma_selection_is_determined(a: HeadersView, b: HeadersView)
    requires
        a.format == b.format,
    ensures
        selected_format(a) == selected_format(b),
{
}

/// A request whose `X-Format` is absent, or is no list of media preferences,
/// gets HTML.
pub proof fn lemma_no_usable_override_leaves_html(h: HeadersView)
    requires
        h.format matches Some(value) ==> preferred_range(value) is None,
    ensures
        selected_format(h) == FormatChoice::Html,
{
}

/// The fallback's selection is a function of `Accept` alone: two requests
/// that agree on that header get the same representation, whatever else they
/// carry.
pub proof fn lemma_fallback_selection_is_determined(a: HeadersView, b: HeadersView)
    requires
        a.accept == b.accept,
    ensures
        fallback_format(a) == fallback_format(b),
{
}

} // verus!
