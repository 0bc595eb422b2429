//! Rendering one span: its cached fields, read back from text, and its name.
use vstd::prelude::*;
use vstd::string::StringExecFns;
use crate::json::{EntryText, json_quoted, entries_view, object_text, quote, object};
use crate::span::SpanRegistry;

verus! {

/// What a span's field cache turned out to hold when read as JSON.
pub enum CacheParse {
    /// An object: its members, each value as compact JSON text.
    Object(Vec<(String, String)>),
    /// Valid JSON that is not an object, as compact JSON text.
    NotObject(String),
    /// Text that does not parse, with the parser's message.
    Invalid(String),
}

/// The abstract value of a [`CacheParse`].
pub enum CacheParseView {
    Object(Seq<EntryText>),
    NotObject(Seq<char>),
    Invalid(Seq<char>),
}

impl CacheParse {
    pub open spec fn view(&self) -> CacheParseView {
        match self {
            CacheParse::Object(es) => CacheParseView::Object(entries_view(es@)),
            CacheParse::NotObject(v) => CacheParseView::NotObject(v@),
            CacheParse::Invalid(m) => CacheParseView::Invalid(m@),
        }
    }
}

/// What the JSON parser makes of the text `s`.
pub uninterp spec fn parsed_cache(s: Seq<char>) -> CacheParseView;

/// Relies on serde_json::from_str into a `serde_json::Value`, on that value's
/// `Display` (compact JSON), and on the `Display` of serde_json's error. All
/// three depend on the text alone.
#[verifier::external_body]
pub(crate) fn parse_cache(text: &str) -> (r: CacheParse)
    ensures
        r.view() == parsed_cache(text@),
{
    match serde_json::from_str::<serde_json::Value>(text) {
        Ok(serde_json::Value::Object(m)) => {
            CacheParse::Object(m.into_iter().map(|(k, v)| (k, v.to_string())).collect())
        },
        Ok(v) => CacheParse::NotObject(v.to_string()),
        Err(e) => CacheParse::Invalid(e.to_string()),
    }
}

/// The message that goes with a cache holding valid JSON that is not an object.
pub open spec fn not_object_message() -> Seq<char> {
    "field was not valid object"@
}

/// The members that a span's cached fields contribute, before its name.
pub open spec fn cached_entries(p: Option<CacheParseView>) -> Seq<EntryText> {
    match p {
        None => seq![],
        Some(CacheParseView::Object(es)) => es,
        Some(CacheParseView::NotObject(v)) => seq![
            ("field"@, v),
            ("field_error"@, json_quoted(not_object_message())),
        ],
        Some(CacheParseView::Invalid(m)) => seq![("field_error"@, json_quoted(m))],
    }
}

/// The members of a rendered span: its cached fields, then its name, last.
pub open spec fn entries_for(name: Seq<char>, p: Option<CacheParseView>) -> Seq<EntryText> {
    cached_entries(p).push(("name"@, json_quoted(name)))
}

/// What a field cache reads as: nothing on a miss, else the parser's verdict.
pub open spec fn cache_view(cache: Option<Seq<char>>) -> Option<CacheParseView> {
    match cache {
        None => None,
        Some(t) => Some(parsed_cache(t)),
    }
}

/// The members of a span with name `name` and field cache `cache`.
pub open spec fn span_entries(name: Seq<char>, cache: Option<Seq<char>>) -> Seq<EntryText> {
    entries_for(name, cache_view(cache))
}

/// The JSON text of a span with name `name` and field cache `cache`.
pub open spec fn span_text(name: Seq<char>, cache: Option<Seq<char>>) -> Seq<char> {
    object_text(span_entries(name, cache))
}

/// The abstract value of an optional [`CacheParse`].
pub open spec fn parse_view(p: Option<CacheParse>) -> Option<CacheParseView> {
    match p {
        None => None,
        Some(c) => Some(c.view()),
    }
}

fn owned(s: &str) -> (r: String)
    ensures
        r@ == s@,
{
    <String as StringExecFns>::from_str(s)
}

/// Renders a span named `name` from what its field cache was read as
/// (`None` on a cache miss): the cached members, then `name`.
pub fn render_fields(name: &str, parsed: Option<CacheParse>) -> (r: String)
    ensures
        r@ == object_text(entries_for(name@, parse_view(parsed))),
{
    proof {
        reveal_strlit("field");
        reveal_strlit("field_error");
        reveal_strlit("field was not valid object");
        reveal_strlit("name");
    }
    let ghost pv = parse_view(parsed);
    let mut es: Vec<(String, String)> = match parsed {
        None => Vec::new(),
        Some(CacheParse::Object(v)) => v,
        Some(CacheParse::NotObject(v)) => {
            let mut w: Vec<(String, String)> = Vec::new();
            w.push((owned("field"), v));
            w.push((owned("field_error"), quote("field was not valid object")));
            w
        },
        Some(CacheParse::Invalid(m)) => {
            let mut w: Vec<(String, String)> = Vec::new();
            w.push((owned("field_error"), quote(m.as_str())));
            w
        },
    };
    proof {
        assert(entries_view(es@) =~= cached_entries(pv));
    }
    es.push((owned("name"), quote(name)));
    proof {
        assert(entries_view(es@) =~= entries_for(name@, pv));
    }
    object(&es)
}

impl SpanRegistry {
    /// Renders span `id`: its cached fields read as JSON, then its name.
    pub fn render_span(&self, id: usize) -> (r: String)
        requires
            id < self.spans@.len(),
        ensures
            r@ == span_text(
                self.spans@[id as int].name@,
                match self.spans@[id as int].fields {
                    None => None,
                    Some(f) => Some(f@),
                },
            ),
    {
        let s = &self.spans[id];
        let parsed = match &s.fields {
            None => None,
            Some(f) => Some(parse_cache(f.as_str())),
        };
        render_fields(s.name.as_str(), parsed)
    }
}

/// A span whose cache holds a JSON object renders as that object's members
/// followed by its `name`; the name is the last member whatever the cache holds,
/// so a `name` in the cache never replaces it.
pub proof fn lemma_object_cache(name: Seq<char>, text: Seq<char>, members: Seq<EntryText>)
    requires
        parsed_cache(text) == CacheParseView::Object(members),
    ensures
        span_entries(name, Some(text)) == members.push(("name"@, json_quoted(name))),
        span_entries(name, Some(text)).last() == ("name"@, json_quoted(name)),
        forall|k: int| 0 <= k < members.len() ==> #[trigger] span_entries(name, Some(text))[k] == members[k],
{
}

/// A span whose cache holds valid JSON that is not an object renders as
/// exactly `field`, `field_error` and `name`.
pub proof fn lemma_not_object_cache(name: Seq<char>, text: Seq<char>, value: Seq<char>)
    requires
        parsed_cache(text) == CacheParseView::NotObject(value),
    ensures
        span_entries(name, Some(text)) == seq![
            ("field"@, value),
            ("field_error"@, json_quoted("field was not valid object"@)),
            ("name"@, json_quoted(name)),
        ],
{
    assert(span_entries(name, Some(text)) =~= seq![
        ("field"@, value),
        ("field_error"@, json_quoted("field was not valid object"@)),
        ("name"@, json_quoted(name)),
    ]);
}

/// A span whose cache does not parse renders as exactly `field_error`, holding
/// the parser's message, and `name`.
pub proof fn lemma_invalid_cache(name: Seq<char>, text: Seq<char>, message: Seq<char>)
    requires
        parsed_cache(text) == CacheParseView::Invalid(message),
    ensures
        span_entries(name, Some(text)) == seq![
            ("field_error"@, json_quoted(message)),
            ("name"@, json_quoted(name)),
        ],
{
    assert(span_entries(name, Some(text)) =~= seq![
        ("field_error"@, json_quoted(message)),
        ("name"@, json_quoted(name)),
    ]);
}

/// A span whose cache is empty renders as its `name` alone.
pub proof fn lemma_missing_cache(name: Seq<char>)
    ensures
        span_entries(name, None) == seq![("name"@, json_quoted(name))],
{
    assert(span_entries(name, None) =~= seq![("name"@, json_quoted(name))]);
}

} // verus!
