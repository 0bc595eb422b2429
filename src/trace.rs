//! The event formatter: one log event, with the spans it occurred in and any
//! trace correlation ids, rendered as one JSON record.
use vstd::prelude::*;
use vstd::string::StringExecFns;
use crate::json::{
    EntryText, json_quoted, object_text, array_text, integer_text, decimal, entries_view,
    texts_view, keys_of, quote, object, array, write_integer, write_decimal,
};
use crate::span::{SpanData, SpanRegistry, spans_wf, chain, trace_info_of};
use crate::fields::span_text;

verus! {

/// The severity of an event.
#[derive(Clone, Copy, PartialEq, Eq, Debug, Structural)]
pub enum Level {
    Trace,
    Debug,
    Info,
    Warn,
    Error,
}

/// The value of one field of an event.
pub enum FieldValue {
    Str(String),
    Bool(bool),
    Int(i64),
    UInt(u64),
}

/// A log event: its level, its target and its fields in insertion order.
pub struct LogEvent {
    pub level: Level,
    pub target: String,
    pub fields: Vec<(String, FieldValue)>,
}

/// How a level is written in a record.
pub open spec fn level_name(l: Level) -> Seq<char> {
    match l {
        Level::Trace => "TRACE"@,
        Level::Debug => "DEBUG"@,
        Level::Info => "INFO"@,
        Level::Warn => "WARN"@,
        Level::Error => "ERROR"@,
    }
}

/// The JSON text of a field value.
pub open spec fn value_text(v: FieldValue) -> Seq<char> {
    match v {
        FieldValue::Str(s) => json_quoted(s@),
        FieldValue::Bool(b) => if b { "true"@ } else { "false"@ },
        FieldValue::Int(n) => integer_text(n as int),
        FieldValue::UInt(n) => decimal(n as nat),
    }
}

/// The members of an event's `fields` object.
pub open spec fn field_entries(fields: Seq<(String, FieldValue)>) -> Seq<EntryText> {
    fields.map_values(|f: (String, FieldValue)| (f.0@, value_text(f.1)))
}

/// The field cache of a span, as text.
pub open spec fn cache_of(s: SpanData) -> Option<Seq<char>> {
    match s.fields {
        None => None,
        Some(f) => Some(f@),
    }
}

/// The rendering of span `i`.
pub open spec fn rendered(spans: Seq<SpanData>, i: nat) -> Seq<char> {
    span_text(spans[i as int].name@, cache_of(spans[i as int]))
}

/// The renderings of the spans from the root down to `id`.
pub open spec fn context_texts(spans: Seq<SpanData>, id: nat) -> Seq<Seq<char>> {
    chain(spans, id).map_values(|i: nat| rendered(spans, i))
}

/// The correlation members of a record for a span's trace data.
pub open spec fn trace_entries(spans: Seq<SpanData>, id: nat) -> Seq<EntryText> {
    match trace_info_of(spans[id as int].trace) {
        None => seq![],
        Some(t) => seq![("span_id"@, json_quoted(t.1)), ("trace_id"@, json_quoted(t.0))],
    }
}

/// The members of the record for event `ev`, formatted at time `ts` with
/// current span `current`.
pub open spec fn record_entries(
    ev: LogEvent,
    spans: Seq<SpanData>,
    current: Option<usize>,
    ts: Seq<char>,
) -> Seq<EntryText> {
    let base = seq![
        ("timestamp"@, json_quoted(ts)),
        ("level"@, json_quoted(level_name(ev.level))),
        ("fields"@, object_text(field_entries(ev.fields@))),
        ("target"@, json_quoted(ev.target@)),
    ];
    match current {
        None => base,
        Some(id) => base + seq![
            ("span"@, rendered(spans, id as nat)),
            ("spans"@, array_text(context_texts(spans, id as nat))),
        ] + trace_entries(spans, id as nat),
    }
}

/// The text of that record.
pub open spec fn record_text(
    ev: LogEvent,
    spans: Seq<SpanData>,
    current: Option<usize>,
    ts: Seq<char>,
) -> Seq<char> {
    object_text(record_entries(ev, spans, current, ts))
}

/// Configuration for tracing.
pub struct TracingConfig {
    /// Resource namespace.
    pub namespace: &'static str,
    /// Resource name.
    pub name: &'static str,
    /// Resource version.
    pub version: &'static str,
    /// If logs should be output in JSON format and traces sent to an OTLP pipeline.
    pub otlp: bool,
}

/// The deployment environment reported with traces: the configured one if
/// set, else `dev` in debug builds and `unknown` otherwise.
pub open spec fn environment_of(configured: Option<Seq<char>>, debug_build: bool) -> Seq<char> {
    match configured {
        Some(e) => e,
        None => if debug_build { "dev"@ } else { "unknown"@ },
    }
}

/// Chooses the deployment environment from the configured value, if any.
pub fn deployment_environment(configured: Option<String>, debug_build: bool) -> (r: String)
    ensures
        r@ == environment_of(
            match configured {
                Some(e) => Some(e@),
                None => None,
            },
            debug_build,
        ),
{
    proof {
        reveal_strlit("dev");
        reveal_strlit("unknown");
    }
    match configured {
        Some(e) => e,
        None => if debug_build { owned("dev") } else { owned("unknown") },
    }
}

/// Relies on chrono's `Utc::now().to_rfc3339()`: the current time as RFC 3339
/// text. Nothing is known of which time it is.
#[verifier::external_body]
fn now_rfc3339() -> (r: String) {
    chrono::Utc::now().to_rfc3339()
}

fn owned(s: &str) -> (r: String)
    ensures
        r@ == s@,
{
    <String as StringExecFns>::from_str(s)
}

impl Level {
    /// The name of the level as written in a record.
    pub fn as_str(&self) -> (r: &'static str)
        ensures
            r@ == level_name(*self),
    {
        proof {
            reveal_strlit("TRACE");
            reveal_strlit("DEBUG");
            reveal_strlit("INFO");
            reveal_strlit("WARN");
            reveal_strlit("ERROR");
        }
        match self {
            Level::Trace => "TRACE",
            Level::Debug => "DEBUG",
            Level::Info => "INFO",
            Level::Warn => "WARN",
            Level::Error => "ERROR",
        }
    }
}

impl FieldValue {
    /// The JSON text of the value.
    pub fn to_json(&self) -> (r: String)
        ensures
            r@ == value_text(*self),
    {
        proof {
            reveal_strlit("true");
            reveal_strlit("false");
        }
        match self {
            FieldValue::Str(s) => quote(s.as_str()),
            FieldValue::Bool(b) => if *b { owned("true") } else { owned("false") },
            FieldValue::Int(n) => {
                let mut out = String::new();
                write_integer(*n, &mut out);
                proof {
                    assert(out@ =~= integer_text(*n as int));
                }
                out
            },
            FieldValue::UInt(n) => {
                let mut out = String::new();
                write_decimal(*n, &mut out);
                proof {
                    assert(out@ =~= decimal(*n as nat));
                }
                out
            },
        }
    }
}

impl LogEvent {
    /// The event's `fields` object.
    pub fn fields_json(&self) -> (r: String)
        ensures
            r@ == object_text(field_entries(self.fields@)),
    {
        let n = self.fields.len();
        let mut es: Vec<(String, String)> = Vec::new();
        let mut i: usize = 0;
        while i < n
            invariant
                n == self.fields@.len(),
                i <= n,
                entries_view(es@) =~= field_entries(self.fields@).take(i as int),
            decreases n - i,
        {
            let k = self.fields[i].0.clone();
            let v = self.fields[i].1.to_json();
            let ghost prev = es@;
            let ghost kv = (k@, v@);
            es.push((k, v));
            proof {
                assert(entries_view(es@) =~= entries_view(prev).push(kv));
                assert(field_entries(self.fields@)[i as int] == kv);
                assert(entries_view(es@) =~= field_entries(self.fields@).take(i as int + 1));
            }
            i = i + 1;
        }
        proof {
            assert(field_entries(self.fields@).take(n as int) =~= field_entries(self.fields@));
        }
        object(&es)
    }
}

impl SpanRegistry {
    /// The `spans` array: every span from the root down to `id`, rendered.
    pub fn render_context(&self, id: usize) -> (r: String)
        requires
            self.wf(),
            id < self.spans@.len(),
        ensures
            r@ == array_text(context_texts(self.spans@, id as nat)),
    {
        let ids = self.ancestors_from_root(id);
        let ghost c = chain(self.spans@, id as nat);
        let n = ids.len();
        let mut xs: Vec<String> = Vec::new();
        let mut i: usize = 0;
        proof {
            assert(c.len() == n);
        }
        while i < n
            invariant
                n == ids@.len(),
                i <= n,
                c == chain(self.spans@, id as nat),
                ids@.map_values(|x: usize| x as nat) == c,
                forall|k: int| 0 <= k < ids@.len() ==> (#[trigger] ids@[k]) < self.spans@.len(),
                texts_view(xs@) =~= context_texts(self.spans@, id as nat).take(i as int),
            decreases n - i,
        {
            let t = self.render_span(ids[i]);
            let ghost prev = xs@;
            let ghost tv = t@;
            xs.push(t);
            proof {
                assert(texts_view(xs@) =~= texts_view(prev).push(tv));
                assert(context_texts(self.spans@, id as nat)[i as int] == tv);
                assert(c[i as int] == ids@[i as int] as nat);
                assert(texts_view(xs@) =~= context_texts(self.spans@, id as nat).take(i as int + 1));
            }
            i = i + 1;
        }
        proof {
            assert(context_texts(self.spans@, id as nat).take(n as int) =~= context_texts(self.spans@, id as nat));
        }
        array(&xs)
    }
}

/// Renders the record for `ev` at time `timestamp`, with `current` as the
/// span the event occurred in.
pub fn format_record(
    ev: &LogEvent,
    reg: &SpanRegistry,
    current: Option<usize>,
    timestamp: &str,
) -> (r: String)
    requires
        reg.wf(),
        current is Some ==> current->0 < reg.spans@.len(),
    ensures
        r@ == record_text(*ev, reg.spans@, current, timestamp@),
{
    proof {
        reveal_strlit("timestamp");
        reveal_strlit("level");
        reveal_strlit("fields");
        reveal_strlit("target");
        reveal_strlit("span");
        reveal_strlit("spans");
        reveal_strlit("span_id");
        reveal_strlit("trace_id");
    }
    let mut es: Vec<(String, String)> = Vec::new();
    es.push((owned("timestamp"), quote(timestamp)));
    es.push((owned("level"), quote(ev.level.as_str())));
    es.push((owned("fields"), ev.fields_json()));
    es.push((owned("target"), quote(ev.target.as_str())));
    match current {
        None => {},
        Some(id) => {
            es.push((owned("span"), reg.render_span(id)));
            es.push((owned("spans"), reg.render_context(id)));
            match reg.lookup_trace_info(id) {
                None => {},
                Some(t) => {
                    es.push((owned("span_id"), quote(t.span_id.as_str())));
                    es.push((owned("trace_id"), quote(t.trace_id.as_str())));
                },
            }
        },
    }
    proof {
        assert(entries_view(es@) =~= record_entries(*ev, reg.spans@, current, timestamp@));
    }
    object(&es)
}

/// Formats `ev` with the current time and appends the record and one newline
/// to `out`.
pub fn format_event(ev: &LogEvent, reg: &SpanRegistry, current: Option<usize>, out: &mut String)
    requires
        reg.wf(),
        current is Some ==> current->0 < reg.spans@.len(),
    ensures
        exists|ts: Seq<char>|
            final(out)@ == old(out)@ + record_text(*ev, reg.spans@, current, ts) + seq!['\n'],
{
    proof {
        reveal_strlit("\n");
    }
    let ts = now_rfc3339();
    let rec = format_record(ev, reg, current, ts.as_str());
    out.append(rec.as_str());
    out.append("\n");
    proof {
        assert(final(out)@ =~= old(out)@ + record_text(*ev, reg.spans@, current, ts@) + seq!['\n']);
    }
}

/// An event outside any span yields exactly `timestamp`, `level`, `fields`
/// and `target`, in that order.
pub proof fn lemma_record_without_span(ev: LogEvent, spans: Seq<SpanData>, ts: Seq<char>)
    ensures
        keys_of(record_entries(ev, spans, None, ts)) == seq![
            "timestamp"@,
            "level"@,
            "fields"@,
            "target"@,
        ],
{
    assert(keys_of(record_entries(ev, spans, None, ts)) =~= seq![
        "timestamp"@,
        "level"@,
        "fields"@,
        "target"@,
    ]);
}

/// An event inside span `id` yields `timestamp`, `level`, `fields`, `target`,
/// `span` and `spans`, then either nothing more or `span_id` and `trace_id`
/// (when the span carries trace data). `spans` holds one rendering for each
/// span of the chain from a root down to `id`, root first, each the parent of
/// the next, and its last element is the `span` member.
pub proof fn lemma_record_in_span(ev: LogEvent, spans: Seq<SpanData>, id: usize, ts: Seq<char>)
    requires
        spans_wf(spans),
        id < spans.len(),
    ensures
        keys_of(record_entries(ev, spans, Some(id), ts)) == seq![
            "timestamp"@,
            "level"@,
            "fields"@,
            "target"@,
            "span"@,
            "spans"@,
        ] + (if spans[id as int].trace is Some {
            seq!["span_id"@, "trace_id"@]
        } else {
            seq![]
        }),
        record_entries(ev, spans, Some(id), ts)[5].1 == array_text(context_texts(spans, id as nat)),
        context_texts(spans, id as nat).len() == chain(spans, id as nat).len(),
        context_texts(spans, id as nat).last() == record_entries(ev, spans, Some(id), ts)[4].1,
        forall|k: int|
            0 <= k < chain(spans, id as nat).len() ==> #[trigger] context_texts(spans, id as nat)[k]
                == rendered(spans, chain(spans, id as nat)[k]),
        chain(spans, id as nat).last() == id,
        spans[chain(spans, id as nat)[0] as int].parent is None,
        forall|k: int|
            0 <= k < chain(spans, id as nat).len() - 1 ==> spans[#[trigger] chain(spans, id as nat)[k + 1] as int].parent
                == Some(chain(spans, id as nat)[k] as usize),
{
    crate::span::lemma_chain_shape(spans, id as nat);
    let es = record_entries(ev, spans, Some(id), ts);
    let c = chain(spans, id as nat);
    assert(context_texts(spans, id as nat)[c.len() - 1] == rendered(spans, c[c.len() - 1]));
    assert(keys_of(es) =~= seq![
        "timestamp"@,
        "level"@,
        "fields"@,
        "target"@,
        "span"@,
        "spans"@,
    ] + (if spans[id as int].trace is Some {
        seq!["span_id"@, "trace_id"@]
    } else {
        seq![]
    }));
}

/// Two formattings of the same event and span state differ at most in the
/// value of `timestamp`, which comes first.
pub proof fn lemma_record_deterministic(
    ev: LogEvent,
    spans: Seq<SpanData>,
    current: Option<usize>,
    ts1: Seq<char>,
    ts2: Seq<char>,
)
    ensures
        record_entries(ev, spans, current, ts1)[0].0 == "timestamp"@,
        record_entries(ev, spans, current, ts1).len() == record_entries(ev, spans, current, ts2).len(),
        record_entries(ev, spans, current, ts1).drop_first() == record_entries(ev, spans, current, ts2).drop_first(),
        ts1 == ts2 ==> record_text(ev, spans, current, ts1) == record_text(ev, spans, current, ts2),
{
    assert(record_entries(ev, spans, current, ts1).drop_first() =~= record_entries(ev, spans, current, ts2).drop_first());
}

} // verus!
