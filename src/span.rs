//! Spans held in an arena, the walk from a span up to its root, and the
//! trace correlation identifiers that a span may carry.
use vstd::prelude::*;

verus! {

/// The correlation data that a tracing integration attaches to a span.
pub struct TraceExt {
    /// The trace the span belongs to, as recorded in its parent context.
    pub trace_id: u128,
    /// The span's own id, once the integration has assigned one.
    pub span_id: Option<u64>,
}

/// Correlation identifiers rendered as text.
pub struct TraceInfo {
    pub trace_id: String,
    pub span_id: String,
}

/// One live span.
pub struct SpanData {
    pub name: String,
    /// The index of the enclosing span in the registry, if any.
    pub parent: Option<usize>,
    /// The span's field cache: the text of its formatted fields, if any were recorded.
    pub fields: Option<String>,
    /// Correlation data, if the tracing integration attached any.
    pub trace: Option<TraceExt>,
}

/// Spans indexed by position; a parent always stands before its children.
pub struct SpanRegistry {
    pub spans: Vec<SpanData>,
}

/// Every parent link points to an earlier span.
pub open spec fn spans_wf(spans: Seq<SpanData>) -> bool {
    forall|i: int|
        0 <= i < spans.len() && (#[trigger] spans[i]).parent is Some ==> spans[i].parent->0 < i
}

/// The spans from the root down to `id`, inclusive.
pub open spec fn chain(spans: Seq<SpanData>, id: nat) -> Seq<nat>
    decreases id,
{
    if id < spans.len() {
        match spans[id as int].parent {
            Some(p) => if (p as nat) < id {
                chain(spans, p as nat).push(id)
            } else {
                seq![id]
            },
            None => seq![id],
        }
    } else {
        seq![id]
    }
}

/// The lower-case hexadecimal digit for `d < 16`.
pub open spec fn hex_char(d: nat) -> char {
    if d < 10 {
        ((d + 48) as u8) as char
    } else {
        ((d + 87) as u8) as char
    }
}

/// The last `w` hexadecimal digits of `n`, zero-padded.
pub open spec fn hex_fixed(n: nat, w: nat) -> Seq<char>
    decreases w,
{
    if w == 0 {
        seq![]
    } else {
        hex_fixed(n / 16, (w - 1) as nat) + seq![hex_char(n % 16)]
    }
}

/// Relies on opentelemetry's `TraceId::from(u128)` and its `Display`, which
/// writes the id as 32 lower-case hexadecimal digits (`{:032x}`).
#[verifier::external_body]
fn trace_id_text(id: u128) -> (r: String)
    ensures
        r@ == hex_fixed(id as nat, 32),
{
    opentelemetry::trace::TraceId::from(id).to_string()
}

/// Relies on opentelemetry's `SpanId::from(u64)` and its `Display`, which
/// writes the id as 16 lower-case hexadecimal digits (`{:016x}`).
#[verifier::external_body]
fn span_id_text(id: u64) -> (r: String)
    ensures
        r@ == hex_fixed(id as nat, 16),
{
    opentelemetry::trace::SpanId::from(id).to_string()
}

/// The identifier that stands for a span id that was never assigned.
pub open spec fn invalid_span_id() -> u64 {
    0
}

/// The correlation identifiers for a span's trace data, as text.
pub open spec fn trace_info_of(t: Option<TraceExt>) -> Option<(Seq<char>, Seq<char>)> {
    match t {
        None => None,
        Some(x) => Some(
            (
                hex_fixed(x.trace_id as nat, 32),
                hex_fixed(
                    match x.span_id {
                        Some(s) => s,
                        None => invalid_span_id(),
                    } as nat,
                    16,
                ),
            ),
        ),
    }
}

/// The chain of a span starts at a root, ends at the span itself, and each
/// span in it is the parent of the next.
pub proof fn lemma_chain_shape(spans: Seq<SpanData>, id: nat)
    requires
        spans_wf(spans),
        id < spans.len(),
    ensures
        chain(spans, id).len() >= 1,
        chain(spans, id).last() == id,
        forall|k: int| 0 <= k < chain(spans, id).len() ==> #[trigger] chain(spans, id)[k] < spans.len(),
        spans[chain(spans, id)[0] as int].parent is None,
        forall|k: int|
            0 <= k < chain(spans, id).len() - 1 ==> spans[#[trigger] chain(spans, id)[k + 1] as int].parent
                == Some(chain(spans, id)[k] as usize),
    decreases id,
{
    let s = spans[id as int];
    assert(s.parent is Some ==> s.parent->0 < id);
    match s.parent {
        None => {},
        Some(p) => {
            lemma_chain_shape(spans, p as nat);
            let c0 = chain(spans, p as nat);
            assert(chain(spans, id) == c0.push(id));
            assert forall|k: int| 0 <= k < chain(spans, id).len() - 1 implies spans[#[trigger] chain(spans, id)[k + 1] as int].parent
                == Some(chain(spans, id)[k] as usize) by {
                if k + 1 < c0.len() {
                    assert(chain(spans, id)[k + 1] == c0[k + 1]);
                } else {
                    assert(chain(spans, id)[k + 1] == id);
                    assert(c0.last() == p);
                }
            }
        },
    }
}

impl SpanRegistry {
    pub open spec fn wf(&self) -> bool {
        spans_wf(self.spans@)
    }

    /// An empty registry.
    pub fn new() -> (r: Self)
        ensures
            r.wf(),
            r.spans@.len() == 0,
    {
        SpanRegistry { spans: Vec::new() }
    }

    /// Opens a span under `parent` and returns its index.
    pub fn open_span(&mut self, name: String, parent: Option<usize>) -> (r: usize)
        requires
            old(self).wf(),
            parent is Some ==> parent->0 < old(self).spans@.len(),
        ensures
            final(self).wf(),
            r == old(self).spans@.len(),
            final(self).spans@.len() == old(self).spans@.len() + 1,
            final(self).spans@.take(r as int) == old(self).spans@,
            final(self).spans@[r as int].name == name,
            final(self).spans@[r as int].parent == parent,
            final(self).spans@[r as int].fields is None,
            final(self).spans@[r as int].trace is None,
    {
        let r = self.spans.len();
        self.spans.push(SpanData { name, parent, fields: None, trace: None });
        proof {
            assert(self.spans@.take(r as int) =~= old(self).spans@);
        }
        r
    }

    /// Replaces the field cache of span `id`.
    pub fn record_fields(&mut self, id: usize, fields: String)
        requires
            old(self).wf(),
            id < old(self).spans@.len(),
        ensures
            final(self).wf(),
            final(self).spans@.len() == old(self).spans@.len(),
            final(self).spans@[id as int].fields == Some(fields),
            final(self).spans@[id as int].name == old(self).spans@[id as int].name,
            final(self).spans@[id as int].parent == old(self).spans@[id as int].parent,
            final(self).spans@[id as int].trace == old(self).spans@[id as int].trace,
            forall|j: int| 0 <= j < old(self).spans@.len() && j != id ==> final(self).spans@[j] == old(self).spans@[j],
    {
        let mut s = self.spans.remove(id);
        s.fields = Some(fields);
        self.spans.insert(id, s);
        proof {
            assert forall|j: int| 0 <= j < self.spans@.len() && j != id implies self.spans@[j] == old(self).spans@[j] by {}
        }
    }

    /// Attaches correlation data to span `id`.
    pub fn attach_trace(&mut self, id: usize, trace: TraceExt)
        requires
            old(self).wf(),
            id < old(self).spans@.len(),
        ensures
            final(self).wf(),
            final(self).spans@.len() == old(self).spans@.len(),
            final(self).spans@[id as int].trace == Some(trace),
            final(self).spans@[id as int].name == old(self).spans@[id as int].name,
            final(self).spans@[id as int].parent == old(self).spans@[id as int].parent,
            final(self).spans@[id as int].fields == old(self).spans@[id as int].fields,
            forall|j: int| 0 <= j < old(self).spans@.len() && j != id ==> final(self).spans@[j] == old(self).spans@[j],
    {
        let mut s = self.spans.remove(id);
        s.trace = Some(trace);
        self.spans.insert(id, s);
    }

    /// The indices of the spans from the root down to `id`, inclusive.
    pub fn ancestors_from_root(&self, id: usize) -> (r: Vec<usize>)
        requires
            self.wf(),
            id < self.spans@.len(),
        ensures
            r@.map_values(|x: usize| x as nat) == chain(self.spans@, id as nat),
            r@.len() >= 1,
            r@.last() == id,
            forall|k: int| 0 <= k < r@.len() ==> (#[trigger] r@[k]) < self.spans@.len(),
        decreases id,
    {
        let mut v = match self.spans[id].parent {
            Some(p) => self.ancestors_from_root(p),
            None => Vec::new(),
        };
        let ghost prev = v@;
        v.push(id);
        proof {
            assert(v@.map_values(|x: usize| x as nat) =~= prev.map_values(|x: usize| x as nat).push(id as nat));
        }
        v
    }

    /// The correlation identifiers of span `id`, if it carries trace data; an
    /// unassigned span id is rendered as the invalid id.
    pub fn lookup_trace_info(&self, id: usize) -> (r: Option<TraceInfo>)
        requires
            id < self.spans@.len(),
        ensures
            match (r, trace_info_of(self.spans@[id as int].trace)) {
                (None, None) => true,
                (Some(t), Some(e)) => t.trace_id@ == e.0 && t.span_id@ == e.1,
                _ => false,
            },
    {
        match &self.spans[id].trace {
            None => None,
            Some(t) => {
                let sid: u64 = match t.span_id {
                    Some(s) => s,
                    None => 0,
                };
                Some(TraceInfo { trace_id: trace_id_text(t.trace_id), span_id: span_id_text(sid) })
            },
        }
    }
}

} // verus!
