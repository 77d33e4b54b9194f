//! The trace collector: groups execution-trace events by trace, in arrival
//! order, in a concurrent map.

use vstd::prelude::*;
use crate::text::owned;

verus! {

/// A processed trace event.
#[derive(Debug, Clone, PartialEq, Eq)]
pub struct TraceEvent {
    pub trace_id: String,
    pub seq_num: u32,
    pub event_type: i32,
    pub task_id: String,
    pub agent_id: String,
    pub payload_json: String,
    pub timestamp_ns: u64,
}

/// An execution-trace event as the domain carries it.
#[derive(Debug, Clone, PartialEq, Eq)]
pub struct ExecutionTraceEvent {
    pub trace_id: String,
    pub seq_num: u32,
    pub event_type: i32,
    pub task_id: String,
    pub request_id: String,
    pub agent_id: String,
    pub component_id: String,
    pub component_type: i32,
    pub payload_json: String,
    pub timestamp_ns: u64,
}

/// The processed form of a domain event.
pub open spec fn processed(e: ExecutionTraceEvent) -> (Seq<char>, u32, i32, Seq<char>, Seq<char>, Seq<char>, u64) {
    (e.trace_id@, e.seq_num, e.event_type, e.task_id@, e.agent_id@, e.payload_json@, e.timestamp_ns)
}

/// What a trace event shows of itself.
pub open spec fn trace_view(t: TraceEvent) -> (Seq<char>, u32, i32, Seq<char>, Seq<char>, Seq<char>, u64) {
    (t.trace_id@, t.seq_num, t.event_type, t.task_id@, t.agent_id@, t.payload_json@, t.timestamp_ns)
}

#[verifier::external_type_specification]
#[verifier::external_body]
#[verifier::reject_recursive_types(K)]
#[verifier::reject_recursive_types(V)]
#[verifier::reject_recursive_types(S)]
pub struct ExDashMap<K, V, S>(dashmap::DashMap<K, V, S>);

/// The concurrent table of traces: events per trace id.
pub type TraceTable = dashmap::DashMap<String, Vec<TraceEvent>>;

/// No trace at all.
pub open spec fn no_traces() -> Map<Seq<char>, Seq<TraceEvent>> {
    Map::empty()
}

/// The events a trace table holds, per trace id.
pub uninterp spec fn traces_held(m: TraceTable) -> Map<Seq<char>, Seq<TraceEvent>>;

/// An empty table (`DashMap::new`).
#[verifier::external_body]
fn traces_new() -> (m: TraceTable)
    ensures
        traces_held(m) == no_traces(),
{
    dashmap::DashMap::new()
}

/// Appends `event` to the list of `key`, creating it empty first when the
/// key is new (`entry(key).or_default().push(event)`).
#[verifier::external_body]
fn traces_append(m: &mut TraceTable, key: String, event: TraceEvent)
    ensures
        traces_held(*final(m)) == traces_held(*old(m)).insert(
            key@,
            if traces_held(*old(m)).dom().contains(key@) {
                traces_held(*old(m))[key@]
            } else {
                Seq::<TraceEvent>::empty()
            }.push(event),
        ),
{
    m.entry(key).or_default().push(event);
}

/// A copy of the list of `key`, if the key is held (`get(key)` cloned).
#[verifier::external_body]
fn traces_get(m: &TraceTable, key: &str) -> (r: Option<Vec<TraceEvent>>)
    ensures
        match r {
            Some(v) => traces_held(*m).dom().contains(key@) && v@ == traces_held(*m)[key@],
            None => !traces_held(*m).dom().contains(key@),
        },
{
    m.get(key).map(|e| e.value().clone())
}

/// Every key held, once each, in the table's own order (`iter()` keys).
#[verifier::external_body]
fn traces_keys(m: &TraceTable) -> (r: Vec<String>)
    ensures
        forall|i: int| 0 <= i < r@.len() ==> traces_held(*m).dom().contains(#[trigger] r@[i]@),
        forall|i: int, j: int| 0 <= i < j < r@.len() ==> (#[trigger] r@[i])@ != (#[trigger] r@[j])@,
        forall|k: Seq<char>| #[trigger] traces_held(*m).dom().contains(k) ==> exists|i: int| 0 <= i < r@.len() && (
        #[trigger] r@[i])@ == k,
{
    m.iter().map(|e| e.key().clone()).collect()
}

/// Every key held with a copy of its list, once each, in the table's own
/// order (`iter()` entries cloned).
#[verifier::external_body]
fn traces_entries(m: &TraceTable) -> (r: Vec<(String, Vec<TraceEvent>)>)
    ensures
        forall|i: int| 0 <= i < r@.len() ==> traces_held(*m).dom().contains((#[trigger] r@[i]).0@) && r@[i].1@
            == traces_held(*m)[r@[i].0@],
        forall|i: int, j: int| 0 <= i < j < r@.len() ==> (#[trigger] r@[i]).0@ != (#[trigger] r@[j]).0@,
        forall|k: Seq<char>| #[trigger] traces_held(*m).dom().contains(k) ==> exists|i: int| 0 <= i < r@.len() && (
        #[trigger] r@[i]).0@ == k,
{
    m.iter().map(|e| (e.key().clone(), e.value().clone())).collect()
}

/// Number of keys held (`len`).
#[verifier::external_body]
fn traces_len(m: &TraceTable) -> (r: usize)
    ensures
        r == traces_held(*m).dom().len(),
{
    m.len()
}

/// Drops every key (`clear`).
#[verifier::external_body]
fn traces_clear(m: &mut TraceTable)
    ensures
        traces_held(*final(m)) == no_traces(),
{
    m.clear();
}

/// Contents of a [`TraceCollector`].
pub struct CollectorView {
    pub traces: Map<Seq<char>, Seq<TraceEvent>>,
    pub total: u64,
    pub output_dir: Seq<char>,
}

/// Aggregator of execution-trace events.
pub struct TraceCollector {
    events: TraceTable,
    total_count: u64,
    output_dir: String,
}

impl View for TraceCollector {
    type V = CollectorView;

    closed spec fn view(&self) -> CollectorView {
        CollectorView { traces: traces_held(self.events), total: self.total_count, output_dir: self.output_dir@ }
    }
}

impl TraceCollector {
    /// An empty collector writing into `output_dir` (the directory itself
    /// is created by the caller).
    pub fn new(output_dir: &str) -> (r: Self)
        ensures
            r@.traces == no_traces(),
            r@.total == 0,
            r@.output_dir == output_dir@,
    {
        TraceCollector { events: traces_new(), total_count: 0, output_dir: owned(output_dir) }
    }

    /// Takes in one event: it joins the end of its trace, and the event
    /// count grows by one (wrapping, as an atomic counter does).
    pub fn ingest(&mut self, event: &ExecutionTraceEvent)
        ensures
            final(self)@.traces.dom() == old(self)@.traces.dom().insert(event.trace_id@),
            final(self)@.traces[event.trace_id@].len() == (if old(self)@.traces.dom().contains(event.trace_id@) {
                old(self)@.traces[event.trace_id@].len()
            } else {
                0
            }) + 1,
            final(self)@.traces[event.trace_id@].drop_last() == if old(self)@.traces.dom().contains(
                event.trace_id@,
            ) {
                old(self)@.traces[event.trace_id@]
            } else {
                Seq::<TraceEvent>::empty()
            },
            trace_view(final(self)@.traces[event.trace_id@].last()) == processed(*event),
            forall|k: Seq<char>| k != event.trace_id@ && #[trigger] old(self)@.traces.dom().contains(k)
                ==> final(self)@.traces[k] == old(self)@.traces[k],
            final(self)@.total == (old(self)@.total + 1) % 0x1_0000_0000_0000_0000,
            final(self)@.output_dir == old(self)@.output_dir,
    {
        let trace_event = TraceEvent {
            trace_id: owned(event.trace_id.as_str()),
            seq_num: event.seq_num,
            event_type: event.event_type,
            task_id: owned(event.task_id.as_str()),
            agent_id: owned(event.agent_id.as_str()),
            payload_json: owned(event.payload_json.as_str()),
            timestamp_ns: event.timestamp_ns,
        };
        traces_append(&mut self.events, owned(event.trace_id.as_str()), trace_event);
        self.total_count = self.total_count.wrapping_add(1);
        proof {
            let t = traces_held(self.events)[event.trace_id@];
            assert(t.drop_last() =~= if old(self)@.traces.dom().contains(event.trace_id@) {
                old(self)@.traces[event.trace_id@]
            } else {
                Seq::<TraceEvent>::empty()
            });
        }
    }

    /// The events of trace `trace_id`, in arrival order (none for an
    /// unknown trace).
    pub fn get_trace(&self, trace_id: &str) -> (r: Vec<TraceEvent>)
        ensures
            r@ == if self@.traces.dom().contains(trace_id@) {
                self@.traces[trace_id@]
            } else {
                Seq::<TraceEvent>::empty()
            },
    {
        match traces_get(&self.events, trace_id) {
            Some(v) => v,
            None => Vec::new(),
        }
    }

    /// Every trace id, once each.
    pub fn all_trace_ids(&self) -> (r: Vec<String>)
        ensures
            forall|i: int| 0 <= i < r@.len() ==> self@.traces.dom().contains(#[trigger] r@[i]@),
            forall|i: int, j: int| 0 <= i < j < r@.len() ==> (#[trigger] r@[i])@ != (#[trigger] r@[j])@,
            forall|k: Seq<char>| #[trigger] self@.traces.dom().contains(k) ==> exists|i: int| 0 <= i < r@.len() && (
            #[trigger] r@[i])@ == k,
    {
        traces_keys(&self.events)
    }

    /// Every trace with its events, once each (what a flush writes).
    pub fn all_traces(&self) -> (r: Vec<(String, Vec<TraceEvent>)>)
        ensures
            forall|i: int| 0 <= i < r@.len() ==> self@.traces.dom().contains((#[trigger] r@[i]).0@) && r@[i].1@
                == self@.traces[r@[i].0@],
            forall|i: int, j: int| 0 <= i < j < r@.len() ==> (#[trigger] r@[i]).0@ != (#[trigger] r@[j]).0@,
            forall|k: Seq<char>| #[trigger] self@.traces.dom().contains(k) ==> exists|i: int| 0 <= i < r@.len() && (
            #[trigger] r@[i]).0@ == k,
    {
        traces_entries(&self.events)
    }

    /// Number of traces.
    pub fn trace_count(&self) -> (r: usize)
        ensures
            r == self@.traces.dom().len(),
    {
        traces_len(&self.events)
    }

    /// Number of events taken in since the last clear.
    pub fn event_count(&self) -> (r: u64)
        ensures
            r == self@.total,
    {
        self.total_count
    }

    /// Directory the traces are written into.
    pub fn output_dir(&self) -> (r: &str)
        ensures
            r@ == self@.output_dir,
    {
        self.output_dir.as_str()
    }

    /// Forgets every trace and resets the count.
    pub fn clear(&mut self)
        ensures
            final(self)@.traces == no_traces(),
            final(self)@.total == 0,
            final(self)@.output_dir == old(self)@.output_dir,
    {
        traces_clear(&mut self.events);
        self.total_count = 0;
    }
}

/// Taking in events of one trace keeps them in arrival order: after
/// taking `a` then `b` into a collector that did not hold their trace,
/// the trace is exactly `[a, b]`.
pub proof fn lemma_trace_keeps_order(
    t0: Map<Seq<char>, Seq<TraceEvent>>,
    t1: Map<Seq<char>, Seq<TraceEvent>>,
    t2: Map<Seq<char>, Seq<TraceEvent>>,
    id: Seq<char>,
)
    requires
        !t0.dom().contains(id),
        t1.dom().contains(id) && t1[id].len() == 1,
        t2.dom().contains(id) && t2[id].len() == 2 && t2[id].drop_last() == t1[id],
    ensures
        t2[id] == seq![t1[id][0], t2[id][1]],
{
    assert(t2[id] =~= seq![t1[id][0], t2[id][1]]);
}

} // verus!
