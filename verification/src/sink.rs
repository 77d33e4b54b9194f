//! Event-sink bookkeeping: the buffer that holds accepted events until a
//! flush writes them, its counters, and the selection rule of a query over
//! written events (by task, by type, up to a limit, in writing order).

use vstd::prelude::*;
use crate::events::EventType;
use crate::text::same;

verus! {

/// Default flush interval: a flush is due every 50 accepted events.
pub const DEFAULT_FLUSH_INTERVAL: usize = 50;

/// State of a [`SinkBuffer`].
pub struct SinkView<T> {
    pub buffer: Seq<T>,
    pub flush_interval: usize,
    pub emitted: u64,
    pub flushed: u64,
    pub write_errors: u64,
}

impl<T> SinkView<T> {
    /// Every accepted event is either written or still pending.
    pub open spec fn balanced(self) -> bool {
        self.emitted as int == self.flushed as int + self.buffer.len()
    }
}

/// Buffer of accepted events with the sink's operation counters.
pub struct SinkBuffer<T> {
    buffer: Vec<T>,
    flush_interval: usize,
    emitted: u64,
    flushed: u64,
    write_errors: u64,
}

impl<T> View for SinkBuffer<T> {
    type V = SinkView<T>;

    closed spec fn view(&self) -> SinkView<T> {
        SinkView {
            buffer: self.buffer@,
            flush_interval: self.flush_interval,
            emitted: self.emitted,
            flushed: self.flushed,
            write_errors: self.write_errors,
        }
    }
}

impl<T> SinkBuffer<T> {
    /// An empty buffer flushing every `flush_interval` events.
    pub fn new(flush_interval: usize) -> (r: Self)
        ensures
            r@.buffer.len() == 0,
            r@.flush_interval == flush_interval,
            r@.emitted == 0,
            r@.flushed == 0,
            r@.write_errors == 0,
            r@.balanced(),
    {
        SinkBuffer { buffer: Vec::new(), flush_interval, emitted: 0, flushed: 0, write_errors: 0 }
    }

    /// Accepts an event; the result says whether a flush is now due (the
    /// buffer holds at least `flush_interval` events).
    pub fn emit(&mut self, event: T) -> (flush_due: bool)
        ensures
            final(self)@.buffer == old(self)@.buffer.push(event),
            final(self)@.emitted == old(self)@.emitted.wrapping_add(1),
            final(self)@.flushed == old(self)@.flushed,
            final(self)@.write_errors == old(self)@.write_errors,
            final(self)@.flush_interval == old(self)@.flush_interval,
            flush_due == (final(self)@.buffer.len() >= final(self)@.flush_interval),
            old(self)@.balanced() && old(self)@.emitted < u64::MAX ==> final(self)@.balanced(),
    {
        self.emitted = self.emitted.wrapping_add(1);
        self.buffer.push(event);
        self.buffer.len() >= self.flush_interval
    }

    /// Events accepted and not yet written, oldest first.
    pub fn pending(&self) -> (r: &Vec<T>)
        ensures
            r@ == self@.buffer,
    {
        &self.buffer
    }

    /// The pending events were all written: they leave the buffer and count
    /// as flushed (nothing changes when none was pending).
    pub fn written(&mut self)
        ensures
            final(self)@.buffer.len() == 0,
            final(self)@.flushed == old(self)@.flushed.wrapping_add(old(self)@.buffer.len() as u64),
            final(self)@.emitted == old(self)@.emitted,
            final(self)@.write_errors == old(self)@.write_errors,
            final(self)@.flush_interval == old(self)@.flush_interval,
            old(self)@.balanced() ==> final(self)@.balanced(),
    {
        if self.buffer.len() == 0 {
            return ;
        }
        let n = self.buffer.len() as u64;
        self.flushed = self.flushed.wrapping_add(n);
        self.buffer.clear();
    }

    /// Writing failed: the events stay pending and the failure is counted.
    pub fn write_failed(&mut self)
        ensures
            final(self)@.buffer == old(self)@.buffer,
            final(self)@.write_errors == old(self)@.write_errors.wrapping_add(1),
            final(self)@.emitted == old(self)@.emitted,
            final(self)@.flushed == old(self)@.flushed,
            final(self)@.flush_interval == old(self)@.flush_interval,
    {
        self.write_errors = self.write_errors.wrapping_add(1);
    }

    /// Events accepted.
    pub fn emitted_count(&self) -> (r: u64)
        ensures
            r == self@.emitted,
    {
        self.emitted
    }

    /// Events written.
    pub fn flushed_count(&self) -> (r: u64)
        ensures
            r == self@.flushed,
    {
        self.flushed
    }

    /// Failed writes.
    pub fn write_error_count(&self) -> (r: u64)
        ensures
            r == self@.write_errors,
    {
        self.write_errors
    }
}

/// What a query reads of a written event.
pub struct EventKey {
    pub task_id: String,
    pub event_type: EventType,
}

/// Whether an event passes the query: same task unless the task filter is
/// empty, same type when a type is given.
pub open spec fn passes(key: EventKey, task_id: Seq<char>, event_type: Option<EventType>) -> bool {
    &&& (task_id.len() == 0 || key.task_id@ == task_id)
    &&& (event_type matches Some(t) ==> key.event_type == t)
}

/// Positions among the first `n` events that pass the query, in order.
pub open spec fn passing(keys: Seq<EventKey>, n: int, task_id: Seq<char>, event_type: Option<EventType>) -> Seq<usize>
    decreases n,
{
    if n <= 0 {
        Seq::empty()
    } else if passes(keys[n - 1], task_id, event_type) {
        passing(keys, n - 1, task_id, event_type).push((n - 1) as usize)
    } else {
        passing(keys, n - 1, task_id, event_type)
    }
}

/// The query's answer: the first passing positions, at most `limit` of them.
pub open spec fn selection(keys: Seq<EventKey>, task_id: Seq<char>, event_type: Option<EventType>, limit: usize) -> Seq<usize> {
    let all = passing(keys, keys.len() as int, task_id, event_type);
    if all.len() <= limit {
        all
    } else {
        all.take(limit as int)
    }
}

proof fn lemma_passing_prefix(keys: Seq<EventKey>, n: int, m: int, task_id: Seq<char>, event_type: Option<EventType>)
    requires
        0 <= n <= m,
    ensures
        passing(keys, n, task_id, event_type).len() <= passing(keys, m, task_id, event_type).len(),
        passing(keys, m, task_id, event_type).take(passing(keys, n, task_id, event_type).len() as int)
            == passing(keys, n, task_id, event_type),
    decreases m - n,
{
    if n < m {
        lemma_passing_prefix(keys, n, m - 1, task_id, event_type);
        let a = passing(keys, n, task_id, event_type);
        let b = passing(keys, m - 1, task_id, event_type);
        let c = passing(keys, m, task_id, event_type);
        assert(c.take(a.len() as int) =~= b.take(a.len() as int));
    } else {
        let a = passing(keys, n, task_id, event_type);
        assert(a.take(a.len() as int) =~= a);
    }
}

/// Positions of the events a query returns: those of task `task_id` (any
/// task when empty) and of type `event_type` (any when `None`), in writing
/// order, at most `limit` of them.
pub fn select_events(keys: &Vec<EventKey>, task_id: &str, event_type: Option<EventType>, limit: usize) -> (r: Vec<usize>)
    ensures
        r@ == selection(keys@, task_id@, event_type, limit),
        r@.len() <= limit,
{
    let mut r: Vec<usize> = Vec::new();
    if limit == 0 {
        assert(selection(keys@, task_id@, event_type, limit) =~= Seq::<usize>::empty());
        return r;
    }
    let any_task = task_id.is_empty();
    let mut i: usize = 0;
    while i < keys.len()
        invariant
            i <= keys.len(),
            any_task == (task_id@.len() == 0),
            r@ == passing(keys@, i as int, task_id@, event_type),
            r@.len() < limit,
        decreases keys.len() - i,
    {
        let key = &keys[i];
        let task_ok = any_task || same(key.task_id.as_str(), task_id);
        let type_ok = match event_type {
            Some(t) => key.event_type == t,
            None => true,
        };
        if task_ok && type_ok {
            r.push(i);
            if r.len() >= limit {
                proof {
                    lemma_passing_prefix(keys@, i + 1, keys@.len() as int, task_id@, event_type);
                }
                return r;
            }
        }
        i = i + 1;
    }
    r
}

} // verus!
