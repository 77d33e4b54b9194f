//! Operations and logs: a timeline per kind of activity, a log viewer with
//! a bounded buffer, and "stop following" where no cancellation exists.
//! Sending is not acceptance, and acceptance is not completion.

use vstd::prelude::*;
use std::collections::VecDeque;
use crate::text::{contains, contains_str, lemma_filter_push};

verus! {

broadcast use vstd::seq_lib::group_seq_properties;

/// Confirmation state of an operation.
#[derive(Debug, Clone, Copy, PartialEq, Eq, Structural)]
pub enum OpState {
    Prepared,
    Sent,
    Accepted,
    Running,
    Done,
    Failed,
    Unconfirmed,
}

impl OpState {
    /// Display name.
    pub open spec fn title(self) -> Seq<char> {
        match self {
            OpState::Prepared => "preparada"@,
            OpState::Sent => "enviada"@,
            OpState::Accepted => "aceita"@,
            OpState::Running => "em andamento"@,
            OpState::Done => "concluída"@,
            OpState::Failed => "falhou"@,
            OpState::Unconfirmed => "sem confirmação"@,
        }
    }

    /// Display name.
    pub fn label(self) -> (r: &'static str)
        ensures
            r@ == self.title(),
    {
        match self {
            OpState::Prepared => "preparada",
            OpState::Sent => "enviada",
            OpState::Accepted => "aceita",
            OpState::Running => "em andamento",
            OpState::Done => "concluída",
            OpState::Failed => "falhou",
            OpState::Unconfirmed => "sem confirmação",
        }
    }
}

/// A timeline event (a terminal one is kept even when others are dropped).
#[derive(Debug, Clone, PartialEq, Eq)]
pub struct OpEvent {
    pub detail: String,
    pub terminal: bool,
}

/// An operation being followed.
#[derive(Debug, Clone, PartialEq, Eq)]
pub struct OperationRecord {
    pub id: String,
    pub kind: String,
    pub resource: String,
    pub machine: String,
    pub state: OpState,
    pub events: Vec<OpEvent>,
    pub cancel_supported: bool,
}

/// The action offered for an operation: finished ones are archived; the
/// others can be cancelled only where cancellation exists, and otherwise
/// only stop being followed.
pub open spec fn follow_text(state: OpState, cancel_supported: bool) -> Seq<char> {
    if state == OpState::Done || state == OpState::Failed {
        "arquivada"@
    } else if cancel_supported {
        "Cancelar execução"@
    } else {
        "Parar de acompanhar"@
    }
}

impl OperationRecord {
    /// The honest action for an operation in `self_state`.
    pub fn follow_action(self_state: OpState, cancel_supported: bool) -> (r: &'static str)
        ensures
            r@ == follow_text(self_state, cancel_supported),
    {
        match (self_state, cancel_supported) {
            (OpState::Done, _) => "arquivada",
            (OpState::Failed, _) => "arquivada",
            (_, true) => "Cancelar execução",
            (_, false) => "Parar de acompanhar",
        }
    }
}

/// Contents of a [`LogViewer`].
pub struct LogView {
    pub lines: Seq<Seq<char>>,
    pub capacity: usize,
    pub follow: bool,
    pub query: Seq<char>,
}

/// Log viewer: bounded buffer, pause, search and following.
#[derive(Debug, Clone)]
pub struct LogViewer {
    lines: VecDeque<String>,
    pub capacity: usize,
    pub follow: bool,
    pub query: String,
}

/// The buffer after taking in `line` with room for `capacity` lines: the
/// oldest line leaves first when it is full.
pub open spec fn take_line(lines: Seq<Seq<char>>, line: Seq<char>, capacity: nat) -> Seq<Seq<char>> {
    if lines.len() >= capacity && lines.len() > 0 {
        lines.drop_first().push(line)
    } else {
        lines.push(line)
    }
}

/// The buffer after taking in every line of `batch`, in order.
pub open spec fn take_batch(lines: Seq<Seq<char>>, batch: Seq<Seq<char>>, capacity: nat) -> Seq<Seq<char>>
    decreases batch.len(),
{
    if batch.len() == 0 {
        lines
    } else {
        take_line(take_batch(lines, batch.drop_last(), capacity), batch.last(), capacity)
    }
}

/// The lines a search for `query` shows: all when it is empty, otherwise
/// those containing it.
pub open spec fn matching(lines: Seq<Seq<char>>, query: Seq<char>) -> Seq<Seq<char>> {
    lines.filter(|l: Seq<char>| query.len() == 0 || contains(l, query))
}

/// A buffer within its capacity keeps exactly the newest `capacity`
/// lines of what it held followed by the batch.
pub proof fn lemma_take_batch_keeps_newest(lines: Seq<Seq<char>>, batch: Seq<Seq<char>>, capacity: nat)
    requires
        capacity >= 1,
        lines.len() <= capacity,
    ensures
        take_batch(lines, batch, capacity) == (lines + batch).skip(
            if lines.len() + batch.len() > capacity {
                lines.len() + batch.len() - capacity
            } else {
                0
            },
        ),
    decreases batch.len(),
{
    if batch.len() > 0 {
        let b = batch.drop_last();
        lemma_take_batch_keeps_newest(lines, b, capacity);
        let prev = take_batch(lines, b, capacity);
        let all = lines + batch;
        assert((lines + b) =~= all.drop_last());
        if lines.len() + b.len() >= capacity {
            assert(prev.len() == capacity);
            assert(prev.drop_first().push(batch.last()) =~= all.skip(lines.len() + batch.len() - capacity));
        } else {
            assert(prev.push(batch.last()) =~= all.skip(0));
        }
    } else {
        assert(lines + batch =~= lines);
        assert(lines.skip(0) =~= lines);
    }
}

impl View for LogViewer {
    type V = LogView;

    closed spec fn view(&self) -> LogView {
        LogView {
            lines: self.lines@.map_values(|s: String| s@),
            capacity: self.capacity,
            follow: self.follow,
            query: self.query@,
        }
    }
}

impl LogViewer {
    /// An empty, following viewer with room for `capacity` lines (at
    /// least one).
    pub fn new(capacity: usize) -> (r: Self)
        ensures
            r@.lines.len() == 0,
            r@.capacity == if capacity >= 1 {
                capacity
            } else {
                1
            },
            r@.follow,
            r@.query.len() == 0,
    {
        let c = if capacity >= 1 {
            capacity
        } else {
            1
        };
        LogViewer { lines: VecDeque::new(), capacity: c, follow: true, query: String::new() }
    }

    /// Appends a batch; past the capacity, the oldest lines are dropped.
    pub fn push_batch(&mut self, batch: &[String])
        ensures
            final(self)@.lines == take_batch(
                old(self)@.lines,
                batch@.map_values(|s: String| s@),
                old(self)@.capacity as nat,
            ),
            final(self)@.capacity == old(self)@.capacity,
            final(self)@.follow == old(self)@.follow,
            final(self)@.query == old(self)@.query,
    {
        let ghost start = self@.lines;
        let ghost all = batch@.map_values(|s: String| s@);
        let mut i: usize = 0;
        assert(all.take(0) =~= Seq::<Seq<char>>::empty());
        while i < batch.len()
            invariant
                i <= batch@.len(),
                all == batch@.map_values(|s: String| s@),
                self@.lines == take_batch(start, all.take(i as int), self.capacity as nat),
                self.capacity == old(self).capacity,
                self.follow == old(self).follow,
                self.query == old(self).query,
            decreases batch.len() - i,
        {
            proof {
                assert(all.take(i + 1).drop_last() =~= all.take(i as int));
            }
            let ghost before = self.lines@;
            if self.lines.len() >= self.capacity {
                let _ = self.lines.pop_front();
            }
            let line = batch[i].clone();
            self.lines.push_back(line);
            proof {
                let v = |s: String| s@;
                if before.len() >= self.capacity && before.len() > 0 {
                    assert(self.lines@ =~= before.drop_first().push(line));
                    assert(self.lines@.map_values(v) =~= before.map_values(v).drop_first().push(line@));
                } else {
                    assert(self.lines@ =~= before.push(line));
                    assert(self.lines@.map_values(v) =~= before.map_values(v).push(line@));
                }
            }
            i = i + 1;
        }
        assert(all.take(batch@.len() as int) =~= all);
    }

    /// Lines visible under the current search (searching loses no line).
    pub fn visible(&self) -> (r: Vec<&str>)
        ensures
            r@.map_values(|s: &str| s@) == matching(self@.lines, self@.query),
    {
        let ghost pred = |l: Seq<char>| self.query@.len() == 0 || contains(l, self.query@);
        let ghost lines = self@.lines;
        let mut r: Vec<&str> = Vec::new();
        let empty_query = self.query.as_str().is_empty();
        let mut i: usize = 0;
        assert(lines.take(0) =~= Seq::<Seq<char>>::empty());
        while i < self.lines.len()
            invariant
                i <= self.lines@.len(),
                lines == self@.lines,
                lines.len() == self.lines@.len(),
                empty_query == (self.query@.len() == 0),
                pred == (|l: Seq<char>| self.query@.len() == 0 || contains(l, self.query@)),
                r@.map_values(|s: &str| s@) == lines.take(i as int).filter(pred),
            decreases self.lines.len() - i,
        {
            let line = self.lines[i].as_str();
            proof {
                assert(lines[i as int] == line@);
                assert(lines.take(i + 1) =~= lines.take(i as int).push(line@));
                lemma_filter_push(lines.take(i as int), line@, pred);
            }
            if empty_query || contains_str(line, self.query.as_str()) {
                let ghost before = r@;
                r.push(line);
                assert(r@.map_values(|s: &str| s@) =~= before.map_values(|s: &str| s@).push(line@));
            }
            i = i + 1;
        }
        assert(lines.take(lines.len() as int) =~= lines);
        r
    }

    /// Number of lines held.
    pub fn len(&self) -> (r: usize)
        ensures
            r == self@.lines.len(),
    {
        self.lines.len()
    }

    /// No line held.
    pub fn is_empty(&self) -> (r: bool)
        ensures
            r == (self@.lines.len() == 0),
    {
        self.lines.len() == 0
    }
}

/// The follow-up panel: records by kind, and the bounded log.
#[derive(Debug, Clone)]
pub struct OperationsPanel {
    pub records: Vec<OperationRecord>,
    pub log: LogViewer,
    pub kind_filter: String,
}

/// Records whose kind contains `filter` (all of them for an empty filter).
pub open spec fn of_kind(records: Seq<OperationRecord>, filter: Seq<char>) -> Seq<OperationRecord> {
    records.filter(|r: OperationRecord| filter.len() == 0 || contains(r.kind@, filter))
}

impl OperationsPanel {
    /// No records, a log of ten thousand lines, no filter.
    pub fn new() -> (r: Self)
        ensures
            r.records@.len() == 0,
            r.log@.lines.len() == 0,
            r.log@.capacity == 10_000,
            r.log@.follow,
            r.log@.query.len() == 0,
            r.kind_filter@.len() == 0,
    {
        OperationsPanel { records: Vec::new(), log: LogViewer::new(10_000), kind_filter: String::new() }
    }

    /// Follows a new operation.
    pub fn track(&mut self, record: OperationRecord)
        ensures
            final(self).records@ == old(self).records@.push(record),
            final(self).log@ == old(self).log@,
            final(self).kind_filter == old(self).kind_filter,
    {
        self.records.push(record);
    }

    /// Records under the current filter (kind contains the text).
    pub fn visible(&self) -> (r: Vec<&OperationRecord>)
        ensures
            r@.map_values(|p: &OperationRecord| *p) == of_kind(self.records@, self.kind_filter@),
    {
        let ghost pred = |r: OperationRecord| self.kind_filter@.len() == 0 || contains(r.kind@, self.kind_filter@);
        let mut r: Vec<&OperationRecord> = Vec::new();
        let empty_filter = self.kind_filter.as_str().is_empty();
        let mut i: usize = 0;
        assert(self.records@.take(0) =~= Seq::<OperationRecord>::empty());
        while i < self.records.len()
            invariant
                i <= self.records@.len(),
                empty_filter == (self.kind_filter@.len() == 0),
                pred == (|r: OperationRecord| self.kind_filter@.len() == 0 || contains(r.kind@, self.kind_filter@)),
                r@.map_values(|p: &OperationRecord| *p) == self.records@.take(i as int).filter(pred),
            decreases self.records.len() - i,
        {
            let rec = &self.records[i];
            proof {
                assert(self.records@.take(i + 1) =~= self.records@.take(i as int).push(*rec));
                lemma_filter_push(self.records@.take(i as int), *rec, pred);
            }
            if empty_filter || contains_str(rec.kind.as_str(), self.kind_filter.as_str()) {
                let ghost before = r@;
                r.push(rec);
                assert(r@.map_values(|p: &OperationRecord| *p) =~= before.map_values(|p: &OperationRecord| *p).push(
                    *rec,
                ));
            }
            i = i + 1;
        }
        assert(self.records@.take(self.records@.len() as int) =~= self.records@);
        r
    }
}

impl Default for OperationsPanel {
    fn default() -> (r: Self)
        ensures
            r.records@.len() == 0,
            r.log@.capacity == 10_000,
            r.kind_filter@.len() == 0,
    {
        Self::new()
    }
}

} // verus!
