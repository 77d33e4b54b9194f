//! Review of changes and conflicts: the loaded base, the local proposal
//! and the current revision side by side. Nothing is ever overwritten
//! silently; a remote deletion keeps the draft without resurrecting the
//! identity.

use vstd::prelude::*;
use crate::text::{lit, owned, same, lemma_filter_push};

verus! {

broadcast use vstd::seq_lib::group_seq_properties;

/// The operator's explicit decision on a conflict.
#[derive(Debug, Clone, Copy, PartialEq, Eq, Structural)]
pub enum ConflictDecision {
    Undecided,
    KeepDraft,
    NewProposal,
    Abandon,
}

impl Default for ConflictDecision {
    fn default() -> (r: Self)
        ensures
            r == ConflictDecision::Undecided,
    {
        ConflictDecision::Undecided
    }
}

/// Three-way comparison of one field.
#[derive(Debug, Clone, PartialEq, Eq)]
pub struct FieldDiff {
    pub field: String,
    pub base: String,
    pub local: String,
    pub remote: String,
}

impl FieldDiff {
    /// The remote value moved away from the base under a local edit that
    /// differs from it: a real conflict.
    pub open spec fn in_conflict(self) -> bool {
        self.base@ != self.remote@ && self.local@ != self.remote@
    }

    /// `true` when the remote changed under the local edit.
    pub fn conflicts(&self) -> (r: bool)
        ensures
            r == self.in_conflict(),
    {
        !same(self.base.as_str(), self.remote.as_str()) && !same(self.local.as_str(), self.remote.as_str())
    }
}

/// A field is in conflict exactly when both sides moved: the remote value
/// left the base, and the local value differs from the remote one. A field
/// whose remote value still equals the base is never in conflict, whatever
/// the local edit; nor is one where both sides agree.
pub proof fn lemma_conflict_needs_both_sides(d: FieldDiff)
    ensures
        d.remote@ == d.base@ ==> !d.in_conflict(),
        d.local@ == d.remote@ ==> !d.in_conflict(),
        d.remote@ != d.base@ && d.local@ != d.remote@ ==> d.in_conflict(),
{
}

/// The conflicts a review lists are exactly its fields where both sides
/// moved, in order: none of them kept the base remotely.
pub proof fn lemma_listed_conflicts_moved_remotely(diffs: Seq<FieldDiff>, listed: Seq<FieldDiff>)
    requires
        listed == diffs.filter(|d: FieldDiff| d.in_conflict()),
    ensures
        forall|i: int| 0 <= i < listed.len() ==> (#[trigger] listed[i]).remote@ != listed[i].base@
            && listed[i].local@ != listed[i].remote@,
        forall|j: int| 0 <= j < diffs.len() && (#[trigger] diffs[j]).remote@ != diffs[j].base@ && diffs[j].local@
            != diffs[j].remote@ ==> listed.contains(diffs[j]),
{
    broadcast use vstd::seq_lib::group_filter_ensures;
}

/// Review state of a proposal.
#[derive(Debug, Clone)]
pub struct ReviewState {
    pub resource: String,
    pub base_revision: u64,
    pub current_revision: u64,
    pub diffs: Vec<FieldDiff>,
    pub decision: ConflictDecision,
    pub remote_deleted: bool,
}

impl ReviewState {
    /// A review of `resource` loaded at `base_revision`, with nothing
    /// newer seen, no differences and no decision.
    pub fn new(resource: &str, base_revision: u64) -> (r: Self)
        ensures
            r.resource@ == resource@,
            r.base_revision == base_revision,
            r.current_revision == base_revision,
            r.diffs@.len() == 0,
            r.decision == ConflictDecision::Undecided,
            !r.remote_deleted,
    {
        ReviewState {
            resource: owned(resource),
            base_revision,
            current_revision: base_revision,
            diffs: Vec::new(),
            decision: ConflictDecision::Undecided,
            remote_deleted: false,
        }
    }

    /// A newer remote revision than the loaded base exists.
    pub fn stale(&self) -> (r: bool)
        ensures
            r == (self.current_revision > self.base_revision),
    {
        self.current_revision > self.base_revision
    }

    /// The labelled demonstration scenario: a deterministic conflict.
    pub fn demo() -> (r: Self)
        ensures
            r.resource@ == "agente-demo (demonstração)"@,
            r.base_revision == 7,
            r.current_revision == 8,
            r.diffs@.len() == 1,
            r.diffs@[0].field@ == "modelo"@,
            r.diffs@[0].base@ == "modelo-a"@,
            r.diffs@[0].local@ == "modelo-b"@,
            r.diffs@[0].remote@ == "modelo-c"@,
            r.decision == ConflictDecision::Undecided,
            !r.remote_deleted,
    {
        let mut review = Self::new("agente-demo (demonstração)", 7);
        review.current_revision = 8;
        review.diffs.push(
            FieldDiff {
                field: lit("modelo"),
                base: lit("modelo-a"),
                local: lit("modelo-b"),
                remote: lit("modelo-c"),
            },
        );
        review
    }

    /// Fields in real conflict, in order.
    pub fn conflicts(&self) -> (r: Vec<&FieldDiff>)
        ensures
            r@.map_values(|p: &FieldDiff| *p) == self.diffs@.filter(|d: FieldDiff| d.in_conflict()),
    {
        let ghost pred = |d: FieldDiff| d.in_conflict();
        let mut r: Vec<&FieldDiff> = Vec::new();
        let mut i: usize = 0;
        assert(self.diffs@.take(0) =~= Seq::<FieldDiff>::empty());
        while i < self.diffs.len()
            invariant
                i <= self.diffs@.len(),
                pred == (|d: FieldDiff| d.in_conflict()),
                r@.map_values(|p: &FieldDiff| *p) == self.diffs@.take(i as int).filter(pred),
            decreases self.diffs.len() - i,
        {
            let d = &self.diffs[i];
            proof {
                assert(self.diffs@.take(i + 1) =~= self.diffs@.take(i as int).push(*d));
                lemma_filter_push(self.diffs@.take(i as int), *d, pred);
            }
            if d.conflicts() {
                let ghost before = r@;
                r.push(d);
                assert(r@.map_values(|p: &FieldDiff| *p) =~= before.map_values(|p: &FieldDiff| *p).push(*d));
            }
            i = i + 1;
        }
        assert(self.diffs@.take(self.diffs@.len() as int) =~= self.diffs@);
        r
    }
}

impl Default for ReviewState {
    fn default() -> (r: Self)
        ensures
            r.resource@.len() == 0,
            r.base_revision == 0,
            r.current_revision == 0,
            r.diffs@.len() == 0,
            r.decision == ConflictDecision::Undecided,
            !r.remote_deleted,
    {
        ReviewState {
            resource: String::new(),
            base_revision: 0,
            current_revision: 0,
            diffs: Vec::new(),
            decision: ConflictDecision::Undecided,
            remote_deleted: false,
        }
    }
}

} // verus!
