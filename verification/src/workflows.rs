//! Workflows: the catalog of workloads with their faithful dependencies
//! (sequence, fork-join, serial). A click emits one intention; drawing
//! again never emits it again.

use vstd::prelude::*;

verus! {

/// Kind of workload, with its canonical dependency semantics.
#[derive(Debug, Clone, Copy, PartialEq, Eq, Structural)]
pub enum WorkloadKind {
    Sequence,
    ForkJoin,
    Serial,
}

impl WorkloadKind {
    /// Display name.
    pub open spec fn title(self) -> Seq<char> {
        match self {
            WorkloadKind::Sequence => "sequência"@,
            WorkloadKind::ForkJoin => "fork-join"@,
            WorkloadKind::Serial => "serial"@,
        }
    }

    /// The dependencies in explicit words (never a generic graph).
    pub open spec fn dependency_text(self) -> Seq<char> {
        match self {
            WorkloadKind::Sequence => "B depende de A"@,
            WorkloadKind::ForkJoin => "A e B independentes; C depende de ambos"@,
            WorkloadKind::Serial => "mesmo trabalho independente, sem sobreposição"@,
        }
    }

    /// Display name.
    pub fn label(self) -> (r: &'static str)
        ensures
            r@ == self.title(),
    {
        match self {
            WorkloadKind::Sequence => "sequência",
            WorkloadKind::ForkJoin => "fork-join",
            WorkloadKind::Serial => "serial",
        }
    }

    /// The dependencies in explicit words.
    pub fn dependencies(self) -> (r: &'static str)
        ensures
            r@ == self.dependency_text(),
    {
        match self {
            WorkloadKind::Sequence => "B depende de A",
            WorkloadKind::ForkJoin => "A e B independentes; C depende de ambos",
            WorkloadKind::Serial => "mesmo trabalho independente, sem sobreposição",
        }
    }
}

/// A complete request to hand to the existing service or runner.
#[derive(Debug, Clone, PartialEq, Eq)]
pub struct WorkflowRequest {
    pub workflow_id: String,
    pub kind: WorkloadKind,
    pub profile: String,
    pub destination: String,
}

/// The intention a click records (the effect only goes through an adapter).
#[derive(Debug, Clone, PartialEq, Eq)]
pub struct WorkflowIntent {
    pub request: WorkflowRequest,
    pub gesture: u64,
}

/// Contents of a [`WorkflowPanel`].
pub struct WorkflowView {
    pub requests: Seq<WorkflowRequest>,
    pub intents: Seq<WorkflowIntent>,
    pub next_gesture: u64,
}

/// The catalog and the log of intentions (one per gesture).
#[derive(Debug, Clone)]
pub struct WorkflowPanel {
    pub requests: Vec<WorkflowRequest>,
    pub intents: Vec<WorkflowIntent>,
    next_gesture: u64,
}

impl View for WorkflowPanel {
    type V = WorkflowView;

    closed spec fn view(&self) -> WorkflowView {
        WorkflowView { requests: self.requests@, intents: self.intents@, next_gesture: self.next_gesture }
    }
}

/// Every recorded gesture was numbered at most `n`.
pub open spec fn gestures_up_to(intents: Seq<WorkflowIntent>, n: u64) -> bool {
    forall|i: int| 0 <= i < intents.len() ==> (#[trigger] intents[i]).gesture <= n
}

/// No two intentions share a gesture.
pub open spec fn gestures_distinct(intents: Seq<WorkflowIntent>) -> bool {
    forall|i: int, j: int| 0 <= i < j < intents.len() ==> (#[trigger] intents[i]).gesture != (#[trigger] intents[j]).gesture
}

impl WorkflowPanel {
    /// The panel numbered every recorded gesture itself: each is at most its
    /// counter, and none repeats.
    pub open spec fn wf(self) -> bool {
        &&& gestures_up_to(self@.intents, self@.next_gesture)
        &&& gestures_distinct(self@.intents)
    }

    /// No requests, no intentions.
    pub fn new() -> (r: Self)
        ensures
            r@.requests.len() == 0,
            r@.intents.len() == 0,
            r@.next_gesture == 0,
            r.wf(),
    {
        WorkflowPanel { requests: Vec::new(), intents: Vec::new(), next_gesture: 0 }
    }

    /// Records one intention for a new gesture; a gesture already recorded
    /// is never recorded twice.
    pub fn submit(&mut self, request: WorkflowRequest)
        requires
            old(self)@.next_gesture < u64::MAX,
        ensures
            final(self)@.next_gesture == old(self)@.next_gesture + 1,
            final(self)@.requests == old(self)@.requests,
            (exists|i: int| 0 <= i < old(self)@.intents.len() && (#[trigger] old(self)@.intents[i]).gesture
                == final(self)@.next_gesture) ==> final(self)@.intents == old(self)@.intents,
            !(exists|i: int| 0 <= i < old(self)@.intents.len() && (#[trigger] old(self)@.intents[i]).gesture
                == final(self)@.next_gesture) ==> final(self)@.intents == old(self)@.intents.push(
                WorkflowIntent { request, gesture: final(self)@.next_gesture },
            ),
            old(self).wf() ==> final(self).wf() && final(self)@.intents == old(self)@.intents.push(
                WorkflowIntent { request, gesture: final(self)@.next_gesture },
            ),
    {
        self.next_gesture = self.next_gesture + 1;
        let gesture = self.next_gesture;
        let mut i: usize = 0;
        while i < self.intents.len()
            invariant
                i <= self.intents@.len(),
                forall|k: int| 0 <= k < i ==> (#[trigger] self.intents@[k]).gesture != gesture,
                gesture == self.next_gesture,
                self.next_gesture == old(self).next_gesture + 1,
                self.requests == old(self).requests,
                self.intents == old(self).intents,
            decreases self.intents.len() - i,
        {
            if self.intents[i].gesture == gesture {
                return;
            }
            i = i + 1;
        }
        self.intents.push(WorkflowIntent { request, gesture });
    }
}

/// Every submission to a panel that numbered its gestures itself records
/// exactly one new intention, whose gesture no earlier intention has; the
/// gestures stay pairwise distinct, so submitting the same request twice
/// gives two intentions. `after` is the panel [`WorkflowPanel::submit`]
/// leaves.
pub proof fn lemma_submit_records_one(before: WorkflowPanel, after: WorkflowPanel, request: WorkflowRequest)
    requires
        before.wf(),
        before@.next_gesture < u64::MAX,
        after@.next_gesture == before@.next_gesture + 1,
        after@.requests == before@.requests,
        before.wf() ==> after.wf() && after@.intents == before@.intents.push(
            WorkflowIntent { request, gesture: after@.next_gesture },
        ),
    ensures
        after@.intents.len() == before@.intents.len() + 1,
        after@.intents.drop_last() == before@.intents,
        after@.intents.last() == (WorkflowIntent { request, gesture: after@.next_gesture }),
        forall|i: int| 0 <= i < before@.intents.len() ==> (#[trigger] before@.intents[i]).gesture
            != after@.next_gesture,
        gestures_distinct(after@.intents),
        after.wf(),
{
    assert(after@.intents.drop_last() =~= before@.intents);
    assert forall|i: int| 0 <= i < before@.intents.len() implies (#[trigger] before@.intents[i]).gesture
        != after@.next_gesture by {
        assert(before@.intents[i].gesture <= before@.next_gesture);
    }
}

impl Default for WorkflowPanel {
    fn default() -> (r: Self)
        ensures
            r@.requests.len() == 0,
            r@.intents.len() == 0,
            r@.next_gesture == 0,
            r.wf(),
    {
        Self::new()
    }
}

} // verus!
