//! DDS observation: a live reading of the domain (agents, tool calls and
//! system metrics) that publishes nothing. Each collection drains the
//! streams for a window and keeps, per key, the last sample seen; the rows
//! come out ordered by key.

use vstd::prelude::*;
use crate::text::{lit, append, owned, same, decimal, decimal_of};
use crate::state::{lex_le, str_le, lemma_lex_total, lemma_lex_transitive, lemma_lex_reflexive,
    lemma_lex_antisymmetric};

verus! {

/// The agent state a node publishes (the fields the studio reads).
#[derive(Debug, Clone, PartialEq, Eq)]
pub struct AgentState {
    pub agent_id: String,
    pub model: String,
    pub slots_busy: u32,
    pub slots_total: u32,
}

/// A tool call request seen on the domain (the fields the studio reads).
#[derive(Debug, Clone, PartialEq, Eq)]
pub struct ToolCallRequest {
    pub call_id: String,
    pub tool_name: String,
    pub status: i32,
}

/// A topology row.
#[derive(Debug, Clone, PartialEq, Eq)]
pub struct AgentRow {
    pub agent_id: String,
    pub model: String,
    pub slots_busy: u32,
    pub slots_total: u32,
}

/// A tool call row.
#[derive(Debug, Clone, PartialEq, Eq)]
pub struct ToolRow {
    pub call_id: String,
    pub tool_name: String,
    pub status: i32,
}

/// The row of an agent state.
pub fn agent_row(state: &AgentState) -> (r: AgentRow)
    ensures
        r.agent_id@ == state.agent_id@,
        r.model@ == state.model@,
        r.slots_busy == state.slots_busy,
        r.slots_total == state.slots_total,
{
    AgentRow {
        agent_id: owned(state.agent_id.as_str()),
        model: owned(state.model.as_str()),
        slots_busy: state.slots_busy,
        slots_total: state.slots_total,
    }
}

/// The row of a tool call.
pub fn tool_row(call: &ToolCallRequest) -> (r: ToolRow)
    ensures
        r.call_id@ == call.call_id@,
        r.tool_name@ == call.tool_name@,
        r.status == call.status,
{
    ToolRow { call_id: owned(call.call_id.as_str()), tool_name: owned(call.tool_name.as_str()), status: call.status }
}

/// The displayed name of a metric: its name and, in brackets, its unit.
pub fn metric_label(metric_name: &str, unit: &str) -> (r: String)
    ensures
        r@ == metric_name@ + " ("@ + unit@ + ")"@,
{
    let mut r = owned(metric_name);
    append(&mut r, " (");
    append(&mut r, unit);
    append(&mut r, ")");
    r
}

/// The key of a metric sample: its component and metric name.
pub fn metric_key(component_id: &str, metric_name: &str) -> (r: String)
    ensures
        r@ == component_id@ + ":"@ + metric_name@,
{
    let mut r = owned(component_id);
    append(&mut r, ":");
    append(&mut r, metric_name);
    r
}

/// The observation window in seconds: at least one.
pub fn window_secs(configured: u64) -> (r: u64)
    ensures
        r == if configured >= 1 {
            configured
        } else {
            1
        },
{
    if configured >= 1 {
        configured
    } else {
        1
    }
}

/// The last sample seen under each key.
pub open spec fn latest<T>(samples: Seq<(String, T)>) -> Map<Seq<char>, T>
    decreases samples.len(),
{
    if samples.len() == 0 {
        Map::empty()
    } else {
        latest(samples.drop_last()).insert(samples.last().0@, samples.last().1)
    }
}

/// The entries are ordered by key, each key strictly before the next.
pub open spec fn strictly_sorted<T>(rows: Seq<(String, T)>) -> bool {
    forall|i: int, j: int| 0 <= i < j < rows.len() ==> lex_le((#[trigger] rows[i]).0@, (#[trigger] rows[j]).0@)
        && rows[i].0@ != rows[j].0@
}

/// The entries are exactly the map `m`: one per key, with its value.
pub open spec fn tabulates<T>(rows: Seq<(String, T)>, m: Map<Seq<char>, T>) -> bool {
    &&& forall|i: int| 0 <= i < rows.len() ==> m.dom().contains((#[trigger] rows[i]).0@) && m[rows[i].0@]
        == rows[i].1
    &&& forall|k: Seq<char>| #[trigger] m.dom().contains(k) ==> exists|i: int| 0 <= i < rows.len() && (
    #[trigger] rows[i]).0@ == k
}

/// Keeps, for each key, the last sample seen, and lists them by key (what
/// a drained window holds).
pub fn latest_by_key<T>(samples: Vec<(String, T)>) -> (r: Vec<(String, T)>)
    ensures
        strictly_sorted(r@),
        tabulates(r@, latest(samples@)),
{
    let ghost all = samples@;
    let mut r: Vec<(String, T)> = Vec::new();
    assert(all.take(0) =~= Seq::<(String, T)>::empty());
    for s in it: samples
        invariant
            it.seq() == all,
            strictly_sorted(r@),
            tabulates(r@, latest(all.take(it.index() as int))),
    {
        let ghost idx = it.index();
        let ghost m = latest(all.take(idx as int));
        proof {
            assert(all.take(idx + 1).drop_last() =~= all.take(idx as int));
            assert(all.take(idx + 1).last() == s);
        }
        let ghost m2 = m.insert(s.0@, s.1);
        let mut p: usize = 0;
        while p < r.len() && str_le(r[p].0.as_str(), s.0.as_str()) && !same(r[p].0.as_str(), s.0.as_str())
            invariant
                p <= r@.len(),
                forall|k: int| 0 <= k < p ==> lex_le((#[trigger] r@[k]).0@, s.0@) && r@[k].0@ != s.0@,
            decreases r.len() - p,
        {
            p = p + 1;
        }
        let ghost before = r@;
        let replace = p < r.len() && same(r[p].0.as_str(), s.0.as_str());
        if replace {
            r.set(p, s);
            proof {
                assert forall|i: int| 0 <= i < r@.len() implies m2.dom().contains((#[trigger] r@[i]).0@) && m2[r@[i].0@]
                    == r@[i].1 by {
                    if i != p {
                        assert(r@[i] == before[i]);
                        if i < p {
                            assert(before[i].0@ != before[p as int].0@);
                        } else {
                            assert(before[p as int].0@ != before[i].0@);
                        }
                    }
                }
                assert forall|k: Seq<char>| #[trigger] m2.dom().contains(k) implies exists|i: int| 0 <= i < r@.len() && (
                #[trigger] r@[i]).0@ == k by {
                    if k == s.0@ {
                        assert(r@[p as int].0@ == k);
                    } else {
                        let i = choose|i: int| 0 <= i < before.len() && (#[trigger] before[i]).0@ == k;
                        assert(r@[i].0@ == before[i].0@);
                    }
                }
                assert forall|i: int, j: int| 0 <= i < j < r@.len() implies lex_le((#[trigger] r@[i]).0@, (#[trigger] r@[j]).0@)
                    && r@[i].0@ != r@[j].0@ by {
                    assert(before[i].0@ == r@[i].0@ || i == p);
                    assert(before[j].0@ == r@[j].0@ || j == p);
                }
            }
        } else {
            proof {
                if p < before.len() {
                    lemma_lex_total(before[p as int].0@, s.0@);
                    if lex_le(before[p as int].0@, s.0@) {
                        assert(before[p as int].0@ == s.0@);
                    }
                    assert(lex_le(s.0@, before[p as int].0@) && s.0@ != before[p as int].0@);
                    assert forall|j: int| p <= j < before.len() implies lex_le(s.0@, (#[trigger] before[j]).0@) && s.0@
                        != before[j].0@ by {
                        if j > p {
                            lemma_lex_transitive(s.0@, before[p as int].0@, before[j].0@);
                            if s.0@ == before[j].0@ {
                                lemma_lex_antisymmetric(before[p as int].0@, before[j].0@);
                            }
                        }
                    }
                }
                assert(!m.dom().contains(s.0@)) by {
                    if m.dom().contains(s.0@) {
                        let i = choose|i: int| 0 <= i < before.len() && (#[trigger] before[i]).0@ == s.0@;
                        if i < p {
                        } else {
                        }
                    }
                }
            }
            r.insert(p, s);
            proof {
                assert(r@ =~= before.insert(p as int, s));
                assert forall|i: int| 0 <= i < r@.len() implies m2.dom().contains((#[trigger] r@[i]).0@) && m2[r@[i].0@]
                    == r@[i].1 by {
                    if i < p {
                        assert(r@[i] == before[i]);
                    } else if i > p {
                        assert(r@[i] == before[i - 1]);
                    }
                }
                assert forall|k: Seq<char>| #[trigger] m2.dom().contains(k) implies exists|i: int| 0 <= i < r@.len() && (
                #[trigger] r@[i]).0@ == k by {
                    if k == s.0@ {
                        assert(r@[p as int].0@ == k);
                    } else {
                        let i = choose|i: int| 0 <= i < before.len() && (#[trigger] before[i]).0@ == k;
                        if i < p {
                            assert(r@[i] == before[i]);
                        } else {
                            assert(r@[i + 1] == before[i]);
                        }
                    }
                }
                assert forall|i: int, j: int| 0 <= i < j < r@.len() implies lex_le((#[trigger] r@[i]).0@, (#[trigger] r@[j]).0@)
                    && r@[i].0@ != r@[j].0@ by {
                    if j < p {
                        assert(r@[i] == before[i] && r@[j] == before[j]);
                    } else if j == p {
                        assert(r@[i] == before[i]);
                    } else if i == p {
                        assert(r@[j] == before[j - 1]);
                    } else if i < p {
                        assert(r@[i] == before[i] && r@[j] == before[j - 1]);
                        lemma_lex_transitive(before[i].0@, s.0@, before[j - 1].0@);
                        if before[i].0@ == before[j - 1].0@ {
                            lemma_lex_antisymmetric(before[i].0@, s.0@);
                        }
                    } else {
                        assert(r@[i] == before[i - 1] && r@[j] == before[j - 1]);
                    }
                }
            }
        }
    }
    assert(all.take(all.len() as int) =~= all);
    r
}

/// Errors of the DDS observation.
#[derive(Debug, Clone, PartialEq, Eq)]
pub enum ObserveError {
    /// Domain unreachable (DDS down, participant or runtime failed).
    Unavailable { domain: u32, detail: String },
}

impl ObserveError {
    /// The error's text.
    pub open spec fn text(self) -> Seq<char> {
        match self {
            ObserveError::Unavailable { domain, detail } => "falha ao observar o dominio "@ + decimal(domain as nat)
                + ": "@ + detail@,
        }
    }

    /// The error's text.
    pub fn message(&self) -> (r: String)
        ensures
            r@ == self.text(),
    {
        match self {
            ObserveError::Unavailable { domain, detail } => {
                let mut r = lit("falha ao observar o dominio ");
                append(&mut r, decimal_of(*domain as u64).as_str());
                append(&mut r, ": ");
                append(&mut r, detail.as_str());
                r
            },
        }
    }
}

} // verus!
