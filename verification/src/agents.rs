//! Agents announced by the orchestrator, as the studio shows them: the
//! backend's raw numbers (health, slots, counters), no invented traffic
//! light.

use vstd::prelude::*;
use crate::text::{lit, append, strip_trailing, strip_trailing_str};

verus! {

/// Agent announced by the orchestrator (the fields the studio reads; the
/// floating-point latency average stays with the display layer).
#[derive(Debug, Clone, PartialEq, Eq)]
pub struct AgentInfo {
    pub agent_id: String,
    pub model: String,
    pub specialization: String,
    pub hostname: String,
    pub health: u32,
    pub slots_busy: u32,
    pub slots_total: u32,
    pub completed_total: u64,
    pub failed_total: u64,
}

/// Errors reading the agents.
#[derive(Debug, Clone, PartialEq, Eq)]
pub enum AgentsError {
    /// Orchestrator unreachable or outside the contract.
    Unreachable { url: String, detail: String },
}

impl AgentsError {
    /// The error's text.
    pub open spec fn text(self) -> Seq<char> {
        match self {
            AgentsError::Unreachable { url, detail } => "falha ao ler agentes em "@ + url@ + ": "@ + detail@,
        }
    }

    /// The error's text.
    pub fn message(&self) -> (r: String)
        ensures
            r@ == self.text(),
    {
        match self {
            AgentsError::Unreachable { url, detail } => {
                let mut r = lit("falha ao ler agentes em ");
                append(&mut r, url.as_str());
                append(&mut r, ": ");
                append(&mut r, detail.as_str());
                r
            },
        }
    }
}

/// Address of the live agent list on the orchestrator at `base`.
pub fn agents_endpoint(base: &str) -> (r: String)
    ensures
        r@ == strip_trailing(base@, '/') + "/api/v1/agents"@,
{
    let mut r = strip_trailing_str(base, '/');
    append(&mut r, "/api/v1/agents");
    r
}

/// State of the agents panel: address, last list and last error.
#[derive(Debug, Clone)]
pub struct AgentsState {
    pub url: String,
    pub list: Vec<AgentInfo>,
    pub error: String,
}

impl AgentsState {
    /// The local orchestrator, nothing listed yet.
    pub fn new() -> (r: Self)
        ensures
            r.url@ == "http://127.0.0.1:8085"@,
            r.list@.len() == 0,
            r.error@.len() == 0,
    {
        AgentsState { url: lit("http://127.0.0.1:8085"), list: Vec::new(), error: String::new() }
    }

    /// Takes in a new listing: it replaces the list and clears the error; a
    /// failure keeps the previous list and records why.
    pub fn refresh(&mut self, outcome: Result<Vec<AgentInfo>, AgentsError>)
        ensures
            final(self).url == old(self).url,
            match outcome {
                Ok(list) => final(self).list == list && final(self).error@.len() == 0,
                Err(e) => final(self).list == old(self).list && final(self).error@ == e.text(),
            },
    {
        match outcome {
            Ok(list) => {
                self.list = list;
                self.error = String::new();
            },
            Err(e) => {
                self.error = e.message();
            },
        }
    }
}

impl Default for AgentsState {
    fn default() -> (r: Self)
        ensures
            r.url@ == "http://127.0.0.1:8085"@,
            r.list@.len() == 0,
            r.error@.len() == 0,
    {
        Self::new()
    }
}

} // verus!
