//! Orchestrators: the monitor as supervision of tasks and agents
//! (definition, target host, domain, supported configuration, instances
//! and evidence), never presented as an engine that runs the chain.

use vstd::prelude::*;
use crate::text::{lit, owned, trim, trim_str};

verus! {

/// Monitor definition (a local draft until applied).
#[derive(Debug, Clone, PartialEq)]
pub struct MonitorDefinition {
    pub alias: String,
    pub host: String,
    pub domain: String,
    pub config: String,
    pub applied: bool,
}

/// The auxiliary label shown beside every summary of a monitor.
pub open spec fn role_text() -> Seq<char> {
    "Supervisão de tarefas e agentes"@
}

impl MonitorDefinition {
    /// A new monitor named `alias`: no host yet, domain 78, balanced
    /// configuration, not applied.
    pub fn new(alias: &str) -> (r: Self)
        ensures
            r.alias@ == alias@,
            r.host@.len() == 0,
            r.domain@ == "78"@,
            r.config@ == "Balanced"@,
            !r.applied,
    {
        MonitorDefinition { alias: owned(alias), host: String::new(), domain: lit("78"), config: lit("Balanced"), applied: false }
    }

    /// The monitor's role.
    pub fn role() -> (r: &'static str)
        ensures
            r@ == role_text(),
    {
        "Supervisão de tarefas e agentes"
    }
}

/// Panel state: the definition being edited and the observed counts.
#[derive(Debug, Clone)]
pub struct OrchestratorPanel {
    pub definition: Option<MonitorDefinition>,
    pub draft_alias: String,
    pub observed_agents: usize,
    pub observed_operations: usize,
    pub last_evidence: String,
}

impl OrchestratorPanel {
    /// An empty panel.
    pub fn new() -> (r: Self)
        ensures
            r.definition is None,
            r.draft_alias@.len() == 0,
            r.observed_agents == 0,
            r.observed_operations == 0,
            r.last_evidence@.len() == 0,
    {
        OrchestratorPanel {
            definition: None,
            draft_alias: String::new(),
            observed_agents: 0,
            observed_operations: 0,
            last_evidence: String::new(),
        }
    }

    /// Prepares a new definition from the trimmed draft alias and clears
    /// the draft; a blank alias prepares nothing. Applying is an intention
    /// recorded elsewhere, not an effect.
    pub fn prepare(&mut self)
        ensures
            trim(old(self).draft_alias@).len() == 0 ==> final(self).definition == old(self).definition
                && final(self).draft_alias == old(self).draft_alias,
            trim(old(self).draft_alias@).len() > 0 ==> (final(self).definition matches Some(d) && d.alias@
                == trim(old(self).draft_alias@) && d.host@.len() == 0 && d.domain@ == "78"@ && d.config@
                == "Balanced"@ && !d.applied) && final(self).draft_alias@.len() == 0,
            final(self).observed_agents == old(self).observed_agents,
            final(self).observed_operations == old(self).observed_operations,
            final(self).last_evidence == old(self).last_evidence,
    {
        let alias = trim_str(self.draft_alias.as_str());
        if !alias.as_str().is_empty() {
            self.definition = Some(MonitorDefinition::new(alias.as_str()));
            self.draft_alias = String::new();
        }
    }
}

impl Default for OrchestratorPanel {
    fn default() -> (r: Self)
        ensures
            r.definition is None,
            r.draft_alias@.len() == 0,
            r.observed_agents == 0,
            r.observed_operations == 0,
            r.last_evidence@.len() == 0,
    {
        Self::new()
    }
}

} // verus!
