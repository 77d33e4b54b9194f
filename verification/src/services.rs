//! Node services as the studio sees them: wanted × active state per unit,
//! the outcome of an actuation, and fresh operation ids for each click.

use vstd::prelude::*;
use crate::text::{lit, append, decimal_wide, decimal, strip_trailing, strip_trailing_str};
use crate::events::{wall_clock, since_epoch};
use crate::common::instrumentation::whole_nanos;

verus! {

/// A service unit of the node: wanted state (if any) and effective state.
#[derive(Debug, Clone, PartialEq, Eq)]
pub struct ServiceStatus {
    pub service: String,
    pub wanted: Option<bool>,
    pub active: bool,
}

/// Outcome of a start/stop actuation on the node.
#[derive(Debug, Clone, PartialEq, Eq)]
pub struct ActuateOut {
    pub service: String,
    pub active: bool,
    pub acted: bool,
}

/// The wanted state is set and differs from the effective one.
pub open spec fn diverges(s: ServiceStatus) -> bool {
    s.wanted matches Some(w) && w != s.active
}

/// A service diverges exactly when it is wanted in the state opposite to
/// the one it is in: running as wanted, or with nothing wanted, is no
/// divergence.
pub proof fn lemma_diverges_means_opposite(s: ServiceStatus)
    ensures
        diverges(s) <==> s.wanted == Some(!s.active),
        s.wanted is None ==> !diverges(s),
        s.wanted == Some(s.active) ==> !diverges(s),
{
}

/// A new operation id for one click (each click is a new intention):
/// `gui-<service>-<nanoseconds since the epoch>`, zero when the clock reads
/// before the epoch.
pub fn fresh_operation_id(service: &str) -> (r: String)
    ensures
        exists|n: nat| r@ == "gui-"@ + service@ + "-"@ + decimal(n),
{
    let t = wall_clock();
    let nanos: u128 = match since_epoch(&t) {
        Some(d) => whole_nanos(&d),
        None => 0,
    };
    let mut r = lit("gui-");
    append(&mut r, service);
    append(&mut r, "-");
    append(&mut r, decimal_wide(nanos).as_str());
    assert(r@ == "gui-"@ + service@ + "-"@ + decimal(nanos as nat));
    r
}

/// Errors reading or actuating services.
#[derive(Debug, Clone, PartialEq, Eq)]
pub enum ServicesError {
    /// Node unreachable or outside the contract.
    Unreachable { url: String, detail: String },
}

impl ServicesError {
    /// The error's text.
    pub open spec fn text(self) -> Seq<char> {
        match self {
            ServicesError::Unreachable { url, detail } => "falha ao ler servicos em "@ + url@ + ": "@ + detail@,
        }
    }

    /// The error's text.
    pub fn message(&self) -> (r: String)
        ensures
            r@ == self.text(),
    {
        match self {
            ServicesError::Unreachable { url, detail } => {
                let mut r = lit("falha ao ler servicos em ");
                append(&mut r, url.as_str());
                append(&mut r, ": ");
                append(&mut r, detail.as_str());
                r
            },
        }
    }
}

/// Address of the service plan on the node at `base`.
pub fn services_endpoint(base: &str) -> (r: String)
    ensures
        r@ == strip_trailing(base@, '/') + "/services"@,
{
    let mut r = strip_trailing_str(base, '/');
    append(&mut r, "/services");
    r
}

/// Address that starts (or stops) `service` on the node at `base`.
pub fn actuate_endpoint(base: &str, service: &str, start: bool) -> (r: String)
    ensures
        r@ == strip_trailing(base@, '/') + "/services/"@ + service@ + "/"@ + if start {
            "start"@
        } else {
            "stop"@
        },
{
    let mut r = strip_trailing_str(base, '/');
    append(&mut r, "/services/");
    append(&mut r, service);
    append(&mut r, "/");
    append(&mut r, if start { "start" } else { "stop" });
    r
}

/// State of the services panel.
#[derive(Debug, Clone)]
pub struct ServicesPanel {
    pub url: String,
    pub list: Vec<ServiceStatus>,
    pub error: String,
}

impl ServicesPanel {
    /// The local node, nothing listed yet.
    pub fn new() -> (r: Self)
        ensures
            r.url@ == "http://127.0.0.1:4317"@,
            r.list@.len() == 0,
            r.error@.len() == 0,
    {
        ServicesPanel { url: lit("http://127.0.0.1:4317"), list: Vec::new(), error: String::new() }
    }

    /// Takes in a new plan: it replaces the list and clears the error; a
    /// failure keeps the list and records why.
    pub fn refresh(&mut self, outcome: Result<Vec<ServiceStatus>, ServicesError>)
        ensures
            final(self).url == old(self).url,
            match outcome {
                Ok(list) => final(self).list == list && final(self).error@.len() == 0,
                Err(e) => final(self).list == old(self).list && final(self).error@ == e.text(),
            },
    {
        match outcome {
            Ok(list) => {
                self.list = list;
                self.error = String::new();
            },
            Err(e) => {
                self.error = e.message();
            },
        }
    }

    /// Takes in the outcome of a start/stop: on success the error is
    /// cleared and the outcome handed back (the plan is then read again);
    /// a failure records why.
    pub fn actuate_row(&mut self, outcome: Result<ActuateOut, ServicesError>) -> (r: Option<ActuateOut>)
        ensures
            final(self).url == old(self).url,
            final(self).list == old(self).list,
            match outcome {
                Ok(out) => r == Some(out) && final(self).error@.len() == 0,
                Err(e) => r is None && final(self).error@ == e.text(),
            },
    {
        match outcome {
            Ok(out) => {
                self.error = String::new();
                Some(out)
            },
            Err(e) => {
                self.error = e.message();
                None
            },
        }
    }

    /// After the plan was read again: an actuation that changed nothing
    /// says the service had already converged.
    pub fn converged_notice(&mut self, out: &ActuateOut)
        ensures
            final(self).url == old(self).url,
            final(self).list == old(self).list,
            final(self).error@ == if out.acted {
                old(self).error@
            } else {
                out.service@ + " já estava convergido"@
            },
    {
        if !out.acted {
            let mut e = String::new();
            append(&mut e, out.service.as_str());
            append(&mut e, " já estava convergido");
            self.error = e;
        }
    }
}

impl Default for ServicesPanel {
    fn default() -> (r: Self)
        ensures
            r.url@ == "http://127.0.0.1:4317"@,
            r.list@.len() == 0,
            r.error@.len() == 0,
    {
        Self::new()
    }
}

} // verus!
