//! SSH session of the studio: phases of one connection (idle, running,
//! done, failed, or waiting for the operator to approve an unknown host
//! key) and the approval record an operator's decision produces.

use vstd::prelude::*;
use crate::text::{lit, append, owned, same};

verus! {

/// Where to connect.
#[derive(Debug, Clone, PartialEq, Eq)]
pub struct SshTarget {
    pub host: String,
    pub port: u16,
    pub username: String,
}

/// Target plus session credentials (the passphrase lives only in memory).
#[derive(Debug, Clone, PartialEq, Eq)]
pub struct SshSessionConfig {
    pub project: String,
    pub alias: String,
    pub target: SshTarget,
    pub command: String,
    pub identity_pem: String,
    pub trust_path: String,
    pub passphrase: String,
}

/// Phases shown by the panel.
#[derive(Debug, Clone, PartialEq, Eq)]
pub enum SshPhase {
    Idle,
    NeedsApproval { key_type: String, fingerprint: String },
    Running,
    Done { output: String },
    Failed { error: String },
}

/// How a connection attempt failed: an unknown host key (which the
/// operator may approve) or anything else, with its message.
#[derive(Debug, Clone, PartialEq, Eq)]
pub enum BridgeFailure {
    UnknownHost { key_type: String, fingerprint: String },
    Other { message: String },
}

/// Identity of a host key.
#[derive(Debug, Clone, PartialEq, Eq)]
pub struct KeyIdentity {
    pub key_type: String,
    pub fingerprint: String,
}

/// An operator's approval of a host key, with its context.
#[derive(Debug, Clone, PartialEq, Eq)]
pub struct Approval {
    pub project: String,
    pub alias: String,
    pub host: String,
    pub port: u16,
    pub key: KeyIdentity,
    pub approved_by: String,
    pub approved_at_unix: u64,
    pub replaced: Option<KeyIdentity>,
}

/// The SSH session of the panel.
pub struct SshSession {
    pub config: SshSessionConfig,
    pub phase: SshPhase,
}

/// The phase a finished attempt leads to.
pub open spec fn phase_after(outcome: Result<String, BridgeFailure>) -> SshPhase {
    match outcome {
        Ok(output) => SshPhase::Done { output },
        Err(BridgeFailure::UnknownHost { key_type, fingerprint }) => SshPhase::NeedsApproval {
            key_type,
            fingerprint,
        },
        Err(BridgeFailure::Other { message }) => SshPhase::Failed { error: message },
    }
}

/// Index of the first approval for `host:port`, if any.
pub open spec fn first_for(approvals: Seq<Approval>, host: Seq<char>, port: u16) -> Option<int>
    decreases approvals.len(),
{
    if approvals.len() == 0 {
        None
    } else if approvals[0].host@ == host && approvals[0].port == port {
        Some(0)
    } else {
        match first_for(approvals.drop_first(), host, port) {
            Some(i) => Some(i + 1),
            None => None,
        }
    }
}

/// The approval found for `host:port` is one for that very host and port,
/// and the first such; when none is found, no approval has both that host
/// and that port (an approval for the same host on another port does not
/// count).
pub proof fn lemma_first_for_matches_host_and_port(approvals: Seq<Approval>, host: Seq<char>, port: u16)
    ensures
        match first_for(approvals, host, port) {
            Some(i) => {
                &&& 0 <= i < approvals.len()
                &&& approvals[i].host@ == host
                &&& approvals[i].port == port
                &&& forall|j: int| 0 <= j < i ==> !((#[trigger] approvals[j]).host@ == host && approvals[j].port == port)
            },
            None => forall|j: int| 0 <= j < approvals.len() ==> !((#[trigger] approvals[j]).host@ == host
                && approvals[j].port == port),
        },
    decreases approvals.len(),
{
    if approvals.len() > 0 {
        let rest = approvals.drop_first();
        lemma_first_for_matches_host_and_port(rest, host, port);
        assert forall|j: int| 0 < j < approvals.len() implies approvals[j] == rest[j - 1] by {}
    }
}

/// The key an approval records as replaced (as [`SshSession::approval`]
/// fills it for target `host:port`) is the key of an existing approval
/// for that same host and that same port; it is absent exactly when no
/// existing approval has both.
pub proof fn lemma_replaced_key_same_host_and_port(existing: Seq<Approval>, host: Seq<char>, port: u16, replaced: Option<KeyIdentity>)
    requires
        replaced == match first_for(existing, host, port) {
            Some(i) => Some(existing[i].key),
            None => None,
        },
    ensures
        replaced matches Some(k) ==> exists|j: int| 0 <= j < existing.len() && (#[trigger] existing[j]).host@ == host
            && existing[j].port == port && existing[j].key == k,
        replaced is None <==> forall|j: int| 0 <= j < existing.len() ==> !((#[trigger] existing[j]).host@ == host
            && existing[j].port == port),
{
    lemma_first_for_matches_host_and_port(existing, host, port);
    if let Some(i) = first_for(existing, host, port) {
        assert(existing[i].host@ == host && existing[i].port == port);
    }
}

/// `dir` joined with a relative file name, as `Path::join` does.
pub open spec fn join_path(dir: Seq<char>, name: Seq<char>) -> Seq<char> {
    if dir.len() == 0 {
        name
    } else if dir.last() == '/' {
        dir + name
    } else {
        dir + "/"@ + name
    }
}

fn join_file(dir: &str, name: &str) -> (r: String)
    ensures
        r@ == join_path(dir@, name@),
{
    let v = crate::text::chars_of(dir);
    let mut r = owned(dir);
    if v.len() > 0 && v[v.len() - 1] != '/' {
        append(&mut r, "/");
    }
    append(&mut r, name);
    r
}

fn first_index(existing: &Vec<Approval>, host: &str, port: u16) -> (r: Option<usize>)
    ensures
        match r {
            Some(i) => i < existing@.len() && first_for(existing@, host@, port) == Some(i as int),
            None => first_for(existing@, host@, port) is None,
        },
{
    let mut i: usize = 0;
    assert(existing@.subrange(0, existing@.len() as int) =~= existing@);
    while i < existing.len()
        invariant
            i <= existing.len(),
            first_for(existing@, host@, port) == match first_for(
                existing@.subrange(i as int, existing@.len() as int),
                host@,
                port,
            ) {
                Some(j) => Some(j + i),
                None => None,
            },
        decreases existing.len() - i,
    {
        let ghost rest = existing@.subrange(i as int, existing@.len() as int);
        assert(rest.drop_first() =~= existing@.subrange(i + 1, existing@.len() as int));
        if same(existing[i].host.as_str(), host) && existing[i].port == port {
            return Some(i);
        }
        i = i + 1;
    }
    None
}

fn copy_key(k: &KeyIdentity) -> (r: KeyIdentity)
    ensures
        r == *k,
{
    KeyIdentity { key_type: k.key_type.clone(), fingerprint: k.fingerprint.clone() }
}

impl SshSession {
    /// Closed session in `Idle`: project `tese`, port 22, command
    /// `hostname`, everything else empty.
    pub fn new() -> (r: Self)
        ensures
            r.phase == SshPhase::Idle,
            r.config.project@ == "tese"@,
            r.config.alias@.len() == 0,
            r.config.target.host@.len() == 0,
            r.config.target.port == 22,
            r.config.target.username@.len() == 0,
            r.config.command@ == "hostname"@,
            r.config.identity_pem@.len() == 0,
            r.config.trust_path@.len() == 0,
            r.config.passphrase@.len() == 0,
    {
        SshSession {
            config: SshSessionConfig {
                project: lit("tese"),
                alias: String::new(),
                target: SshTarget { host: String::new(), port: 22, username: String::new() },
                command: lit("hostname"),
                identity_pem: String::new(),
                trust_path: String::new(),
                passphrase: String::new(),
            },
            phase: SshPhase::Idle,
        }
    }

    /// Starts an attempt unless one is running; the result says whether the
    /// caller must now run the connection.
    pub fn start(&mut self) -> (launch: bool)
        ensures
            launch == (old(self).phase != SshPhase::Running),
            final(self).phase == SshPhase::Running,
            final(self).config == old(self).config,
    {
        if let SshPhase::Running = self.phase {
            return false;
        }
        self.phase = SshPhase::Running;
        true
    }

    /// The attempt ended: output, an unknown host key to approve, or a
    /// failure with its message.
    pub fn finished(&mut self, outcome: Result<String, BridgeFailure>)
        ensures
            final(self).phase == phase_after(outcome),
            final(self).config == old(self).config,
    {
        self.phase = match outcome {
            Ok(output) => SshPhase::Done { output },
            Err(BridgeFailure::UnknownHost { key_type, fingerprint }) => SshPhase::NeedsApproval {
                key_type,
                fingerprint,
            },
            Err(BridgeFailure::Other { message }) => SshPhase::Failed { error: message },
        };
    }

    /// The approval an operator gives to the key displayed: only while a key
    /// waits for approval. It records the session's project, alias and
    /// target, and the key it replaces for the same host and port, if any.
    pub fn approval(&self, approved_by: &str, existing: &Vec<Approval>, now_unix: u64) -> (r: Result<Approval, String>)
        ensures
            match self.phase {
                SshPhase::NeedsApproval { key_type, fingerprint } => r matches Ok(a) && {
                    &&& a.project == self.config.project
                    &&& a.alias == self.config.alias
                    &&& a.host == self.config.target.host
                    &&& a.port == self.config.target.port
                    &&& a.key.key_type == key_type
                    &&& a.key.fingerprint == fingerprint
                    &&& a.approved_by@ == approved_by@
                    &&& a.approved_at_unix == now_unix
                    &&& a.replaced == match first_for(existing@, self.config.target.host@, self.config.target.port) {
                        Some(i) => Some(existing@[i].key),
                        None => None,
                    }
                },
                _ => r matches Err(e) && e@ == "nada a aprovar"@,
            },
    {
        match &self.phase {
            SshPhase::NeedsApproval { key_type, fingerprint } => {
                let replaced = match first_index(existing, self.config.target.host.as_str(), self.config.target.port) {
                    Some(i) => Some(copy_key(&existing[i].key)),
                    None => None,
                };
                Ok(Approval {
                    project: self.config.project.clone(),
                    alias: self.config.alias.clone(),
                    host: self.config.target.host.clone(),
                    port: self.config.target.port,
                    key: KeyIdentity { key_type: key_type.clone(), fingerprint: fingerprint.clone() },
                    approved_by: owned(approved_by),
                    approved_at_unix: now_unix,
                    replaced,
                })
            },
            _ => Err(lit("nada a aprovar")),
        }
    }

    /// The approval was persisted: back to `Idle` (reconnecting is the
    /// operator's explicit decision).
    pub fn approval_saved(&mut self)
        ensures
            final(self).phase == SshPhase::Idle,
            final(self).config == old(self).config,
    {
        self.phase = SshPhase::Idle;
    }

    /// Keeps the identity and the trust file together in `dir`.
    pub fn set_directory(&mut self, dir: &str)
        ensures
            final(self).config.identity_pem@ == join_path(dir@, "studio_ed25519"@),
            final(self).config.trust_path@ == join_path(dir@, "trust.json"@),
            final(self).config.project == old(self).config.project,
            final(self).config.alias == old(self).config.alias,
            final(self).config.target == old(self).config.target,
            final(self).config.command == old(self).config.command,
            final(self).config.passphrase == old(self).config.passphrase,
            final(self).phase == old(self).phase,
    {
        self.config.identity_pem = join_file(dir, "studio_ed25519");
        self.config.trust_path = join_file(dir, "trust.json");
    }
}

impl Default for SshSession {
    fn default() -> (r: Self)
        ensures
            r.phase == SshPhase::Idle,
            r.config.project@ == "tese"@,
            r.config.alias@.len() == 0,
            r.config.target.host@.len() == 0,
            r.config.target.port == 22,
            r.config.target.username@.len() == 0,
            r.config.command@ == "hostname"@,
            r.config.identity_pem@.len() == 0,
            r.config.trust_path@.len() == 0,
            r.config.passphrase@.len() == 0,
    {
        Self::new()
    }
}

} // verus!
