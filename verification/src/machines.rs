//! Machines and network: identity, health, trust, administration and DDS
//! evidence kept in distinct fields. Nothing here scans the network;
//! actions only emit intentions.

use vstd::prelude::*;
use crate::text::{lit, append, owned, same, trim, trim_str, lemma_filter_push};

verus! {

broadcast use vstd::seq_lib::group_seq_properties;

/// Administrative connectivity (health of the management channel).
#[derive(Debug, Clone, Copy, PartialEq, Eq, Structural)]
pub enum AdminState {
    Managed,
    Unreachable,
    Unknown,
}

impl AdminState {
    /// Display name.
    pub open spec fn title(self) -> Seq<char> {
        match self {
            AdminState::Managed => "gerenciada"@,
            AdminState::Unreachable => "inacessível"@,
            AdminState::Unknown => "não verificado"@,
        }
    }

    /// Display name.
    pub fn label(self) -> (r: &'static str)
        ensures
            r@ == self.title(),
    {
        match self {
            AdminState::Managed => "gerenciada",
            AdminState::Unreachable => "inacessível",
            AdminState::Unknown => "não verificado",
        }
    }
}

/// Trust in the identity (a field apart from health).
#[derive(Debug, Clone, Copy, PartialEq, Eq, Structural)]
pub enum TrustState {
    Verified,
    Unverified,
    Divergent,
}

impl TrustState {
    /// Display name.
    pub open spec fn title(self) -> Seq<char> {
        match self {
            TrustState::Verified => "verificada"@,
            TrustState::Unverified => "não verificada"@,
            TrustState::Divergent => "identidade divergente"@,
        }
    }

    /// Display name.
    pub fn label(self) -> (r: &'static str)
        ensures
            r@ == self.title(),
    {
        match self {
            TrustState::Verified => "verificada",
            TrustState::Unverified => "não verificada",
            TrustState::Divergent => "identidade divergente",
        }
    }
}

/// DDS evidence available (no proof of administration).
#[derive(Debug, Clone, Copy, PartialEq, Eq, Structural)]
pub enum DdsEvidence {
    Observed,
    Partial,
    Absent,
}

impl DdsEvidence {
    /// Display name.
    pub open spec fn title(self) -> Seq<char> {
        match self {
            DdsEvidence::Observed => "observada"@,
            DdsEvidence::Partial => "parcial"@,
            DdsEvidence::Absent => "ausente"@,
        }
    }

    /// Display name.
    pub fn label(self) -> (r: &'static str)
        ensures
            r@ == self.title(),
    {
        match self {
            DdsEvidence::Observed => "observada",
            DdsEvidence::Partial => "parcial",
            DdsEvidence::Absent => "ausente",
        }
    }
}

/// A machine known to the project.
#[derive(Debug, Clone, PartialEq)]
pub struct MachineEntry {
    pub alias: String,
    pub endpoint: String,
    pub admin: AdminState,
    pub trust: TrustState,
    pub dds: DdsEvidence,
    pub services: Vec<String>,
    pub origin: String,
    pub last_seen: String,
}

impl MachineEntry {
    /// A machine just typed in by the operator: nothing verified or
    /// observed yet, each dimension at its own neutral value.
    pub open spec fn is_new(self, alias: Seq<char>, endpoint: Seq<char>) -> bool {
        &&& self.alias@ == alias
        &&& self.endpoint@ == endpoint
        &&& self.admin == AdminState::Unknown
        &&& self.trust == TrustState::Unverified
        &&& self.dds == DdsEvidence::Absent
        &&& self.services@.len() == 0
        &&& self.origin@ == "cadastro local"@
        &&& self.last_seen@ == "nunca observado"@
    }
}

/// Some entry has alias `alias`.
pub open spec fn has_alias(entries: Seq<MachineEntry>, alias: Seq<char>) -> bool {
    exists|i: int| 0 <= i < entries.len() && (#[trigger] entries[i]).alias@ == alias
}

/// Contents of a [`MachineLedger`].
pub struct LedgerView {
    pub entries: Seq<MachineEntry>,
    pub selected: Option<Seq<char>>,
    pub draft_alias: Seq<char>,
    pub draft_endpoint: Seq<char>,
    pub error: Seq<char>,
}

/// Machines typed in by the operator (no scanning), the selection and the
/// form's draft.
#[derive(Debug, Clone, Default)]
pub struct MachineLedger {
    entries: Vec<MachineEntry>,
    selected: Option<String>,
    pub draft_alias: String,
    pub draft_endpoint: String,
    pub error: String,
}

impl View for MachineLedger {
    type V = LedgerView;

    closed spec fn view(&self) -> LedgerView {
        LedgerView {
            entries: self.entries@,
            selected: match self.selected {
                Some(s) => Some(s@),
                None => None,
            },
            draft_alias: self.draft_alias@,
            draft_endpoint: self.draft_endpoint@,
            error: self.error@,
        }
    }
}

fn find_alias(entries: &Vec<MachineEntry>, alias: &str) -> (r: Option<usize>)
    ensures
        match r {
            Some(i) => i < entries@.len() && entries@[i as int].alias@ == alias@,
            None => !has_alias(entries@, alias@),
        },
{
    let mut i: usize = 0;
    while i < entries.len()
        invariant
            i <= entries@.len(),
            forall|k: int| 0 <= k < i ==> (#[trigger] entries@[k]).alias@ != alias@,
        decreases entries.len() - i,
    {
        if same(entries[i].alias.as_str(), alias) {
            return Some(i);
        }
        i = i + 1;
    }
    None
}

impl MachineLedger {
    /// No alias repeats, and the selection names a listed machine.
    pub open spec fn wf(self) -> bool {
        &&& forall|i: int, j: int| 0 <= i < j < self@.entries.len() ==> (#[trigger] self@.entries[i]).alias@
            != (#[trigger] self@.entries[j]).alias@
        &&& (self@.selected matches Some(a) ==> has_alias(self@.entries, a))
    }

    /// An empty ledger.
    pub fn new() -> (r: Self)
        ensures
            r@.entries.len() == 0,
            r@.selected is None,
            r.wf(),
            r@.draft_alias.len() == 0,
            r@.draft_endpoint.len() == 0,
            r@.error.len() == 0,
    {
        MachineLedger {
            entries: Vec::new(),
            selected: None,
            draft_alias: String::new(),
            draft_endpoint: String::new(),
            error: String::new(),
        }
    }

    /// Adds a machine under the trimmed alias, with the trimmed endpoint;
    /// an empty or repeated alias is refused.
    pub fn add(&mut self, alias: &str, endpoint: &str) -> (r: Result<(), String>)
        requires
            old(self).wf(),
        ensures
            final(self).wf(),
            final(self)@.selected == old(self)@.selected,
            trim(alias@).len() == 0 ==> r == Err::<(), String>(r->Err_0) && r->Err_0@ == "apelido vazio"@
                && final(self)@.entries == old(self)@.entries,
            trim(alias@).len() > 0 && has_alias(old(self)@.entries, trim(alias@)) ==> r is Err && r->Err_0@
                == "máquina duplicada: "@ + trim(alias@) && final(self)@.entries == old(self)@.entries,
            trim(alias@).len() > 0 && !has_alias(old(self)@.entries, trim(alias@)) ==> r is Ok
                && final(self)@.entries.len() == old(self)@.entries.len() + 1 && final(self)@.entries.drop_last()
                == old(self)@.entries && final(self)@.entries.last().is_new(trim(alias@), trim(endpoint@)),
    {
        let a = trim_str(alias);
        if a.as_str().is_empty() {
            return Err(lit("apelido vazio"));
        }
        if let Some(_) = find_alias(&self.entries, a.as_str()) {
            let mut e = lit("máquina duplicada: ");
            append(&mut e, a.as_str());
            return Err(e);
        }
        let entry = MachineEntry {
            alias: a,
            endpoint: trim_str(endpoint),
            admin: AdminState::Unknown,
            trust: TrustState::Unverified,
            dds: DdsEvidence::Absent,
            services: Vec::new(),
            origin: lit("cadastro local"),
            last_seen: lit("nunca observado"),
        };
        let ghost before = self@.entries;
        self.entries.push(entry);
        proof {
            assert forall|i: int| 0 <= i < before.len() implies (#[trigger] self@.entries[i]).alias@
                != self@.entries.last().alias@ by {
                assert(self@.entries[i] == before[i]);
            }
            match self@.selected {
                Some(s) => {
                    let k = choose|k: int| 0 <= k < before.len() && (#[trigger] before[k]).alias@ == s;
                    assert(self@.entries[k] == before[k]);
                },
                None => {},
            }
        }
        Ok(())
    }

    /// Removes the machines named `alias`; a removed selection becomes none.
    pub fn remove(&mut self, alias: &str)
        requires
            old(self).wf(),
        ensures
            final(self).wf(),
            final(self)@.entries == old(self)@.entries.filter(|e: MachineEntry| e.alias@ != alias@),
            final(self)@.selected == if old(self)@.selected == Some(alias@) {
                None::<Seq<char>>
            } else {
                old(self)@.selected
            },
    {
        let ghost pred = |e: MachineEntry| e.alias@ != alias@;
        let mut old_entries: Vec<MachineEntry> = Vec::new();
        std::mem::swap(&mut old_entries, &mut self.entries);
        let mut kept: Vec<MachineEntry> = Vec::new();
        for e in it: old_entries
            invariant
                it.seq() == old(self)@.entries,
                kept@ == it.seq().take(it.index() as int).filter(pred),
                pred == (|e: MachineEntry| e.alias@ != alias@),
        {
            proof {
                let s = it.seq().take(it.index() as int);
                assert(it.seq().take(it.index() + 1) =~= s.push(e));
                lemma_filter_push(s, e, pred);
            }
            if !same(e.alias.as_str(), alias) {
                kept.push(e);
            }
        }
        proof {
            let s = old(self)@.entries;
            assert(s.take(s.len() as int) =~= s);
            lemma_kept_entries(s, pred, alias@);
        }
        self.entries = kept;
        let drop_selection = match &self.selected {
            Some(s) => same(s.as_str(), alias),
            None => false,
        };
        if drop_selection {
            self.selected = None;
        }
    }

    /// Selects by alias; an unknown alias clears the selection.
    pub fn select(&mut self, alias: &str)
        requires
            old(self).wf(),
        ensures
            final(self).wf(),
            final(self)@.entries == old(self)@.entries,
            final(self)@.selected == if has_alias(old(self)@.entries, alias@) {
                Some(alias@)
            } else {
                None::<Seq<char>>
            },
    {
        if let Some(_) = find_alias(&self.entries, alias) {
            self.selected = Some(owned(alias));
        } else {
            self.selected = None;
        }
    }

    /// The machines, in insertion order.
    pub fn list(&self) -> (r: &[MachineEntry])
        ensures
            r@ == self@.entries,
    {
        self.entries.as_slice()
    }

    /// The selected machine, if any.
    pub fn selected(&self) -> (r: Option<&MachineEntry>)
        requires
            self.wf(),
        ensures
            match self@.selected {
                Some(a) => r is Some && r.unwrap().alias@ == a && self@.entries.contains(*r.unwrap()),
                None => r is None,
            },
    {
        match &self.selected {
            Some(a) => match find_alias(&self.entries, a.as_str()) {
                Some(i) => Some(&self.entries[i]),
                None => None,
            },
            None => None,
        }
    }
}

proof fn lemma_kept_entries(s: Seq<MachineEntry>, pred: spec_fn(MachineEntry) -> bool, alias: Seq<char>)
    requires
        forall|e: MachineEntry| #[trigger] pred(e) == (e.alias@ != alias),
        forall|i: int, j: int| 0 <= i < j < s.len() ==> (#[trigger] s[i]).alias@ != (#[trigger] s[j]).alias@,
    ensures
        forall|i: int, j: int| 0 <= i < j < s.filter(pred).len() ==> (#[trigger] s.filter(pred)[i]).alias@
            != (#[trigger] s.filter(pred)[j]).alias@,
        forall|a: Seq<char>| a != alias && has_alias(s, a) ==> has_alias(s.filter(pred), a),
    decreases s.len(),
{
    reveal(Seq::filter);
    if s.len() > 0 {
        let t = s.drop_last();
        assert forall|i: int, j: int| 0 <= i < j < t.len() implies (#[trigger] t[i]).alias@ != (#[trigger] t[j]).alias@ by {
            assert(t[i] == s[i] && t[j] == s[j]);
        }
        lemma_kept_entries(t, pred, alias);
        crate::text::lemma_filter_from(t, pred);
        let f = t.filter(pred);
        assert forall|a: Seq<char>| a != alias && has_alias(s, a) implies has_alias(s.filter(pred), a) by {
            let k = choose|k: int| 0 <= k < s.len() && (#[trigger] s[k]).alias@ == a;
            if k < t.len() {
                assert(t[k] == s[k]);
                assert(has_alias(t, a));
                let m = choose|m: int| 0 <= m < f.len() && (#[trigger] f[m]).alias@ == a;
                if pred(s.last()) {
                    assert(s.filter(pred) =~= f.push(s.last()));
                    assert(s.filter(pred)[m] == f[m]);
                } else {
                    assert(s.filter(pred) =~= f);
                }
            } else {
                assert(pred(s.last()));
                assert(s.filter(pred) =~= f.push(s.last()));
                assert(s.filter(pred)[f.len() as int] == s.last());
            }
        }
        if pred(s.last()) {
            assert(s.filter(pred) =~= f.push(s.last()));
            assert forall|i: int, j: int| 0 <= i < j < f.push(s.last()).len() implies (#[trigger] f.push(
                s.last(),
            )[i]).alias@ != (#[trigger] f.push(s.last())[j]).alias@ by {
                if j == f.len() {
                    let k = choose|k: int| 0 <= k < t.len() && t[k] == f[i];
                    assert(s[k] == t[k]);
                    assert(s[k].alias@ != s[s.len() - 1].alias@);
                }
            }
        } else {
            assert(s.filter(pred) =~= f);
        }
    }
}

} // verus!
