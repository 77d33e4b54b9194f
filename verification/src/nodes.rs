//! Nodes known to the studio, administered from one window. Only
//! addresses the operator typed are kept, as `(alias, URL)`: the registry
//! never scans the network nor tries credentials, and starts empty.

use vstd::prelude::*;
use crate::text::{lit, append, owned, same, trim, trim_str, strip_trailing, strip_trailing_str, starts_with,
    starts_with_str, lemma_filter_push};

verus! {

broadcast use vstd::seq_lib::group_seq_properties;

/// A registry entry: local alias and the node's administrative URL.
#[derive(Debug, Clone, PartialEq, Eq)]
pub struct NodeEntry {
    pub alias: String,
    pub url: String,
}

/// Errors of the registry (local validation, no network effect).
#[derive(Debug, Clone, PartialEq, Eq)]
pub enum NodesError {
    /// Empty alias or URL, URL outside http(s), or a duplicate.
    Invalid { detail: String },
}

impl NodesError {
    /// The error's text.
    pub open spec fn text(self) -> Seq<char> {
        match self {
            NodesError::Invalid { detail } => "no invalido: "@ + detail@,
        }
    }

    /// The error's text.
    pub fn message(&self) -> (r: String)
        ensures
            r@ == self.text(),
    {
        match self {
            NodesError::Invalid { detail } => {
                let mut r = lit("no invalido: ");
                append(&mut r, detail.as_str());
                r
            },
        }
    }
}

/// Contents of a [`NodeRegistry`].
pub struct RegistryView {
    pub entries: Seq<NodeEntry>,
    pub selected: Option<int>,
    pub draft_alias: Seq<char>,
    pub draft_url: Seq<char>,
    pub error: Seq<char>,
}

/// The URL as the registry keeps it: trimmed, without trailing slashes.
pub open spec fn clean_url(url: Seq<char>) -> Seq<char> {
    strip_trailing(trim(url), '/')
}

/// Why `(alias, url)` cannot join `entries`, if it cannot.
pub open spec fn add_problem(entries: Seq<NodeEntry>, alias: Seq<char>, url: Seq<char>) -> Option<Seq<char>> {
    let a = trim(alias);
    let u = clean_url(url);
    if a.len() == 0 || u.len() == 0 {
        Some("apelido e URL precisam ser preenchidos"@)
    } else if !(starts_with(u, "http://"@) || starts_with(u, "https://"@)) {
        Some("URL precisa começar com http:// ou https://"@)
    } else if exists|i: int| 0 <= i < entries.len() && (#[trigger] entries[i]).alias@ == a {
        Some("apelido já cadastrado"@)
    } else if exists|i: int| 0 <= i < entries.len() && (#[trigger] entries[i]).url@ == u {
        Some("URL já cadastrada em outro apelido"@)
    } else {
        None
    }
}

/// Registry of nodes with the current selection and the form's draft.
#[derive(Debug, Clone)]
pub struct NodeRegistry {
    entries: Vec<NodeEntry>,
    selected: Option<usize>,
    pub draft_alias: String,
    pub draft_url: String,
    pub error: String,
}

impl View for NodeRegistry {
    type V = RegistryView;

    closed spec fn view(&self) -> RegistryView {
        RegistryView {
            entries: self.entries@,
            selected: match self.selected {
                Some(i) => Some(i as int),
                None => None,
            },
            draft_alias: self.draft_alias@,
            draft_url: self.draft_url@,
            error: self.error@,
        }
    }
}

/// Position of the first entry whose alias is `alias`.
fn position_of(entries: &Vec<NodeEntry>, alias: &str) -> (r: Option<usize>)
    ensures
        match r {
            Some(i) => i < entries@.len() && entries@[i as int].alias@ == alias@ && forall|k: int|
                0 <= k < i ==> (#[trigger] entries@[k]).alias@ != alias@,
            None => forall|k: int| 0 <= k < entries@.len() ==> (#[trigger] entries@[k]).alias@ != alias@,
        },
{
    let mut i: usize = 0;
    while i < entries.len()
        invariant
            i <= entries@.len(),
            forall|k: int| 0 <= k < i ==> (#[trigger] entries@[k]).alias@ != alias@,
        decreases entries.len() - i,
    {
        if same(entries[i].alias.as_str(), alias) {
            return Some(i);
        }
        i = i + 1;
    }
    None
}

fn has_url(entries: &Vec<NodeEntry>, url: &str) -> (r: bool)
    ensures
        r == exists|i: int| 0 <= i < entries@.len() && (#[trigger] entries@[i]).url@ == url@,
{
    let mut i: usize = 0;
    while i < entries.len()
        invariant
            i <= entries@.len(),
            forall|k: int| 0 <= k < i ==> (#[trigger] entries@[k]).url@ != url@,
        decreases entries.len() - i,
    {
        if same(entries[i].url.as_str(), url) {
            return true;
        }
        i = i + 1;
    }
    false
}

impl NodeRegistry {
    /// Aliases and URLs never repeat, and the selection points at an entry.
    pub open spec fn wf(self) -> bool {
        &&& forall|i: int, j: int| 0 <= i < j < self@.entries.len() ==> (#[trigger] self@.entries[i]).alias@
            != (#[trigger] self@.entries[j]).alias@ && self@.entries[i].url@ != self@.entries[j].url@
        &&& (self@.selected matches Some(i) ==> 0 <= i < self@.entries.len())
    }

    /// An honest empty registry: no node known until the operator types one.
    pub fn new() -> (r: Self)
        ensures
            r@.entries.len() == 0,
            r@.selected is None,
            r@.draft_alias.len() == 0,
            r@.draft_url.len() == 0,
            r@.error.len() == 0,
            r.wf(),
    {
        NodeRegistry {
            entries: Vec::new(),
            selected: None,
            draft_alias: String::new(),
            draft_url: String::new(),
            error: String::new(),
        }
    }

    /// Entries in insertion order.
    pub fn list(&self) -> (r: &[NodeEntry])
        ensures
            r@ == self@.entries,
    {
        self.entries.as_slice()
    }

    /// The current selection, if any.
    pub fn selected(&self) -> (r: Option<&NodeEntry>)
        ensures
            match self@.selected {
                Some(i) => if 0 <= i < self@.entries.len() {
                    r is Some && *r.unwrap() == self@.entries[i]
                } else {
                    r is None
                },
                None => r is None,
            },
    {
        match self.selected {
            Some(i) => if i < self.entries.len() {
                Some(&self.entries[i])
            } else {
                None
            },
            None => None,
        }
    }

    /// Adds the node after validating; a repeated alias or URL is refused.
    /// The first node added becomes the selection.
    pub fn add(&mut self, alias: &str, url: &str) -> (r: Result<(), NodesError>)
        requires
            old(self).wf(),
        ensures
            final(self).wf(),
            match add_problem(old(self)@.entries, alias@, url@) {
                Some(d) => r is Err && r->Err_0->detail@ == d && final(self)@ == old(self)@,
                None => r is Ok && final(self)@.entries == old(self)@.entries.push(final(self)@.entries.last())
                    && final(self)@.entries.last().alias@ == trim(alias@)
                    && final(self)@.entries.last().url@ == clean_url(url@)
                    && final(self)@.selected == match old(self)@.selected {
                        Some(i) => Some(i),
                        None => Some(old(self)@.entries.len() as int),
                    } && final(self)@.draft_alias == old(self)@.draft_alias && final(self)@.draft_url
                    == old(self)@.draft_url && final(self)@.error == old(self)@.error,
            },
    {
        let a = trim_str(alias);
        let t = trim_str(url);
        let u = strip_trailing_str(t.as_str(), '/');
        if a.as_str().is_empty() || u.as_str().is_empty() {
            return Err(NodesError::Invalid { detail: lit("apelido e URL precisam ser preenchidos") });
        }
        if !(starts_with_str(u.as_str(), "http://") || starts_with_str(u.as_str(), "https://")) {
            return Err(NodesError::Invalid { detail: lit("URL precisa começar com http:// ou https://") });
        }
        if let Some(_) = position_of(&self.entries, a.as_str()) {
            return Err(NodesError::Invalid { detail: lit("apelido já cadastrado") });
        }
        if has_url(&self.entries, u.as_str()) {
            return Err(NodesError::Invalid { detail: lit("URL já cadastrada em outro apelido") });
        }
        let ghost before = self@.entries;
        self.entries.push(NodeEntry { alias: a, url: u });
        proof {
            assert forall|i: int, j: int| 0 <= i < j < self@.entries.len() implies (#[trigger] self@.entries[i]).alias@
                != (#[trigger] self@.entries[j]).alias@ && self@.entries[i].url@ != self@.entries[j].url@ by {
                assert(self@.entries[i] == before[i]);
                if j < before.len() {
                    assert(self@.entries[j] == before[j]);
                }
            }
        }
        if self.selected.is_none() {
            self.selected = Some(self.entries.len() - 1);
        }
        Ok(())
    }

    /// Adds the node the form describes: on success the form is cleared
    /// and so is the error; a refusal becomes the error shown.
    pub fn submit_draft(&mut self)
        requires
            old(self).wf(),
        ensures
            final(self).wf(),
            match add_problem(old(self)@.entries, old(self)@.draft_alias, old(self)@.draft_url) {
                Some(d) => final(self)@.entries == old(self)@.entries && final(self)@.selected == old(self)@.selected
                    && final(self)@.error == "no invalido: "@ + d && final(self)@.draft_alias == old(self)@.draft_alias
                    && final(self)@.draft_url == old(self)@.draft_url,
                None => final(self)@.entries.len() == old(self)@.entries.len() + 1 && final(self)@.entries.drop_last()
                    == old(self)@.entries && final(self)@.entries.last().alias@ == trim(old(self)@.draft_alias)
                    && final(self)@.entries.last().url@ == clean_url(old(self)@.draft_url)
                    && final(self)@.draft_alias.len() == 0 && final(self)@.draft_url.len() == 0
                    && final(self)@.error.len() == 0,
            },
    {
        let alias = owned(self.draft_alias.as_str());
        let url = owned(self.draft_url.as_str());
        match self.add(alias.as_str(), url.as_str()) {
            Ok(()) => {
                self.draft_alias = String::new();
                self.draft_url = String::new();
                self.error = String::new();
            },
            Err(e) => {
                self.error = e.message();
            },
        }
    }

    /// Removes the entries named `alias`; the selection falls to the first
    /// remaining entry, or to none.
    pub fn remove(&mut self, alias: &str)
        requires
            old(self).wf(),
        ensures
            final(self).wf(),
            final(self)@.entries == old(self)@.entries.filter(|e: NodeEntry| e.alias@ != alias@),
            final(self)@.selected == if final(self)@.entries.len() == 0 {
                None::<int>
            } else {
                Some(0int)
            },
            final(self)@.draft_alias == old(self)@.draft_alias,
            final(self)@.draft_url == old(self)@.draft_url,
            final(self)@.error == old(self)@.error,
    {
        let ghost pred = |e: NodeEntry| e.alias@ != alias@;
        let mut old_entries: Vec<NodeEntry> = Vec::new();
        std::mem::swap(&mut old_entries, &mut self.entries);
        let mut kept: Vec<NodeEntry> = Vec::new();
        for e in it: old_entries
            invariant
                it.seq() == old(self)@.entries,
                kept@ == it.seq().take(it.index() as int).filter(pred),
                pred == (|e: NodeEntry| e.alias@ != alias@),
        {
            proof {
                let s = it.seq().take(it.index() as int);
                assert(it.seq().take(it.index() + 1) =~= s.push(e));
                lemma_filter_push(s, e, pred);
            }
            if !same(e.alias.as_str(), alias) {
                kept.push(e);
            }
        }
        proof {
            let s = old(self)@.entries;
            assert(s.take(s.len() as int) =~= s);
            lemma_kept_nodes(s, pred);
        }
        self.entries = kept;
        self.selected = if self.entries.len() == 0 {
            None
        } else {
            Some(0)
        };
    }

    /// Selects by alias; an unknown alias keeps the previous selection.
    pub fn select(&mut self, alias: &str)
        requires
            old(self).wf(),
        ensures
            final(self).wf(),
            final(self)@.entries == old(self)@.entries,
            final(self)@.draft_alias == old(self)@.draft_alias,
            final(self)@.draft_url == old(self)@.draft_url,
            final(self)@.error == old(self)@.error,
            (exists|i: int| 0 <= i < old(self)@.entries.len() && (#[trigger] old(self)@.entries[i]).alias@ == alias@)
                ==> (final(self)@.selected matches Some(i) && 0 <= i < old(self)@.entries.len()
                && old(self)@.entries[i].alias@ == alias@),
            !(exists|i: int| 0 <= i < old(self)@.entries.len() && (#[trigger] old(self)@.entries[i]).alias@ == alias@)
                ==> final(self)@.selected == old(self)@.selected,
    {
        if let Some(i) = position_of(&self.entries, alias) {
            self.selected = Some(i);
        }
    }
}

impl Default for NodeRegistry {
    fn default() -> (r: Self)
        ensures
            r@.entries.len() == 0,
            r@.selected is None,
            r.wf(),
    {
        Self::new()
    }
}

proof fn lemma_kept_nodes(s: Seq<NodeEntry>, pred: spec_fn(NodeEntry) -> bool)
    requires
        forall|i: int, j: int| 0 <= i < j < s.len() ==> (#[trigger] s[i]).alias@ != (#[trigger] s[j]).alias@
            && s[i].url@ != s[j].url@,
    ensures
        forall|i: int, j: int| 0 <= i < j < s.filter(pred).len() ==> (#[trigger] s.filter(pred)[i]).alias@
            != (#[trigger] s.filter(pred)[j]).alias@ && s.filter(pred)[i].url@ != s.filter(pred)[j].url@,
    decreases s.len(),
{
    reveal(Seq::filter);
    if s.len() > 0 {
        let t = s.drop_last();
        assert forall|i: int, j: int| 0 <= i < j < t.len() implies (#[trigger] t[i]).alias@ != (#[trigger] t[j]).alias@
            && t[i].url@ != t[j].url@ by {
            assert(t[i] == s[i] && t[j] == s[j]);
        }
        lemma_kept_nodes(t, pred);
        crate::text::lemma_filter_from(t, pred);
        let f = t.filter(pred);
        if pred(s.last()) {
            assert(s.filter(pred) =~= f.push(s.last()));
            assert forall|i: int, j: int| 0 <= i < j < f.push(s.last()).len() implies (#[trigger] f.push(
                s.last(),
            )[i]).alias@ != (#[trigger] f.push(s.last())[j]).alias@ && f.push(s.last())[i].url@ != f.push(
                s.last(),
            )[j].url@ by {
                if j == f.len() {
                    let k = choose|k: int| 0 <= k < t.len() && t[k] == f[i];
                    assert(s[k] == t[k]);
                }
            }
        } else {
            assert(s.filter(pred) =~= f);
        }
    }
}

} // verus!
