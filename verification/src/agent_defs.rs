//! Agent definitions: local, versioned drafts kept apart from the instances
//! observed live. Duplicating a definition mints a draft with a new
//! identity; an instance is linked to a definition only by an explicit
//! association, otherwise its definition is "not confirmed".

use vstd::prelude::*;
use crate::text::{lit, append, owned, same, decimal, decimal_of, join, views, join_strings, copy_strings,
    lemma_decimal_injective, lemma_prefix_cancel, lemma_filter_push, lemma_filter_from};

verus! {

broadcast use vstd::seq_lib::group_seq_properties;

/// Agent definition (a local draft until published).
#[derive(Debug, Clone, PartialEq, Eq)]
pub struct AgentDefinition {
    pub id: String,
    pub name: String,
    pub specialization: String,
    pub instructions: String,
    pub machine: String,
    pub server: String,
    pub model: String,
    pub tools: Vec<String>,
    pub revision: u64,
    pub published: bool,
}

/// Text shown for a destination not chosen yet.
pub open spec fn or_unchosen(s: Seq<char>) -> Seq<char> {
    if s.len() == 0 {
        "não escolhido"@
    } else {
        s
    }
}

impl AgentDefinition {
    /// An empty, unpublished draft at revision 0 with identity `id`.
    pub open spec fn is_draft_of(self, id: Seq<char>) -> bool {
        &&& self.id@ == id
        &&& self.name@.len() == 0
        &&& self.specialization@.len() == 0
        &&& self.instructions@.len() == 0
        &&& self.machine@.len() == 0
        &&& self.server@.len() == 0
        &&& self.model@.len() == 0
        &&& self.tools@.len() == 0
        &&& self.revision == 0
        &&& !self.published
    }

    /// Same content in every field, identity included.
    pub open spec fn same_as(self, o: AgentDefinition) -> bool {
        &&& self.id@ == o.id@
        &&& self.same_content(o)
        &&& self.revision == o.revision
        &&& self.published == o.published
    }

    /// Same name, instructions, destinations and tools.
    pub open spec fn same_content(self, o: AgentDefinition) -> bool {
        &&& self.name@ == o.name@
        &&& self.specialization@ == o.specialization@
        &&& self.instructions@ == o.instructions@
        &&& self.machine@ == o.machine@
        &&& self.server@ == o.server@
        &&& self.model@ == o.model@
        &&& views(self.tools@) == views(o.tools@)
    }

    /// The summary of distinct destinations: the agent's machine, the
    /// inference server and the tools.
    pub open spec fn summary(self) -> Seq<char> {
        "Agente executará em: "@ + or_unchosen(self.machine@) + ". Inferência solicitada ao servidor: "@
            + or_unchosen(self.server@) + ". Ferramentas: "@ + (if self.tools@.len() == 0 {
            "nenhuma"@
        } else {
            join(views(self.tools@), ", "@)
        }) + "."@
    }

    /// Empty draft with identity `id`.
    pub fn draft(id: &str) -> (r: Self)
        ensures
            r.is_draft_of(id@),
    {
        AgentDefinition {
            id: owned(id),
            name: String::new(),
            specialization: String::new(),
            instructions: String::new(),
            machine: String::new(),
            server: String::new(),
            model: String::new(),
            tools: Vec::new(),
            revision: 0,
            published: false,
        }
    }

    /// A copy of the definition.
    pub fn duplicate(&self) -> (r: Self)
        ensures
            r.same_as(*self),
    {
        AgentDefinition {
            id: self.id.clone(),
            name: self.name.clone(),
            specialization: self.specialization.clone(),
            instructions: self.instructions.clone(),
            machine: self.machine.clone(),
            server: self.server.clone(),
            model: self.model.clone(),
            tools: copy_strings(&self.tools),
            revision: self.revision,
            published: self.published,
        }
    }

    /// Summary of distinct destinations for the review.
    pub fn destination_summary(&self) -> (r: String)
        ensures
            r@ == self.summary(),
    {
        let mut r = lit("Agente executará em: ");
        if self.machine.as_str().is_empty() {
            append(&mut r, "não escolhido");
        } else {
            append(&mut r, self.machine.as_str());
        }
        append(&mut r, ". Inferência solicitada ao servidor: ");
        if self.server.as_str().is_empty() {
            append(&mut r, "não escolhido");
        } else {
            append(&mut r, self.server.as_str());
        }
        append(&mut r, ". Ferramentas: ");
        if self.tools.len() == 0 {
            append(&mut r, "nenhuma");
        } else {
            append(&mut r, join_strings(&self.tools, ", ").as_str());
        }
        append(&mut r, ".");
        r
    }
}

/// Identity minted for the `k`-th definition of a store.
pub open spec fn def_id(k: nat) -> Seq<char> {
    "def-"@ + decimal(k)
}

/// `s` is the identity minted for some number in `1..=n`.
pub open spec fn minted_up_to(s: Seq<char>, n: nat) -> bool {
    exists|k: nat| 1 <= k <= n && s == def_id(k)
}

/// No two definitions share an identity.
pub open spec fn ids_distinct(defs: Seq<AgentDefinition>) -> bool {
    forall|i: int, j: int| 0 <= i < j < defs.len() ==> (#[trigger] defs[i]).id@ != (#[trigger] defs[j]).id@
}

/// Position of the first definition with identity `id`.
pub open spec fn first_def(defs: Seq<AgentDefinition>, id: Seq<char>) -> Option<int>
    decreases defs.len(),
{
    if defs.len() == 0 {
        None
    } else if defs[0].id@ == id {
        Some(0)
    } else {
        match first_def(defs.drop_first(), id) {
            Some(i) => Some(i + 1),
            None => None,
        }
    }
}

/// Position of the first association of instance `instance`.
pub open spec fn first_link(links: Seq<(String, String)>, instance: Seq<char>) -> Option<int>
    decreases links.len(),
{
    if links.len() == 0 {
        None
    } else if links[0].0@ == instance {
        Some(0)
    } else {
        match first_link(links.drop_first(), instance) {
            Some(i) => Some(i + 1),
            None => None,
        }
    }
}

/// Keeps the definitions whose identity is not `id`.
pub open spec fn id_not(id: Seq<char>) -> spec_fn(AgentDefinition) -> bool {
    |d: AgentDefinition| d.id@ != id
}

/// Keeps the associations that do not point at definition `id`.
pub open spec fn target_not(id: Seq<char>) -> spec_fn((String, String)) -> bool {
    |p: (String, String)| p.1@ != id
}

/// Keeps the associations of instances other than `instance`.
pub open spec fn instance_not(instance: Seq<char>) -> spec_fn((String, String)) -> bool {
    |p: (String, String)| p.0@ != instance
}

/// Every instance has at most one association.
pub open spec fn instances_distinct(links: Seq<(String, String)>) -> bool {
    forall|i: int, j: int| 0 <= i < j < links.len() ==> (#[trigger] links[i]).0@ != (#[trigger] links[j]).0@
}

/// Contents of a [`DefinitionStore`].
pub struct StoreView {
    pub definitions: Seq<AgentDefinition>,
    pub associations: Seq<(String, String)>,
    pub next_id: u64,
}

impl StoreView {
    /// The definition linked to `instance`, if the link and the definition
    /// both exist.
    pub open spec fn linked(self, instance: Seq<char>) -> Option<AgentDefinition> {
        match first_link(self.associations, instance) {
            Some(a) => match first_def(self.definitions, self.associations[a].1@) {
                Some(d) => Some(self.definitions[d]),
                None => None,
            },
            None => None,
        }
    }

    /// Some definition has identity `id`.
    pub open spec fn has_id(self, id: Seq<char>) -> bool {
        exists|i: int| 0 <= i < self.definitions.len() && (#[trigger] self.definitions[i]).id@ == id
    }
}

/// Definitions plus instance→definition associations.
#[derive(Debug, Clone)]
pub struct DefinitionStore {
    definitions: Vec<AgentDefinition>,
    associations: Vec<(String, String)>,
    next_id: u64,
}

impl View for DefinitionStore {
    type V = StoreView;

    closed spec fn view(&self) -> StoreView {
        StoreView { definitions: self.definitions@, associations: self.associations@, next_id: self.next_id }
    }
}

impl DefinitionStore {
    /// Every identity was minted by this store, none repeats, and every
    /// instance has at most one association.
    pub closed spec fn wf(self) -> bool {
        &&& forall|i: int| 0 <= i < self.definitions@.len() ==> minted_up_to(
            (#[trigger] self.definitions@[i]).id@,
            self.next_id as nat,
        )
        &&& ids_distinct(self.definitions@)
        &&& instances_distinct(self.associations@)
    }

    /// An empty store.
    pub fn new() -> (r: Self)
        ensures
            r@.definitions.len() == 0,
            r@.associations.len() == 0,
            r@.next_id == 0,
            r.wf(),
    {
        DefinitionStore { definitions: Vec::new(), associations: Vec::new(), next_id: 0 }
    }

    fn mint(&mut self) -> (id: String)
        requires
            old(self).wf(),
            old(self).next_id < u64::MAX,
        ensures
            final(self)@.next_id == old(self)@.next_id + 1,
            final(self)@.definitions == old(self)@.definitions,
            final(self)@.associations == old(self)@.associations,
            id@ == def_id(final(self)@.next_id as nat),
            !old(self)@.has_id(id@),
            final(self).wf(),
    {
        let n = self.next_id + 1;
        let mut id = lit("def-");
        append(&mut id, decimal_of(n).as_str());
        proof {
            assert forall|i: int| 0 <= i < self.definitions@.len() implies (#[trigger] self.definitions@[i]).id@ != id@ by {
                let k = choose|k: nat| 1 <= k <= self.next_id && self.definitions@[i].id@ == def_id(k);
                lemma_prefix_cancel("def-"@, decimal(k), decimal(n as nat));
                lemma_decimal_injective(k, n as nat);
            }
            assert forall|i: int| 0 <= i < self.definitions@.len() implies minted_up_to(
                (#[trigger] self.definitions@[i]).id@,
                n as nat,
            ) by {
                let k = choose|k: nat| 1 <= k <= self.next_id && self.definitions@[i].id@ == def_id(k);
                assert(1 <= k <= n);
            }
        }
        self.next_id = n;
        id
    }

    fn add(&mut self, def: AgentDefinition)
        requires
            old(self).wf(),
            minted_up_to(def.id@, old(self)@.next_id as nat),
            !old(self)@.has_id(def.id@),
        ensures
            final(self)@.definitions == old(self)@.definitions.push(def),
            final(self)@.associations == old(self)@.associations,
            final(self)@.next_id == old(self)@.next_id,
            final(self).wf(),
    {
        self.definitions.push(def);
    }

    /// Creates an empty draft with a new, unique identity (`def-<n>`).
    pub fn create_draft(&mut self) -> (r: &AgentDefinition)
        requires
            old(self).wf(),
            old(self)@.next_id < u64::MAX,
        ensures
            r.is_draft_of(def_id(final(self)@.next_id as nat)),
            !old(self)@.has_id(r.id@),
            final(self)@.definitions == old(self)@.definitions.push(*r),
            final(self)@.associations == old(self)@.associations,
            final(self)@.next_id == old(self)@.next_id + 1,
            ids_distinct(final(self)@.definitions),
            final(self).wf(),
    {
        let id = self.mint();
        let def = AgentDefinition::draft(id.as_str());
        proof {
            assert(minted_up_to(def.id@, self.next_id as nat));
        }
        self.add(def);
        let last = self.definitions.len() - 1;
        &self.definitions[last]
    }

    /// Duplicates definition `id` into an unpublished draft at revision 0
    /// with a new identity; nothing happens when `id` is unknown.
    pub fn duplicate(&mut self, id: &str) -> (r: Option<&AgentDefinition>)
        requires
            old(self).wf(),
            old(self)@.next_id < u64::MAX,
        ensures
            match first_def(old(self)@.definitions, id@) {
                None => r is None && final(self)@ == old(self)@,
                Some(k) => r is Some && {
                    let copy = *r.unwrap();
                    &&& copy.id@ == def_id(final(self)@.next_id as nat)
                    &&& !old(self)@.has_id(copy.id@)
                    &&& copy.same_content(old(self)@.definitions[k])
                    &&& copy.revision == 0
                    &&& !copy.published
                    &&& final(self)@.definitions == old(self)@.definitions.push(copy)
                    &&& final(self)@.associations == old(self)@.associations
                    &&& final(self)@.next_id == old(self)@.next_id + 1
                },
            },
            ids_distinct(final(self)@.definitions),
            final(self).wf(),
    {
        let found = match find_def(&self.definitions, id) {
            None => {
                return None;
            },
            Some(k) => k,
        };
        let source = self.definitions[found].duplicate();
        let new_id = self.mint();
        let copy = AgentDefinition {
            id: new_id,
            name: source.name,
            specialization: source.specialization,
            instructions: source.instructions,
            machine: source.machine,
            server: source.server,
            model: source.model,
            tools: source.tools,
            revision: 0,
            published: false,
        };
        proof {
            assert(minted_up_to(copy.id@, self.next_id as nat));
        }
        self.add(copy);
        let last = self.definitions.len() - 1;
        Some(&self.definitions[last])
    }

    /// Removes definition `id` and the associations pointing at it
    /// (instances do not live here and are never removed).
    pub fn remove(&mut self, id: &str)
        requires
            old(self).wf(),
        ensures
            final(self).wf(),
            final(self)@.definitions == old(self)@.definitions.filter(id_not(id@)),
            final(self)@.associations == old(self)@.associations.filter(target_not(id@)),
            final(self)@.next_id == old(self)@.next_id,
            ids_distinct(final(self)@.definitions),
    {
        let ghost pred = id_not(id@);
        let mut old_defs: Vec<AgentDefinition> = Vec::new();
        std::mem::swap(&mut old_defs, &mut self.definitions);
        let mut kept: Vec<AgentDefinition> = Vec::new();
        for d in it: old_defs
            invariant
                it.seq() == old(self)@.definitions,
                kept@ == it.seq().take(it.index() as int).filter(pred),
                pred == id_not(id@),
                self.next_id == old(self)@.next_id,
                self.definitions@.len() == 0,
                self.associations@ == old(self)@.associations,
        {
            proof {
                let s = it.seq().take(it.index() as int);
                assert(it.seq().take(it.index() + 1) =~= s.push(d));
                lemma_filter_push(s, d, pred);
            }
            if !same(d.id.as_str(), id) {
                kept.push(d);
            }
        }
        proof {
            assert(old(self)@.definitions.take(old(self)@.definitions.len() as int) =~= old(self)@.definitions);
            lemma_filter_keeps_minted(old(self)@.definitions, pred, self.next_id as nat);
        }
        self.definitions = kept;
        let ghost lpred = target_not(id@);
        let mut old_links: Vec<(String, String)> = Vec::new();
        std::mem::swap(&mut old_links, &mut self.associations);
        let mut links: Vec<(String, String)> = Vec::new();
        for p in it: old_links
            invariant
                it.seq() == old(self)@.associations,
                links@ == it.seq().take(it.index() as int).filter(lpred),
                lpred == target_not(id@),
        {
            proof {
                let s = it.seq().take(it.index() as int);
                assert(it.seq().take(it.index() + 1) =~= s.push(p));
                lemma_filter_push(s, p, lpred);
            }
            if !same(p.1.as_str(), id) {
                links.push(p);
            }
        }
        proof {
            assert(old(self)@.associations.take(old(self)@.associations.len() as int) =~= old(self)@.associations);
            lemma_filter_keeps_instances_distinct(old(self)@.associations, lpred);
        }
        self.associations = links;
    }

    /// Links instance `instance_id` to definition `definition_id`, replacing
    /// any earlier link of that instance.
    pub fn associate(&mut self, instance_id: &str, definition_id: &str)
        requires
            old(self).wf(),
        ensures
            final(self).wf(),
            final(self)@.associations == old(self)@.associations.filter(instance_not(instance_id@)).push(
                final(self)@.associations.last(),
            ),
            final(self)@.associations.last().0@ == instance_id@,
            final(self)@.associations.last().1@ == definition_id@,
            final(self)@.definitions == old(self)@.definitions,
            final(self)@.next_id == old(self)@.next_id,
    {
        let ghost lpred = instance_not(instance_id@);
        let mut old_links: Vec<(String, String)> = Vec::new();
        std::mem::swap(&mut old_links, &mut self.associations);
        let mut links: Vec<(String, String)> = Vec::new();
        for p in it: old_links
            invariant
                it.seq() == old(self)@.associations,
                links@ == it.seq().take(it.index() as int).filter(lpred),
                lpred == instance_not(instance_id@),
        {
            proof {
                let s = it.seq().take(it.index() as int);
                assert(it.seq().take(it.index() + 1) =~= s.push(p));
                lemma_filter_push(s, p, lpred);
            }
            if !same(p.0.as_str(), instance_id) {
                links.push(p);
            }
        }
        proof {
            assert(old(self)@.associations.take(old(self)@.associations.len() as int) =~= old(self)@.associations);
            lemma_filter_keeps_instances_distinct(old(self)@.associations, lpred);
        }
        let ghost before_push = links@;
        links.push((owned(instance_id), owned(definition_id)));
        proof {
            assert forall|i: int, j: int| 0 <= i < j < links@.len() implies (#[trigger] links@[i]).0@
                != (#[trigger] links@[j]).0@ by {
                if j == before_push.len() {
                    assert(links@[i] == before_push[i]);
                    old(self)@.associations.lemma_filter_pred(lpred, i);
                } else {
                    assert(links@[i] == before_push[i] && links@[j] == before_push[j]);
                }
            }
        }
        self.associations = links;
    }

    /// The definition of instance `instance_id`, or `None` when the link is
    /// not confirmed (no association, or its definition is gone).
    pub fn definition_of(&self, instance_id: &str) -> (r: Option<&AgentDefinition>)
        ensures
            match self@.linked(instance_id@) {
                Some(d) => r is Some && *r.unwrap() == d,
                None => r is None,
            },
    {
        let a = match find_link(&self.associations, instance_id) {
            Some(a) => a,
            None => {
                return None;
            },
        };
        match find_def(&self.definitions, self.associations[a].1.as_str()) {
            Some(d) => Some(&self.definitions[d]),
            None => None,
        }
    }

    /// The definitions, in creation order.
    pub fn list(&self) -> (r: &[AgentDefinition])
        ensures
            r@ == self@.definitions,
    {
        self.definitions.as_slice()
    }
}

impl Default for DefinitionStore {
    fn default() -> (r: Self)
        ensures
            r@.definitions.len() == 0,
            r@.associations.len() == 0,
            r@.next_id == 0,
            r.wf(),
    {
        Self::new()
    }
}

proof fn lemma_filter_keeps_minted(s: Seq<AgentDefinition>, pred: spec_fn(AgentDefinition) -> bool, n: nat)
    requires
        forall|i: int| 0 <= i < s.len() ==> minted_up_to((#[trigger] s[i]).id@, n),
        ids_distinct(s),
    ensures
        forall|i: int| 0 <= i < s.filter(pred).len() ==> minted_up_to((#[trigger] s.filter(pred)[i]).id@, n),
        ids_distinct(s.filter(pred)),
    decreases s.len(),
{
    reveal(Seq::filter);
    if s.len() > 0 {
        let t = s.drop_last();
        assert forall|i: int| 0 <= i < t.len() implies minted_up_to((#[trigger] t[i]).id@, n) by {
            assert(t[i] == s[i]);
        }
        assert forall|i: int, j: int| 0 <= i < j < t.len() implies (#[trigger] t[i]).id@ != (#[trigger] t[j]).id@ by {
            assert(t[i] == s[i] && t[j] == s[j]);
        }
        lemma_filter_keeps_minted(t, pred, n);
        lemma_filter_from(t, pred);
        if pred(s.last()) {
            let f = t.filter(pred);
            assert(s.filter(pred) =~= f.push(s.last()));
            assert forall|i: int, j: int| 0 <= i < j < f.push(s.last()).len() implies (#[trigger] f.push(s.last())[i]).id@
                != (#[trigger] f.push(s.last())[j]).id@ by {
                if j == f.len() {
                    let k = choose|k: int| 0 <= k < t.len() && t[k] == f[i];
                    assert(s[k] == t[k]);
                    assert(s[k].id@ != s[s.len() - 1].id@);
                }
            }
            assert(minted_up_to(s[s.len() - 1].id@, n));
        } else {
            assert(s.filter(pred) =~= t.filter(pred));
        }
    }
}

fn find_def(defs: &Vec<AgentDefinition>, id: &str) -> (r: Option<usize>)
    ensures
        match r {
            Some(i) => i < defs@.len() && first_def(defs@, id@) == Some(i as int),
            None => first_def(defs@, id@) is None,
        },
{
    let mut i: usize = 0;
    assert(defs@.subrange(0, defs@.len() as int) =~= defs@);
    while i < defs.len()
        invariant
            i <= defs.len(),
            first_def(defs@, id@) == match first_def(defs@.subrange(i as int, defs@.len() as int), id@) {
                Some(j) => Some(j + i),
                None => None,
            },
        decreases defs.len() - i,
    {
        let ghost rest = defs@.subrange(i as int, defs@.len() as int);
        assert(rest.drop_first() =~= defs@.subrange(i + 1, defs@.len() as int));
        if same(defs[i].id.as_str(), id) {
            return Some(i);
        }
        i = i + 1;
    }
    None
}

fn find_link(links: &Vec<(String, String)>, instance: &str) -> (r: Option<usize>)
    ensures
        match r {
            Some(i) => i < links@.len() && first_link(links@, instance@) == Some(i as int),
            None => first_link(links@, instance@) is None,
        },
{
    let mut i: usize = 0;
    assert(links@.subrange(0, links@.len() as int) =~= links@);
    while i < links.len()
        invariant
            i <= links.len(),
            first_link(links@, instance@) == match first_link(links@.subrange(i as int, links@.len() as int), instance@) {
                Some(j) => Some(j + i),
                None => None,
            },
        decreases links.len() - i,
    {
        let ghost rest = links@.subrange(i as int, links@.len() as int);
        assert(rest.drop_first() =~= links@.subrange(i + 1, links@.len() as int));
        if same(links[i].0.as_str(), instance) {
            return Some(i);
        }
        i = i + 1;
    }
    None
}

proof fn lemma_filter_keeps_instances_distinct(s: Seq<(String, String)>, pred: spec_fn((String, String)) -> bool)
    requires
        instances_distinct(s),
    ensures
        instances_distinct(s.filter(pred)),
    decreases s.len(),
{
    reveal(Seq::filter);
    if s.len() > 0 {
        let t = s.drop_last();
        assert forall|i: int, j: int| 0 <= i < j < t.len() implies (#[trigger] t[i]).0@ != (#[trigger] t[j]).0@ by {
            assert(t[i] == s[i] && t[j] == s[j]);
        }
        lemma_filter_keeps_instances_distinct(t, pred);
        lemma_filter_from(t, pred);
        if pred(s.last()) {
            let f = t.filter(pred);
            assert(s.filter(pred) =~= f.push(s.last()));
            assert forall|i: int, j: int| 0 <= i < j < f.push(s.last()).len() implies (#[trigger] f.push(s.last())[i]).0@
                != (#[trigger] f.push(s.last())[j]).0@ by {
                if j == f.len() {
                    let k = choose|k: int| 0 <= k < t.len() && t[k] == f[i];
                    assert(s[k] == t[k]);
                    assert(s[k].0@ != s[s.len() - 1].0@);
                } else {
                    assert(f.push(s.last())[i] == f[i] && f.push(s.last())[j] == f[j]);
                }
            }
        } else {
            assert(s.filter(pred) =~= t.filter(pred));
        }
    }
}

proof fn lemma_first_link_is(links: Seq<(String, String)>, instance: Seq<char>)
    ensures
        match first_link(links, instance) {
            Some(a) => 0 <= a < links.len() && links[a].0@ == instance,
            None => forall|j: int| 0 <= j < links.len() ==> (#[trigger] links[j]).0@ != instance,
        },
    decreases links.len(),
{
    if links.len() > 0 {
        lemma_first_link_is(links.drop_first(), instance);
        if links[0].0@ != instance {
            assert forall|j: int| 0 < j < links.len() implies links[j] == links.drop_first()[j - 1] by {}
        }
    }
}

proof fn lemma_first_def_is(defs: Seq<AgentDefinition>, id: Seq<char>)
    ensures
        match first_def(defs, id) {
            Some(a) => 0 <= a < defs.len() && defs[a].id@ == id,
            None => forall|j: int| 0 <= j < defs.len() ==> (#[trigger] defs[j]).id@ != id,
        },
    decreases defs.len(),
{
    if defs.len() > 0 {
        lemma_first_def_is(defs.drop_first(), id);
        if defs[0].id@ != id {
            assert forall|j: int| 0 < j < defs.len() implies defs[j] == defs.drop_first()[j - 1] by {}
        }
    }
}

/// With one association per instance, the association of `instance` is
/// the one found.
proof fn lemma_link_found(links: Seq<(String, String)>, instance: Seq<char>, j: int)
    requires
        instances_distinct(links),
        0 <= j < links.len(),
        links[j].0@ == instance,
    ensures
        first_link(links, instance) == Some(j),
{
    lemma_first_link_is(links, instance);
    let a = first_link(links, instance)->0;
    if a != j {
        if a < j {
            assert(links[a].0@ != links[j].0@);
        } else {
            assert(links[j].0@ != links[a].0@);
        }
    }
}

/// With distinct identities, the definition with identity `id` is the one
/// found.
proof fn lemma_def_found(defs: Seq<AgentDefinition>, id: Seq<char>, j: int)
    requires
        ids_distinct(defs),
        0 <= j < defs.len(),
        defs[j].id@ == id,
    ensures
        first_def(defs, id) == Some(j),
{
    lemma_first_def_is(defs, id);
    let a = first_def(defs, id)->0;
    if a != j {
        if a < j {
            assert(defs[a].id@ != defs[j].id@);
        } else {
            assert(defs[j].id@ != defs[a].id@);
        }
    }
}

/// Removing only definitions and links of other identities keeps which
/// definition carries identity `t != id`.
proof fn lemma_def_kept(defs: Seq<AgentDefinition>, id: Seq<char>, t: Seq<char>)
    requires
        ids_distinct(defs),
        ids_distinct(defs.filter(id_not(id))),
        t != id,
    ensures
        match first_def(defs, t) {
            Some(k) => first_def(defs.filter(id_not(id)), t) matches Some(k2) && defs.filter(id_not(id))[k2]
                == defs[k],
            None => first_def(defs.filter(id_not(id)), t) is None,
        },
{
    let f = defs.filter(id_not(id));
    lemma_first_def_is(defs, t);
    lemma_first_def_is(f, t);
    lemma_filter_from(defs, id_not(id));
    match first_def(defs, t) {
        Some(k) => {
            defs.lemma_filter_contains(id_not(id), k);
            let k2 = choose|k2: int| 0 <= k2 < f.len() && f[k2] == defs[k];
            lemma_def_found(f, t, k2);
        },
        None => {
            if first_def(f, t) is Some {
                let a = first_def(f, t)->0;
                let k = choose|k: int| 0 <= k < defs.len() && defs[k] == #[trigger] f[a];
                assert(defs[k].id@ == t);
            }
        },
    }
}

impl DefinitionStore {
    /// An identity is never handed out twice, not even after its definition
    /// was removed: every definition a store holds (`earlier`, at any time)
    /// carries an identity minted at or below its counter, no operation
    /// lowers the counter, and [`DefinitionStore::create_draft`] and
    /// [`DefinitionStore::duplicate`] mint `def-<counter + 1>` of the store
    /// they act on (`later`).
    pub proof fn lemma_minted_ids_never_return(earlier: DefinitionStore, later: DefinitionStore, i: int)
        requires
            earlier.wf(),
            earlier@.next_id <= later@.next_id,
            0 <= i < earlier@.definitions.len(),
        ensures
            earlier@.definitions[i].id@ != def_id((later@.next_id + 1) as nat),
    {
        let n: nat = (later@.next_id + 1) as nat;
        let k = choose|k: nat| 1 <= k <= earlier@.next_id && earlier@.definitions[i].id@ == def_id(k);
        if earlier@.definitions[i].id@ == def_id(n) {
            lemma_prefix_cancel("def-"@, decimal(k), decimal(n));
            lemma_decimal_injective(k, n);
        }
    }
}

impl DefinitionStore {
    /// Removing definition `id` unlinks exactly the instances whose
    /// definition it was: an instance resolving to `id` resolves to nothing
    /// afterwards, and every other instance resolves as before.
    pub proof fn lemma_remove_unlinks(before: DefinitionStore, after: DefinitionStore, id: Seq<char>, instance: Seq<char>)
        requires
            before.wf(),
            after.wf(),
            after@.definitions == before@.definitions.filter(id_not(id)),
            after@.associations == before@.associations.filter(target_not(id)),
        ensures
            match before@.linked(instance) {
                Some(d) => if d.id@ == id {
                    after@.linked(instance) is None
                } else {
                    after@.linked(instance) == Some(d)
                },
                None => after@.linked(instance) is None,
            },
    {
        let l = before@.associations;
        let l2 = after@.associations;
        let d = before@.definitions;
        let d2 = after@.definitions;
        lemma_first_link_is(l, instance);
        lemma_first_link_is(l2, instance);
        lemma_filter_from(l, target_not(id));
        match first_link(l, instance) {
            None => {
                if first_link(l2, instance) is Some {
                    let a2 = first_link(l2, instance)->0;
                    let k = choose|k: int| 0 <= k < l.len() && l[k] == #[trigger] l2[a2];
                    assert(l[k].0@ == instance);
                }
            },
            Some(a) => {
                let t = l[a].1@;
                lemma_first_def_is(d, t);
                if t == id {
                    if first_link(l2, instance) is Some {
                        let a2 = first_link(l2, instance)->0;
                        let k = choose|k: int| 0 <= k < l.len() && l[k] == #[trigger] l2[a2];
                        l.lemma_filter_pred(target_not(id), a2);
                        lemma_link_found(l, instance, k);
                    }
                } else {
                    l.lemma_filter_contains(target_not(id), a);
                    let a2 = choose|a2: int| 0 <= a2 < l2.len() && l2[a2] == l[a];
                    lemma_link_found(l2, instance, a2);
                    lemma_def_kept(d, id, t);
                }
            },
        }
    }

    /// Associating `instance` with `definition` makes it resolve to the
    /// first definition with that identity (nothing when there is none),
    /// and leaves every other instance as it resolved before.
    pub proof fn lemma_associate_links(
        before: DefinitionStore,
        after: DefinitionStore,
        instance: Seq<char>,
        definition: Seq<char>,
        other: Seq<char>,
    )
        requires
            before.wf(),
            after.wf(),
            after@.definitions == before@.definitions,
            after@.associations == before@.associations.filter(instance_not(instance)).push(
                after@.associations.last(),
            ),
            after@.associations.last().0@ == instance,
            after@.associations.last().1@ == definition,
        ensures
            after@.linked(instance) == match first_def(after@.definitions, definition) {
                Some(k) => Some(after@.definitions[k]),
                None => None,
            },
            other != instance ==> after@.linked(other) == before@.linked(other),
    {
        let l = before@.associations;
        let l2 = after@.associations;
        let f = l.filter(instance_not(instance));
        lemma_link_found(l2, instance, l2.len() - 1);
        if other != instance {
            lemma_first_link_is(l, other);
            lemma_first_link_is(l2, other);
            lemma_filter_from(l, instance_not(instance));
            match first_link(l, other) {
                None => {
                    if first_link(l2, other) is Some {
                        let a2 = first_link(l2, other)->0;
                        if a2 < f.len() {
                            assert(l2[a2] == f[a2]);
                            let k = choose|k: int| 0 <= k < l.len() && l[k] == #[trigger] f[a2];
                            assert(l[k].0@ == other);
                        }
                    }
                },
                Some(a) => {
                    l.lemma_filter_contains(instance_not(instance), a);
                    let a2 = choose|a2: int| 0 <= a2 < f.len() && f[a2] == l[a];
                    assert(l2[a2] == f[a2]);
                    lemma_link_found(l2, other, a2);
                },
            }
        }
    }
}

} // verus!
