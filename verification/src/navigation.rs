//! The studio's side navigation: its sections, their names, and the
//! palette commands that go to each.

use vstd::prelude::*;
use crate::shell::CommandItem;
use crate::text::{lit, append, starts_with, starts_with_str, string_of, chars_of, same};

verus! {

/// Section shown in the central panel.
#[derive(Debug, Clone, Copy, PartialEq, Eq, Structural)]
pub enum Section {
    Overview,
    Environments,
    Machines,
    Orchestrators,
    Catalog,
    Node,
    Inference,
    Launch,
    Ssh,
    Agents,
    Dispatch,
    Models,
    Services,
    Shared,
    Topology,
    Gallery,
}

/// Every section, in navigation order.
pub open spec fn sections() -> Seq<Section> {
    seq![
        Section::Overview,
        Section::Environments,
        Section::Machines,
        Section::Orchestrators,
        Section::Catalog,
        Section::Node,
        Section::Inference,
        Section::Launch,
        Section::Ssh,
        Section::Agents,
        Section::Dispatch,
        Section::Models,
        Section::Services,
        Section::Shared,
        Section::Topology,
        Section::Gallery,
    ]
}

/// The prefix of every navigation command.
pub open spec fn go_prefix() -> Seq<char> {
    "Ir para "@
}

impl Section {
    /// The section's name.
    pub open spec fn title(self) -> Seq<char> {
        match self {
            Section::Overview => "Visão geral"@,
            Section::Environments => "Ambientes"@,
            Section::Machines => "Máquinas e rede"@,
            Section::Orchestrators => "Orquestradores"@,
            Section::Catalog => "Catálogo"@,
            Section::Node => "Nó studio-node"@,
            Section::Inference => "Inferência"@,
            Section::Launch => "Subir inferência"@,
            Section::Ssh => "SSH dedicado"@,
            Section::Agents => "Agentes"@,
            Section::Dispatch => "Despacho"@,
            Section::Models => "Modelos GGUF"@,
            Section::Services => "Serviços"@,
            Section::Shared => "Catálogo compartilhado"@,
            Section::Topology => "Topologia DDS"@,
            Section::Gallery => "Galeria"@,
        }
    }

    /// The section's name.
    pub fn label(self) -> (r: &'static str)
        ensures
            r@ == self.title(),
    {
        match self {
            Section::Overview => "Visão geral",
            Section::Environments => "Ambientes",
            Section::Machines => "Máquinas e rede",
            Section::Orchestrators => "Orquestradores",
            Section::Catalog => "Catálogo",
            Section::Node => "Nó studio-node",
            Section::Inference => "Inferência",
            Section::Launch => "Subir inferência",
            Section::Ssh => "SSH dedicado",
            Section::Agents => "Agentes",
            Section::Dispatch => "Despacho",
            Section::Models => "Modelos GGUF",
            Section::Services => "Serviços",
            Section::Shared => "Catálogo compartilhado",
            Section::Topology => "Topologia DDS",
            Section::Gallery => "Galeria",
        }
    }

    /// Every section, in navigation order.
    pub fn all() -> (r: Vec<Section>)
        ensures
            r@ == sections(),
    {
        let r = vec![
            Section::Overview,
            Section::Environments,
            Section::Machines,
            Section::Orchestrators,
            Section::Catalog,
            Section::Node,
            Section::Inference,
            Section::Launch,
            Section::Ssh,
            Section::Agents,
            Section::Dispatch,
            Section::Models,
            Section::Services,
            Section::Shared,
            Section::Topology,
            Section::Gallery,
        ];
        assert(r@ =~= sections());
        r
    }

    /// The name shown in the navigation: the models section carries ` …`
    /// while the models are busy (an inventory in progress).
    pub fn nav_label(self, models_busy: bool) -> (r: String)
        ensures
            r@ == if models_busy && self == Section::Models {
                self.title() + " …"@
            } else {
                self.title()
            },
    {
        let mut r = lit(self.label());
        if models_busy {
            if let Section::Models = self {
                append(&mut r, " …");
            }
        }
        r
    }

    /// One palette command per section, `Ir para <name>`, in navigation
    /// order, none of them dangerous.
    pub fn command_entries() -> (r: Vec<CommandItem>)
        ensures
            r@.len() == sections().len(),
            forall|i: int| 0 <= i < r@.len() ==> (#[trigger] r@[i]).title@ == go_prefix() + sections()[i].title()
                && r@[i].section@ == "Navegação"@ && !r@[i].dangerous,
    {
        let all = Section::all();
        let mut r: Vec<CommandItem> = Vec::new();
        let mut i: usize = 0;
        while i < all.len()
            invariant
                i <= all@.len(),
                all@ == sections(),
                r@.len() == i,
                forall|k: int| 0 <= k < i ==> (#[trigger] r@[k]).title@ == go_prefix() + sections()[k].title()
                    && r@[k].section@ == "Navegação"@ && !r@[k].dangerous,
            decreases all.len() - i,
        {
            let mut title = lit("Ir para ");
            append(&mut title, all[i].label());
            r.push(CommandItem { title, section: lit("Navegação"), dangerous: false });
            i = i + 1;
        }
        r
    }
}

/// `r` is where the palette command `title` leads: nowhere without the
/// `Ir para ` prefix; otherwise the section named by the rest, or nowhere
/// when no section has that name.
pub open spec fn command_target(title: Seq<char>, r: Option<Section>) -> bool {
    &&& !starts_with(title, go_prefix()) ==> r is None
    &&& starts_with(title, go_prefix()) ==> match r {
        Some(s) => s.title() == title.skip(go_prefix().len() as int) && sections().contains(s),
        None => forall|i: int| 0 <= i < sections().len() ==> sections()[i].title() != title.skip(
            go_prefix().len() as int,
        ),
    }
}

/// Length and first character of a section's name.
spec fn signature(s: Section) -> (nat, char) {
    (s.title().len(), s.title()[0])
}

proof fn lemma_signature(s: Section)
    ensures
        signature(s) == match s {
            Section::Overview => (11nat, 'V'),
            Section::Environments => (9nat, 'A'),
            Section::Machines => (15nat, 'M'),
            Section::Orchestrators => (14nat, 'O'),
            Section::Catalog => (8nat, 'C'),
            Section::Node => (14nat, 'N'),
            Section::Inference => (10nat, 'I'),
            Section::Launch => (16nat, 'S'),
            Section::Ssh => (12nat, 'S'),
            Section::Agents => (7nat, 'A'),
            Section::Dispatch => (8nat, 'D'),
            Section::Models => (12nat, 'M'),
            Section::Services => (8nat, 'S'),
            Section::Shared => (22nat, 'C'),
            Section::Topology => (13nat, 'T'),
            Section::Gallery => (7nat, 'G'),
        },
{
    reveal_strlit("Visão geral");
    reveal_strlit("Ambientes");
    reveal_strlit("Máquinas e rede");
    reveal_strlit("Orquestradores");
    reveal_strlit("Catálogo");
    reveal_strlit("Nó studio-node");
    reveal_strlit("Inferência");
    reveal_strlit("Subir inferência");
    reveal_strlit("SSH dedicado");
    reveal_strlit("Agentes");
    reveal_strlit("Despacho");
    reveal_strlit("Modelos GGUF");
    reveal_strlit("Serviços");
    reveal_strlit("Catálogo compartilhado");
    reveal_strlit("Topologia DDS");
    reveal_strlit("Galeria");
}

/// No two sections share a name.
pub proof fn lemma_titles_distinct(s: Section, t: Section)
    requires
        s.title() == t.title(),
    ensures
        s == t,
{
    lemma_signature(s);
    lemma_signature(t);
}

/// Every section is listed, so its name is found.
proof fn lemma_listed(s: Section)
    ensures
        sections().contains(s),
{
    let q = sections();
    match s {
        Section::Overview => assert(q[0] == s),
        Section::Environments => assert(q[1] == s),
        Section::Machines => assert(q[2] == s),
        Section::Orchestrators => assert(q[3] == s),
        Section::Catalog => assert(q[4] == s),
        Section::Node => assert(q[5] == s),
        Section::Inference => assert(q[6] == s),
        Section::Launch => assert(q[7] == s),
        Section::Ssh => assert(q[8] == s),
        Section::Agents => assert(q[9] == s),
        Section::Dispatch => assert(q[10] == s),
        Section::Models => assert(q[11] == s),
        Section::Services => assert(q[12] == s),
        Section::Shared => assert(q[13] == s),
        Section::Topology => assert(q[14] == s),
        Section::Gallery => assert(q[15] == s),
    }
}

/// The palette's navigation command of a section leads back to exactly
/// that section.
pub proof fn lemma_command_leads_to_section(s: Section, r: Option<Section>)
    requires
        command_target(go_prefix() + s.title(), r),
    ensures
        r == Some(s),
{
    let title = go_prefix() + s.title();
    assert(title.subrange(0, go_prefix().len() as int) =~= go_prefix());
    assert(title.skip(go_prefix().len() as int) =~= s.title());
    lemma_listed(s);
    match r {
        Some(t) => lemma_titles_distinct(s, t),
        None => {
            let i = choose|i: int| 0 <= i < sections().len() && sections()[i] == s;
            assert(sections()[i].title() == s.title());
        },
    }
}

/// Where a palette command leads: the section named after its `Ir para `
/// prefix, if it has one and names a section.
pub fn section_for_command(title: &str) -> (r: Option<Section>)
    ensures
        command_target(title@, r),
{
    if !starts_with_str(title, "Ir para ") {
        return None;
    }
    let v = chars_of(title);
    proof {
        reveal_strlit("Ir para ");
    }
    let rest = string_of(&v, 8, v.len());
    assert(rest@ =~= title@.skip(go_prefix().len() as int));
    let all = Section::all();
    let mut i: usize = 0;
    while i < all.len()
        invariant
            i <= all@.len(),
            all@ == sections(),
            forall|k: int| 0 <= k < i ==> sections()[k].title() != rest@,
            starts_with(title@, go_prefix()),
            rest@ == title@.skip(go_prefix().len() as int),
        decreases all.len() - i,
    {
        if same(all[i].label(), rest.as_str()) {
            assert(sections().contains(all@[i as int]));
            return Some(all[i]);
        }
        i = i + 1;
    }
    None
}

} // verus!
