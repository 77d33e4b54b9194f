//! Demonstration mode: fixtures with stable identities and fictional names,
//! and the selectable scenarios. Every demonstration surface carries the
//! "simulated data" banner and never mixes with real state.

use vstd::prelude::*;
use crate::text::owned;

verus! {

/// Minimum selectable scenarios.
#[derive(Debug, Clone, Copy, PartialEq, Eq, Structural)]
pub enum PreviewScenario {
    EmptyEnvironment,
    ExistingEnvironment,
    LoadingCatalog,
    PartialInventory,
    ExternalResource,
    StoppedInstance,
    InvalidForm,
    HostChange,
    RevisionConflict,
    DeletedResource,
    SlowOperation,
    UnconfirmedResult,
    IncrementalFlow,
    PermissionDenied,
    MissingBackend,
    HighVolume,
}

/// Every scenario, in presentation order.
pub open spec fn scenarios() -> Seq<PreviewScenario> {
    seq![
        PreviewScenario::EmptyEnvironment,
        PreviewScenario::ExistingEnvironment,
        PreviewScenario::LoadingCatalog,
        PreviewScenario::PartialInventory,
        PreviewScenario::ExternalResource,
        PreviewScenario::StoppedInstance,
        PreviewScenario::InvalidForm,
        PreviewScenario::HostChange,
        PreviewScenario::RevisionConflict,
        PreviewScenario::DeletedResource,
        PreviewScenario::SlowOperation,
        PreviewScenario::UnconfirmedResult,
        PreviewScenario::IncrementalFlow,
        PreviewScenario::PermissionDenied,
        PreviewScenario::MissingBackend,
        PreviewScenario::HighVolume,
    ]
}

impl PreviewScenario {
    /// Display name of the scenario.
    pub open spec fn title(self) -> Seq<char> {
        match self {
            PreviewScenario::EmptyEnvironment => "Ambiente vazio"@,
            PreviewScenario::ExistingEnvironment => "Ambiente existente"@,
            PreviewScenario::LoadingCatalog => "Catálogo carregando"@,
            PreviewScenario::PartialInventory => "Inventário parcial"@,
            PreviewScenario::ExternalResource => "Recurso externo"@,
            PreviewScenario::StoppedInstance => "Instância parada"@,
            PreviewScenario::InvalidForm => "Formulário inválido"@,
            PreviewScenario::HostChange => "Mudança de host"@,
            PreviewScenario::RevisionConflict => "Conflito de revisão"@,
            PreviewScenario::DeletedResource => "Recurso excluído"@,
            PreviewScenario::SlowOperation => "Operação demorada"@,
            PreviewScenario::UnconfirmedResult => "Resultado sem confirmação"@,
            PreviewScenario::IncrementalFlow => "Fluxo incremental"@,
            PreviewScenario::PermissionDenied => "Permissão negada"@,
            PreviewScenario::MissingBackend => "Backend inexistente"@,
            PreviewScenario::HighVolume => "Grande volume"@,
        }
    }

    /// Visual or interactive evidence expected of the scenario.
    pub open spec fn evidence(self) -> Seq<char> {
        match self {
            PreviewScenario::EmptyEnvironment => "Onboarding com ação pertinente."@,
            PreviewScenario::ExistingEnvironment => "Recuperar definições sem recriar."@,
            PreviewScenario::LoadingCatalog => "Zero nunca como dado confirmado."@,
            PreviewScenario::PartialInventory => "Fonte, idade e campos desconhecidos."@,
            PreviewScenario::ExternalResource => "Somente leitura, sem administração presumida."@,
            PreviewScenario::StoppedInstance => "Definição preservada, sem alarme falso."@,
            PreviewScenario::InvalidForm => "Correção local sem perda de valores."@,
            PreviewScenario::HostChange => "Revisão dos campos dependentes."@,
            PreviewScenario::RevisionConflict => "Rascunho preservado e comparação."@,
            PreviewScenario::DeletedResource => "Contexto preservado, sem ressurreição."@,
            PreviewScenario::SlowOperation => "Interface utilizável e acompanhamento."@,
            PreviewScenario::UnconfirmedResult => "Nenhum reenvio automático."@,
            PreviewScenario::IncrementalFlow => "Scroll estável com texto incremental."@,
            PreviewScenario::PermissionDenied => "Mensagem e ação compatíveis."@,
            PreviewScenario::MissingBackend => "Capacidade ausente explicada."@,
            PreviewScenario::HighVolume => "Limites e virtualização visíveis."@,
        }
    }

    /// Display name.
    pub fn label(self) -> (r: &'static str)
        ensures
            r@ == self.title(),
    {
        match self {
            PreviewScenario::EmptyEnvironment => "Ambiente vazio",
            PreviewScenario::ExistingEnvironment => "Ambiente existente",
            PreviewScenario::LoadingCatalog => "Catálogo carregando",
            PreviewScenario::PartialInventory => "Inventário parcial",
            PreviewScenario::ExternalResource => "Recurso externo",
            PreviewScenario::StoppedInstance => "Instância parada",
            PreviewScenario::InvalidForm => "Formulário inválido",
            PreviewScenario::HostChange => "Mudança de host",
            PreviewScenario::RevisionConflict => "Conflito de revisão",
            PreviewScenario::DeletedResource => "Recurso excluído",
            PreviewScenario::SlowOperation => "Operação demorada",
            PreviewScenario::UnconfirmedResult => "Resultado sem confirmação",
            PreviewScenario::IncrementalFlow => "Fluxo incremental",
            PreviewScenario::PermissionDenied => "Permissão negada",
            PreviewScenario::MissingBackend => "Backend inexistente",
            PreviewScenario::HighVolume => "Grande volume",
        }
    }

    /// Expected evidence of the scenario.
    pub fn expected(self) -> (r: &'static str)
        ensures
            r@ == self.evidence(),
    {
        match self {
            PreviewScenario::EmptyEnvironment => "Onboarding com ação pertinente.",
            PreviewScenario::ExistingEnvironment => "Recuperar definições sem recriar.",
            PreviewScenario::LoadingCatalog => "Zero nunca como dado confirmado.",
            PreviewScenario::PartialInventory => "Fonte, idade e campos desconhecidos.",
            PreviewScenario::ExternalResource => "Somente leitura, sem administração presumida.",
            PreviewScenario::StoppedInstance => "Definição preservada, sem alarme falso.",
            PreviewScenario::InvalidForm => "Correção local sem perda de valores.",
            PreviewScenario::HostChange => "Revisão dos campos dependentes.",
            PreviewScenario::RevisionConflict => "Rascunho preservado e comparação.",
            PreviewScenario::DeletedResource => "Contexto preservado, sem ressurreição.",
            PreviewScenario::SlowOperation => "Interface utilizável e acompanhamento.",
            PreviewScenario::UnconfirmedResult => "Nenhum reenvio automático.",
            PreviewScenario::IncrementalFlow => "Scroll estável com texto incremental.",
            PreviewScenario::PermissionDenied => "Mensagem e ação compatíveis.",
            PreviewScenario::MissingBackend => "Capacidade ausente explicada.",
            PreviewScenario::HighVolume => "Limites e virtualização visíveis.",
        }
    }

    /// Every scenario, in presentation order.
    pub fn all() -> (r: Vec<PreviewScenario>)
        ensures
            r@ == scenarios(),
    {
        let r = vec![
            PreviewScenario::EmptyEnvironment,
            PreviewScenario::ExistingEnvironment,
            PreviewScenario::LoadingCatalog,
            PreviewScenario::PartialInventory,
            PreviewScenario::ExternalResource,
            PreviewScenario::StoppedInstance,
            PreviewScenario::InvalidForm,
            PreviewScenario::HostChange,
            PreviewScenario::RevisionConflict,
            PreviewScenario::DeletedResource,
            PreviewScenario::SlowOperation,
            PreviewScenario::UnconfirmedResult,
            PreviewScenario::IncrementalFlow,
            PreviewScenario::PermissionDenied,
            PreviewScenario::MissingBackend,
            PreviewScenario::HighVolume,
        ];
        assert(r@ =~= scenarios());
        r
    }
}

/// Every scenario is listed exactly once, and each has a non-empty name
/// and non-empty expected evidence.
pub proof fn lemma_scenarios_complete(s: PreviewScenario)
    ensures
        scenarios().len() == 16,
        scenarios().contains(s),
        forall|i: int, j: int| 0 <= i < j < scenarios().len() ==> scenarios()[i] != scenarios()[j],
        s.title().len() > 0,
        s.evidence().len() > 0,
{
    let q = scenarios();
    match s {
        PreviewScenario::EmptyEnvironment => assert(q[0] == s),
        PreviewScenario::ExistingEnvironment => assert(q[1] == s),
        PreviewScenario::LoadingCatalog => assert(q[2] == s),
        PreviewScenario::PartialInventory => assert(q[3] == s),
        PreviewScenario::ExternalResource => assert(q[4] == s),
        PreviewScenario::StoppedInstance => assert(q[5] == s),
        PreviewScenario::InvalidForm => assert(q[6] == s),
        PreviewScenario::HostChange => assert(q[7] == s),
        PreviewScenario::RevisionConflict => assert(q[8] == s),
        PreviewScenario::DeletedResource => assert(q[9] == s),
        PreviewScenario::SlowOperation => assert(q[10] == s),
        PreviewScenario::UnconfirmedResult => assert(q[11] == s),
        PreviewScenario::IncrementalFlow => assert(q[12] == s),
        PreviewScenario::PermissionDenied => assert(q[13] == s),
        PreviewScenario::MissingBackend => assert(q[14] == s),
        PreviewScenario::HighVolume => assert(q[15] == s),
    }
    reveal_strlit("Ambiente vazio");
    reveal_strlit("Ambiente existente");
    reveal_strlit("Catálogo carregando");
    reveal_strlit("Inventário parcial");
    reveal_strlit("Recurso externo");
    reveal_strlit("Instância parada");
    reveal_strlit("Formulário inválido");
    reveal_strlit("Mudança de host");
    reveal_strlit("Conflito de revisão");
    reveal_strlit("Recurso excluído");
    reveal_strlit("Operação demorada");
    reveal_strlit("Resultado sem confirmação");
    reveal_strlit("Fluxo incremental");
    reveal_strlit("Permissão negada");
    reveal_strlit("Backend inexistente");
    reveal_strlit("Grande volume");
    reveal_strlit("Onboarding com ação pertinente.");
    reveal_strlit("Recuperar definições sem recriar.");
    reveal_strlit("Zero nunca como dado confirmado.");
    reveal_strlit("Fonte, idade e campos desconhecidos.");
    reveal_strlit("Somente leitura, sem administração presumida.");
    reveal_strlit("Definição preservada, sem alarme falso.");
    reveal_strlit("Correção local sem perda de valores.");
    reveal_strlit("Revisão dos campos dependentes.");
    reveal_strlit("Rascunho preservado e comparação.");
    reveal_strlit("Contexto preservado, sem ressurreição.");
    reveal_strlit("Interface utilizável e acompanhamento.");
    reveal_strlit("Nenhum reenvio automático.");
    reveal_strlit("Scroll estável com texto incremental.");
    reveal_strlit("Mensagem e ação compatíveis.");
    reveal_strlit("Capacidade ausente explicada.");
    reveal_strlit("Limites e virtualização visíveis.");
}

/// A fictional resource with a stable identity.
#[derive(Debug, Clone, PartialEq, Eq)]
pub struct FixtureResource {
    pub id: String,
    pub name: String,
    pub kind: String,
    pub state: String,
}

/// Identity, name, kind and state of the `i`-th standard fixture.
pub open spec fn fixture_row(i: int) -> (Seq<char>, Seq<char>, Seq<char>, Seq<char>) {
    if i == 0 {
        ("no-controle-01"@, "controle-demo"@, "nó de controle"@, "gerenciado"@)
    } else if i == 1 {
        ("no-agentes-01"@, "agentes-demo"@, "nó de agentes"@, "gerenciado"@)
    } else if i == 2 {
        ("inf-a-01"@, "inferencia-a-demo"@, "host de inferência"@, "parcial"@)
    } else if i == 3 {
        ("inf-b-01"@, "inferencia-b-demo"@, "host de inferência"@, "inacessível"@)
    } else if i == 4 {
        ("gw-01"@, "gateway-demo"@, "gateway"@, "somente leitura"@)
    } else {
        ("model-a"@, "modelo-a-demo"@, "modelo (metadados)"@, "configurado"@)
    }
}

/// Number of standard fixtures.
pub open spec fn fixture_count() -> nat {
    6
}

/// Fixture set: a control node, an agents node, two inference hosts and a
/// gateway, and one model described by metadata only.
#[derive(Debug, Clone)]
pub struct FixtureSet {
    pub resources: Vec<FixtureResource>,
}

fn fixture(id: &str, name: &str, kind: &str, state: &str) -> (r: FixtureResource)
    ensures
        (r.id@, r.name@, r.kind@, r.state@) == (id@, name@, kind@, state@),
{
    FixtureResource { id: owned(id), name: owned(name), kind: owned(kind), state: owned(state) }
}

impl FixtureSet {
    /// The standard fixtures.
    pub fn standard() -> (r: Self)
        ensures
            r.resources@.len() == fixture_count(),
            forall|i: int| 0 <= i < fixture_count() ==> {
                let f = #[trigger] r.resources@[i];
                (f.id@, f.name@, f.kind@, f.state@) == fixture_row(i)
            },
    {
        let resources = vec![
            fixture("no-controle-01", "controle-demo", "nó de controle", "gerenciado"),
            fixture("no-agentes-01", "agentes-demo", "nó de agentes", "gerenciado"),
            fixture("inf-a-01", "inferencia-a-demo", "host de inferência", "parcial"),
            fixture("inf-b-01", "inferencia-b-demo", "host de inferência", "inacessível"),
            fixture("gw-01", "gateway-demo", "gateway", "somente leitura"),
            fixture("model-a", "modelo-a-demo", "modelo (metadados)", "configurado"),
        ];
        FixtureSet { resources }
    }
}

/// The standard fixtures have pairwise distinct identities, and every
/// name is fictional (ends in `-demo`).
pub proof fn lemma_fixtures_stable()
    ensures
        forall|i: int, j: int| 0 <= i < j < fixture_count() ==> #[trigger] fixture_row(i).0 != #[trigger] fixture_row(j).0,
        forall|i: int| 0 <= i < fixture_count() ==> (#[trigger] fixture_row(i)).1.len() >= 5
            && fixture_row(i).1.subrange(fixture_row(i).1.len() - 5, fixture_row(i).1.len() as int) == "-demo"@,
{
    reveal_strlit("no-controle-01");
    reveal_strlit("no-agentes-01");
    reveal_strlit("inf-a-01");
    reveal_strlit("inf-b-01");
    reveal_strlit("gw-01");
    reveal_strlit("model-a");
    reveal_strlit("controle-demo");
    reveal_strlit("agentes-demo");
    reveal_strlit("inferencia-a-demo");
    reveal_strlit("inferencia-b-demo");
    reveal_strlit("gateway-demo");
    reveal_strlit("modelo-a-demo");
    reveal_strlit("-demo");
    assert forall|i: int, j: int| 0 <= i < j < fixture_count() implies #[trigger] fixture_row(i).0
        != #[trigger] fixture_row(j).0 by {
        if i == 2 && j == 3 {
            assert("inf-a-01"@[4] != "inf-b-01"@[4]);
        } else {
            assert(fixture_row(i).0.len() != fixture_row(j).0.len());
        }
    }
    assert forall|i: int| 0 <= i < fixture_count() implies (#[trigger] fixture_row(i)).1.len() >= 5
        && fixture_row(i).1.subrange(fixture_row(i).1.len() - 5, fixture_row(i).1.len() as int) == "-demo"@ by {
        let n = fixture_row(i).1;
        assert(n.subrange(n.len() - 5, n.len() as int) =~= "-demo"@);
    }
}

/// The mandatory label of every demonstration surface.
pub open spec fn banner() -> Seq<char> {
    "Demonstração · dados simulados. Nenhuma máquina será alterada."@
}

/// The demonstration banner.
pub fn demo_banner() -> (r: &'static str)
    ensures
        r@ == banner(),
{
    "Demonstração · dados simulados. Nenhuma máquina será alterada."
}

/// Local state of the demonstration screen: the scenario chosen and the
/// fixtures shown.
#[derive(Debug, Clone)]
pub struct PreviewView {
    pub scenario: PreviewScenario,
    pub fixtures: FixtureSet,
}

impl PreviewView {
    /// Starts on an existing environment over the standard fixtures.
    pub fn new() -> (r: Self)
        ensures
            r.scenario == PreviewScenario::ExistingEnvironment,
            r.fixtures.resources@.len() == fixture_count(),
            forall|i: int| 0 <= i < fixture_count() ==> {
                let f = #[trigger] r.fixtures.resources@[i];
                (f.id@, f.name@, f.kind@, f.state@) == fixture_row(i)
            },
    {
        PreviewView { scenario: PreviewScenario::ExistingEnvironment, fixtures: FixtureSet::standard() }
    }
}

impl Default for PreviewView {
    fn default() -> (r: Self)
        ensures
            r.scenario == PreviewScenario::ExistingEnvironment,
            r.fixtures.resources@.len() == fixture_count(),
    {
        Self::new()
    }
}

} // verus!
