//! Read-only overview: composes the states that already exist (node,
//! services, agents, models, inference) into cards. Each card says where its
//! data comes from and is `stale` when that source was never read or failed.

use vstd::prelude::*;
use crate::agents::AgentInfo;
use crate::origin::NodeSummary;
use crate::services::{ServiceStatus, diverges};
use crate::text::{lit, append, decimal_of, decimal};

verus! {

/// One overview card: title, summary line and whether its source is stale.
#[derive(Debug, Clone, PartialEq, Eq)]
pub struct OverviewTile {
    pub title: String,
    pub summary: String,
    pub stale: bool,
}

/// Contents of an [`OverviewTile`].
pub struct TileView {
    pub title: Seq<char>,
    pub summary: Seq<char>,
    pub stale: bool,
}

impl View for OverviewTile {
    type V = TileView;

    open spec fn view(&self) -> TileView {
        TileView { title: self.title@, summary: self.summary@, stale: self.stale }
    }
}

/// The observable inputs of the overview, borrowed from the real states.
pub struct OverviewInput<'a> {
    pub node: Option<&'a NodeSummary>,
    pub node_error: &'a str,
    pub services: &'a [ServiceStatus],
    pub services_error: &'a str,
    pub agents: &'a [AgentInfo],
    pub agents_error: &'a str,
    pub models_total: usize,
    pub models_hashed: usize,
    pub inference_proof: &'a str,
}

/// Number of services effectively active.
pub open spec fn count_active(s: Seq<ServiceStatus>) -> nat
    decreases s.len(),
{
    if s.len() == 0 {
        0
    } else {
        count_active(s.drop_last()) + if s.last().active { 1nat } else { 0nat }
    }
}

/// Number of services whose wanted state differs from the effective one.
pub open spec fn count_diverging(s: Seq<ServiceStatus>) -> nat
    decreases s.len(),
{
    if s.len() == 0 {
        0
    } else {
        count_diverging(s.drop_last()) + if diverges(s.last()) { 1nat } else { 0nat }
    }
}

/// The services asked to run in the state opposite to the one they are in.
pub open spec fn wanted_otherwise(s: Seq<ServiceStatus>) -> Seq<ServiceStatus> {
    s.filter(|x: ServiceStatus| x.wanted == Some(!x.active))
}

/// The divergence the services card reports counts exactly the services
/// whose wanted state is set and opposite to the effective one: a service
/// running as wanted, or with no wanted state, never counts, and the count
/// never exceeds the number of services.
pub proof fn lemma_diverging_counts_opposite_wishes(s: Seq<ServiceStatus>)
    ensures
        count_diverging(s) == wanted_otherwise(s).len(),
        count_diverging(s) <= s.len(),
        (forall|i: int| 0 <= i < s.len() ==> (#[trigger] s[i]).wanted != Some(!s[i].active)) ==> count_diverging(s)
            == 0,
    decreases s.len(),
{
    reveal(Seq::filter);
    if s.len() > 0 {
        lemma_diverging_counts_opposite_wishes(s.drop_last());
        assert(wanted_otherwise(s) == {
            let rest = wanted_otherwise(s.drop_last());
            if s.last().wanted == Some(!s.last().active) {
                rest.push(s.last())
            } else {
                rest
            }
        });
        if forall|i: int| 0 <= i < s.len() ==> (#[trigger] s[i]).wanted != Some(!s[i].active) {
            assert(s.last() == s[s.len() - 1]);
            assert forall|i: int| 0 <= i < s.drop_last().len() implies (#[trigger] s.drop_last()[i]).wanted
                != Some(!s.drop_last()[i].active) by {
                assert(s.drop_last()[i] == s[i]);
            }
        }
    }
}

/// Busy slots over all agents.
pub open spec fn sum_busy(a: Seq<AgentInfo>) -> nat
    decreases a.len(),
{
    if a.len() == 0 {
        0
    } else {
        sum_busy(a.drop_last()) + a.last().slots_busy as nat
    }
}

/// Slots over all agents.
pub open spec fn sum_slots(a: Seq<AgentInfo>) -> nat
    decreases a.len(),
{
    if a.len() == 0 {
        0
    } else {
        sum_slots(a.drop_last()) + a.last().slots_total as nat
    }
}

/// The node card.
pub open spec fn node_card(node: Option<NodeSummary>, error: Seq<char>) -> TileView {
    match node {
        Some(summary) => TileView {
            title: "Nó"@,
            summary: "conectado · protocolo "@ + decimal(summary.version.major as nat) + "."@
                + decimal(summary.version.minor as nat) + " · "@ + decimal(
                summary.operations@.len(),
            ) + " operação(ões)"@,
            stale: false,
        },
        None => TileView {
            title: "Nó"@,
            summary: if error.len() == 0 {
                "não conectado — abra Nó studio-node e Conecte"@
            } else {
                "não conectado: "@ + error
            },
            stale: true,
        },
    }
}

/// The services card.
pub open spec fn services_card(services: Seq<ServiceStatus>, error: Seq<char>) -> TileView {
    if error.len() == 0 && services.len() > 0 {
        TileView {
            title: "Serviços"@,
            summary: decimal(count_active(services)) + " pronto(s) de "@ + decimal(services.len())
                + " · "@ + decimal(count_diverging(services))
                + " divergente(s) pretendido×efetivo"@,
            stale: false,
        }
    } else if error.len() > 0 {
        TileView { title: "Serviços"@, summary: "não lidos: "@ + error, stale: true }
    } else {
        TileView {
            title: "Serviços"@,
            summary: "nunca lidos — abra Serviços e clique Ler plano"@,
            stale: true,
        }
    }
}

/// The agents card.
pub open spec fn agents_card(agents: Seq<AgentInfo>, error: Seq<char>) -> TileView {
    if error.len() == 0 && agents.len() > 0 {
        TileView {
            title: "Agentes"@,
            summary: decimal(agents.len()) + " agente(s) · slots "@ + decimal(sum_busy(agents))
                + "/"@ + decimal(sum_slots(agents)) + " ocupados"@,
            stale: false,
        }
    } else if error.len() > 0 {
        TileView { title: "Agentes"@, summary: "não lidos: "@ + error, stale: true }
    } else {
        TileView {
            title: "Agentes"@,
            summary: "nunca lidos — abra Agentes e atualize"@,
            stale: true,
        }
    }
}

/// The models card.
pub open spec fn models_card(total: usize, hashed: usize) -> TileView {
    TileView {
        title: "Modelos"@,
        summary: if total == 0 {
            "nenhum .gguf listado — abra Modelos GGUF e Inventarie"@
        } else {
            decimal(total as nat) + " arquivo(s) · "@ + decimal(hashed as nat) + " com SHA-256"@
        },
        stale: total == 0,
    }
}

/// The inference card.
pub open spec fn inference_card(proof: Seq<char>) -> TileView {
    TileView {
        title: "Inferência"@,
        summary: if proof.len() == 0 {
            "sem prova de geração ainda — abra Subir inferência"@
        } else {
            "última prova: "@ + proof
        },
        stale: proof.len() == 0,
    }
}

/// The overview's cards for `input`, in display order.
pub open spec fn cards(input: OverviewInput) -> Seq<TileView> {
    seq![
        node_card(
            match input.node {
                Some(n) => Some(*n),
                None => None,
            },
            input.node_error@,
        ),
        services_card(input.services@, input.services_error@),
        agents_card(input.agents@, input.agents_error@),
        models_card(input.models_total, input.models_hashed),
        inference_card(input.inference_proof@),
    ]
}

fn tile(title: &str, summary: String, stale: bool) -> (t: OverviewTile)
    ensures
        t@.title == title@,
        t@.summary == summary@,
        t@.stale == stale,
{
    OverviewTile { title: lit(title), summary, stale }
}

fn node_tile(node: Option<&NodeSummary>, error: &str) -> (t: OverviewTile)
    ensures
        t@ == node_card(
            match node {
                Some(n) => Some(*n),
                None => None,
            },
            error@,
        ),
{
    match node {
        Some(summary) => {
            let mut s = lit("conectado · protocolo ");
            append(&mut s, decimal_of(summary.version.major as u64).as_str());
            append(&mut s, ".");
            append(&mut s, decimal_of(summary.version.minor as u64).as_str());
            append(&mut s, " · ");
            append(&mut s, decimal_of(summary.operations.len() as u64).as_str());
            append(&mut s, " operação(ões)");
            tile("Nó", s, false)
        },
        None => {
            let s = if error.is_empty() {
                lit("não conectado — abra Nó studio-node e Conecte")
            } else {
                let mut s = lit("não conectado: ");
                append(&mut s, error);
                s
            };
            tile("Nó", s, true)
        },
    }
}

fn services_tile(services: &[ServiceStatus], error: &str) -> (t: OverviewTile)
    ensures
        t@ == services_card(services@, error@),
{
    if error.is_empty() && services.len() > 0 {
        let mut ready: u64 = 0;
        let mut divergent: u64 = 0;
        let mut i: usize = 0;
        while i < services.len()
            invariant
                i <= services.len(),
                ready == count_active(services@.take(i as int)),
                divergent == count_diverging(services@.take(i as int)),
                ready <= i,
                divergent <= i,
            decreases services.len() - i,
        {
            proof {
                assert(services@.take(i + 1).drop_last() =~= services@.take(i as int));
            }
            if services[i].active {
                ready = ready + 1;
            }
            let diverging = match services[i].wanted {
                Some(w) => w != services[i].active,
                None => false,
            };
            if diverging {
                divergent = divergent + 1;
            }
            i = i + 1;
        }
        assert(services@.take(services@.len() as int) =~= services@);
        let mut s = decimal_of(ready);
        append(&mut s, " pronto(s) de ");
        append(&mut s, decimal_of(services.len() as u64).as_str());
        append(&mut s, " · ");
        append(&mut s, decimal_of(divergent).as_str());
        append(&mut s, " divergente(s) pretendido×efetivo");
        tile("Serviços", s, false)
    } else if !error.is_empty() {
        let mut s = lit("não lidos: ");
        append(&mut s, error);
        tile("Serviços", s, true)
    } else {
        tile("Serviços", lit("nunca lidos — abra Serviços e clique Ler plano"), true)
    }
}

fn agents_tile(agents: &[AgentInfo], error: &str) -> (t: OverviewTile)
    requires
        error@.len() == 0 && agents@.len() > 0 ==> sum_busy(agents@) <= u32::MAX && sum_slots(agents@)
            <= u32::MAX,
    ensures
        t@ == agents_card(agents@, error@),
{
    if error.is_empty() && agents.len() > 0 {
        let mut busy: u32 = 0;
        let mut total: u32 = 0;
        let mut i: usize = 0;
        while i < agents.len()
            invariant
                i <= agents.len(),
                busy == sum_busy(agents@.take(i as int)),
                total == sum_slots(agents@.take(i as int)),
                sum_busy(agents@) <= u32::MAX,
                sum_slots(agents@) <= u32::MAX,
            decreases agents.len() - i,
        {
            proof {
                assert(agents@.take(i + 1).drop_last() =~= agents@.take(i as int));
                lemma_sums_monotone(agents@, i + 1);
            }
            busy = busy + agents[i].slots_busy;
            total = total + agents[i].slots_total;
            i = i + 1;
        }
        assert(agents@.take(agents@.len() as int) =~= agents@);
        let mut s = decimal_of(agents.len() as u64);
        append(&mut s, " agente(s) · slots ");
        append(&mut s, decimal_of(busy as u64).as_str());
        append(&mut s, "/");
        append(&mut s, decimal_of(total as u64).as_str());
        append(&mut s, " ocupados");
        tile("Agentes", s, false)
    } else if !error.is_empty() {
        let mut s = lit("não lidos: ");
        append(&mut s, error);
        tile("Agentes", s, true)
    } else {
        tile("Agentes", lit("nunca lidos — abra Agentes e atualize"), true)
    }
}

proof fn lemma_sums_monotone(a: Seq<AgentInfo>, n: int)
    requires
        0 <= n <= a.len(),
    ensures
        sum_busy(a.take(n)) <= sum_busy(a),
        sum_slots(a.take(n)) <= sum_slots(a),
    decreases a.len(),
{
    if n < a.len() {
        assert(a.drop_last().take(n) =~= a.take(n));
        lemma_sums_monotone(a.drop_last(), n);
    } else {
        assert(a.take(n) =~= a);
    }
}

/// The overview cards: node, services, agents, models and inference. An
/// empty or failed source gives a stale card, never invented data.
pub fn summarize(input: &OverviewInput<'_>) -> (tiles: Vec<OverviewTile>)
    requires
        input.agents_error@.len() == 0 && input.agents@.len() > 0 ==> sum_busy(input.agents@) <= u32::MAX
            && sum_slots(input.agents@) <= u32::MAX,
    ensures
        tiles@.map_values(|t: OverviewTile| t@) == cards(*input),
{
    let mut tiles: Vec<OverviewTile> = Vec::new();
    tiles.push(node_tile(input.node, input.node_error));
    tiles.push(services_tile(input.services, input.services_error));
    tiles.push(agents_tile(input.agents, input.agents_error));
    let models = if input.models_total == 0 {
        lit("nenhum .gguf listado — abra Modelos GGUF e Inventarie")
    } else {
        let mut s = decimal_of(input.models_total as u64);
        append(&mut s, " arquivo(s) · ");
        append(&mut s, decimal_of(input.models_hashed as u64).as_str());
        append(&mut s, " com SHA-256");
        s
    };
    tiles.push(tile("Modelos", models, input.models_total == 0));
    let inference = if input.inference_proof.is_empty() {
        lit("sem prova de geração ainda — abra Subir inferência")
    } else {
        let mut s = lit("última prova: ");
        append(&mut s, input.inference_proof);
        s
    };
    tiles.push(tile("Inferência", inference, input.inference_proof.is_empty()));
    assert(tiles@.map_values(|t: OverviewTile| t@) =~= cards(*input));
    tiles
}

/// Every card is stale exactly when its source is missing, failed or empty:
/// with nothing read, all five cards are stale.
pub proof fn lemma_nothing_read_all_stale(input: OverviewInput)
    requires
        input.node is None,
        input.services@.len() == 0,
        input.agents@.len() == 0,
        input.models_total == 0,
        input.inference_proof@.len() == 0,
    ensures
        forall|i: int| 0 <= i < 5 ==> (#[trigger] cards(input)[i]).stale,
{
}

} // verus!
