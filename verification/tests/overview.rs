use orchestrator_studio::agents::AgentInfo;
use orchestrator_studio::origin::{NodeSummary, ProtocolVersion};
use orchestrator_studio::overview::{summarize, OverviewInput};
use orchestrator_studio::services::ServiceStatus;

fn input<'a>(
    node: Option<&'a NodeSummary>,
    services: &'a [ServiceStatus],
    agents: &'a [AgentInfo],
) -> OverviewInput<'a> {
    OverviewInput {
        node,
        node_error: "",
        services,
        services_error: "",
        agents,
        agents_error: "",
        models_total: 0,
        models_hashed: 0,
        inference_proof: "",
    }
}

#[test]
fn empty_everything_is_stale_never_fake() {
    let data = input(None, &[], &[]);
    let tiles = summarize(&data);
    assert_eq!(tiles.len(), 5);
    assert!(tiles.iter().all(|tile| tile.stale));
}

#[test]
fn counts_come_from_real_slices() {
    let node = NodeSummary { version: ProtocolVersion { major: 1, minor: 0 }, operations: Vec::new() };
    let services = vec![
        ServiceStatus { service: String::from("a"), wanted: Some(true), active: true },
        ServiceStatus { service: String::from("b"), wanted: Some(true), active: false },
    ];
    let agents = vec![AgentInfo {
        agent_id: String::from("ag-1"),
        model: String::new(),
        specialization: String::new(),
        hostname: String::new(),
        health: 100,
        slots_busy: 1,
        slots_total: 4,
        completed_total: 0,
        failed_total: 0,
    }];
    let mut data = input(Some(&node), &services, &agents);
    data.models_total = 15;
    data.models_hashed = 4;
    data.inference_proof = "OK";
    let tiles = summarize(&data);
    assert!(tiles.iter().all(|tile| !tile.stale));
    let services_tile = tiles.iter().find(|tile| tile.title == "Serviços").expect("servicos");
    assert!(services_tile.summary.contains("1 pronto(s) de 2"));
    assert!(services_tile.summary.contains("1 divergente(s)"));
    let agents_tile = tiles.iter().find(|tile| tile.title == "Agentes").expect("agentes");
    assert!(agents_tile.summary.contains("slots 1/4"));
    assert_eq!(tiles[0].summary, "conectado · protocolo 1.0 · 0 operação(ões)");
    assert_eq!(tiles[3].summary, "15 arquivo(s) · 4 com SHA-256");
    assert_eq!(tiles[4].summary, "última prova: OK");
}

#[test]
fn source_errors_stay_visible() {
    let mut data = input(None, &[], &[]);
    data.node_error = "conexão recusada";
    data.services_error = "timeout";
    let tiles = summarize(&data);
    let node = tiles.iter().find(|tile| tile.title == "Nó").expect("no");
    assert!(node.summary.contains("conexão recusada"));
    let services = tiles.iter().find(|tile| tile.title == "Serviços").expect("servicos");
    assert!(services.summary.contains("timeout"));
    assert_eq!(services.summary, "não lidos: timeout");
    assert_eq!(node.summary, "não conectado: conexão recusada");
}

#[test]
fn failed_agents_source_is_not_summed() {
    let agent = |busy: u32, total: u32| AgentInfo {
        agent_id: String::from("ag"),
        model: String::new(),
        specialization: String::new(),
        hostname: String::new(),
        health: 100,
        slots_busy: busy,
        slots_total: total,
        completed_total: 0,
        failed_total: 0,
    };
    let agents = vec![agent(u32::MAX, u32::MAX), agent(1, 1)];
    let mut data = input(None, &[], &agents);
    data.agents_error = "inalcançável";
    let tiles = summarize(&data);
    assert_eq!(tiles[2].summary, "não lidos: inalcançável");
    assert!(tiles[2].stale);
}
