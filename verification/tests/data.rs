use orchestrator_studio::agents::{agents_endpoint, AgentInfo, AgentsError, AgentsState};
use orchestrator_studio::catalog_remote::{
    events_endpoint, events_outcome, mutation_endpoint, mutation_outcome, snapshot_endpoint, CatalogItem,
    CatalogSnapshot, MutationReply, SharedCatalog, SharedCatalogError,
};
use orchestrator_studio::dds_observe::{
    agent_row, latest_by_key, metric_key, metric_label, tool_row, window_secs, AgentRow, AgentState, ObserveError,
    ToolCallRequest, ToolRow,
};
use orchestrator_studio::inference::{
    completions_endpoint, first_choice, listed_models, models_endpoint, InferenceError, InferenceState, ModelInfo, Role,
};
use orchestrator_studio::models::{artifact_of, hex_string, inventory_of, is_model_file, ContentDigest, ModelArtifact, ModelsError, ModelsState};
use orchestrator_studio::origin::{node_summary, NodeSummary, OriginError, ProtocolVersion};
use orchestrator_studio::qos_store::{CollectorStats, QosStore};
use orchestrator_studio::services::{actuate_endpoint, fresh_operation_id, services_endpoint, ActuateOut, ServicesError, ServicesPanel};
use orchestrator_studio::state::{str_le, AppState};
use orchestrator_studio::text::parse_u64;
use orchestrator_studio::trace_collector::{ExecutionTraceEvent, TraceCollector};

fn item(id: &str, value: &str, revision: u64) -> CatalogItem {
    CatalogItem { id: String::from(id), value: String::from(value), revision }
}

#[test]
fn empty_when_no_catalog_loaded() {
    let state = AppState::new();
    assert!(state.rows().is_empty());
    assert_eq!(state.status(), "nenhum catálogo carregado");
}

#[test]
fn refresh_reflects_real_catalog_snapshot() {
    let snapshot = CatalogSnapshot { items: vec![item("beta", "2", 0), item("alpha", "1", 0)], cursor: 2 };
    let mut state = AppState::new();
    state.refresh_from(&snapshot);
    let rows = state.rows();
    assert_eq!(rows.len(), 2);
    assert_eq!(rows[0].id, "alpha");
    assert_eq!(rows[0].value, "1");
    assert_eq!(rows[0].revision, 0);
    assert_eq!(rows[1].id, "beta");
    assert_eq!(state.status(), "2 item(ns) no catálogo");
}

#[test]
fn refresh_replaces_instead_of_accumulating() {
    let mut state = AppState::new();
    state.refresh_from(&CatalogSnapshot { items: vec![item("alpha", "1", 0)], cursor: 1 });
    state.refresh_from(&CatalogSnapshot { items: vec![item("alpha", "1", 0), item("beta", "2", 0)], cursor: 2 });
    let ids: Vec<&str> = state.rows().iter().map(|row| row.id.as_str()).collect();
    assert_eq!(ids, vec!["alpha", "beta"]);
}

#[test]
fn rows_sort_like_string_order() {
    let snapshot = CatalogSnapshot {
        items: vec![item("b", "", 1), item("ab", "", 2), item("a", "", 3), item("B", "", 4), item("é", "", 5)],
        cursor: 0,
    };
    let mut state = AppState::new();
    state.refresh_from(&snapshot);
    let ids: Vec<&str> = state.rows().iter().map(|row| row.id.as_str()).collect();
    let mut expected = vec!["b", "ab", "a", "B", "é"];
    expected.sort();
    assert_eq!(ids, expected);
    assert!(str_le("a", "ab"));
    assert!(!str_le("b", "ab"));
    assert!(str_le("", ""));
}

#[test]
fn node_status_names_protocol_and_operations() {
    let mut state = AppState::new();
    let summary = NodeSummary { version: ProtocolVersion { major: 2, minor: 7 }, operations: Vec::new() };
    state.refresh_from_node("http://n:4317//", Ok(summary.clone()));
    assert_eq!(state.status(), "nó http://n:4317 · protocolo 2.7 · 0 operação(ões)");
    assert_eq!(state.node(), Some(&summary));
    state.refresh_from_node("http://n", Err(OriginError::Incompatible { peer: ProtocolVersion { major: 9, minor: 1 } }));
    assert_eq!(state.status(), "origem bloqueada: no com protocolo incompativel: ProtocolVersion { major: 9, minor: 1 }");
    assert!(state.node().is_none());
    state.refresh_from_node("http://n", Err(OriginError::Unreachable { url: String::from("u"), detail: String::from("d") }));
    assert_eq!(state.status(), "nó inalcançável: falha ao ler o no em u: d");
}

#[test]
fn node_summary_refuses_incompatible_protocol() {
    let v = ProtocolVersion { major: 1, minor: 0 };
    assert_eq!(node_summary("u", v, false, Ok(Vec::new())), Err(OriginError::Incompatible { peer: v }));
    assert_eq!(
        node_summary("u", v, true, Err(String::from("x"))),
        Err(OriginError::Unreachable { url: String::from("u"), detail: String::from("x") })
    );
    assert_eq!(node_summary("u", v, true, Ok(Vec::new())), Ok(NodeSummary { version: v, operations: Vec::new() }));
}

#[test]
fn catalog_mutation_outcomes() {
    let ok = Ok(MutationReply { revision: Some(5), current: None });
    assert_eq!(mutation_outcome("u", 200, ok), Ok(5));
    let missing = mutation_outcome("u", 200, Ok(MutationReply { revision: None, current: None })).unwrap_err();
    assert_eq!(missing.message(), "falha no catalogo em u: resposta sem revision");
    let conflict = mutation_outcome("u", 409, Ok(MutationReply { revision: None, current: Some(3) })).unwrap_err();
    assert_eq!(conflict, SharedCatalogError::Conflict { current: Some(3) });
    assert_eq!(conflict.message(), "base obsoleta; vigente: Some(3)");
    let unknown = mutation_outcome("u", 409, Err(String::from("json"))).unwrap_err();
    assert_eq!(unknown.message(), "base obsoleta; vigente: None");
    assert_eq!(mutation_outcome("u", 410, Err(String::new())), Err(SharedCatalogError::Tombstoned));
    let other = mutation_outcome("u", 500, Err(String::new())).unwrap_err();
    assert_eq!(other.message(), "falha no catalogo em u: status inesperado: 500");
    assert_eq!(events_outcome("u", 200), Ok(()));
    assert_eq!(events_outcome("u", 410), Err(SharedCatalogError::CursorExpired));
    assert_eq!(SharedCatalogError::CursorExpired.message(), "cursor expirado; refazer snapshot");
}

#[test]
fn catalog_endpoints_drop_trailing_slashes() {
    assert_eq!(snapshot_endpoint("http://n:4317/"), "http://n:4317/catalog/snapshot");
    assert_eq!(mutation_endpoint("http://n", "publish"), "http://n/catalog/publish");
    assert_eq!(events_endpoint("http://n//", 12), "http://n/catalog/events?since=12");
}

#[test]
fn shared_catalog_form_requests_and_notices() {
    let mut shared = SharedCatalog::with_url("http://n");
    shared.form_id = String::from("  agente-1 ");
    shared.form_value = String::from("v");
    shared.form_base = String::from(" 7 ");
    let req = shared.publish_form();
    assert_eq!(req.id, "agente-1");
    assert_eq!(req.base, Some(7));
    assert_eq!(req.value, "v");
    shared.form_base = String::new();
    assert_eq!(shared.publish_form().base, None);
    assert_eq!(shared.delete_form().base, u64::MAX);
    shared.published(Ok(8));
    assert_eq!(shared.notice, "publicado em r8");
    shared.removed(Err(SharedCatalogError::Tombstoned));
    assert_eq!(shared.notice, "id removido; recriar exige identidade nova");
    shared.refresh(Ok(CatalogSnapshot { items: Vec::new(), cursor: 3 }));
    assert!(shared.notice.is_empty());
    assert_eq!(shared.snapshot.as_ref().map(|s| s.cursor), Some(3));
    shared.refresh(Err(SharedCatalogError::CursorExpired));
    assert_eq!(shared.snapshot.as_ref().map(|s| s.cursor), Some(3));
}

#[test]
fn parse_u64_follows_std() {
    for text in ["0", "7", "+12", "18446744073709551615", "", "+", "-1", "1a", "18446744073709551616", " 1"] {
        assert_eq!(parse_u64(text), text.parse::<u64>().ok(), "{text:?}");
    }
}

#[test]
fn models_inventory_pieces() {
    assert!(is_model_file("a-Q4_K_M.gguf"));
    assert!(!is_model_file("nota.txt"));
    assert!(!is_model_file(".gguf"));
    assert!(!is_model_file("gguf"));
    assert!(is_model_file("x.tar.gguf"));
    assert!(!is_model_file("x.gguf.bak"));
    assert_eq!(hex_string(&[0x00, 0xab, 0x10]), "00ab10");
    let mut d = ContentDigest::new();
    d.feed(b"abc");
    let a = artifact_of(Some("m.gguf"), 3, d);
    assert_eq!(a.sha256_hex, "ba7816bf8f01cfea414140de5dae2223b00361a396177a9cb410ff61f20015ad");
    assert_eq!(a.size_bytes, 3);
    let mut split = ContentDigest::new();
    split.feed(b"a");
    split.feed(b"bc");
    assert_eq!(split.hex(), a.sha256_hex);
    assert_eq!(artifact_of(None, 0, ContentDigest::new()).file_name, "?");
}

#[test]
fn lists_only_gguf_with_size_and_stable_digest() {
    let mk = |name: &str, content: &[u8]| {
        let mut d = ContentDigest::new();
        d.feed(content);
        artifact_of(Some(name), content.len() as u64, d)
    };
    let found = vec![mk("b-Q4_K_M.gguf", b"conteudo-b-b"), mk("a-Q4_K_M.gguf", b"conteudo-a")];
    let first = inventory_of(found.clone());
    let second = inventory_of(found);
    assert_eq!(first.len(), 2);
    assert_eq!(first[0].file_name, "a-Q4_K_M.gguf");
    assert_eq!(first[0].size_bytes, 10);
    assert_eq!(first[1].size_bytes, 12);
    assert_eq!(first, second);
    assert_eq!(first[0].sha256_hex.len(), 64);
    assert_ne!(first[0].sha256_hex, first[1].sha256_hex);
}

#[test]
fn missing_dir_becomes_typed_error() {
    let mut state = ModelsState::new();
    state.list.push(ModelArtifact { file_name: String::from("x"), size_bytes: 1, sha256_hex: String::new() });
    let err = ModelsError::Unreadable { dir: String::from("/nada"), detail: String::from("No such file") };
    assert!(matches!(err, ModelsError::Unreadable { .. }));
    state.refresh(Err(err));
    assert_eq!(state.error, "diretorio de modelos inacessivel /nada: No such file");
    assert_eq!(state.list.len(), 1);
    state.refresh(Ok(Vec::new()));
    assert!(state.list.is_empty());
    assert!(state.error.is_empty());
}

#[test]
fn inference_session_keeps_history_honest() {
    let mut st = InferenceState::new();
    assert_eq!(st.server_url, "http://127.0.0.1:8082");
    st.prompt = String::from("oi");
    let wire = st.send();
    assert_eq!(wire.len(), 1);
    assert_eq!(wire[0].role, Role::User);
    st.finish_send(Ok(String::from("olá")));
    assert_eq!(st.history.len(), 2);
    assert_eq!(st.reply, "olá");
    assert!(st.prompt.is_empty());
    st.prompt = String::from("de novo");
    st.send();
    st.finish_send(Err(InferenceError::EmptyChoices));
    assert_eq!(st.history.len(), 2);
    assert_eq!(st.reply, "erro de inferência: resposta sem escolhas");
    assert_eq!(st.prompt, "de novo");
    st.refresh_models(Ok(vec![ModelInfo { id: String::from("m1") }, ModelInfo { id: String::from("m2") }]));
    assert_eq!(st.model, "m1");
    assert_eq!(st.models, vec![String::from("m1"), String::from("m2")]);
    st.refresh_models(Err(InferenceError::Unreachable { url: String::from("u"), detail: String::from("d") }));
    assert_eq!(st.reply, "erro ao listar modelos: falha na inferencia em u: d");
    st.clear_session();
    assert!(st.history.is_empty() && st.reply.is_empty());
    assert_eq!(Role::Assistant.name(), "assistant");
}

#[test]
fn inference_contract_pieces() {
    assert_eq!(models_endpoint("http://h:8082/"), "http://h:8082/v1/models");
    assert_eq!(completions_endpoint("http://h"), "http://h/v1/chat/completions");
    assert_eq!(first_choice("u", Ok(vec![String::from("a"), String::from("b")])), Ok(String::from("a")));
    assert_eq!(first_choice("u", Ok(Vec::new())), Err(InferenceError::EmptyChoices));
    assert!(listed_models("u", Err(String::from("x"))).is_err());
}

#[test]
fn agent_row_maps_contract_fields() {
    let state = AgentState { agent_id: String::from("a-1"), model: String::from("m"), slots_busy: 2, slots_total: 8 };
    assert_eq!(
        agent_row(&state),
        AgentRow { agent_id: String::from("a-1"), model: String::from("m"), slots_busy: 2, slots_total: 8 }
    );
}

#[test]
fn tool_row_maps_contract_fields() {
    let call = ToolCallRequest { call_id: String::from("c-1"), tool_name: String::from("ler_arquivo"), status: 3 };
    assert_eq!(
        tool_row(&call),
        ToolRow { call_id: String::from("c-1"), tool_name: String::from("ler_arquivo"), status: 3 }
    );
}

#[test]
fn metric_row_formats_name_with_unit() {
    assert_eq!(metric_label("cpu", "fração"), "cpu (fração)");
    assert_eq!(metric_key("no-a", "cpu"), "no-a:cpu");
}

#[test]
fn drained_window_keeps_last_sample_per_key_in_key_order() {
    let samples = vec![
        (String::from("b"), 1),
        (String::from("a"), 2),
        (String::from("b"), 3),
        (String::from("c"), 4),
        (String::from("a"), 5),
    ];
    assert_eq!(
        latest_by_key(samples),
        vec![(String::from("a"), 5), (String::from("b"), 3), (String::from("c"), 4)]
    );
    assert!(latest_by_key::<u8>(Vec::new()).is_empty());
    assert_eq!(window_secs(0), 1);
    assert_eq!(window_secs(3), 3);
    let e = ObserveError::Unavailable { domain: 42, detail: String::from("sem DDS") };
    assert_eq!(e.message(), "falha ao observar o dominio 42: sem DDS");
}

fn make_event(trace_id: &str, seq: u32) -> ExecutionTraceEvent {
    ExecutionTraceEvent {
        trace_id: trace_id.into(),
        seq_num: seq,
        event_type: 1,
        task_id: "t1".into(),
        request_id: "r1".into(),
        agent_id: "a1".into(),
        component_id: "c1".into(),
        component_type: 0,
        payload_json: "{}".into(),
        timestamp_ns: 1000 + seq as u64,
    }
}

#[test]
fn trace_collector_ingest_and_retrieve() {
    let mut tc = TraceCollector::new("/tmp/traces");
    tc.ingest(&make_event("trace-1", 0));
    tc.ingest(&make_event("trace-1", 1));
    tc.ingest(&make_event("trace-2", 0));
    assert_eq!(tc.trace_count(), 2);
    assert_eq!(tc.event_count(), 3);
    let events = tc.get_trace("trace-1");
    assert_eq!(events.len(), 2);
    assert_eq!(events[0].seq_num, 0);
    assert_eq!(events[1].seq_num, 1);
    assert!(tc.get_trace("nada").is_empty());
    let mut ids = tc.all_trace_ids();
    ids.sort();
    assert_eq!(ids, vec![String::from("trace-1"), String::from("trace-2")]);
    assert_eq!(tc.all_traces().len(), 2);
    tc.clear();
    assert_eq!(tc.trace_count(), 0);
    assert_eq!(tc.event_count(), 0);
    assert_eq!(tc.output_dir(), "/tmp/traces");
}

#[test]
fn qos_store_basic() {
    let mut store = QosStore::new();
    assert_eq!(store.metrics_count(), 0);
    store.upsert_metric("m1".into(), serde_json::Value::from(1));
    store.upsert_metric("m2".into(), serde_json::Value::from(2));
    assert_eq!(store.metrics_count(), 2);
    store.upsert_violation("v1".into(), serde_json::Value::from("deadline"));
    assert_eq!(store.violations_count(), 1);
    store.upsert_discovery("d1".into(), serde_json::Value::from("matched"));
    assert_eq!(store.discoveries_count(), 1);
    let metrics = store.all_metrics();
    assert_eq!(metrics.len(), 2);
    store.upsert_metric("m1".into(), serde_json::Value::from(9));
    assert_eq!(store.metrics_count(), 2);
    assert_eq!(CollectorStats::of(&store), CollectorStats { total_metrics: 2, total_violations: 1, total_discoveries: 1 });
    store.clear();
    assert_eq!(store.metrics_count(), 0);
    assert_eq!(store.violations_count(), 0);
    assert!(store.all_discoveries().is_empty());
    assert_eq!(CollectorStats::default(), CollectorStats::of(&store));
}

#[test]
fn services_panel_actuation_flow() {
    let mut panel = ServicesPanel::new();
    assert_eq!(services_endpoint("http://n/"), "http://n/services");
    assert_eq!(actuate_endpoint("http://n", "llama", false), "http://n/services/llama/stop");
    let out = ActuateOut { service: String::from("llama"), active: true, acted: false };
    let back = panel.actuate_row(Ok(out.clone())).expect("ok");
    panel.refresh(Ok(Vec::new()));
    panel.converged_notice(&back);
    assert_eq!(panel.error, "llama já estava convergido");
    panel.actuate_row(Err(ServicesError::Unreachable { url: String::from("u"), detail: String::from("d") }));
    assert_eq!(panel.error, "falha ao ler servicos em u: d");
    let id = fresh_operation_id("llama");
    assert!(id.starts_with("gui-llama-"));
    assert!(id["gui-llama-".len()..].chars().all(|c| c.is_ascii_digit()));
}

#[test]
fn agents_panel_keeps_list_on_error() {
    let mut st = AgentsState::new();
    assert_eq!(agents_endpoint("http://o:8085/"), "http://o:8085/api/v1/agents");
    st.refresh(Ok(vec![AgentInfo {
        agent_id: String::from("a"),
        model: String::new(),
        specialization: String::new(),
        hostname: String::new(),
        health: 2,
        slots_busy: 0,
        slots_total: 1,
        completed_total: 0,
        failed_total: 0,
    }]));
    st.refresh(Err(AgentsError::Unreachable { url: String::from("u"), detail: String::from("d") }));
    assert_eq!(st.list.len(), 1);
    assert_eq!(st.error, "falha ao ler agentes em u: d");
}
