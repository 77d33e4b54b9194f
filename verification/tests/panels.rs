use orchestrator_studio::design::{palette, GalleryState, ResolvedTheme, Rgb, Theme};
use orchestrator_studio::machines::{AdminState, DdsEvidence, MachineLedger, TrustState};
use orchestrator_studio::nodes::{NodeRegistry, NodesError};
use orchestrator_studio::operations::{LogViewer, OpState, OperationRecord, OperationsPanel};
use orchestrator_studio::orchestrators::{MonitorDefinition, OrchestratorPanel};
use orchestrator_studio::pickers::DestinationPick;

#[test]
fn system_defaults_to_light_when_unknown() {
    assert_eq!(Theme::System.resolve(None), ResolvedTheme::Light);
    assert_eq!(Theme::System.resolve(Some(true)), ResolvedTheme::Dark);
    assert_eq!(Theme::System.resolve(Some(false)), ResolvedTheme::Light);
}

fn luminance(channel: u8) -> f64 {
    let linear = f64::from(channel) / 255.0;
    if linear <= 0.03928 {
        linear / 12.92
    } else {
        ((linear + 0.055) / 1.055).powf(2.4)
    }
}

fn relative_luminance(color: Rgb) -> f64 {
    0.2126 * luminance(color.0) + 0.7152 * luminance(color.1) + 0.0722 * luminance(color.2)
}

#[test]
fn primary_text_meets_contrast_on_both_themes() {
    for theme in [ResolvedTheme::Dark, ResolvedTheme::Light] {
        let colors = palette(theme);
        let a = relative_luminance(colors.text_primary);
        let b = relative_luminance(colors.background);
        let ratio = (a.max(b) + 0.05) / (a.min(b) + 0.05);
        assert!(ratio >= 4.5, "{theme:?}: {ratio:.2}");
    }
}

#[test]
fn theme_labels_and_palette_values() {
    assert_eq!(Theme::default(), Theme::System);
    assert_eq!(Theme::Dark.label(), "Escuro");
    assert_eq!(Theme::Light.resolve(Some(true)), ResolvedTheme::Light);
    assert_eq!(palette(ResolvedTheme::Dark).background, Rgb(0x11, 0x13, 0x18));
    assert_eq!(palette(ResolvedTheme::Light).accent, Rgb(0x20, 0x5A, 0xD2));
    assert_eq!(GalleryState::new(ResolvedTheme::Dark).theme, ResolvedTheme::Dark);
}

#[test]
fn add_select_remove_roundtrip() {
    let mut ledger = MachineLedger::new();
    assert!(ledger.add("gpu-amd-01", "http://192.168.1.61:4317").is_ok());
    ledger.select("gpu-amd-01");
    assert_eq!(ledger.selected().map(|entry| entry.alias.as_str()), Some("gpu-amd-01"));
    ledger.remove("gpu-amd-01");
    assert!(ledger.list().is_empty());
    assert_eq!(ledger.selected(), None);
}

#[test]
fn duplicate_and_empty_alias_rejected() {
    let mut ledger = MachineLedger::new();
    assert!(ledger.add("n1", "http://x").is_ok());
    assert!(ledger.add("n1", "http://y").is_err());
    assert!(ledger.add("  ", "http://y").is_err());
    assert_eq!(ledger.list().len(), 1);
}

#[test]
fn defaults_keep_dimensions_distinct() {
    let mut ledger = MachineLedger::new();
    ledger.add("n1", "http://x").expect("adiciona");
    let entry = &ledger.list()[0];
    assert_eq!(entry.admin, AdminState::Unknown);
    assert_eq!(entry.trust, TrustState::Unverified);
    assert_eq!(entry.dds, DdsEvidence::Absent);
}

#[test]
fn ledger_messages_and_trimming() {
    let mut ledger = MachineLedger::new();
    assert_eq!(ledger.add(" n1 ", " http://x ").map_err(|e| e), Ok(()));
    assert_eq!(ledger.list()[0].alias, "n1");
    assert_eq!(ledger.list()[0].endpoint, "http://x");
    assert_eq!(ledger.list()[0].origin, "cadastro local");
    assert_eq!(ledger.add("n1", "z"), Err(String::from("máquina duplicada: n1")));
    assert_eq!(ledger.add("", "z"), Err(String::from("apelido vazio")));
    ledger.select("nada");
    assert_eq!(ledger.selected(), None);
    assert_eq!(AdminState::Managed.label(), "gerenciada");
    assert_eq!(TrustState::Divergent.label(), "identidade divergente");
    assert_eq!(DdsEvidence::Absent.label(), "ausente");
}

#[test]
fn removing_another_machine_keeps_selection() {
    let mut ledger = MachineLedger::new();
    ledger.add("a", "x").expect("a");
    ledger.add("b", "y").expect("b");
    ledger.select("a");
    ledger.remove("b");
    assert_eq!(ledger.selected().map(|e| e.alias.as_str()), Some("a"));
}

#[test]
fn starts_empty_with_nothing_selected() {
    let registry = NodeRegistry::new();
    assert!(registry.list().is_empty());
    assert!(registry.selected().is_none());
}

#[test]
fn rejects_garbage_before_any_network() {
    let mut registry = NodeRegistry::new();
    assert!(registry.add("", "http://127.0.0.1:4317").is_err());
    assert!(registry.add("local", "127.0.0.1:4317").is_err());
    assert!(registry.list().is_empty());
}

#[test]
fn first_entry_becomes_selected_and_duplicates_refused() {
    let mut registry = NodeRegistry::new();
    registry.add("local", "http://127.0.0.1:4317").expect("vale");
    registry.add("gpu", "http://192.168.1.61:4317").expect("vale");
    assert_eq!(registry.selected().expect("selecionado").alias, "local");
    assert!(registry.add("local", "http://192.168.1.62:4317").is_err());
    assert!(registry.add("orc", "http://192.168.1.61:4317").is_err());
    assert_eq!(registry.list().len(), 2);
}

#[test]
fn select_and_remove_keep_valid_selection() {
    let mut registry = NodeRegistry::new();
    registry.add("a", "http://10.0.0.1:4317").expect("vale");
    registry.add("b", "http://10.0.0.2:4317").expect("vale");
    registry.select("b");
    assert_eq!(registry.selected().expect("b").alias, "b");
    registry.select("fantasma");
    assert_eq!(registry.selected().expect("ainda b").alias, "b");
    registry.remove("b");
    assert_eq!(registry.selected().expect("caiu para a").alias, "a");
    registry.remove("a");
    assert!(registry.selected().is_none());
}

#[test]
fn node_errors_name_each_rule() {
    let mut registry = NodeRegistry::new();
    let detail = |r: Result<(), NodesError>| match r {
        Err(NodesError::Invalid { detail }) => detail,
        Ok(()) => String::from("ok"),
    };
    assert_eq!(detail(registry.add(" ", "http://x")), "apelido e URL precisam ser preenchidos");
    assert_eq!(detail(registry.add("a", "ftp://x")), "URL precisa começar com http:// ou https://");
    assert_eq!(detail(registry.add("a", " https://x/// ")), "ok");
    assert_eq!(registry.list()[0].url, "https://x");
    assert_eq!(detail(registry.add("a", "http://y")), "apelido já cadastrado");
    assert_eq!(detail(registry.add("b", "https://x/")), "URL já cadastrada em outro apelido");
    let err = registry.add("", "").unwrap_err();
    assert_eq!(err.message(), "no invalido: apelido e URL precisam ser preenchidos");
}

#[test]
fn accepted_not_done_stays_running_wording() {
    assert_eq!(OpState::Accepted.label(), "aceita");
    assert_eq!(OpState::Unconfirmed.label(), "sem confirmação");
}

#[test]
fn no_cancel_capacity_offers_stop_following() {
    assert_eq!(OperationRecord::follow_action(OpState::Running, false), "Parar de acompanhar");
    assert_eq!(OperationRecord::follow_action(OpState::Running, true), "Cancelar execução");
    assert_eq!(OperationRecord::follow_action(OpState::Done, true), "arquivada");
}

#[test]
fn buffer_caps_oldest_lines_first() {
    let mut viewer = LogViewer::new(3);
    viewer.push_batch(&[String::from("l1"), String::from("l2"), String::from("l3"), String::from("l4")]);
    assert_eq!(viewer.len(), 3);
    assert_eq!(viewer.visible(), vec!["l2", "l3", "l4"]);
}

#[test]
fn kind_filter_separates_activity_types() {
    let mut panel = OperationsPanel::new();
    panel.track(OperationRecord {
        id: String::from("op-1"),
        kind: String::from("implantação de servidor"),
        resource: String::from("srv-1"),
        machine: String::from("gpu-a"),
        state: OpState::Running,
        events: Vec::new(),
        cancel_supported: false,
    });
    panel.track(OperationRecord {
        id: String::from("op-2"),
        kind: String::from("tarefa de inferência"),
        resource: String::from("task-1"),
        machine: String::from("agents-01"),
        state: OpState::Done,
        events: Vec::new(),
        cancel_supported: false,
    });
    assert_eq!(panel.visible().len(), 2);
    panel.kind_filter = String::from("inferência");
    assert_eq!(panel.visible().len(), 1);
    assert_eq!(panel.visible()[0].id, "op-2");
}

#[test]
fn query_filters_without_losing_lines() {
    let mut viewer = LogViewer::new(10);
    viewer.push_batch(&[String::from("ok 1"), String::from("erro x")]);
    viewer.query = String::from("erro");
    assert_eq!(viewer.visible(), vec!["erro x"]);
    viewer.query.clear();
    assert_eq!(viewer.len(), 2);
}

#[test]
fn zero_capacity_keeps_one_line() {
    let mut viewer = LogViewer::new(0);
    assert_eq!(viewer.capacity, 1);
    assert!(viewer.is_empty());
    viewer.push_batch(&[String::from("a"), String::from("b")]);
    assert_eq!(viewer.visible(), vec!["b"]);
}

#[test]
fn role_names_supervision_not_execution() {
    assert_eq!(MonitorDefinition::role(), "Supervisão de tarefas e agentes");
}

#[test]
fn prepare_starts_unapplied_with_defaults() {
    let mut panel = OrchestratorPanel::new();
    panel.draft_alias = String::from("monitor-01");
    panel.prepare();
    let definition = panel.definition.expect("definição");
    assert_eq!(definition.domain, "78");
    assert!(!definition.applied);
}

#[test]
fn empty_alias_prepares_nothing() {
    let mut panel = OrchestratorPanel::new();
    panel.draft_alias = String::from("   ");
    panel.prepare();
    assert_eq!(panel.definition, None);
}

#[test]
fn prepare_trims_alias_and_clears_draft() {
    let mut panel = OrchestratorPanel::new();
    panel.draft_alias = String::from("  m-2 ");
    panel.prepare();
    let d = panel.definition.clone().expect("def");
    assert_eq!(d.alias, "m-2");
    assert_eq!(d.config, "Balanced");
    assert!(panel.draft_alias.is_empty());
}

#[test]
fn host_change_invalidates_dependents_with_notice() {
    let mut pick = DestinationPick {
        host: String::from("gpu-a"),
        device: Some(String::from("GPU 0")),
        artifact_path: Some(String::from("/m/modelo.gguf")),
        notice: String::new(),
    };
    pick.change_host("gpu-b");
    assert_eq!(pick.device, None);
    assert_eq!(pick.artifact_path, None);
    assert!(pick.notice.contains("escolha novamente"));
}

#[test]
fn same_host_keeps_everything() {
    let mut pick = DestinationPick {
        host: String::from("gpu-a"),
        device: Some(String::from("GPU 0")),
        artifact_path: None,
        notice: String::new(),
    };
    pick.change_host("gpu-a");
    assert_eq!(pick.device.as_deref(), Some("GPU 0"));
    assert!(pick.notice.is_empty());
}

#[test]
fn path_label_always_names_machine() {
    let mut pick = DestinationPick::new();
    pick.host = String::from("gpu-amd-01");
    pick.artifact_path = Some(String::from("/m/a.gguf"));
    assert_eq!(pick.path_label(), "Arquivo em gpu-amd-01: /m/a.gguf");
    pick.artifact_path = None;
    assert_eq!(pick.path_label(), "nenhum artefato escolhido");
}

#[test]
fn host_change_without_dependents_leaves_no_notice() {
    let mut pick = DestinationPick::new();
    pick.change_host("gpu-b");
    assert_eq!(pick.host, "gpu-b");
    assert!(pick.notice.is_empty());
}
