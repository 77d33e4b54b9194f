use orchestrator_studio::preview::{demo_banner, FixtureSet, PreviewScenario, PreviewView};
use orchestrator_studio::review::{ConflictDecision, FieldDiff, ReviewState};
use orchestrator_studio::shell::{enter_picks, filter_commands, CommandItem, DataSource, ShellContext};
use orchestrator_studio::tools::{ToolDefinition, ToolImpl, ToolsPanel};
use orchestrator_studio::workflows::{WorkflowPanel, WorkflowRequest, WorkloadKind};

#[test]
fn all_scenarios_have_expected_evidence() {
    assert_eq!(PreviewScenario::all().len(), 16);
    for scenario in PreviewScenario::all() {
        assert!(!scenario.label().is_empty());
        assert!(!scenario.expected().is_empty());
    }
}

#[test]
fn fixtures_use_stable_ids_and_fictional_names() {
    let fixtures = FixtureSet::standard();
    assert_eq!(fixtures.resources.len(), 6);
    let ids: Vec<&str> = fixtures.resources.iter().map(|item| item.id.as_str()).collect();
    let mut sorted = ids.clone();
    sorted.sort_unstable();
    sorted.dedup();
    assert_eq!(ids.len(), sorted.len());
    for item in &fixtures.resources {
        assert!(item.name.ends_with("-demo"));
    }
}

#[test]
fn banner_names_simulation_and_no_effect() {
    assert!(demo_banner().contains("simulados"));
    assert!(demo_banner().contains("Nenhuma máquina será alterada"));
}

#[test]
fn preview_view_starts_on_existing_environment() {
    let view = PreviewView::new();
    assert_eq!(view.scenario, PreviewScenario::ExistingEnvironment);
    assert_eq!(view.fixtures.resources[4].id, "gw-01");
    assert_eq!(PreviewScenario::HighVolume.label(), "Grande volume");
    assert_eq!(PreviewScenario::LoadingCatalog.expected(), "Zero nunca como dado confirmado.");
}

#[test]
fn remote_advance_marks_stale_without_touching_draft() {
    let mut review = ReviewState::new("agente-1", 7);
    review.current_revision = 8;
    assert!(review.stale());
    assert_eq!(review.base_revision, 7);
}

#[test]
fn only_diverged_fields_conflict() {
    let mut review = ReviewState::new("agente-1", 7);
    review.diffs.push(FieldDiff {
        field: String::from("modelo"),
        base: String::from("a"),
        local: String::from("b"),
        remote: String::from("c"),
    });
    review.diffs.push(FieldDiff {
        field: String::from("nome"),
        base: String::from("x"),
        local: String::from("x"),
        remote: String::from("x"),
    });
    assert_eq!(review.conflicts().len(), 1);
    assert_eq!(review.conflicts()[0].field, "modelo");
}

#[test]
fn remote_deletion_preserves_draft_context() {
    let mut review = ReviewState::new("agente-1", 7);
    review.remote_deleted = true;
    assert!(review.remote_deleted);
    assert_eq!(review.decision, ConflictDecision::Undecided);
}

#[test]
fn demo_review_has_one_real_conflict() {
    let review = ReviewState::demo();
    assert!(review.stale());
    assert_eq!(review.conflicts().len(), 1);
    let same_remote = FieldDiff {
        field: String::from("f"),
        base: String::from("a"),
        local: String::from("c"),
        remote: String::from("c"),
    };
    assert!(!same_remote.conflicts());
    assert!(!ReviewState::default().stale());
}

fn catalog() -> Vec<CommandItem> {
    vec![
        CommandItem { title: String::from("Ir para Agentes"), section: String::from("Recursos"), dangerous: false },
        CommandItem { title: String::from("Remover do projeto"), section: String::from("Recursos"), dangerous: true },
    ]
}

#[test]
fn dangerous_item_never_first_on_ambiguous_query() {
    let items = catalog();
    let results = filter_commands(&items, "re");
    assert_eq!(results.len(), 2);
    assert!(!results[0].dangerous);
    assert!(results[1].dangerous);
}

#[test]
fn empty_query_returns_all_safe_first() {
    let items = catalog();
    let results = filter_commands(&items, "");
    assert_eq!(results.len(), 2);
    assert!(!results[0].dangerous);
}

#[test]
fn enter_never_picks_dangerous_first() {
    let items = catalog();
    let ranked = filter_commands(&items, "");
    assert_eq!(enter_picks(&ranked).map(|item| &item.title), Some(&String::from("Ir para Agentes")));
    let only_dangerous = vec![CommandItem {
        title: String::from("Remover do projeto"),
        section: String::from("Recursos"),
        dangerous: true,
    }];
    let ranked = filter_commands(&only_dangerous, "");
    assert_eq!(enter_picks(&ranked), None);
}

#[test]
fn demo_source_label_identifies_simulation() {
    assert_eq!(DataSource::Demo.label(), "Demonstração · dados simulados");
}

#[test]
fn matching_ignores_case_and_order_is_stable() {
    let items = vec![
        CommandItem { title: String::from("Apagar Nó"), section: String::from("NÓS"), dangerous: true },
        CommandItem { title: String::from("Abrir nó"), section: String::from("Nós"), dangerous: false },
        CommandItem { title: String::from("Outro"), section: String::from("X"), dangerous: false },
    ];
    let r = filter_commands(&items, "NÓ");
    assert_eq!(r.len(), 2);
    assert_eq!(r[0].title, "Abrir nó");
    assert_eq!(r[1].title, "Apagar Nó");
    assert!(items[0].matches("apagar"));
    assert!(!items[2].matches("nó"));
    let ctx = ShellContext::default();
    assert_eq!(ctx.project, "Laboratório");
    assert_eq!(ctx.domain, "78");
    assert_eq!(ctx.source, DataSource::Live);
}

#[test]
fn unsupported_impl_reports_restriction_gap() {
    let mut panel = ToolsPanel::new();
    let draft = panel.create_draft();
    assert_eq!(draft.implementation, ToolImpl::Unsupported);
    assert!(draft.restriction_line().contains("ainda não observada"));
}

#[test]
fn observed_restriction_shown_beside_declared() {
    let mut definition = ToolDefinition::draft("tool-1");
    definition.declared_restriction = String::from("somente leitura");
    definition.observed_restriction = Some(String::from("escrita negada em teste"));
    let line = definition.restriction_line();
    assert!(line.contains("somente leitura"));
    assert!(line.contains("escrita negada em teste"));
    assert_eq!(line, "declarada: somente leitura; observada: escrita negada em teste");
}

#[test]
fn select_unknown_clears_selection() {
    let mut panel = ToolsPanel::new();
    panel.create_draft();
    panel.select("tool-9");
    assert_eq!(panel.selected(), None);
}

#[test]
fn tool_drafts_get_sequential_ids_and_select() {
    let mut panel = ToolsPanel::new();
    assert_eq!(panel.create_draft().id, "tool-1");
    assert_eq!(panel.create_draft().id, "tool-2");
    panel.select("tool-2");
    assert_eq!(panel.selected().map(|t| t.id.as_str()), Some("tool-2"));
    assert_eq!(ToolImpl::Http.label(), "HTTP");
}

fn request() -> WorkflowRequest {
    WorkflowRequest {
        workflow_id: String::from("wf-1"),
        kind: WorkloadKind::ForkJoin,
        profile: String::from("Balanced"),
        destination: String::from("agents-01"),
    }
}

#[test]
fn fork_join_dependencies_are_explicit() {
    assert_eq!(WorkloadKind::ForkJoin.dependencies(), "A e B independentes; C depende de ambos");
    assert_eq!(WorkloadKind::Sequence.dependencies(), "B depende de A");
}

#[test]
fn each_submit_registers_single_intent() {
    let mut panel = WorkflowPanel::new();
    panel.submit(request());
    panel.submit(request());
    assert_eq!(panel.intents.len(), 2);
    assert_ne!(panel.intents[0].gesture, panel.intents[1].gesture);
}

#[test]
fn submit_skips_a_gesture_already_recorded() {
    let mut panel = WorkflowPanel::new();
    panel.intents.push(orchestrator_studio::workflows::WorkflowIntent { request: request(), gesture: 1 });
    panel.submit(request());
    assert_eq!(panel.intents.len(), 1);
    panel.submit(request());
    assert_eq!(panel.intents.len(), 2);
    assert_eq!(panel.intents[1].gesture, 2);
    assert_eq!(WorkloadKind::Serial.label(), "serial");
}
