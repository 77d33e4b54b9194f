use orchestrator_studio::inference::ModelInfo;
use orchestrator_studio::launch::{
    delivered, LaunchAction, LaunchError, LaunchEvent, LaunchMsg, LaunchPlan, LaunchRun, LaunchState, RunPhase, StepResult,
};
use orchestrator_studio::services::{ActuateOut, ServiceStatus};

fn known() -> Vec<String> {
    vec![String::from("llama-server")]
}

#[test]
fn empty_service_never_actuates() {
    let plan = LaunchPlan::new();
    let err = plan.validate(&known()).expect_err("vazio deve falhar");
    assert!(matches!(err, LaunchError::Invalid { .. }));
}

#[test]
fn unknown_service_is_rejected_before_any_effect() {
    let mut plan = LaunchPlan::new();
    plan.service = String::from("unidade-fantasma");
    let err = plan.validate(&known()).expect_err("desconhecida deve falhar");
    assert!(err.message().contains("lista lida do nó"));
}

#[test]
fn preview_states_everything_before_effect() {
    let mut plan = LaunchPlan::new();
    plan.service = String::from("llama-server");
    let preview = plan.preview();
    assert!(preview.contains("POST"));
    assert!(preview.contains("llama-server"));
    assert!(preview.contains("NADA é criado"));
}

/// The messages a background run sends for a runner's steps: those up to
/// the first failure, then the end.
fn run_messages(runner_steps: Vec<StepResult>) -> Vec<LaunchMsg> {
    let mut msgs: Vec<LaunchMsg> = delivered(runner_steps).into_iter().map(LaunchMsg::Step).collect();
    msgs.push(LaunchMsg::Finished);
    msgs
}

#[test]
fn stub_runner_drives_steps_through_poll() {
    let mut state = LaunchState::new();
    state.plan.service = String::from("llama-server");
    let plan = state.start(&known()).expect("valid plan starts");
    assert_eq!(plan.service, "llama-server");
    assert!(state.running);
    let mut msgs = run_messages(vec![
        StepResult { step: "atuar start", ok: true, detail: String::from("ok") },
        StepResult { step: "prova de geração", ok: true, detail: String::from("INFERENCIA_OK") },
    ]);
    let rest = msgs.split_off(1);
    state.poll(msgs);
    assert!(state.running);
    state.poll(rest);
    assert!(!state.running);
    assert!(state.proved());
    assert_eq!(state.steps.len(), 2);
}

#[test]
fn failing_step_surfaces_first_error() {
    let mut state = LaunchState::new();
    state.plan.service = String::from("llama-server");
    assert!(state.start(&known()).is_some());
    state.poll(run_messages(vec![StepResult {
        step: "atuar start",
        ok: false,
        detail: String::from("conexão recusada"),
    }]));
    assert!(!state.running);
    assert!(!state.proved());
    assert!(state.error.contains("conexão recusada"));
    assert_eq!(state.error, "atuar start: conexão recusada");
}

#[test]
fn run_reports_nothing_after_first_failure() {
    let mut state = LaunchState::new();
    state.plan.service = String::from("llama-server");
    assert!(state.start(&known()).is_some());
    state.poll(run_messages(vec![
        StepResult { step: "atuar start", ok: true, detail: String::from("ok") },
        StepResult { step: "aguardar ativo", ok: false, detail: String::from("timeout") },
        StepResult { step: "listar modelos", ok: false, detail: String::from("segunda") },
    ]));
    assert!(!state.running);
    assert_eq!(state.steps.len(), 2);
    assert_eq!(state.error, "aguardar ativo: timeout");
}

#[test]
fn invalid_plan_shows_error_and_does_not_run() {
    let mut state = LaunchState::new();
    assert!(state.start(&known()).is_none());
    assert!(!state.running);
    assert_eq!(state.error, "plano invalido: escolha a unidade na lista lida do nó");
    state.plan.service = String::from("llama-server");
    state.plan.slots = 0;
    assert!(state.start(&known()).is_none());
    assert_eq!(state.error, "plano invalido: contexto e slots precisam ser maiores que zero");
}

#[test]
fn start_while_running_changes_nothing() {
    let mut state = LaunchState::new();
    state.plan.service = String::from("llama-server");
    assert!(state.start(&known()).is_some());
    assert!(state.start(&known()).is_none());
    assert!(state.running);
}

fn plan() -> LaunchPlan {
    let mut plan = LaunchPlan::new();
    plan.service = String::from("llama-server");
    plan
}

#[test]
fn run_walks_every_step_to_the_proof() {
    let (mut run, action) = LaunchRun::begin(plan());
    match action {
        LaunchAction::Actuate { node_url, service, operation_id } => {
            assert_eq!(node_url, "http://127.0.0.1:4317");
            assert_eq!(service, "llama-server");
            assert!(operation_id.starts_with("gui-llama-server-"));
        }
        other => panic!("unexpected {other:?}"),
    }
    let a = run.advance(LaunchEvent::Actuated(Ok(ActuateOut {
        service: String::from("llama-server"),
        active: false,
        acted: true,
    })));
    assert_eq!(a, LaunchAction::ListServices { node_url: String::from("http://127.0.0.1:4317") });
    assert_eq!(run.steps[0].detail, "registrado; active=false (aguardando)");
    let a = run.advance(LaunchEvent::Services(Ok(vec![ServiceStatus {
        service: String::from("llama-server"),
        wanted: Some(true),
        active: false,
    }])));
    assert_eq!(a, LaunchAction::Pause);
    let a = run.advance(LaunchEvent::Paused);
    assert_eq!(a, LaunchAction::ListServices { node_url: String::from("http://127.0.0.1:4317") });
    let a = run.advance(LaunchEvent::Services(Ok(vec![ServiceStatus {
        service: String::from("llama-server"),
        wanted: Some(true),
        active: true,
    }])));
    assert_eq!(a, LaunchAction::ListModels { llama_url: String::from("http://127.0.0.1:8082") });
    let a = run.advance(LaunchEvent::Models(Ok(vec![ModelInfo { id: String::from("qwen") }])));
    assert_eq!(
        a,
        LaunchAction::Prove {
            llama_url: String::from("http://127.0.0.1:8082"),
            model: String::from("qwen"),
            prompt: String::from("Responda apenas: INFERENCIA_OK"),
            max_tokens: 32,
        }
    );
    let a = run.advance(LaunchEvent::Replied(Ok(String::from("INFERENCIA_OK"))));
    assert_eq!(a, LaunchAction::Stop);
    assert_eq!(run.phase, RunPhase::Finished);
    assert_eq!(run.steps.len(), 4);
    assert!(run.steps.iter().all(|s| s.ok));
    assert_eq!(run.steps[2].detail, "primeiro anunciado: qwen");
}

#[test]
fn run_stops_at_first_failure() {
    let (mut run, _) = LaunchRun::begin(plan());
    let a = run.advance(LaunchEvent::Actuated(Err(String::from("recusado"))));
    assert_eq!(a, LaunchAction::Stop);
    assert_eq!(run.phase, RunPhase::Finished);
    assert_eq!(run.steps.len(), 1);
    assert!(!run.steps[0].ok);
    let a = run.advance(LaunchEvent::Paused);
    assert_eq!(a, LaunchAction::Stop);
    assert_eq!(run.steps.len(), 1);
}

#[test]
fn run_gives_up_after_sixty_polls() {
    let (mut run, _) = LaunchRun::begin(plan());
    run.advance(LaunchEvent::Actuated(Ok(ActuateOut {
        service: String::from("llama-server"),
        active: true,
        acted: true,
    })));
    assert_eq!(run.steps[0].detail, "wanted=true active=true acted=true");
    let idle = || vec![ServiceStatus { service: String::from("llama-server"), wanted: Some(true), active: false }];
    for _ in 0..59 {
        assert_eq!(run.advance(LaunchEvent::Services(Ok(idle()))), LaunchAction::Pause);
        assert!(matches!(run.advance(LaunchEvent::Paused), LaunchAction::ListServices { .. }));
    }
    assert_eq!(run.advance(LaunchEvent::Services(Ok(idle()))), LaunchAction::Pause);
    assert_eq!(run.advance(LaunchEvent::Paused), LaunchAction::Stop);
    assert_eq!(run.steps.last().map(|s| s.detail.as_str()), Some("unidade não ficou ativa em 60s"));
}

#[test]
fn run_without_models_fails_listing() {
    let (mut run, _) = LaunchRun::begin(plan());
    run.advance(LaunchEvent::Actuated(Ok(ActuateOut { service: String::from("x"), active: true, acted: false })));
    run.advance(LaunchEvent::Services(Ok(vec![ServiceStatus {
        service: String::from("llama-server"),
        wanted: None,
        active: true,
    }])));
    assert_eq!(run.advance(LaunchEvent::Models(Ok(Vec::new()))), LaunchAction::Stop);
    assert_eq!(run.steps.last().map(|s| s.detail.as_str()), Some("servidor sem modelos anunciados"));
}

#[test]
fn delivered_stops_at_first_failed_step() {
    let step = |name: &'static str, ok: bool| StepResult { step: name, ok, detail: String::from(name) };
    let all_ok = delivered(vec![step("a", true), step("b", true)]);
    assert_eq!(all_ok.len(), 2);
    let cut = delivered(vec![step("a", true), step("b", false), step("c", true)]);
    assert_eq!(cut.len(), 2);
    assert_eq!(cut[1].step, "b");
    assert!(!cut[1].ok);
    assert!(delivered(Vec::new()).is_empty());
}
