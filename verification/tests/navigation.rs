use orchestrator_studio::launch::{LaunchMsg, LaunchState, StepResult};
use orchestrator_studio::models::{models_hashed, ModelArtifact};
use orchestrator_studio::navigation::{section_for_command, Section};
use orchestrator_studio::nodes::NodeRegistry;
use orchestrator_studio::origin::{accepts, node_endpoint, op_summary, studio_protocol, AdminOp, ProtocolVersion};
use orchestrator_studio::text::{decimal_signed, parse_u16, parse_u32};

#[test]
fn every_command_leads_back_to_its_section() {
    let entries = Section::command_entries();
    let all = Section::all();
    assert_eq!(entries.len(), 16);
    assert_eq!(all.len(), 16);
    for (entry, section) in entries.iter().zip(all.iter()) {
        assert!(!entry.dangerous);
        assert_eq!(entry.section, "Navegação");
        assert_eq!(section_for_command(&entry.title), Some(*section));
    }
    assert_eq!(Section::Shared.label(), "Catálogo compartilhado");
    assert_eq!(section_for_command("Ir para Nada"), None);
    assert_eq!(section_for_command("Visão geral"), None);
}

#[test]
fn operation_lines_and_node_addresses() {
    assert_eq!(op_summary(&AdminOp::Bootstrap { node_name: String::from("n1") }), "bootstrap n1");
    assert_eq!(
        op_summary(&AdminOp::SetService { service: String::from("llama"), running: false }),
        "serviço llama off"
    );
    assert_eq!(node_endpoint("http://n:4317/", "/version"), "http://n:4317/version");
}

#[test]
fn narrow_parsers_follow_std() {
    for text in ["0", "65535", "65536", "4294967295", "4294967296", "+9", "x", ""] {
        assert_eq!(parse_u32(text), text.parse::<u32>().ok(), "{text:?}");
        assert_eq!(parse_u16(text), text.parse::<u16>().ok(), "{text:?}");
    }
    assert_eq!(decimal_signed(-42), "-42");
    assert_eq!(decimal_signed(i64::MIN), i64::MIN.to_string());
    assert_eq!(decimal_signed(7), "7");
}

#[test]
fn hashed_models_are_counted() {
    let a = |h: &str| ModelArtifact { file_name: String::from("f"), size_bytes: 0, sha256_hex: String::from(h) };
    assert_eq!(models_hashed(&vec![a("ab"), a(""), a("cd")]), 2);
    assert_eq!(models_hashed(&Vec::new()), 0);
}

#[test]
fn proof_text_only_after_every_step_succeeded() {
    let mut state = LaunchState::new();
    state.plan.service = String::from("svc");
    assert_eq!(state.proof_text(), "");
    state.start(&[String::from("svc")]).expect("valid");
    state.poll(vec![LaunchMsg::Step(StepResult { step: "prova de geração", ok: true, detail: String::from("OK!") })]);
    assert_eq!(state.proof_text(), "");
    state.poll(vec![LaunchMsg::Finished]);
    assert_eq!(state.proof_text(), "OK!");
    assert_eq!(state.steps[0].line(), "[✔] prova de geração — OK!");
    let failed = StepResult { step: "x", ok: false, detail: String::from("y") };
    assert_eq!(failed.line(), "[✘] x — y");
}

#[test]
fn submitting_the_form_adds_or_reports() {
    let mut registry = NodeRegistry::new();
    registry.draft_alias = String::from("local");
    registry.draft_url = String::from("http://127.0.0.1:4317/");
    registry.submit_draft();
    assert_eq!(registry.list().len(), 1);
    assert_eq!(registry.list()[0].url, "http://127.0.0.1:4317");
    assert!(registry.draft_alias.is_empty() && registry.draft_url.is_empty() && registry.error.is_empty());
    registry.draft_alias = String::from("local");
    registry.draft_url = String::from("http://x");
    registry.submit_draft();
    assert_eq!(registry.error, "no invalido: apelido já cadastrado");
    assert_eq!(registry.draft_alias, "local");
}

#[test]
fn models_section_shows_busy_marker_only_when_busy() {
    assert_eq!(Section::Models.nav_label(true), "Modelos GGUF …");
    assert_eq!(Section::Models.nav_label(false), "Modelos GGUF");
    assert_eq!(Section::Overview.nav_label(true), "Visão geral");
}

#[test]
fn protocol_accepted_on_same_major_only() {
    let local = studio_protocol();
    assert_eq!((local.major, local.minor), (1, 0));
    assert!(accepts(local, ProtocolVersion { major: 1, minor: 7 }));
    assert!(!accepts(local, ProtocolVersion { major: 2, minor: 0 }));
    assert!(!accepts(local, ProtocolVersion { major: 0, minor: 9 }));
}
