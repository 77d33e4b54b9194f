use orchestrator_studio::agent_defs::{AgentDefinition, DefinitionStore};
use orchestrator_studio::agent_editor::{tools_from_text, tools_text, AgentEditor, EditorStep};

#[test]
fn duplicate_mints_new_identity_as_unpublished_draft() {
    let mut store = DefinitionStore::new();
    let id = store.create_draft().id.clone();
    let copy = store.duplicate(&id).expect("duplica");
    assert_ne!(copy.id, id);
    assert!(!copy.published);
    assert_eq!(copy.revision, 0);
    assert_eq!(store.list().len(), 2);
}

#[test]
fn unassociated_instance_has_no_definition() {
    let store = DefinitionStore::new();
    assert_eq!(store.definition_of("inst-9"), None);
}

#[test]
fn association_links_instance_to_definition() {
    let mut store = DefinitionStore::new();
    let id = store.create_draft().id.clone();
    store.associate("inst-1", &id);
    assert_eq!(store.definition_of("inst-1").map(|item| item.id.as_str()), Some(id.as_str()));
    store.remove(&id);
    assert_eq!(store.definition_of("inst-1"), None);
}

#[test]
fn destination_summary_names_distinct_machines() {
    let mut definition = AgentDefinition::draft("def-1");
    definition.machine = String::from("agents-01");
    definition.server = String::from("inferencia-a em gpu-amd-01");
    let summary = definition.destination_summary();
    assert!(summary.contains("agents-01"));
    assert!(summary.contains("inferencia-a em gpu-amd-01"));
}

#[test]
fn draft_ids_are_sequential_and_distinct() {
    let mut store = DefinitionStore::new();
    assert_eq!(store.create_draft().id, "def-1");
    assert_eq!(store.create_draft().id, "def-2");
    let copy = store.duplicate("def-1").expect("existe").id.clone();
    assert_eq!(copy, "def-3");
    assert!(store.duplicate("def-99").is_none());
    assert_eq!(store.list().len(), 3);
}

#[test]
fn duplicate_keeps_content_but_not_revision() {
    let mut store = DefinitionStore::new();
    store.create_draft();
    let copy = store.duplicate("def-1").expect("duplica").clone();
    assert_eq!(copy.name, "");
    assert_eq!(copy.tools.len(), 0);
    assert_eq!(copy.revision, 0);
}

#[test]
fn destination_summary_exact_text() {
    let mut definition = AgentDefinition::draft("def-1");
    assert_eq!(
        definition.destination_summary(),
        "Agente executará em: não escolhido. Inferência solicitada ao servidor: não escolhido. Ferramentas: nenhuma."
    );
    definition.machine = String::from("m1");
    definition.tools = vec![String::from("a"), String::from("b")];
    assert_eq!(
        definition.destination_summary(),
        "Agente executará em: m1. Inferência solicitada ao servidor: não escolhido. Ferramentas: a, b."
    );
}

#[test]
fn reassociation_replaces_previous_link() {
    let mut store = DefinitionStore::new();
    store.create_draft();
    store.create_draft();
    store.associate("inst-1", "def-1");
    store.associate("inst-1", "def-2");
    assert_eq!(store.definition_of("inst-1").map(|d| d.id.as_str()), Some("def-2"));
    store.associate("inst-2", "def-404");
    assert_eq!(store.definition_of("inst-2"), None);
}

#[test]
fn back_preserves_fields_without_validating() {
    let mut editor = AgentEditor::new("def-1");
    editor.draft.name = String::from("revisor");
    editor.next();
    assert_eq!(editor.step, EditorStep::Execution);
    editor.draft.machine = String::from("agents-01");
    editor.back();
    assert_eq!(editor.step, EditorStep::Identity);
    assert_eq!(editor.draft.name, "revisor");
    assert_eq!(editor.draft.machine, "agents-01");
    assert!(editor.errors.is_empty());
}

#[test]
fn empty_name_blocks_advance_without_erasing() {
    let mut editor = AgentEditor::new("def-1");
    editor.next();
    assert_eq!(editor.step, EditorStep::Identity);
    assert_eq!(editor.errors.len(), 1);
    assert_eq!(editor.draft.name, "");
}

#[test]
fn full_walk_reaches_review_with_summary() {
    let mut editor = AgentEditor::new("def-1");
    editor.draft.name = String::from("revisor");
    editor.next();
    editor.draft.machine = String::from("agents-01");
    editor.draft.server = String::from("inferencia-a em gpu-amd-01");
    editor.next();
    editor.next();
    assert_eq!(editor.step, EditorStep::Review);
    assert!(editor.review().contains("agents-01"));
}

#[test]
fn repeated_validation_keeps_one_error_per_step() {
    let mut editor = AgentEditor::new("def-1");
    editor.draft.name = String::from("   ");
    assert!(!editor.validate_current());
    assert!(!editor.validate_current());
    assert_eq!(editor.errors.len(), 1);
    assert_eq!(editor.errors[0].message, "nome do agente é obrigatório");
    editor.draft.name = String::from("ok");
    assert!(editor.validate_current());
    assert!(editor.errors.is_empty());
}

#[test]
fn step_labels_and_order() {
    assert_eq!(EditorStep::Identity.label(), "1 · Identidade e instruções");
    assert_eq!(EditorStep::Review.label(), "4 · Revisão");
    assert_eq!(EditorStep::Review.next(), None);
    assert_eq!(EditorStep::Identity.previous(), None);
    assert_eq!(EditorStep::Tools.next(), Some(EditorStep::Review));
    assert!(EditorStep::Identity.reachable_from(EditorStep::Tools));
    assert!(!EditorStep::Review.reachable_from(EditorStep::Tools));
    assert_eq!(EditorStep::default(), EditorStep::Identity);
}

#[test]
fn tool_lines_are_trimmed_and_blank_lines_dropped() {
    assert_eq!(tools_from_text(" ler \n\n  escrever\r\n  "), vec![String::from("ler"), String::from("escrever")]);
    assert!(tools_from_text("").is_empty());
    assert_eq!(tools_text(&vec![String::from("a"), String::from("b")]), "a\nb");
}

#[test]
fn removal_unlinks_only_instances_of_that_definition() {
    let mut store = DefinitionStore::new();
    store.create_draft();
    store.create_draft();
    store.associate("inst-1", "def-1");
    store.associate("inst-2", "def-2");
    store.remove("def-1");
    assert_eq!(store.definition_of("inst-1"), None);
    assert_eq!(store.definition_of("inst-2").map(|d| d.id.as_str()), Some("def-2"));
    assert_eq!(store.list().len(), 1);
    store.associate("inst-3", "def-2");
    assert_eq!(store.definition_of("inst-2").map(|d| d.id.as_str()), Some("def-2"));
    assert_eq!(store.definition_of("inst-3").map(|d| d.id.as_str()), Some("def-2"));
}

#[test]
fn removed_identity_is_never_minted_again() {
    let mut store = DefinitionStore::new();
    let first = store.create_draft().id.clone();
    assert_eq!(first, "def-1");
    store.remove(&first);
    assert!(store.list().is_empty());
    let second = store.create_draft().id.clone();
    assert_eq!(second, "def-2");
    let copy = store.duplicate("def-2").expect("known").id.clone();
    assert_eq!(copy, "def-3");
}
