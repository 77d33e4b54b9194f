use orchestrator_studio::ssh_session::{Approval, BridgeFailure, KeyIdentity, SshPhase, SshSession};

#[test]
fn unknown_host_surfaces_fingerprint_for_approval() {
    let mut session = SshSession::new();
    assert!(session.start());
    session.finished(Err(BridgeFailure::UnknownHost {
        key_type: String::from("ssh-ed25519"),
        fingerprint: String::from("SHA256:REAL"),
    }));
    assert_eq!(
        session.phase,
        SshPhase::NeedsApproval { key_type: String::from("ssh-ed25519"), fingerprint: String::from("SHA256:REAL") }
    );
}

#[test]
fn changed_key_and_auth_failure_are_terminal() {
    let mut session = SshSession::new();
    session.start();
    session.finished(Err(BridgeFailure::Other { message: String::from("chave mudou") }));
    assert!(matches!(session.phase, SshPhase::Failed { .. }));
    assert!(session.approval("x", &Vec::new(), 1).is_err());

    let mut session = SshSession::new();
    session.start();
    session.finished(Err(BridgeFailure::Other { message: String::from("autenticação falhou") }));
    assert!(matches!(session.phase, SshPhase::Failed { .. }));
}

#[test]
fn success_carries_output() {
    let mut session = SshSession::new();
    session.start();
    session.finished(Ok(String::from("maquina-61")));
    assert_eq!(session.phase, SshPhase::Done { output: String::from("maquina-61") });
}

#[test]
fn approval_records_the_displayed_key_and_the_replaced_one() {
    let mut session = SshSession::new();
    session.config.target.host = String::from("10.0.0.9");
    session.start();
    session.finished(Err(BridgeFailure::UnknownHost {
        key_type: String::from("ssh-ed25519"),
        fingerprint: String::from("SHA256:REAL"),
    }));
    let old = Approval {
        project: String::from("tese"),
        alias: String::new(),
        host: String::from("10.0.0.9"),
        port: 22,
        key: KeyIdentity { key_type: String::from("ssh-rsa"), fingerprint: String::from("SHA256:OLD") },
        approved_by: String::from("antes"),
        approved_at_unix: 5,
        replaced: None,
    };
    let approval = session.approval("operador-gui", &vec![old], 99).expect("aprova");
    assert_eq!(approval.key.fingerprint, "SHA256:REAL");
    assert_eq!(approval.approved_by, "operador-gui");
    assert_eq!(approval.approved_at_unix, 99);
    assert_eq!(approval.replaced.map(|k| k.fingerprint), Some(String::from("SHA256:OLD")));
    session.approval_saved();
    assert_eq!(session.phase, SshPhase::Idle);
    assert_eq!(session.approval("x", &Vec::new(), 1).unwrap_err(), "nada a aprovar");
}

#[test]
fn running_session_does_not_start_twice() {
    let mut session = SshSession::new();
    assert!(session.start());
    assert!(!session.start());
}

#[test]
fn directory_sets_identity_and_trust_paths() {
    let mut session = SshSession::new();
    session.set_directory("/home/op/.studio");
    assert_eq!(session.config.identity_pem, "/home/op/.studio/studio_ed25519");
    assert_eq!(session.config.trust_path, "/home/op/.studio/trust.json");
    session.set_directory("/x/");
    assert_eq!(session.config.trust_path, "/x/trust.json");
}

#[test]
fn aplicar_diretorio_configura_identidade_e_cofre() {
    let mut session = SshSession::new();
    assert!(session.config.trust_path.is_empty());
    session.set_directory("/tmp/studio-gui-regressao");
    assert_eq!(session.config.identity_pem, "/tmp/studio-gui-regressao/studio_ed25519");
    assert_eq!(session.config.trust_path, "/tmp/studio-gui-regressao/trust.json");
}

#[test]
fn usuario_do_alvo_comeca_vazio() {
    let session = SshSession::new();
    assert!(session.config.target.username.is_empty());
}
