use mac_worker::error::WorkerError;
use mac_worker::onboarding::{
    identifier, initialize, quote, remote_command, ssh_destination, worker_name, AgentCheck,
    AgentChecks, InitAction, InitContext, InitDecision, InitEvidence, InitReport, InitRequest,
    InstallOutcome, Installation, WorkerHealth,
};
use mac_worker::task::AgentKind;

fn session_agent() -> String {
    format!("{:?}", AgentKind::Claude).to_lowercase()
}

fn request() -> InitRequest {
    InitRequest {
        destination: "me@mini.local".into(),
        name: None,
        agent: "codex".into(),
        env_profile: None,
    }
}

fn context() -> InitContext {
    InitContext {
        request: request(),
        session_agent: session_agent(),
        config_path: "/home/me/config.toml".into(),
        worker: "mini".into(),
        ssh: "me@mini.local".into(),
        facts_ttl_millis: 1_000,
    }
}

fn nothing_known() -> InitEvidence {
    InitEvidence {
        supported: true,
        ssh: None,
        platform: None,
        git: None,
        registered: None,
        helper_ready: None,
        installation: None,
        refreshed: None,
        health: None,
    }
}

fn action(evidence: &InitEvidence) -> InitAction {
    match initialize(&context(), evidence) {
        Ok(InitDecision::Need { action }) => action,
        Ok(InitDecision::Finished { report }) => panic!("{report:?}"),
        Err(error) => panic!("{error:?}"),
    }
}

fn report(evidence: &InitEvidence) -> InitReport {
    match initialize(&context(), evidence) {
        Ok(InitDecision::Finished { report }) => report,
        Ok(InitDecision::Need { action }) => panic!("{action:?}"),
        Err(error) => panic!("{error:?}"),
    }
}

#[test]
fn a_worker_is_checked_before_anything_is_changed() {
    let mut evidence = nothing_known();
    assert_eq!(action(&evidence), InitAction::CheckSsh);
    evidence.ssh = Some(true);
    assert_eq!(action(&evidence), InitAction::CheckPlatform);
    evidence.platform = Some(Some(b"Darwin\narm64\n".to_vec()));
    assert_eq!(action(&evidence), InitAction::CheckGit);
    evidence.git = Some(true);
    assert_eq!(action(&evidence), InitAction::Register);
    assert!(remote_command(InitAction::CheckGit).is_some());
    assert!(remote_command(InitAction::Register).is_none());
}

#[test]
fn an_unreachable_worker_blocks() {
    let mut evidence = nothing_known();
    evidence.ssh = Some(false);
    let blocked = report(&evidence);
    assert!(!blocked.ready);
    assert!(blocked.exit_kind.is_some());
    assert!(!blocked.next_steps.is_empty());
    assert!(blocked.render_human().contains("mini"));
}

#[test]
fn a_connected_worker_is_ready() {
    let mut evidence = nothing_known();
    evidence.ssh = Some(true);
    evidence.platform = Some(Some(b"Darwin\narm64\n".to_vec()));
    evidence.git = Some(true);
    evidence.registered = Some("added".into());
    evidence.helper_ready = Some(true);
    evidence.installation = Some(Installation {
        warnings: Vec::new(),
        outcome: InstallOutcome::Installed,
    });
    evidence.refreshed = Some(true);
    evidence.health = Some(WorkerHealth {
        ready: true,
        facts_age_millis: Some(5),
        checks: Some(AgentChecks {
            agents: vec![AgentCheck {
                name: "codex".into(),
                authenticated: true,
                by_profile: Vec::new(),
            }],
            profiles: Vec::new(),
        }),
    });
    let ready = report(&evidence);
    assert!(ready.ready, "{ready:?}");
    assert_eq!(ready.exit_kind, None);
}

#[test]
fn requests_are_checked_first() {
    let mut bad = context();
    bad.request.destination = "-oProxyCommand=x".into();
    assert!(matches!(initialize(&bad, &nothing_known()), Err(WorkerError::Config(_))));
    bad = context();
    bad.request.agent = "vim".into();
    match initialize(&bad, &nothing_known()) {
        Err(WorkerError::Config(text)) => assert_eq!(text, "unknown agent"),
        _ => panic!("the agent was expected to be refused"),
    }
    let mut known = context();
    known.request.agent = session_agent();
    assert!(initialize(&known, &nothing_known()).is_ok());
}

#[test]
fn names_and_destinations_are_plain() {
    assert_eq!(identifier("ci.1_x-y").unwrap(), "ci.1_x-y");
    assert!(identifier("").is_err());
    assert!(identifier("a b").is_err());
    assert!(identifier(&"x".repeat(128)).is_ok());
    assert!(identifier(&"x".repeat(129)).is_err());
    assert_eq!(worker_name("mini@home").unwrap(), "mini@home");
    assert!(worker_name("mini home").is_err());
    assert_eq!(ssh_destination("me@mini.local").unwrap(), "me@mini.local");
    assert!(ssh_destination("-V").is_err());
    assert!(ssh_destination("ssh://x").is_err());
}

#[test]
fn shell_words_are_quoted() {
    assert_eq!(quote("plain"), "'plain'");
    assert_eq!(quote("it's"), "'it'\\''s'");
}
