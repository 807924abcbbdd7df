use mac_worker::error::WorkerError;
use mac_worker::job::ids::TaskId;
use mac_worker::scheduler::WorkerPreference;
use mac_worker::task::{AgentKind, ClosePolicy, TaskState};
use mac_worker::task_options::{
    controller_submission, frozen_choices, list_filter, local_submission, make_task_limits,
    parse_task_agent, parse_task_close_policy, parse_task_outcome_kind, parse_task_state,
    protected_transfer_repo_ids, read_prompt, requested_limits, task_state_name,
    validate_task_scope_options, wait_selector, LimitOptions, LimitsVerdict, ProjectTaskSettings,
    PromptSource, RememberedTask, SubmitCommand, SubmitFindings, SubmitOptions, TaskLimits,
    WaitSelector,
};

const KINDS: [&str; 2] = ["done", "needs_input"];

fn refusal<T>(result: Result<T, WorkerError>) -> (String, String) {
    match result {
        Err(WorkerError::Task { code, message }) => (code.to_string(), message),
        Err(other) => panic!("{other:?}"),
        Ok(_) => panic!("the options were expected to be refused"),
    }
}

fn session_agent() -> String {
    format!("{:?}", AgentKind::Claude).to_lowercase()
}

fn remembered(ended: bool, has_runner: bool, fetched: bool, repo_id: String) -> RememberedTask {
    RememberedTask { ended, has_runner, fetched, repo_id }
}

#[test]
fn outcome_filter_accepts_every_kind_in_both_spellings() {
    for kind in KINDS {
        assert_eq!(parse_task_outcome_kind(kind, &KINDS).unwrap(), kind);
        assert_eq!(parse_task_outcome_kind(&kind.replace('_', "-"), &KINDS).unwrap(), kind);
    }
}

#[test]
fn outcome_filter_rejects_an_unknown_kind() {
    for value in ["nonsense", "", "Done"] {
        let (code, message) = refusal(parse_task_outcome_kind(value, &KINDS));
        assert_eq!(code, "TASK_CONFIG_INVALID");
        assert_eq!(message, "unknown task outcome");
    }
}

#[test]
fn task_close_policy_defaults_to_done() {
    assert_eq!(parse_task_close_policy(None).unwrap(), ClosePolicy::Done);
}

#[test]
fn close_policies_are_done_and_never() {
    assert_eq!(parse_task_close_policy(Some("done")).unwrap(), ClosePolicy::Done);
    assert_eq!(parse_task_close_policy(Some("never")).unwrap(), ClosePolicy::Never);
    assert_eq!(refusal(parse_task_close_policy(Some("later"))).1, "close_on must be done or never");
}

#[test]
fn terminal_tasks_without_fetched_results_protect_their_transfer_repo() {
    let pending = remembered(true, false, false, "c".repeat(64));
    let fetched = remembered(true, false, true, "d".repeat(64));
    let protected = protected_transfer_repo_ids(&vec![pending, fetched]);
    assert_eq!(protected, vec!["c".repeat(64)]);
}

#[test]
fn running_tasks_protect_their_transfer_repo() {
    let tasks = vec![
        remembered(false, false, true, "one".into()),
        remembered(true, true, true, "two".into()),
        remembered(true, false, true, "three".into()),
    ];
    assert_eq!(protected_transfer_repo_ids(&tasks), vec!["one".to_string(), "two".to_string()]);
}

#[test]
fn scope_options_must_fit_together() {
    let modes = |names: &[&str]| -> Vec<String> { names.iter().map(|n| n.to_string()).collect() };
    assert!(validate_task_scope_options(None, &modes(&[]), None).is_ok());
    assert!(validate_task_scope_options(Some("origin"), &modes(&["fetch", "push"]), Some("b")).is_ok());
    assert_eq!(
        refusal(validate_task_scope_options(Some("remote"), &modes(&["pull"]), None)).1,
        "source must be local or origin (TASK_CONFIG_INVALID)"
    );
    assert_eq!(
        refusal(validate_task_scope_options(None, &modes(&["push", "push", "pull"]), None)).1,
        "publish must be fetch or push (TASK_CONFIG_INVALID)"
    );
    assert_eq!(
        refusal(validate_task_scope_options(None, &modes(&["fetch", "fetch"]), Some("b"))).1,
        "publish modes must be unique (TASK_CONFIG_INVALID)"
    );
    assert_eq!(
        refusal(validate_task_scope_options(None, &modes(&["fetch"]), Some("b"))).1,
        "publish_branch requires publish push (TASK_CONFIG_INVALID)"
    );
}

#[test]
fn agents_are_known_by_name() {
    let own = session_agent();
    assert_eq!(parse_task_agent("codex", &own).unwrap(), AgentKind::Codex);
    assert_eq!(parse_task_agent(&own, &own).unwrap(), AgentKind::Claude);
    assert_eq!(parse_task_agent("cursor", &own).unwrap(), AgentKind::Cursor);
    assert_eq!(parse_task_agent("opencode", &own).unwrap(), AgentKind::Opencode);
    assert_eq!(
        refusal(parse_task_agent("vim", &own)),
        ("AGENT_UNSUPPORTED".to_string(), "unknown agent".to_string())
    );
    assert_eq!(AgentKind::Cursor.name(&own), "cursor");
}

#[test]
fn task_states_are_known_by_name() {
    for state in [
        TaskState::Queued,
        TaskState::Active,
        TaskState::Open,
        TaskState::Closed,
        TaskState::Abandoned,
        TaskState::Lost,
    ] {
        assert_eq!(parse_task_state(task_state_name(state)).unwrap(), state);
    }
    assert_eq!(refusal(parse_task_state("Open")).1, "unknown task state");
}

#[test]
fn exactly_one_prompt_source_is_taken() {
    assert_eq!(
        read_prompt(Some("do it".into()), None).unwrap(),
        PromptSource::Text { prompt: "do it".into() }
    );
    assert_eq!(
        read_prompt(None, Some("p.md".into())).unwrap(),
        PromptSource::File { path: "p.md".into() }
    );
    assert_eq!(refusal(read_prompt(None, None)).1, "exactly one prompt source is required");
    assert_eq!(
        refusal(read_prompt(Some("a".into()), Some("b".into()))).1,
        "exactly one prompt source is required"
    );
}

#[test]
fn a_wait_is_for_one_task_or_one_run() {
    let id = TaskId::new(7);
    assert_eq!(wait_selector(Some(id), None).unwrap(), WaitSelector::Task { task_id: id });
    assert_eq!(
        wait_selector(None, Some("r".into())).unwrap(),
        WaitSelector::Run { run: "r".into() }
    );
    assert_eq!(
        refusal(wait_selector(None, None)).1,
        "wait requires exactly one of --task-id or --run"
    );
    assert!(wait_selector(Some(id), Some("r".into())).is_err());
}

fn defaults() -> TaskLimits {
    TaskLimits {
        timeout_millis: 1000,
        max_turns: Some(3),
        max_budget_usd_cents: None,
        max_followups: 5,
    }
}

fn no_limits() -> LimitOptions {
    LimitOptions { timeout: None, max_turns: None, max_budget: None, max_followups: None }
}

fn agreed() -> LimitsVerdict {
    LimitsVerdict { turn: None, task: None }
}

#[test]
fn limits_fall_back_to_the_defaults() {
    let make = |options| make_task_limits(options, defaults(), agreed());
    assert_eq!(make(no_limits()).unwrap(), defaults());
    let asked = LimitOptions {
        timeout: Some(9),
        max_turns: Some(1),
        max_budget: Some(2),
        max_followups: Some(0),
    };
    let given = TaskLimits {
        timeout_millis: 9,
        max_turns: Some(1),
        max_budget_usd_cents: Some(2),
        max_followups: 0,
    };
    assert_eq!(make(asked).unwrap(), given);
    assert_eq!(requested_limits(asked, defaults()).unwrap(), given);
    let longest = LimitOptions { timeout: Some(u64::MAX as u128), ..no_limits() };
    assert_eq!(make(longest).unwrap().timeout_millis, u64::MAX);
    let longer = LimitOptions { timeout: Some(u64::MAX as u128 + 1), ..no_limits() };
    assert_eq!(
        refusal(make(longer)),
        ("TASK_CONFIG_INVALID".to_string(), "timeout is too large".to_string())
    );
    assert!(requested_limits(longer, defaults()).is_err());
}

#[test]
fn limits_are_refused_as_they_are_judged() {
    let judged = |turn: Option<&str>, task: Option<&str>, timeout: Option<u128>| {
        let verdict = LimitsVerdict {
            turn: turn.map(str::to_owned),
            task: task.map(|text| WorkerError::Protocol(text.into())),
        };
        make_task_limits(LimitOptions { timeout, ..no_limits() }, defaults(), verdict)
    };
    assert_eq!(
        refusal(judged(Some("turns"), Some("followups"), None)),
        ("TASK_CONFIG_INVALID".to_string(), "turns".to_string())
    );
    assert!(matches!(
        judged(None, Some("followups"), None),
        Err(WorkerError::Protocol(text)) if text == "followups"
    ));
    assert_eq!(refusal(judged(Some("turns"), None, Some(u128::MAX))).1, "timeout is too large");
}

fn submission() -> SubmitCommand {
    SubmitCommand {
        agent: Some("cursor".into()),
        model: Some("large".into()),
        effort: None,
        title: Some("title".into()),
        project: Some("/project".into()),
        base: "HEAD".into(),
        wip: true,
        includes: vec!["notes/**".into()],
        limits: no_limits(),
        close_on: Some("never".into()),
        env_profile: Some("ci".into()),
        worker: Some("mini-1".into()),
        source: Some("origin".into()),
        publish: vec!["push".into()],
        publish_branch: Some("topic".into()),
        no_wait: true,
        wait: true,
    }
}

fn findings() -> SubmitFindings {
    SubmitFindings {
        prompt: Ok("do it".into()),
        verdict: agreed(),
        current_dir: Ok("/here".into()),
    }
}

fn broken<T>(text: &str) -> Result<T, WorkerError> {
    Err(WorkerError::Protocol(text.into()))
}

#[test]
fn a_submission_through_a_controller_keeps_its_options() {
    let own = session_agent();
    let fields =
        controller_submission(submission(), findings(), broken("unread"), defaults(), &own).unwrap();
    assert_eq!(fields.project, "/project");
    assert_eq!(fields.prompt, "do it");
    assert_eq!(fields.title.as_deref(), Some("title"));
    assert_eq!(fields.agent, AgentKind::Cursor);
    assert_eq!(fields.model.as_deref(), Some("large"));
    assert_eq!(fields.effort, None);
    assert_eq!(fields.base, "HEAD");
    assert!(fields.wip);
    assert_eq!(fields.includes, vec!["notes/**".to_string()]);
    assert_eq!(fields.limits, defaults());
    assert_eq!(fields.close_on, ClosePolicy::Never);
    assert_eq!(fields.env_profile.as_deref(), Some("ci"));
    assert_eq!(fields.worker.as_deref(), Some("mini-1"));
    assert_eq!(fields.source.as_deref(), Some("origin"));
    assert_eq!(fields.publish, vec!["push".to_string()]);
    assert_eq!(fields.publish_branch.as_deref(), Some("topic"));
    assert!(!fields.wait_for_capacity);
    let mut plain = submission();
    plain.agent = None;
    plain.project = None;
    plain.close_on = None;
    plain.no_wait = false;
    let fields =
        controller_submission(plain, findings(), Ok(own.clone()), defaults(), &own).unwrap();
    assert_eq!(fields.agent, AgentKind::Claude);
    assert_eq!(fields.project, "/here");
    assert_eq!(fields.close_on, ClosePolicy::Done);
    assert!(fields.wait_for_capacity);
}

#[test]
fn a_submission_by_the_laptop_keeps_its_options() {
    let own = session_agent();
    let (request, title) =
        local_submission(submission(), findings(), broken("unread"), defaults(), &own).unwrap();
    assert_eq!(title.as_deref(), Some("title"));
    assert_eq!(request.agent, AgentKind::Cursor);
    assert_eq!(request.prompt, "do it");
    assert_eq!(request.project, "/project");
    assert_eq!(request.publish, Some(vec!["push".to_string()]));
    assert!(matches!(
        request.preference,
        WorkerPreference::Pinned { worker } if worker == "mini-1"
    ));
    assert!(!request.wait_for_capacity);
    assert!(request.attached);
    assert_eq!(request.run_id, None);
    assert_eq!(request.cli_includes, vec!["notes/**".to_string()]);
    assert_eq!(request.close_policy, ClosePolicy::Never);
    let mut plain = submission();
    plain.agent = None;
    plain.worker = None;
    plain.publish = Vec::new();
    plain.publish_branch = None;
    plain.wait = false;
    let (request, _) =
        local_submission(plain, findings(), Ok(AgentKind::Opencode), defaults(), &own).unwrap();
    assert_eq!(request.agent, AgentKind::Opencode);
    assert_eq!(request.publish, None);
    assert!(matches!(request.preference, WorkerPreference::Automatic));
    assert!(!request.attached);
}

#[test]
fn a_submission_is_refused_for_its_first_fault() {
    let own = session_agent();
    let mut command = submission();
    command.source = Some("elsewhere".into());
    command.limits.timeout = Some(u128::MAX);
    command.agent = Some("vim".into());
    command.close_on = Some("later".into());
    let mut found = SubmitFindings {
        prompt: broken("prompt"),
        verdict: agreed(),
        current_dir: broken("directory"),
    };
    let again = |command: &SubmitCommand, found: &SubmitFindings| {
        let copy = |result: &Result<String, WorkerError>| match result {
            Ok(text) => Ok(text.clone()),
            Err(WorkerError::Protocol(text)) => broken(text),
            Err(other) => panic!("{other:?}"),
        };
        let findings = || SubmitFindings {
            prompt: copy(&found.prompt),
            verdict: agreed(),
            current_dir: copy(&found.current_dir),
        };
        let command = || SubmitCommand {
            agent: command.agent.clone(),
            source: command.source.clone(),
            limits: command.limits,
            close_on: command.close_on.clone(),
            ..submission()
        };
        let told = |error: Option<WorkerError>| match error {
            Some(WorkerError::Task { message, .. }) | Some(WorkerError::Protocol(message)) => message,
            other => panic!("{other:?}"),
        };
        let remote = controller_submission(
            command(),
            findings(),
            Ok("codex".into()),
            defaults(),
            &session_agent(),
        );
        let local = local_submission(
            command(),
            findings(),
            Ok(AgentKind::Codex),
            defaults(),
            &session_agent(),
        );
        let message = told(remote.err());
        assert_eq!(told(local.err()), message);
        message
    };
    assert_eq!(
        again(&command, &found),
        "source must be local or origin (TASK_CONFIG_INVALID)"
    );
    command.source = None;
    assert_eq!(again(&command, &found), "prompt");
    found.prompt = Ok("do it".into());
    assert_eq!(again(&command, &found), "timeout is too large");
    command.limits = no_limits();
    assert_eq!(again(&command, &found), "directory");
    found.current_dir = Ok("/here".into());
    assert_eq!(again(&command, &found), "unknown agent");
    command.agent = None;
    assert_eq!(again(&command, &found), "close_on must be done or never");
    let mut unnamed = submission();
    unnamed.agent = None;
    assert!(matches!(
        controller_submission(unnamed, findings(), broken("settings"), defaults(), &own),
        Err(WorkerError::Protocol(text)) if text == "settings"
    ));
    let mut unknown = submission();
    unknown.agent = None;
    assert_eq!(
        refusal(controller_submission(unknown, findings(), Ok("vim".into()), defaults(), &own)).1,
        "unknown agent"
    );
}

#[test]
fn a_list_is_refused_for_its_run_before_its_state() {
    let filter = |run, state, outcome| list_filter(run, state, outcome, true, &KINDS);
    let found = filter(Some(Ok("run".into())), Some("open"), Some("needs-input")).unwrap();
    assert_eq!(found.run_id.as_deref(), Some("run"));
    assert_eq!(found.state, Some(TaskState::Open));
    assert_eq!(found.outcome.as_deref(), Some("needs_input"));
    assert!(found.full);
    let all = filter(None, None, None).unwrap();
    assert!(all.run_id.is_none() && all.state.is_none() && all.outcome.is_none());
    assert!(matches!(
        filter(Some(broken("run")), Some("x"), Some("x")),
        Err(WorkerError::Protocol(text)) if text == "run"
    ));
    assert_eq!(refusal(filter(None, Some("x"), Some("x"))).1, "unknown task state");
    assert_eq!(refusal(filter(None, Some("open"), Some("x"))).1, "unknown task outcome");
}

#[test]
fn a_frozen_task_carries_its_own_choices_before_the_projects() {
    let settings = ProjectTaskSettings {
        model: Some("large".into()),
        effort: Some("high".into()),
        env_profile: None,
        source: "local".into(),
        publish: vec!["fetch".into()],
        permissions: vec![
            ("cursor".into(), "unattended".into()),
            ("codex".into(), "everything".into()),
        ],
    };
    let plain = SubmitOptions {
        agent: AgentKind::Cursor,
        model: None,
        effort: None,
        env_profile: None,
        source: None,
        publish: Vec::new(),
        no_wait: false,
    };
    let frozen = frozen_choices(&plain, &settings, &session_agent());
    assert_eq!(frozen.agent, "cursor");
    assert_eq!(frozen.model.as_deref(), Some("large"));
    assert_eq!(frozen.effort.as_deref(), Some("high"));
    assert_eq!(frozen.env_profile, None);
    assert_eq!(frozen.source, "local");
    assert_eq!(frozen.publish, vec!["fetch".to_string()]);
    assert_eq!(frozen.permissions, "unattended");
    assert!(frozen.wait_for_capacity);
    let chosen = SubmitOptions {
        agent: AgentKind::Codex,
        model: Some("small".into()),
        effort: None,
        env_profile: Some("ci".into()),
        source: Some("origin".into()),
        publish: vec!["push".into()],
        no_wait: true,
    };
    let frozen = frozen_choices(&chosen, &settings, &session_agent());
    assert_eq!(frozen.model.as_deref(), Some("small"));
    assert_eq!(frozen.env_profile.as_deref(), Some("ci"));
    assert_eq!(frozen.source, "origin");
    assert_eq!(frozen.publish, vec!["push".to_string()]);
    assert_eq!(frozen.permissions, "workspace");
    assert!(!frozen.wait_for_capacity);
}
