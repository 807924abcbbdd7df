use mac_worker::controller::{acknowledged_task, ControllerOperation};
use mac_worker::dispatch::{run_enabled_controller_task, Command, ControllerRoute, TaskCommand};
use mac_worker::freeze::{
    base_step, freeze_submit, BaseStep, ControllerSubmitFields, FrozenSubmitBody, ProjectFacts,
    SubmitIdentity,
};
use mac_worker::report::Freshness;
use mac_worker::report_json::TaskReportParts;
use mac_worker::task::AgentKind;
use mac_worker::task_options::{
    controller_submission, LimitOptions, LimitsVerdict, ProjectTaskSettings, SubmitCommand,
    SubmitFindings, TaskLimits,
};
use serde_json::Value;

fn session_agent() -> String {
    format!("{:?}", AgentKind::Claude).to_lowercase()
}

/// The options of a plain submission.
fn command(no_wait: bool, wait: bool) -> SubmitCommand {
    SubmitCommand {
        agent: None,
        model: None,
        effort: None,
        title: None,
        project: Some("/project".into()),
        base: "HEAD".into(),
        wip: false,
        includes: vec!["notes/**".into()],
        limits: LimitOptions {
            timeout: None,
            max_turns: None,
            max_budget: None,
            max_followups: None,
        },
        close_on: None,
        env_profile: None,
        worker: None,
        source: None,
        publish: Vec::new(),
        publish_branch: None,
        no_wait,
        wait,
    }
}

fn fields(no_wait: bool) -> ControllerSubmitFields {
    let findings = SubmitFindings {
        prompt: Ok("mocked enabled submit".into()),
        verdict: LimitsVerdict { turn: None, task: None },
        current_dir: Ok("/here".into()),
    };
    controller_submission(
        command(no_wait, false),
        findings,
        Ok("codex".into()),
        limits(),
        &session_agent(),
    )
    .unwrap()
}

fn project() -> ProjectFacts {
    ProjectFacts {
        settings: ProjectTaskSettings {
            model: Some("large".into()),
            effort: None,
            env_profile: None,
            source: "local".into(),
            publish: vec!["fetch".into()],
            permissions: vec![("codex".into(), "unattended".into())],
        },
        project_id: "a".repeat(64),
        worktree_id: "b".repeat(64),
        branch: Some("main".into()),
        origin_url: None,
        requirements: vec!["xcode".into()],
        include_untracked: vec!["*.txt".into()],
        include_empty_dirs: Vec::new(),
        allow_sensitive: Vec::new(),
    }
}

fn limits() -> TaskLimits {
    TaskLimits {
        timeout_millis: 1000,
        max_turns: Some(3),
        max_budget_usd_cents: None,
        max_followups: 1,
    }
}

fn freeze(cli: &ControllerSubmitFields, identity: &SubmitIdentity) -> FrozenSubmitBody {
    freeze_submit(
        cli,
        &project(),
        identity,
        limits(),
        "d".repeat(40),
        1_700_000_000_000,
        &session_agent(),
    )
}

/// What a waiting submission leaves behind: the exit code, and the report that
/// it prints on the task that the controller acknowledged.
fn waited(waited_exit: u8, report_exit: Option<u8>) -> (u8, Value, String) {
    let route = run_enabled_controller_task(Command::Task {
        command: TaskCommand::Submit { wait: true },
    })
    .unwrap();
    assert_eq!(route, ControllerRoute::Submit { wait: true });
    let frozen = freeze(&fields(false), &SubmitIdentity::generate());
    let submitted = frozen.task_id.to_text();
    let report = TaskReportParts {
        task_id: acknowledged_task(Some(&submitted)).unwrap(),
        run_id: None,
        status: "{\"last_outcome\":{\"kind\":\"done\"},\"state\":\"open\",\"turns\":[{}]}".into(),
        runner: "null".into(),
        events: "[]".into(),
        exit_code: report_exit,
        warnings: Vec::new(),
        delivery: None,
        deliveries: Vec::new(),
        freshness: Freshness::Fresh,
        receipt: None,
    };
    let report = serde_json::from_str(&report.json()).unwrap();
    (route.exit_code(waited_exit), report, submitted)
}

#[test]
fn enabled_submit_wait_returns_task_report_with_wait_exit() {
    let (exit, report, submitted) = waited(0, Some(0));
    assert_eq!(exit, 0, "wait exit code is preserved");
    assert_eq!(
        report.get("task_id").and_then(Value::as_str),
        Some(submitted.as_str()),
        "returned TaskReport must carry the submitted task identity"
    );
    let status = report.get("status").expect("TaskReport status");
    assert_eq!(
        status.get("state").and_then(Value::as_str),
        Some("open"),
        "returned TaskReport must carry the quiescent status, not a WaitReport"
    );
    assert_eq!(
        status.get("last_outcome").and_then(|outcome| outcome.get("kind")).and_then(Value::as_str),
        Some("done")
    );
    let turns = status.get("turns").and_then(Value::as_array).expect("turns");
    assert_eq!(turns.len(), 1);
    assert_eq!(
        report.get("exit_code").and_then(Value::as_u64),
        Some(0),
        "TaskReport exit code must be present"
    );
    assert!(report.get("task_ids").is_none(), "must not write a WaitReport shape");
}

#[test]
fn enabled_submit_wait_failure_exit_wins_over_report_exit() {
    let (exit, report, _) = waited(1, None);
    assert_eq!(
        exit, 1,
        "CLI exit must come from the waited quiescence, not the status report"
    );
    assert!(
        report.get("task_id").and_then(Value::as_str).is_some(),
        "a TaskReport must still be written, not a WaitReport: {report}"
    );
    assert!(
        report.get("status").is_some(),
        "a TaskReport must still be written, not a WaitReport: {report}"
    );
    assert_eq!(
        report.get("exit_code"),
        Some(&Value::Null),
        "report exit stays null while the CLI exits 1"
    );
}

#[test]
fn freeze_carries_no_wait_capacity_policy() {
    for (no_wait, expected) in [(true, false), (false, true)] {
        let command = Command::Task { command: TaskCommand::Submit { wait: false } };
        let route = run_enabled_controller_task(command).unwrap();
        assert_eq!(route, ControllerRoute::Submit { wait: false });
        assert_eq!(route.exit_code(1), 0, "no-wait ACK path stays exit 0");
        let frozen = freeze(&fields(no_wait), &SubmitIdentity::generate());
        assert_eq!(
            frozen.wait_for_capacity, expected,
            "frozen body must carry wait_for_capacity = !no_wait"
        );
    }
}

#[test]
fn a_frozen_task_holds_what_was_chosen_and_found() {
    let identity = SubmitIdentity::generate();
    let frozen = freeze(&fields(false), &identity);
    assert_eq!(frozen.task_id, identity.task_id);
    assert_eq!(frozen.turn_id, identity.turn_id);
    assert_eq!(frozen.run_id, None);
    assert_eq!(frozen.created_at_millis, 1_700_000_000_000);
    assert_eq!(frozen.prompt, "mocked enabled submit");
    assert_eq!(frozen.agent, "codex");
    assert_eq!(frozen.model.as_deref(), Some("large"));
    assert_eq!(frozen.source, "local");
    assert_eq!(frozen.publish, vec!["fetch".to_string()]);
    assert_eq!(frozen.permissions, "unattended");
    assert_eq!(frozen.base_oid, "d".repeat(40));
    assert_eq!(frozen.branch.as_deref(), Some("main"));
    assert_eq!(frozen.requires, vec!["xcode".to_string()]);
    assert_eq!(frozen.include_untracked, vec!["*.txt".to_string()]);
    assert_eq!(frozen.cli_includes, vec!["notes/**".to_string()]);
    assert_eq!(frozen.timeout_millis, 1000);
    assert_eq!(frozen.max_turns, Some(3));
    assert_eq!(frozen.max_followups, 1);
    let other = SubmitIdentity::generate();
    assert_ne!(identity.task_id, other.task_id);
    assert_ne!(identity.turn_id, other.turn_id);
    assert_ne!(identity.request_id, other.request_id);
    assert_eq!(freeze(&fields(false), &other).permissions, frozen.permissions);
}

#[test]
fn uncommitted_work_is_captured_for_its_task() {
    let identity = SubmitIdentity::generate();
    let mut cli = fields(false);
    assert!(matches!(base_step(&cli, &identity), BaseStep::ResolveBase { base } if base == "HEAD"));
    cli.wip = true;
    assert!(matches!(
        base_step(&cli, &identity),
        BaseStep::BuildWip { task_id } if task_id == identity.task_id
    ));
}

#[test]
fn frozen_bodies_are_sent_as_they_are() {
    let submit = ControllerOperation::Submit { body: "{\"wip\":false}".into() };
    assert_eq!(
        submit.payload_text("r"),
        "{\"body\":{\"wip\":false},\"command\":\"task.submit\",\"protocol_version\":1,\
         \"request_id\":\"r\"}"
    );
    let batch = ControllerOperation::Batch { body: "{\"tasks\":[]}".into() };
    assert_eq!(batch.command_name(), "task.batch");
    let value: serde_json::Value = serde_json::from_str(&batch.payload_text("r")).unwrap();
    assert_eq!(value["body"]["tasks"], serde_json::Value::Array(Vec::new()));
}
