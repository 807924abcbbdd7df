use mac_worker::error::WorkerError;
use mac_worker::job::command::CommandSpec;
use mac_worker::job::control::JsonEvent;
use mac_worker::job::ids::TaskId;
use mac_worker::report::{Freshness, Receipt};
use mac_worker::report_json::{
    error_event_line, fetch_json, publish_retry_json, queued_json, reconcile_json, render_workers_refresh_json,
    run_json, wait_json, TaskReportParts, TaskResultParts,
};
use mac_worker::scheduler::WorkerPreference;
use mac_worker::task_options::run_plan;
use serde_json::Value;

const FIRST: &str = "00000000000000000000000000000001";

/// The line is an object whose keys are in order.
fn canonical(line: &str) -> Value {
    let value: Value = serde_json::from_str(line).unwrap();
    assert_eq!(serde_json::to_string(&value).unwrap(), line);
    assert_eq!(value["protocol_version"], 1);
    value
}

fn receipt() -> Receipt {
    Receipt { stage: "cleanup".into(), residual: vec!["a\"b".into(), "c".into()] }
}

fn task_report() -> TaskReportParts {
    TaskReportParts {
        task_id: TaskId::new(1),
        run_id: None,
        status: "{\"state\":\"open\"}".into(),
        runner: "null".into(),
        events: "[]".into(),
        exit_code: None,
        warnings: Vec::new(),
        delivery: None,
        deliveries: Vec::new(),
        freshness: Freshness::Fresh,
        receipt: None,
    }
}

#[test]
fn short_reports_are_one_object() {
    let tasks = vec![TaskId::new(1), TaskId::new(2)];
    assert_eq!(
        fetch_json(TaskId::new(1), "refs/heads/x", "abc"),
        format!(
            "{{\"head_oid\":\"abc\",\"local_ref\":\"refs/heads/x\",\"protocol_version\":1,\
             \"task_id\":\"{FIRST}\"}}"
        )
    );
    let waited = canonical(&wait_json(&tasks, 7));
    assert_eq!(waited["exit_code"], 7);
    assert_eq!(waited["task_ids"][0], FIRST);
    let run = canonical(&run_json("r1", &tasks, None));
    assert_eq!(run["run_id"], "r1");
    assert!(run.get("exit_code").is_none());
    assert_eq!(canonical(&run_json("r1", &tasks, Some(3)))["exit_code"], 3);
    let counts = canonical(&reconcile_json(1, 2, 3, 4));
    assert_eq!(counts["replaced_runners"], 1);
    assert_eq!(counts["started_runners"], 2);
    assert_eq!(counts["repaired_rows"], 3);
    assert_eq!(counts["unverifiable_rows"], 4);
    let queued = canonical(&queued_json("t", "", "r", "queued"));
    assert_eq!(queued["turn_id"], "");
    assert_eq!(queued["status"], "queued");
    let retried = canonical(&publish_retry_json(TaskId::new(1), &vec!["{\"attempt\":1}".into()]));
    assert_eq!(retried["deliveries"][0]["attempt"], 1);
}

#[test]
fn a_task_report_tells_only_what_there_is_to_tell() {
    let plain = canonical(&task_report().json());
    assert_eq!(plain.as_object().unwrap().len(), 7);
    assert_eq!(plain["exit_code"], Value::Null);
    assert_eq!(plain["run_id"], Value::Null);
    let mut report = task_report();
    report.run_id = Some("r1".into());
    report.exit_code = Some(1);
    report.warnings = vec!["careful".into()];
    report.delivery = Some("{\"attempt\":2}".into());
    report.deliveries = vec!["{\"attempt\":1}".into(), "{\"attempt\":2}".into()];
    report.freshness = Freshness::Stale { observed_at_millis: Some(9) };
    report.receipt = Some(receipt());
    let full = canonical(&report.json());
    assert_eq!(full["warnings"][0], "careful");
    assert_eq!(full["delivery"]["attempt"], 2);
    assert_eq!(full["deliveries"][0]["attempt"], 1);
    assert_eq!(full["freshness"], "stale");
    assert_eq!(full["observed_at_millis"], 9);
    assert_eq!(full["stage"], "cleanup");
    assert_eq!(full["residual"][0], "a\"b");
    report.freshness = Freshness::Stale { observed_at_millis: None };
    assert!(canonical(&report.json()).get("observed_at_millis").is_none());
}

#[test]
fn a_result_report_names_branch_and_fetch() {
    let mut report = TaskResultParts {
        task_id: TaskId::new(1),
        status: "{}".into(),
        branch: "task/x".into(),
        fetch_instruction: "worker task fetch x".into(),
        delivery: None,
        deliveries: Vec::new(),
        freshness: Freshness::Fresh,
        receipt: None,
    };
    let plain = canonical(&report.json());
    assert_eq!(plain.as_object().unwrap().len(), 5);
    assert_eq!(plain["branch"], "task/x");
    assert_eq!(plain["fetch"], "worker task fetch x");
    report.delivery = Some("{}".into());
    report.deliveries = vec!["{}".into()];
    report.receipt = Some(receipt());
    report.freshness = Freshness::Stale { observed_at_millis: Some(1) };
    assert_eq!(canonical(&report.json()).as_object().unwrap().len(), 11);
}

#[test]
fn a_run_prefers_its_shell_command() {
    let argv = vec!["cargo".to_string()];
    let plan = match run_plan(Some("mini-1".into()), true, Some("true".into()), argv.clone()) {
        Ok(plan) => plan,
        Err(error) => panic!("{error:?}"),
    };
    assert_eq!(plan.preference, WorkerPreference::Pinned { worker: "mini-1".into() });
    assert!(!plan.wait_for_capacity);
    assert!(matches!(plan.command, CommandSpec::Shell { shell } if shell == "true"));
    match run_plan(None, false, None, argv.clone()) {
        Ok(plan) => {
            assert_eq!(plan.preference, WorkerPreference::Automatic);
            assert!(plan.wait_for_capacity);
            assert!(matches!(plan.command, CommandSpec::Argv { argv: held } if held == argv));
        }
        Err(error) => panic!("{error:?}"),
    }
    match run_plan(None, false, None, Vec::new()) {
        Err(WorkerError::Protocol(text)) => {
            assert_eq!(text, "argv command has an invalid argument count")
        }
        _ => panic!("an empty command was expected to be refused"),
    }
}

#[test]
fn each_worker_is_shown_with_its_own_refresh() {
    let health = vec!["\"name\":\"mini-1\"".to_string(), "\"name\":\"mini-2\"".to_string()];
    let refresh = vec!["{\"ok\":true}".to_string()];
    assert_eq!(
        render_workers_refresh_json(7, &health, &refresh),
        "{\"kind\":\"workers\",\"protocol_version\":7,\"workers\":[{\"name\":\"mini-1\",\"refresh\":{\"ok\":true}},{\"name\":\"mini-2\"}]}"
    );
    assert_eq!(
        render_workers_refresh_json(7, &Vec::new(), &refresh),
        "{\"kind\":\"workers\",\"protocol_version\":7,\"workers\":[]}"
    );
}

#[test]
fn a_failure_is_one_event_of_the_protocol() {
    let line =
        error_event_line("CAPACITY_BUSY", "no eligible worker currently has an available heavy slot")
            .unwrap();
    assert_eq!(
        line,
        "{\"event\":\"error\",\"protocol_version\":1,\"code\":\"CAPACITY_BUSY\",\"message\":\"no eligible worker currently has an available heavy slot\"}\n"
    );
    let value: Value = serde_json::from_str(line.trim_end()).unwrap();
    assert_eq!(value["code"], "CAPACITY_BUSY");
    let quoted = error_event_line("A", "say \"x\"\nand go").unwrap();
    let value: Value = serde_json::from_str(quoted.trim_end()).unwrap();
    assert_eq!(value["message"], "say \"x\"\nand go");
    assert_eq!(quoted.matches('\n').count(), 1);
    assert_eq!(
        JsonEvent::error("A".into(), "b".into()),
        JsonEvent::Error { protocol_version: 1, code: "A".into(), message: "b".into() }
    );
    for (code, message) in [("", "b".to_string()), ("A", "x".repeat(4097)), ("A", "\0".into())] {
        assert!(matches!(error_event_line(code, &message), Err(WorkerError::Io)));
    }
}
