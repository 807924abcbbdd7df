use mac_worker::controller::{
    acknowledged_task, controller_ack_id, controller_read_request, run_report_from_controller_ack,
    ControllerOperation, LogsChunk, LogsFollower, RunAck,
};
use mac_worker::error::WorkerError;
use mac_worker::job::ids::{JobId, TaskId};
use mac_worker::task::AgentKind;

fn invalid<T>(result: Result<T, WorkerError>) -> bool {
    matches!(
        result,
        Err(WorkerError::Unavailable(text))
            if text == "CONTROLLER_UNAVAILABLE: controller host returned an invalid ACK"
    )
}

#[test]
fn requests_have_their_keys_in_order() {
    let status = ControllerOperation::Status { task_id: TaskId::new(1) };
    assert_eq!(
        status.payload_text("r"),
        "{\"body\":{\"task_id\":\"00000000000000000000000000000001\"},\
         \"command\":\"task.status\",\"protocol_version\":1,\"request_id\":\"r\"}"
    );
    let say = ControllerOperation::Say { task_id: TaskId::new(1), message: "a \"b\"".into() };
    assert_eq!(
        say.payload_text("r"),
        "{\"body\":{\"message\":\"a \\\"b\\\"\",\
         \"task_id\":\"00000000000000000000000000000001\"},\
         \"command\":\"task.say\",\"protocol_version\":1,\"request_id\":\"r\"}"
    );
    let empty = ControllerOperation::List { run: None, state: None, outcome: None, full: false };
    assert_eq!(
        empty.payload_text("r"),
        "{\"body\":{},\"command\":\"task.list\",\"protocol_version\":1,\"request_id\":\"r\"}"
    );
    let listed = ControllerOperation::List {
        run: Some("x".into()),
        state: Some("open".into()),
        outcome: Some("done".into()),
        full: true,
    };
    assert_eq!(
        listed.payload_text("r"),
        "{\"body\":{\"full\":true,\"outcome\":\"done\",\"run\":\"x\",\"state\":\"open\"},\
         \"command\":\"task.list\",\"protocol_version\":1,\"request_id\":\"r\"}"
    );
}

#[test]
fn requests_read_back_as_json() {
    let logs = ControllerOperation::Logs {
        task_id: TaskId::new(1),
        turn: Some(2),
        turn_id: Some(JobId::new(3)),
        offset: 4,
        raw: false,
        follow: true,
    };
    let value: serde_json::Value = serde_json::from_str(&logs.payload_text("r")).unwrap();
    assert_eq!(value["body"]["limit"], 65536);
    assert_eq!(value["body"]["offset"], 4);
    assert_eq!(value["body"]["turn"], 2);
    assert_eq!(value["body"]["turn_id"], "00000000000000000000000000000003");
    assert_eq!(value["body"]["raw"], false);
    assert_eq!(value["body"]["follow"], true);
    for operation in [
        ControllerOperation::Close { task_id: TaskId::new(1), discard: true },
        ControllerOperation::Diff { task_id: TaskId::new(1), stat: true },
        ControllerOperation::Cancel { task_id: TaskId::new(1) },
        ControllerOperation::Result { task_id: TaskId::new(1) },
        logs,
    ] {
        let text = operation.payload_text("r");
        let value: serde_json::Value = serde_json::from_str(&text).unwrap();
        assert_eq!(value["command"], operation.command_name());
        assert_eq!(serde_json::to_string(&value).unwrap(), text);
    }
}

#[test]
fn every_request_has_an_identity_of_its_own() {
    let operation = ControllerOperation::Cancel { task_id: TaskId::new(1) };
    let one = controller_read_request(&operation);
    let other = controller_read_request(&operation);
    assert_ne!(one.request_id, other.request_id);
    assert_eq!(one.request_id.len(), 32);
    assert_eq!(one.payload, operation.payload_text(&one.request_id));
}

#[test]
fn acknowledgements_must_name_their_task() {
    let text = "000000000000000000000000000000ff";
    assert_eq!(acknowledged_task(Some(text)).unwrap(), TaskId::new(255));
    assert!(invalid(acknowledged_task(None)));
    assert!(invalid(acknowledged_task(Some("x"))));
    assert_eq!(controller_ack_id(Some("x")), "x");
    assert_eq!(controller_ack_id(None), "");
}

#[test]
fn acknowledgements_of_a_batch_must_be_complete() {
    let text = "000000000000000000000000000000ff".to_string();
    let ack = |run_id: Option<&str>, run_id_reads: bool, task_ids: Option<Vec<Option<String>>>| {
        run_report_from_controller_ack(&Some(RunAck {
            run_id: run_id.map(str::to_owned),
            run_id_reads,
            task_ids,
        }))
    };
    let listed = || Some(vec![Some(text.clone()), Some("0".repeat(32))]);
    let report = ack(Some("run"), true, listed()).unwrap();
    assert_eq!(report.run_id, "run");
    assert_eq!(report.task_ids, vec![TaskId::new(255), TaskId::new(0)]);
    assert!(invalid(run_report_from_controller_ack(&None)));
    assert!(invalid(ack(None, true, listed())));
    assert!(invalid(ack(Some("run"), false, listed())));
    assert!(invalid(ack(Some("run"), true, None)));
    assert!(invalid(ack(Some("run"), true, Some(vec![Some(text.clone()), None]))));
    assert!(invalid(ack(Some("run"), true, Some(vec![Some("x".into())]))));
}

fn chunk(turn: u128, next_offset: u64, exhausted: bool, complete: bool) -> LogsChunk {
    LogsChunk {
        turn_id: JobId::new(turn),
        agent: AgentKind::Codex,
        exhausted,
        complete,
        next_offset,
        failure: None,
    }
}

#[test]
fn logs_are_followed_to_the_end_of_one_turn() {
    let mut follower = LogsFollower::new();
    let step = follower.observe(&chunk(1, 10, false, false), true, false).unwrap();
    assert!(!step.finished && !step.pause);
    let step = follower.observe(&chunk(1, 10, true, false), true, false).unwrap();
    assert!(!step.finished && step.pause);
    assert!(follower.observe(&chunk(2, 20, false, false), true, false).is_none());
    let mut other = chunk(1, 20, false, false);
    other.agent = AgentKind::Cursor;
    assert!(follower.observe(&other, true, false).is_none());
    let step = follower.observe(&chunk(1, 20, true, true), true, false).unwrap();
    assert!(step.finished);
    assert_eq!(
        format!("{:?}", follower.next_request(TaskId::new(9), None, false, true)),
        format!(
            "{:?}",
            ControllerOperation::Logs {
                task_id: TaskId::new(9),
                turn: None,
                turn_id: Some(JobId::new(1)),
                offset: 20,
                raw: false,
                follow: true,
            }
        )
    );
    let mut once = LogsFollower::new();
    assert!(once.observe(&chunk(1, 5, true, false), false, true).unwrap().finished);
}

#[test]
fn a_failure_is_shown_once() {
    let failing = || {
        let mut failing = chunk(1, 10, false, false);
        failing.failure = Some("agent exited".into());
        failing
    };
    let mut follower = LogsFollower::new();
    let shown = follower.observe(&failing(), true, false).unwrap().failure_line;
    assert_eq!(shown.as_deref(), Some("agent exited"));
    assert_eq!(follower.observe(&failing(), true, false).unwrap().failure_line, None);
    let mut raw = LogsFollower::new();
    assert_eq!(raw.observe(&failing(), true, true).unwrap().failure_line, None);
}
