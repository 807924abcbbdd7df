use mac_worker::error::WorkerError;
use mac_worker::job::ids::{JobId, TaskId};
use mac_worker::report::{
    delivery_line, diff_text, fetch_line, format_host_io_blocking, publish_retry_lines,
    queued_line, reconcile_line, refresh_failure, render_questions, render_refresh_line,
    render_workers_refresh_human, run_lines, wait_line, workers_refresh_exit_status, BatchPreview,
    Delivery, Freshness, GcCandidate, GcFleetReport, GcReport, ListedTask, PreviewIssue, Question,
    Receipt, TaskReport, TaskResultReport, WorkerRefreshOutcome,
};
use mac_worker::task::TaskState;

const ID: &str = "00000000000000000000000000000001";

fn receipt() -> Receipt {
    Receipt { stage: "cleanup".into(), residual: vec!["lease".into(), "tree".into()] }
}

#[test]
fn task_reports_show_state_worker_and_deliveries() {
    let report = TaskReport {
        task_id: TaskId::new(1),
        state: TaskState::Open,
        worker: None,
        warnings: vec!["slow".into()],
        deliveries: vec!["delivery: pushed".into()],
        freshness: Freshness::Stale { observed_at_millis: Some(5) },
        receipt: Some(receipt()),
    };
    assert_eq!(
        report.lines(),
        vec![
            format!("task {ID}: open (unassigned)"),
            "warning: slow".to_string(),
            "delivery: pushed observed=5".to_string(),
            "receipt: stage=cleanup residual=lease,tree".to_string(),
        ]
    );
    assert_eq!(delivery_line("d", Freshness::Fresh), "d");
    assert_eq!(delivery_line("d", Freshness::Stale { observed_at_millis: None }), "d stale");
}

#[test]
fn retried_deliveries_are_listed() {
    assert_eq!(
        publish_retry_lines(TaskId::new(1), &Vec::new()),
        vec![format!("task {ID}: no origin deliveries")]
    );
    let delivery = Delivery {
        state: "pending".into(),
        turn_id: JobId::new(1),
        attempt: 3,
        oid: "abc".into(),
    };
    assert_eq!(
        publish_retry_lines(TaskId::new(1), &vec![delivery]),
        vec![format!("delivery: pending turn={ID} attempt=3 abc")]
    );
}

#[test]
fn listed_tasks_show_what_blocks_them() {
    let mut task = ListedTask {
        task_id: TaskId::new(1),
        state: TaskState::Active,
        worker: Some("mini-1".into()),
        blocking_code: None,
        stage: None,
        residual: None,
        push_suffix: Some(" pushed".into()),
    };
    assert_eq!(task.line(), format!("{ID}: active (mini-1) pushed"));
    task.blocking_code = Some("TASK_BUSY".into());
    task.stage = Some("cleanup".into());
    assert_eq!(task.line(), format!("{ID}: active (mini-1) blocking: TASK_BUSY pushed"));
    task.blocking_code = Some("X_HOST_IO".into());
    task.residual = Some(vec!["lease".into()]);
    assert_eq!(
        task.line(),
        format!("{ID}: active (mini-1) blocking: X_HOST_IO (stage=cleanup, residual=lease) pushed")
    );
    assert_eq!(format_host_io_blocking("C", &None, &None), "C");
    assert_eq!(
        format_host_io_blocking("C", &Some("s".into()), &None),
        "C (stage=s, residual=)"
    );
}

#[test]
fn questions_show_the_answers_that_will_do() {
    let questions = vec![
        Question { text: "Why?".into(), options: Vec::new() },
        Question { text: "Which?".into(), options: vec!["a".into(), "b".into()] },
    ];
    assert_eq!(render_questions(&questions), "Why?; Which? [a | b]");
    assert_eq!(render_questions(&Vec::new()), "");
}

#[test]
fn results_show_what_there_is() {
    let report = TaskResultReport {
        task_id: TaskId::new(1),
        state: TaskState::Closed,
        summary: Some("did it".into()),
        questions: vec![Question { text: "Why?".into(), options: Vec::new() }],
        files_changed: vec!["a".into(), "b".into()],
        branch: "task/1".into(),
        fetch_instruction: "worker task fetch".into(),
        last_delivery: Some("delivery: pushed".into()),
        freshness: Freshness::Fresh,
        receipt: None,
    };
    assert_eq!(
        report.lines(),
        vec![
            format!("task {ID}: closed"),
            "summary: did it".to_string(),
            "questions: Why?".to_string(),
            "files: a, b".to_string(),
            "branch: task/1".to_string(),
            "fetch: worker task fetch".to_string(),
            "delivery: pushed".to_string(),
        ]
    );
}

#[test]
fn short_reports_are_one_line() {
    assert_eq!(fetch_line(TaskId::new(1), "refs/x", "abc"), format!("{ID} -> refs/x (abc)"));
    assert_eq!(wait_line(3), "wait complete (exit 3)");
    assert_eq!(
        run_lines("r", &vec![TaskId::new(1)]),
        vec!["run r".to_string(), format!("  task {ID}")]
    );
    assert_eq!(
        reconcile_line(1, 20, 0, 3),
        "runners: 1 replaced, 20 started; task rows: 0 repaired, 3 unverifiable"
    );
    assert_eq!(queued_line("x"), "task x: queued (controller)");
    assert_eq!(diff_text("a"), "a\n");
    assert_eq!(diff_text("a\n"), "a\n");
    assert_eq!(diff_text(""), "\n");
}

#[test]
fn previews_list_their_issues() {
    let preview = BatchPreview {
        tasks: 2,
        order: "a before b".into(),
        setup_present: true,
        issues: vec![PreviewIssue {
            severity: "error".into(),
            kind: "config".into(),
            message: "no base".into(),
        }],
    };
    assert_eq!(
        preview.lines(),
        vec![
            "batch preview: 2 tasks".to_string(),
            "a before b".to_string(),
            "setup recipe present".to_string(),
            "error config: no base".to_string(),
        ]
    );
}

#[test]
fn a_refresh_fails_only_where_every_worker_did() {
    let ok = || WorkerRefreshOutcome { ok: true, error_code: None, error_message: None };
    let failed = || {
        refresh_failure(
            &WorkerError::Transport { code: "SSH_FAILED", message: "no route".into() },
            "X",
            "y",
        )
    };
    assert_eq!(render_refresh_line(&ok()), "  refresh: ok");
    assert_eq!(render_refresh_line(&failed()), "  refresh: failed [SSH_FAILED]: no route");
    let other = refresh_failure(&WorkerError::Io, "HOST_IO", "disk");
    assert_eq!(render_refresh_line(&other), "  refresh: failed [HOST_IO]: disk");
    let blank = WorkerRefreshOutcome { ok: false, error_code: None, error_message: None };
    assert_eq!(
        render_refresh_line(&blank),
        "  refresh: failed [REFRESH_FACTS_FAILED]: worker fact refresh failed"
    );
    assert_eq!(workers_refresh_exit_status(&None, 69), 0);
    assert_eq!(workers_refresh_exit_status(&Some(Vec::new()), 69), 0);
    assert_eq!(workers_refresh_exit_status(&Some(vec![failed()]), 69), 69);
    assert_eq!(workers_refresh_exit_status(&Some(vec![failed(), ok()]), 69), 0);
    assert_eq!(
        render_workers_refresh_human(
            &vec!["one".into(), "two".into(), "three".into()],
            &vec![ok(), failed()]
        ),
        "one\n  refresh: ok\ntwo\n  refresh: failed [SSH_FAILED]: no route"
    );
}

#[test]
fn collections_are_reported_place_by_place() {
    let report = |warnings: Vec<String>| GcReport {
        candidates: vec![GcCandidate {
            kind: "job".into(),
            size_bytes: 12,
            reason: "old".into(),
            identifier: "x".into(),
        }],
        applied: 1,
        warnings,
    };
    let fleet = GcFleetReport {
        apply: true,
        workers: vec![("mini-1".into(), report(vec!["busy".into()]))],
        transfer: GcReport { candidates: Vec::new(), applied: 0, warnings: Vec::new() },
    };
    assert_eq!(
        fleet.lines(),
        vec![
            "gc: apply",
            "  worker mini-1: 1 candidate(s), 1 applied",
            "    job 12 bytes (old) x",
            "    warning: busy",
            "  transfer: 0 candidate(s), 0 applied",
        ]
    );
}
