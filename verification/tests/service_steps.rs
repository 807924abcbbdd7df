use mac_worker::error::WorkerError;
use mac_worker::host_store::{IndexedIdentity, JobDisposition};
use mac_worker::job::command::CommandSpec;
use mac_worker::job::control::{ResolveOrAbandonOutcome, StatusResponse, SubmitResponse};
use mac_worker::job::ids::{ClientId, JobId, LeaseToken, TaskId};
use mac_worker::job::record::{JobMeta, LeaseRecord};
use mac_worker::job::request::{
    RequestFingerprintMaterial, ResolveOrAbandonRequest, SubmitRequest,
};
use mac_worker::job::status::{JobState, JobStatus, ProcessIdentity};
use mac_worker::job_service::cancel::{
    after_cancellation, after_ended_cleanup, cancelled_publication, cancelled_turn,
};
use mac_worker::job_service::evidence::{
    classify_resolution_final, read_repairable_final, FinalDirectory, FinalEvidence, LogEvidence,
    PrelaunchEvidence, PrivateDirectory, RepairDirectory, RepairEvidence, ResolutionFinal,
};
use mac_worker::job_service::payload::{ExecutionPayload, TurnSection};
use mac_worker::job_service::query::{
    after_query_launch, after_reconciliation, after_terminal_cleanup, after_terminal_publication,
    confirm_unindexed,
    enriched_status, lost_publication, terminal_publication, unindexed_request, JobService, LaunchCandidate,
    LeaseEvidence, TurnPublication, UnindexedDirectory, UnindexedFiles,
};
use mac_worker::job_service::resolve::{
    abandonment_answer, accepted_answer, after_record_failure, AbandonmentCleanup,
};
use mac_worker::job_service::submit::{
    job_supervision, launch_after_election, launch_answer, observe_launch, replayed_answer,
    take_over, wait_for_existing_supervisor, ElectionStep, JobOrigin, JobRecords, SupervisionStep,
    WaitStep,
};
use mac_worker::job_service::turn::{
    now_millis, read_repairable_turn_final, turn_accepted_at, turn_supervision, TurnOrigin,
    TurnRepairDirectory, TurnRepairEvidence,
};
use mac_worker::task::{LastTurn, TaskProgress, TaskState, TerminalPath, TurnTerminal};

const LOG_LIMIT: u64 = 100;

fn request(seed: u128) -> SubmitRequest {
    let material = RequestFingerprintMaterial::new(
        JobId::new(seed),
        ClientId::new(seed + 10_000),
        LeaseToken::new(seed + 20_000),
        2,
        "mini-1".into(),
        "a".repeat(64),
        "b".repeat(64),
        "c".repeat(64),
        String::new(),
        60_000,
        "heavy".into(),
        CommandSpec::argv(vec!["cargo".into(), "test".into()]).unwrap(),
    )
    .unwrap();
    SubmitRequest::new(material)
}

fn lease(request: &SubmitRequest) -> LeaseRecord {
    match LeaseRecord::new(&request.material, request.request_fingerprint.clone(), 1, 60_001) {
        Ok(lease) => lease,
        Err(error) => panic!("{error:?}"),
    }
}

fn meta(request: &SubmitRequest) -> JobMeta {
    JobMeta::new(&request.material, request.request_fingerprint.clone()).unwrap()
}

fn payload(request: &SubmitRequest) -> ExecutionPayload {
    match ExecutionPayload::new(request) {
        Ok(payload) => payload,
        Err(error) => panic!("{error:?}"),
    }
}

fn section(request: &SubmitRequest) -> TurnSection {
    TurnSection {
        task_id: TaskId::new(5),
        project_id: request.material.project_id.clone(),
        digest: request.material.manifest_digest.clone(),
        // The digest of an empty prompt.
        prompt_sha256: "e3b0c44298fc1c149afbf4c8996fb92427ae41e4649b934ca495991b7852b855".into(),
        turn: "{}".into(),
        canonical: "{}".into(),
    }
}

fn turn_payload(request: &SubmitRequest) -> ExecutionPayload {
    match ExecutionPayload::new_with_turn(request, Some(section(request))) {
        Ok(payload) => payload,
        Err(error) => panic!("{error:?}"),
    }
}

fn accepted() -> JobStatus {
    JobStatus::accepted(2).unwrap()
}

fn running() -> JobStatus {
    JobStatus::running(3, 7, 70, 8, 80).unwrap()
}

fn succeeded() -> JobStatus {
    running().into_succeeded(4, 0, 0).unwrap()
}

fn names(listed: &[&str]) -> Vec<Option<String>> {
    listed.iter().map(|name| Some(name.to_string())).collect()
}

fn job_names() -> Vec<Option<String>> {
    names(&[
        "execution.json",
        "home",
        "meta.json",
        "status.json",
        "stderr.log",
        "stdout.log",
        "supervisor.log",
        "tmp",
        "workspace",
    ])
}

fn prelaunch(request: &SubmitRequest) -> PrelaunchEvidence {
    PrelaunchEvidence {
        payload: payload(request),
        names: job_names(),
        stdout_bytes: 0,
        stderr_bytes: 0,
        supervisor_log_bytes: Some(LOG_LIMIT),
    }
}

fn text<T>(result: Result<T, WorkerError>) -> String {
    match result {
        Err(WorkerError::Protocol(text)) => text,
        Err(other) => panic!("{other:?}"),
        Ok(_) => panic!("the call was expected to fail"),
    }
}

fn broken() -> WorkerError {
    WorkerError::Protocol("broken".into())
}

#[test]
fn the_elected_host_launches_a_complete_job() {
    let wanted = request(1);
    let held = lease(&wanted);
    let job = JobRecords { meta: meta(&wanted), status: accepted() };
    let elect = |job: &JobRecords, evidence: Option<&PrelaunchEvidence>, matches: bool| {
        launch_after_election(job, &wanted, &held, evidence, matches, LOG_LIMIT)
    };
    let evidence = prelaunch(&wanted);
    assert!(matches!(elect(&job, Some(&evidence), true), Ok(ElectionStep::Launch)));
    assert_eq!(
        text(elect(&job, None, true)),
        "JOB_ID_CONFLICT: indexed final job is not an exact complete prelaunch job"
    );
    assert_eq!(
        text(elect(&job, Some(&evidence), false)),
        "JOB_ID_CONFLICT: indexed final workspace does not match the verified snapshot"
    );
    let mut noisy = prelaunch(&wanted);
    noisy.supervisor_log_bytes = Some(LOG_LIMIT + 1);
    assert!(elect(&job, Some(&noisy), true).is_err());
    let mut started = prelaunch(&wanted);
    started.stdout_bytes = 1;
    assert!(elect(&job, Some(&started), true).is_err());
    let live = JobRecords { meta: meta(&wanted), status: running() };
    assert!(matches!(
        elect(&live, None, false),
        Ok(ElectionStep::Answer { response: SubmitResponse::Existing { status } })
            if status == running()
    ));
}

#[test]
fn a_launch_is_answered_once_its_supervisor_is_recorded() {
    let candidate = LaunchCandidate::new(ProcessIdentity::new(7, 70).unwrap());
    assert_eq!(observe_launch(candidate, &accepted(), false).unwrap(), None);
    assert_eq!(
        text(observe_launch(candidate, &accepted(), true)),
        "SUPERVISOR_HANDSHAKE_TIMEOUT: supervisor identity was not durably observed within five seconds"
    );
    assert_eq!(observe_launch(candidate, &running(), false).unwrap(), Some(running()));
    let other = LaunchCandidate::new(ProcessIdentity::new(9, 90).unwrap());
    assert_eq!(
        text(observe_launch(other, &running(), false)),
        "SUPERVISOR_HANDSHAKE: durable supervisor identity belongs to another candidate"
    );
    let wanted = request(1);
    assert!(matches!(
        launch_answer(meta(&wanted), running(), true),
        SubmitResponse::Accepted { status, .. } if status == running()
    ));
    assert!(matches!(
        launch_answer(meta(&wanted), running(), false),
        SubmitResponse::Existing { status } if status == running()
    ));
}

#[test]
fn a_job_that_another_process_launches_is_waited_for() {
    assert!(matches!(wait_for_existing_supervisor(&accepted(), false), Ok(WaitStep::Wait)));
    assert!(matches!(wait_for_existing_supervisor(&accepted(), true), Ok(WaitStep::TakeOver)));
    assert!(matches!(
        wait_for_existing_supervisor(&running(), false),
        Ok(WaitStep::Answer { response: SubmitResponse::Existing { status } })
            if status == running()
    ));
    let wanted = request(1);
    let held = lease(&wanted);
    let job = JobRecords { meta: meta(&wanted), status: accepted() };
    assert!(matches!(take_over(Some(&held), &job, &wanted), Ok(None)));
    assert_eq!(
        text(take_over(None, &job, &wanted)),
        "LEASE_MISSING: matching live lease is absent"
    );
    let live = JobRecords { meta: meta(&wanted), status: running() };
    assert!(matches!(take_over(Some(&held), &live, &wanted), Ok(Some(_))));
}

#[test]
fn a_repeated_submission_is_answered_about_its_own_job() {
    let wanted = request(1);
    let response = StatusResponse::new(meta(&wanted), succeeded()).unwrap();
    assert!(matches!(
        replayed_answer(&wanted, response.clone()),
        Ok(SubmitResponse::Existing { status }) if status == succeeded()
    ));
    assert!(replayed_answer(&request(2), response).is_err());
}

#[test]
fn a_final_job_is_repaired_only_where_it_is_exact() {
    let wanted = request(1);
    let held = lease(&wanted);
    let read = |directory| read_repairable_final(directory, &wanted, &held, LOG_LIMIT);
    assert!(matches!(read(RepairDirectory::Missing), Ok(None)));
    let refusal = "JOB_ID_CONFLICT: unindexed final job evidence is incomplete or conflicting";
    assert_eq!(text(read(RepairDirectory::Unreadable)), refusal);
    let evidence = |status: JobStatus, workspace_matches: bool| RepairDirectory::Read {
        evidence: RepairEvidence {
            meta: meta(&wanted),
            status,
            prelaunch: prelaunch(&wanted),
            workspace_matches,
        },
    };
    assert!(matches!(
        read(evidence(accepted(), true)),
        Ok(Some((_, status))) if status == accepted()
    ));
    assert_eq!(text(read(evidence(accepted(), false))), refusal);
    assert_eq!(text(read(evidence(running(), true))), refusal);
}

#[test]
fn a_final_turn_is_repaired_only_where_it_is_exact() {
    let wanted = request(1);
    let held = lease(&wanted);
    let own = section(&wanted);
    let directory = |schema: &[u8], tail_bytes: u64| TurnRepairDirectory::Read {
        evidence: TurnRepairEvidence {
            job: JobRecords { meta: meta(&wanted), status: accepted() },
            prelaunch: PrelaunchEvidence {
                payload: turn_payload(&wanted),
                names: names(&[
                    ".mac-worker-rooted-fs",
                    "execution.json",
                    "meta.json",
                    "prompt.md",
                    "result.schema.json",
                    "status.json",
                    "stderr.log",
                    "stdout.log",
                    "tail.log",
                    "tmp",
                ]),
                stdout_bytes: 0,
                stderr_bytes: 0,
                supervisor_log_bytes: None,
            },
            prompt: Vec::new(),
            schema: schema.to_vec(),
            tail_bytes,
        },
    };
    let read = |found| read_repairable_turn_final(found, &wanted, &held, &own, b"{}", LOG_LIMIT);
    assert!(matches!(read(TurnRepairDirectory::Missing), Ok(None)));
    assert!(matches!(read(directory(b"{}", 0)), Ok(Some(_))));
    let refusal = "JOB_ID_CONFLICT: unindexed final turn evidence is incomplete or conflicting";
    assert_eq!(text(read(TurnRepairDirectory::Unreadable)), refusal);
    assert_eq!(text(read(directory(b"[]", 0))), refusal);
    assert_eq!(text(read(directory(b"{}", 1))), refusal);
}

fn final_evidence(request: &SubmitRequest) -> FinalEvidence {
    FinalEvidence {
        names: Some(job_names()),
        meta: Some(meta(request)),
        payload: Some(payload(request)),
        status: Some(accepted()),
        prompt: None,
        schema: None,
        tail: LogEvidence::Unsafe,
        home_safe: true,
        tmp_safe: true,
        workspace_safe: true,
        stdout: LogEvidence::Length { bytes: 0 },
        stderr: LogEvidence::Length { bytes: 0 },
        supervisor: LogEvidence::Length { bytes: 0 },
    }
}

#[test]
fn final_evidence_is_classified_before_anything_is_given_up() {
    let wanted = request(1);
    let identity = ResolveOrAbandonRequest::from_submit_request(&wanted).unwrap_or_else(|error| {
        panic!("{error:?}");
    });
    let classify = |directory: FinalDirectory| classify_resolution_final(&identity, &directory, b"{}");
    let open = |change: fn(&mut FinalEvidence)| {
        let mut evidence = final_evidence(&wanted);
        change(&mut evidence);
        FinalDirectory::Open { evidence }
    };
    assert_eq!(classify(FinalDirectory::Missing).unwrap(), None);
    assert_eq!(
        text(classify(FinalDirectory::Unsafe)),
        "JOB_ID_CONFLICT: final job evidence is unsafe"
    );
    assert_eq!(classify(open(|_| {})).unwrap(), Some(ResolutionFinal::Complete));
    let partial = open(|evidence| {
        evidence.names = Some(names(&["meta.json"]));
    });
    assert_eq!(classify(partial).unwrap(), Some(ResolutionFinal::Incomplete));
    let logged = open(|evidence| evidence.stdout = LogEvidence::Length { bytes: 1 });
    assert_eq!(
        text(classify(logged)),
        "JOB_ID_CONFLICT: nonempty unindexed logs are possible launch evidence"
    );
    let started = open(|evidence| evidence.status = Some(running()));
    assert_eq!(
        text(classify(started)),
        "JOB_ID_CONFLICT: started or terminal final evidence cannot be abandoned"
    );
    let stray = open(|evidence| evidence.names = Some(names(&["meta.json", "prompt.md"])));
    assert_eq!(
        text(classify(stray)),
        "JOB_ID_CONFLICT: turn evidence belongs to a non-turn execution payload"
    );
    let foreign = open(|evidence| evidence.names = Some(names(&["meta.json", "other"])));
    assert_eq!(
        text(classify(foreign)),
        "JOB_ID_CONFLICT: final job contains unrelated evidence"
    );
    let unowned = open(|evidence| evidence.names = Some(names(&["home"])));
    assert_eq!(
        text(classify(unowned)),
        "JOB_ID_CONFLICT: final job has no positive immutable ownership proof"
    );
}

#[test]
fn an_unindexed_job_is_rebuilt_from_its_files() {
    let wanted = request(1);
    let held = LeaseEvidence::Held { lease: lease(&wanted) };
    let open = |status: JobStatus| UnindexedDirectory::Open {
        files: UnindexedFiles {
            meta: Some(meta(&wanted)),
            status: Some(status),
            home: PrivateDirectory::Listed { entries: 0 },
            tmp: PrivateDirectory::Listed { entries: 0 },
            payload: Some(payload(&wanted)),
        },
    };
    let id = JobId::new(1);
    let rebuilt = match unindexed_request(id, &held, &open(accepted())) {
        Ok(rebuilt) => rebuilt,
        Err(error) => panic!("{error:?}"),
    };
    assert!(rebuilt.request_fingerprint.same(&wanted.request_fingerprint));
    assert_eq!(rebuilt.material.canonical_json(), wanted.material.canonical_json());
    assert_eq!(
        text(unindexed_request(id, &LeaseEvidence::Absent, &open(accepted()))),
        "JOB_NOT_FOUND: job ID is not indexed"
    );
    assert_eq!(
        text(unindexed_request(id, &held, &UnindexedDirectory::Missing)),
        "JOB_NOT_FOUND: job ID is not indexed"
    );
    assert!(text(unindexed_request(id, &held, &open(running())))
        .ends_with("unindexed final job is not an exact prelaunch Accepted job"));
    let own = meta(&wanted);
    assert!(confirm_unindexed(&own, &accepted(), &Some((meta(&wanted), accepted()))).is_ok());
    assert!(text(confirm_unindexed(&own, &accepted(), &Some((meta(&wanted), running()))))
        .ends_with("unindexed final job changed during validation"));
    assert_eq!(
        text(confirm_unindexed(&own, &accepted(), &None)),
        "JOB_NOT_FOUND: job ID is not indexed"
    );
}

#[test]
fn a_query_reports_an_ended_job_although_its_cleanup_failed() {
    let wanted = request(1);
    let after = |cleanup, required| {
        after_terminal_cleanup(meta(&wanted), succeeded(), None, cleanup, required)
    };
    assert_eq!(after(Ok(()), true).unwrap().status(), &succeeded());
    assert_eq!(after(Err(broken()), false).unwrap().status(), &succeeded());
    assert_eq!(text(after(Err(broken()), true)), "broken");
    let noted = succeeded().with_cleanup_error("LEASE_RELEASE_FAILED".into(), 5).unwrap();
    let read = after_terminal_cleanup(
        meta(&wanted),
        succeeded(),
        Some(noted.clone()),
        Err(broken()),
        false,
    );
    assert_eq!(read.unwrap().status(), &noted);
}

#[test]
fn a_failed_publication_is_told_before_a_failed_cleanup() {
    let wanted = request(1);
    let lost = running()
        .into_infrastructure_terminal(JobState::Lost, 4, 0, 0, "SUPERVISOR_LOST".into())
        .unwrap();
    let reconciled = |publication, cleanup| {
        after_reconciliation(meta(&wanted), lost.clone(), publication, cleanup)
    };
    assert_eq!(text(reconciled(Err(broken()), Err(WorkerError::Io))), "broken");
    assert!(matches!(reconciled(Ok(()), Err(WorkerError::Io)), Err(WorkerError::Io)));
    assert_eq!(reconciled(Ok(()), Ok(())).unwrap().status(), &lost);
    let cancelled = running()
        .into_infrastructure_terminal(JobState::Cancelled, 4, 0, 0, "CANCELLED".into())
        .unwrap();
    let done = |publication, cleanup| {
        after_cancellation(meta(&wanted), cancelled.clone(), publication, cleanup)
    };
    assert_eq!(text(done(Err(broken()), Err(WorkerError::Io))), "broken");
    assert!(matches!(done(Ok(()), Err(WorkerError::Io)), Err(WorkerError::Io)));
    assert_eq!(done(Ok(()), Ok(())).unwrap().status().status(), &cancelled);
    let ended = after_ended_cleanup(meta(&wanted), succeeded(), None, Ok(()));
    assert_eq!(ended.unwrap().status().status(), &succeeded());
    assert_eq!(
        text(after_ended_cleanup(meta(&wanted), succeeded(), None, Err(broken()))),
        "broken"
    );
}

#[test]
fn a_launch_that_failed_is_told_unless_the_job_moved_on() {
    let wanted = request(1);
    let response = |status| StatusResponse::new(meta(&wanted), status);
    let failed = || Err(WorkerError::Protocol("SUPERVISOR_PRELAUNCH_FAILED: x".into()));
    assert_eq!(
        after_query_launch(Ok(()), &accepted(), response(running())).unwrap().status(),
        &running()
    );
    assert_eq!(
        after_query_launch(failed(), &accepted(), response(running())).unwrap().status(),
        &running()
    );
    assert_eq!(
        text(after_query_launch(failed(), &accepted(), response(accepted()))),
        "SUPERVISOR_PRELAUNCH_FAILED: x"
    );
    assert_eq!(text(after_query_launch(failed(), &accepted(), Err(broken()))), "broken");
    assert_eq!(
        text(after_query_launch(Err(broken()), &accepted(), response(running()))),
        "broken"
    );
}

#[test]
fn a_cleanup_failure_is_noted_on_an_unchanged_job() {
    let noted = enriched_status(&succeeded(), &succeeded(), "LEASE_RELEASE_FAILED".into(), 9);
    let noted = noted.unwrap();
    assert_eq!(noted.cleanup_error_code(), Some("LEASE_RELEASE_FAILED"));
    assert_eq!(noted.updated_at_millis(), 9);
    assert_eq!(
        text(enriched_status(&running(), &succeeded(), "X".into(), 9)),
        "STATUS_CHANGED: terminal status changed before cleanup enrichment"
    );
}

fn task(state: TaskState, terminal: Option<TurnTerminal>) -> TaskProgress {
    TaskProgress {
        state,
        last_turn: Some(LastTurn { turn_id: JobId::new(1), turn_number: 1, terminal }),
        worker: None,
        head_oid: None,
    }
}

#[test]
fn an_ended_turn_is_published_to_its_task() {
    let wanted = request(1);
    let own = section(&wanted);
    let active = task(TaskState::Active, None);
    let publish = |held: Option<&TurnSection>, progress: &TaskProgress| {
        terminal_publication(held, progress, JobId::new(1), &succeeded())
    };
    assert!(matches!(
        publish(Some(&own), &active),
        Ok(TurnPublication::Publish {
            terminal: TurnTerminal::Succeeded,
            path: TerminalPath::ChildExit { code: 0 },
            exit_code: Some(0),
        })
    ));
    assert!(matches!(publish(None, &active), Ok(TurnPublication::Nothing)));
    assert!(matches!(
        publish(Some(&own), &task(TaskState::Open, None)),
        Ok(TurnPublication::Nothing)
    ));
    assert_eq!(
        text(publish(Some(&own), &task(TaskState::Active, Some(TurnTerminal::Failed)))),
        "TASK_TURN_CONFLICT: terminal job retains a turn payload but task has another active turn"
    );
}

#[test]
fn a_task_is_cancelled_by_its_lease() {
    let wanted = request(1);
    let held = lease(&wanted);
    let project = "a".repeat(64);
    let cancel = |progress: &TaskProgress, lease: Option<&LeaseRecord>, worktree: &str| {
        JobService::cancel_task(progress, JobId::new(1), lease, &project, worktree)
    };
    let worktree = "b".repeat(64);
    let active = task(TaskState::Active, None);
    match cancel(&active, Some(&held), &worktree) {
        Ok(Some(request)) => {
            assert_eq!(request.job_id(), JobId::new(1));
            assert!(request.lease_token == wanted.material.lease_token);
        }
        _ => panic!("a cancellation was expected"),
    }
    let finished = task(TaskState::Open, Some(TurnTerminal::Cancelled));
    assert!(matches!(cancel(&finished, None, &worktree), Ok(None)));
    assert_eq!(
        text(cancel(&task(TaskState::Closed, None), Some(&held), &worktree)),
        "TASK_CLOSED: task does not have the requested active turn"
    );
    assert_eq!(
        text(cancel(&active, None, &worktree)),
        "TASK_NOT_FOUND: active task lease is absent"
    );
    assert_eq!(
        text(cancel(&active, Some(&held), "other")),
        "TASK_TURN_CONFLICT: active task lease does not match task metadata"
    );
    let bound = turn_payload(&wanted);
    assert!(matches!(
        cancelled_turn(Some(&bound), &held, &meta(&wanted)),
        Ok(Some(found)) if found.same(&section(&wanted))
    ));
    assert!(matches!(
        cancelled_turn(Some(&payload(&wanted)), &held, &meta(&wanted)),
        Ok(None)
    ));
    assert!(matches!(cancelled_turn(None, &held, &meta(&wanted)), Ok(None)));
    assert!(cancelled_turn(Some(&bound), &lease(&request(2)), &meta(&wanted)).is_err());
}

#[test]
fn an_abandonment_that_was_written_after_all_is_cleaned_up_later() {
    let wanted = request(1);
    let identity = match ResolveOrAbandonRequest::from_submit_request(&wanted) {
        Ok(identity) => identity,
        Err(error) => panic!("{error:?}"),
    };
    let written = JobDisposition::Abandoned {
        identity: IndexedIdentity {
            job_id: wanted.material.job_id,
            client_id: wanted.material.client_id,
            project_id: wanted.material.project_id.clone(),
            worktree_id: wanted.material.worktree_id.clone(),
            request_fingerprint: wanted.request_fingerprint.clone(),
        },
    };
    match after_record_failure(&identity, Some(&written), broken()) {
        Ok(answer) => assert!(matches!(
            answer.outcome(),
            ResolveOrAbandonOutcome::CleanupPending { code } if code == "MUTABLE_CLEANUP_FAILED"
        )),
        Err(error) => panic!("{error:?}"),
    }
    assert_eq!(text(after_record_failure(&identity, None, broken())), "broken");
}

#[test]
fn a_failed_publication_of_an_ended_job_comes_before_its_cleanup() {
    let wanted = request(1);
    let after = |publication, cleanup, required| {
        after_terminal_publication(meta(&wanted), succeeded(), None, publication, cleanup, required)
    };
    for required in [false, true] {
        assert_eq!(text(after(Err(broken()), Ok(()), required)), "broken");
        assert_eq!(text(after(Err(broken()), Err(WorkerError::Io), required)), "broken");
        assert_eq!(after(Ok(()), Ok(()), required).unwrap().status(), &succeeded());
    }
    assert!(matches!(after(Ok(()), Err(WorkerError::Io), true), Err(WorkerError::Io)));
    assert_eq!(after(Ok(()), Err(WorkerError::Io), false).unwrap().status(), &succeeded());
}

#[test]
fn a_new_turn_is_accepted_when_the_clock_says() {
    assert_eq!(now_millis(Some(5)).unwrap(), 5);
    assert_eq!(now_millis(Some(u64::MAX as u128)).unwrap(), u64::MAX);
    assert_eq!(text(now_millis(None)), "CLOCK_INVALID: system clock precedes the Unix epoch");
    assert_eq!(
        text(now_millis(Some(u64::MAX as u128 + 1))),
        "CLOCK_INVALID: system clock is outside the range"
    );
    assert_eq!(turn_accepted_at(None, Some(5)).unwrap(), 5);
    assert!(turn_accepted_at(None, None).is_err());
    let wanted = request(1);
    let found = JobRecords { meta: meta(&wanted), status: accepted() };
    assert_eq!(turn_accepted_at(Some(&found), None).unwrap(), 2);
}

#[test]
fn every_answer_carries_the_protocol_of_its_host() {
    let wanted = request(1);
    let own = || meta(&wanted);
    let ended = after_terminal_cleanup(own(), succeeded(), None, Ok(()), true).unwrap();
    assert_eq!(ended.protocol_version(), 1);
    let lost = after_reconciliation(own(), succeeded(), Ok(()), Ok(())).unwrap();
    assert_eq!(lost.protocol_version(), 1);
    let cancelled = after_cancellation(own(), succeeded(), Ok(()), Ok(())).unwrap();
    assert_eq!(cancelled.protocol_version(), 1);
    assert_eq!(cancelled.status().protocol_version(), 1);
    let cleaned = after_ended_cleanup(own(), succeeded(), None, Ok(())).unwrap();
    assert_eq!(cleaned.protocol_version(), 1);
    let identity = match ResolveOrAbandonRequest::from_submit_request(&wanted) {
        Ok(identity) => identity,
        Err(error) => panic!("{error:?}"),
    };
    let found = accepted_answer(&identity, StatusResponse::new(own(), succeeded()).unwrap());
    assert!(matches!(found, Ok(answer) if answer.protocol_version() == 1));
    for cleanup in
        [AbandonmentCleanup::Failed, AbandonmentCleanup::LeaseKept, AbandonmentCleanup::Done]
    {
        assert!(matches!(abandonment_answer(cleanup), Ok(answer) if answer.protocol_version() == 1));
    }
}

#[test]
fn a_lost_turn_is_told_to_its_task() {
    let wanted = request(1);
    let bound = turn_payload(&wanted);
    let publish = |payload| lost_publication(payload, &lease(&wanted), &meta(&wanted));
    assert!(matches!(
        publish(Some(&bound)),
        Ok(TurnPublication::Publish {
            terminal: TurnTerminal::Lost,
            path: TerminalPath::LostReconciliation,
            exit_code: None,
        })
    ));
    let plain = payload(&wanted);
    assert!(matches!(publish(Some(&plain)), Ok(TurnPublication::Nothing)));
    assert!(matches!(publish(None), Ok(TurnPublication::Nothing)));
    assert!(lost_publication(Some(&bound), &lease(&request(2)), &meta(&wanted)).is_err());
}

#[test]
fn a_cancelled_turn_is_told_to_a_task_that_awaits_it() {
    let own = section(&request(1));
    let publish = |held: Option<&TurnSection>, progress: &TaskProgress| {
        cancelled_publication(held, progress, JobId::new(1))
    };
    assert!(matches!(
        publish(Some(&own), &task(TaskState::Active, None)),
        TurnPublication::Publish {
            terminal: TurnTerminal::Cancelled,
            path: TerminalPath::HostCancel,
            exit_code: None,
        }
    ));
    assert!(matches!(
        publish(Some(&own), &task(TaskState::Active, Some(TurnTerminal::Failed))),
        TurnPublication::Nothing
    ));
    assert!(matches!(
        publish(Some(&own), &task(TaskState::Open, None)),
        TurnPublication::Nothing
    ));
    assert!(matches!(publish(None, &task(TaskState::Active, None)), TurnPublication::Nothing));
}

#[test]
fn only_new_work_is_told_to_be_accepted() {
    let wanted = request(1);
    let job = |origin, won| job_supervision(origin, won, meta(&wanted), accepted());
    for origin in [JobOrigin::New, JobOrigin::Repaired, JobOrigin::Replayed, JobOrigin::TakenOver] {
        assert!(matches!(
            job(origin, true),
            SupervisionStep::Launch { newly_accepted } if newly_accepted == (origin == JobOrigin::New)
        ));
    }
    assert!(matches!(
        job(JobOrigin::New, false),
        SupervisionStep::Answer { response: SubmitResponse::Accepted { status, .. } }
            if status == accepted()
    ));
    assert!(matches!(job(JobOrigin::Repaired, false), SupervisionStep::AwaitSupervisor));
    assert!(matches!(job(JobOrigin::Replayed, false), SupervisionStep::AwaitSupervisor));
    assert!(matches!(
        job(JobOrigin::TakenOver, false),
        SupervisionStep::Answer { response: SubmitResponse::Existing { .. } }
    ));
    let turn = |origin, won| turn_supervision(origin, won, meta(&wanted), accepted());
    for origin in [TurnOrigin::New, TurnOrigin::Repaired] {
        assert!(matches!(turn(origin, true), SupervisionStep::Launch { newly_accepted: true }));
        assert!(matches!(
            turn(origin, false),
            SupervisionStep::Answer { response: SubmitResponse::Accepted { .. } }
        ));
    }
    assert!(matches!(
        turn(TurnOrigin::Replayed, true),
        SupervisionStep::Launch { newly_accepted: false }
    ));
    assert!(matches!(
        turn(TurnOrigin::Replayed, false),
        SupervisionStep::Answer { response: SubmitResponse::Existing { status } }
            if status == accepted()
    ));
}
