use mac_worker::error::WorkerError;
use mac_worker::host_store::{IndexedIdentity, JobDisposition};
use mac_worker::job::command::CommandSpec;
use mac_worker::job::control::{CancelRequest, ResolveOrAbandonOutcome, SubmitResponse};
use mac_worker::job::ids::{ClientId, JobId, LeaseToken, TaskId};
use mac_worker::job::record::{JobMeta, LeaseRecord};
use mac_worker::job::request::{
    RequestFingerprintMaterial, ResolveOrAbandonRequest, SubmitRequest,
};
use mac_worker::job::status::{JobState, JobStatus, ProcessIdentity};
use mac_worker::job_service::cancel::{
    cancelled_status, turn_awaits_its_end, CancelFence, CancelStep,
};
use mac_worker::job_service::evidence::{FinalDirectory, LogEvidence};
use mac_worker::job_service::identity::{
    disposition_failure, is_prelaunch_failure, is_status_changed, reconciliation_timestamp,
};
use mac_worker::job_service::payload::ExecutionPayload;
use mac_worker::job_service::query::{
    cleanup_note, log_file_name, lost_status, CleanupNote, JobFiles, JobService, LeaseEvidence,
    LogReadFailure, QueryPurpose, StatusStep, SupervisorEvidence,
};
use mac_worker::job_service::resolve::{
    abandonment_answer, AbandonmentCleanup, ResolutionEvidence, ResolutionLook, ResolutionStep,
};
use mac_worker::job_service::submit::{
    clock_millis, published_records, JobRecords, SubmitEvidence, SubmitStep,
};
use mac_worker::job_service::turn::{TaskFacts, TurnEvidence, TurnFacts, TurnStep, TurnTerms};
use mac_worker::job::logs::{LogChunk, LogStream};
use mac_worker::task::{AgentKind, LastTurn, TaskProgress, TaskState};

fn request(seed: u128) -> SubmitRequest {
    let material = RequestFingerprintMaterial::new(
        JobId::new(seed),
        ClientId::new(seed + 10_000),
        LeaseToken::new(seed + 20_000),
        2,
        "mini-1".into(),
        "a".repeat(64),
        "b".repeat(64),
        "c".repeat(64),
        String::new(),
        60_000,
        "heavy".into(),
        CommandSpec::argv(vec!["cargo".into(), "test".into()]).unwrap(),
    )
    .unwrap();
    SubmitRequest::new(material)
}

fn lease(request: &SubmitRequest) -> LeaseRecord {
    match LeaseRecord::new(&request.material, request.request_fingerprint.clone(), 1, 60_001) {
        Ok(lease) => lease,
        Err(error) => panic!("{error:?}"),
    }
}

fn meta(request: &SubmitRequest) -> JobMeta {
    JobMeta::new(&request.material, request.request_fingerprint.clone()).unwrap()
}

fn identity(request: &SubmitRequest) -> IndexedIdentity {
    IndexedIdentity {
        job_id: request.material.job_id,
        client_id: request.material.client_id,
        project_id: request.material.project_id.clone(),
        worktree_id: request.material.worktree_id.clone(),
        request_fingerprint: request.request_fingerprint.clone(),
    }
}

fn accepted(request: &SubmitRequest) -> JobDisposition {
    JobDisposition::Accepted {
        identity: identity(request),
        status: JobStatus::accepted(2).unwrap(),
    }
}

fn service(request: &SubmitRequest, status: JobStatus) -> JobService {
    JobService::new(
        Some(accepted(request)),
        Some(JobFiles {
            meta: Some(meta(request)),
            status: Some(status),
            stdout: LogEvidence::Length { bytes: 0 },
            stderr: LogEvidence::Length { bytes: 0 },
        }),
        LeaseEvidence::Held { lease: lease(request) },
    )
}

fn refusal<T>(result: Result<T, WorkerError>) -> String {
    match result {
        Err(WorkerError::Protocol(text)) => text,
        Err(other) => panic!("{other:?}"),
        Ok(_) => panic!("the call was expected to fail"),
    }
}

#[test]
fn a_leased_job_is_published_once() {
    let wanted = request(1);
    let mut evidence = SubmitEvidence { disposition: None, lease: Some(lease(&wanted)), job: None };
    assert!(matches!(JobService::submit_at(&wanted, &evidence), Ok(SubmitStep::Publish)));
    let records = match published_records(&wanted) {
        Ok(records) => records,
        Err(error) => panic!("{error:?}"),
    };
    assert_eq!(records.status.state(), JobState::Accepted);
    evidence.disposition = Some(accepted(&wanted));
    assert!(matches!(JobService::submit_at(&wanted, &evidence), Ok(SubmitStep::ReadJob)));
    evidence.job = Some(records);
    assert!(matches!(
        JobService::submit_at(&wanted, &evidence),
        Ok(SubmitStep::ElectSupervisor)
    ));
}

#[test]
fn a_job_without_its_lease_is_refused() {
    let wanted = request(1);
    let none = SubmitEvidence { disposition: None, lease: None, job: None };
    assert!(refusal(JobService::submit_at(&wanted, &none)).starts_with("LEASE_MISSING: "));
    let foreign = SubmitEvidence { disposition: None, lease: Some(lease(&request(2))), job: None };
    assert!(JobService::submit_at(&wanted, &foreign).is_err());
}

#[test]
fn an_abandoned_identity_is_never_used_again() {
    let wanted = request(1);
    let evidence = SubmitEvidence {
        disposition: Some(JobDisposition::Abandoned { identity: identity(&wanted) }),
        lease: Some(lease(&wanted)),
        job: None,
    };
    assert!(refusal(JobService::submit_at(&wanted, &evidence)).starts_with("JOB_ABANDONED: "));
    let other = SubmitEvidence {
        disposition: Some(accepted(&request(2))),
        lease: None,
        job: None,
    };
    assert!(refusal(JobService::submit_at(&wanted, &other)).starts_with("JOB_ID_CONFLICT: "));
}

#[test]
fn a_running_job_is_answered_as_existing() {
    let wanted = request(1);
    let running = JobStatus::running(3, 7, 70, 8, 80).unwrap();
    let evidence = SubmitEvidence {
        disposition: Some(accepted(&wanted)),
        lease: Some(lease(&wanted)),
        job: Some(JobRecords { meta: meta(&wanted), status: running.clone() }),
    };
    match JobService::submit_at(&wanted, &evidence) {
        Ok(SubmitStep::Answer { response: SubmitResponse::Existing { status } }) => {
            assert_eq!(status, running)
        }
        _ => panic!("the running job was expected"),
    }
}

#[test]
fn a_running_job_is_observed_only_behind_its_fence() {
    let wanted = request(1);
    let running = JobStatus::running(3, 7, 70, 8, 80).unwrap();
    let held = service(&wanted, running.clone());
    assert!(matches!(
        held.status(SupervisorEvidence::Untried),
        Ok(StatusStep::FenceSupervisor)
    ));
    match held.status(SupervisorEvidence::Busy) {
        Ok(StatusStep::Report { response }) => assert_eq!(response.status(), &running),
        _ => panic!("the recorded status was expected"),
    }
    match held.status(SupervisorEvidence::Fenced { current: Some(running.clone()) }) {
        Ok(StatusStep::ObserveSupervisor { identity }) => {
            assert_eq!(identity, ProcessIdentity::new(7, 70).unwrap())
        }
        _ => panic!("the supervisor was expected to be observed"),
    }
}

#[test]
fn only_a_repair_reports_a_failed_cleanup() {
    let wanted = request(1);
    let ended =
        JobStatus::running(3, 7, 70, 8, 80).unwrap().into_succeeded(4, 0, 0).unwrap();
    let held = service(&wanted, ended.clone());
    let fenced = || SupervisorEvidence::Fenced { current: Some(ended.clone()) };
    assert!(matches!(
        held.status(fenced()),
        Ok(StatusStep::FinishTerminal { require_cleanup: false, .. })
    ));
    assert!(matches!(
        held.reconcile_job(fenced()),
        Ok(StatusStep::FinishTerminal { require_cleanup: true, .. })
    ));
    let rights = |purpose: QueryPurpose| (purpose.ensure_supervisor(), purpose.require_cleanup());
    assert_eq!(rights(QueryPurpose::Status), (true, false));
    assert_eq!(rights(QueryPurpose::Log), (true, false));
    assert_eq!(rights(QueryPurpose::Replay), (true, false));
    assert_eq!(rights(QueryPurpose::Reconcile), (true, true));
    assert_eq!(rights(QueryPurpose::Resolution { ensure_supervisor: true }), (true, true));
    assert_eq!(rights(QueryPurpose::Resolution { ensure_supervisor: false }), (false, false));
    assert_eq!(rights(QueryPurpose::Reread), (false, false));
    assert!(matches!(
        held.query(SupervisorEvidence::Untried, QueryPurpose::Reread),
        Ok(StatusStep::Report { .. })
    ));
}

#[test]
fn an_unknown_job_is_looked_for_on_disk() {
    let unknown = JobService::new(None, None, LeaseEvidence::Absent);
    assert!(matches!(
        unknown.status(SupervisorEvidence::Untried),
        Ok(StatusStep::RecoverUnindexed)
    ));
}

#[test]
fn a_vanished_supervisor_loses_its_job() {
    let running = JobStatus::running(30, 7, 70, 8, 80).unwrap();
    let lost = lost_status(&running, 20, 5, 6).unwrap();
    assert_eq!(lost.state(), JobState::Lost);
    assert_eq!(lost.updated_at_millis(), 30);
    assert_eq!(lost.final_stdout_bytes(), Some(5));
    assert_eq!(lost.supervisor_identity(), running.supervisor_identity());
    assert_eq!(reconciliation_timestamp(20, 30), 30);
    assert_eq!(reconciliation_timestamp(40, 30), 40);
}

fn cancel_request(request: &SubmitRequest) -> CancelRequest {
    match CancelRequest::new(
        request.material.job_id,
        request.material.client_id,
        request.material.lease_token,
        request.request_fingerprint.clone(),
    ) {
        Ok(cancel) => cancel,
        Err(error) => panic!("{error:?}"),
    }
}

#[test]
fn a_child_is_stopped_only_behind_the_fence() {
    let wanted = request(1);
    let running = JobStatus::running(3, 7, 70, 8, 80).unwrap();
    let held = service(&wanted, running);
    let cancel = cancel_request(&wanted);
    assert!(matches!(
        held.cancel(&cancel, CancelFence::Untried),
        Ok(CancelStep::FenceSupervisor)
    ));
    assert!(matches!(
        held.cancel(&cancel, CancelFence::Busy { expired: false }),
        Ok(CancelStep::Retry)
    ));
    assert!(held.cancel(&cancel, CancelFence::Busy { expired: true }).is_err());
    match held.cancel(&cancel, CancelFence::Held) {
        Ok(CancelStep::StopChild { child, .. }) => {
            assert_eq!(child, ProcessIdentity::new(8, 80).unwrap())
        }
        _ => panic!("the child was expected to be stopped"),
    }
    let mut stranger = cancel_request(&wanted);
    stranger.lease_token = LeaseToken::new(5);
    assert!(held.cancel(&stranger, CancelFence::Held).is_err());
}

#[test]
fn an_unlaunched_job_is_cancelled_at_once() {
    let wanted = request(1);
    let held = service(&wanted, JobStatus::accepted(2).unwrap());
    assert!(matches!(
        held.cancel(&cancel_request(&wanted), CancelFence::Held),
        Ok(CancelStep::CancelPrelaunch { .. })
    ));
    let ended = cancelled_status(&JobStatus::accepted(3).unwrap(), 4, 0, 0).unwrap();
    assert_eq!(ended.state(), JobState::Cancelled);
}

fn resolution(request: &SubmitRequest) -> ResolveOrAbandonRequest {
    match ResolveOrAbandonRequest::from_submit_request(request) {
        Ok(resolution) => resolution,
        Err(error) => panic!("{error:?}"),
    }
}

#[test]
fn an_unpublished_job_is_abandoned() {
    let wanted = request(1);
    let evidence = ResolutionEvidence {
        disposition: None,
        accepted_meta: None,
        live: Some(lease(&wanted)),
        directory: FinalDirectory::Missing,
    };
    let look = |look| JobService::resolve_or_abandon(&resolution(&wanted), &evidence, look, b"{}");
    let seen = match look(ResolutionLook::First) {
        Ok(ResolutionStep::TakeTransferLock { live }) => live,
        _ => panic!("the transfer lock was expected to be taken"),
    };
    let other = lease(&request(2));
    assert!(look(ResolutionLook::Locked { before: Some(&other) }).is_err());
    match look(ResolutionLook::Locked { before: seen.as_ref() }) {
        Ok(ResolutionStep::Abandon { live, remains, record }) => {
            assert!(live.is_some());
            assert!(remains.is_none());
            assert!(record);
        }
        _ => panic!("the job was expected to be abandoned"),
    }
    match abandonment_answer(AbandonmentCleanup::Done) {
        Ok(answer) => assert_eq!(*answer.outcome(), ResolveOrAbandonOutcome::Abandoned),
        Err(error) => panic!("{error:?}"),
    }
    assert!(matches!(
        abandonment_answer(AbandonmentCleanup::Failed),
        Ok(answer) if matches!(answer.outcome(), ResolveOrAbandonOutcome::CleanupPending { .. })
    ));
}

#[test]
fn payloads_are_bound_to_their_request() {
    let wanted = request(1);
    let payload = match ExecutionPayload::new(&wanted) {
        Ok(payload) => payload,
        Err(error) => panic!("{error:?}"),
    };
    assert!(payload.validate_for(&wanted).is_ok());
    assert!(payload.validate_for(&request(2)).is_err());
    assert!(payload.validate_for_durable_job(&lease(&wanted), &meta(&wanted)).is_ok());
    assert!(payload.validate_for_resolution(&resolution(&wanted)).is_ok());
    assert!(payload.validate_for_resolution(&resolution(&request(2))).is_err());
}

#[test]
fn log_reads_are_answered_from_the_right_file() {
    assert_eq!(log_file_name(LogStream::Stdout), "stdout.log");
    assert_eq!(log_file_name(LogStream::Stderr), "stderr.log");
    let chunk = match JobService::read_log(LogStream::Stdout, 0, Ok(b"hi".to_vec())) {
        Ok(chunk) => chunk,
        Err(error) => panic!("{error:?}"),
    };
    assert_eq!(chunk, LogChunk::new(LogStream::Stdout, 0, b"hi".to_vec()).unwrap());
    assert!(
        JobService::read_log(LogStream::Stdout, 9, Err(LogReadFailure::BeyondEof)).is_err()
    );
}

#[test]
fn cleanup_failures_are_noted_by_what_remained() {
    let running = JobStatus::running(3, 7, 70, 8, 80).unwrap();
    let done = running.into_succeeded(4, 0, 0).unwrap();
    assert_eq!(cleanup_note(&done, true, true), CleanupNote::Nothing);
    assert_eq!(cleanup_note(&done, false, false), CleanupNote::MutableCleanupFailed);
    assert_eq!(cleanup_note(&done, true, false), CleanupNote::LeaseReleaseFailed);
    let noted = done.with_cleanup_error("LEASE_RELEASE_FAILED".into(), 5).unwrap();
    assert_eq!(cleanup_note(&noted, true, true), CleanupNote::Clear);
}

#[test]
fn error_texts_are_recognised_by_their_codes() {
    assert!(is_status_changed(&WorkerError::Protocol("STATUS_CHANGED: x".into())));
    assert!(!is_status_changed(&WorkerError::Io));
    assert!(is_prelaunch_failure(&WorkerError::Protocol("SUPERVISOR_PRELAUNCH_FAILED: x".into())));
    assert!(!is_prelaunch_failure(&WorkerError::Protocol("x".into())));
    assert_eq!(
        refusal::<()>(Err(disposition_failure(WorkerError::Io))),
        "JOB_STATE_INVALID: job disposition is invalid"
    );
    assert_eq!(
        refusal::<()>(Err(disposition_failure(WorkerError::Protocol("JOB_ID_CONFLICT: x".into())))),
        "JOB_ID_CONFLICT: x"
    );
    assert_eq!(clock_millis(Some(3)).unwrap(), 3);
    assert_eq!(refusal(clock_millis(None)), "system clock precedes the Unix epoch");
}

fn terms() -> TurnTerms {
    TurnTerms {
        agent: AgentKind::Codex,
        model: None,
        policy: "workspace".into(),
        limits: "{}".into(),
        env_profile: None,
    }
}

#[test]
fn a_turn_is_published_only_for_its_pending_task() {
    let wanted = request(1);
    let turn = TurnFacts {
        task_id: TaskId::new(50),
        turn_number: 1,
        resume: false,
        base_oid: "d".repeat(40),
        terms: terms(),
        canonical: "{}".into(),
        origin_url: None,
    };
    let evidence = TurnEvidence {
        disposition: None,
        lease: Some(lease(&wanted)),
        task: TaskFacts {
            worktree_id: "b".repeat(64),
            base_oid: "d".repeat(40),
            terms: terms(),
            pushes: false,
            push_origin_url: None,
        },
        progress: TaskProgress {
            state: TaskState::Active,
            last_turn: Some(LastTurn {
                turn_id: wanted.material.job_id,
                turn_number: 1,
                terminal: None,
            }),
            worker: Some("mini-1".into()),
            head_oid: None,
        },
        resumed: false,
        session_bound: false,
        job: None,
        payload: None,
    };
    assert!(turn_awaits_its_end(&evidence.progress, wanted.material.job_id));
    match JobService::submit_turn(&wanted, &turn, &evidence) {
        Ok(TurnStep::Publish { bind_session }) => assert!(!bind_session),
        Ok(_) => panic!("the turn was expected to be published"),
        Err(error) => panic!("{error:?}"),
    }
    let mut other = evidence;
    other.task.terms.agent = AgentKind::Cursor;
    assert!(JobService::submit_turn(&wanted, &turn, &other).is_err());
}
