//! Why a host refuses what is asked of a job, and which reason comes first.
use vstd::prelude::*;
use vstd::string::*;
use crate::host_store::{IndexedIdentity, JobDisposition};
use crate::job::control::{CancelModel, CancelRequest};
use crate::job::ids::JobId;
use crate::job::record::{JobMeta, LeaseModel, LeaseRecord, MetaModel};
use crate::job::request::{ResolutionModel, SubmitModel};
use crate::job::status::{bare_status, JobState, JobStatus, ProcessIdentity, StatusModel};
use crate::job_service::cancel::{
    cancel_authority_fault, cancel_fault, cancel_task_fault, cancelled_job_fault, CancelFence,
};
use crate::job_service::evidence::{
    final_fault, final_kind, PrelaunchEvidence, ResolutionFinal,
};
use crate::job_service::identity::{
    disposition_identity, exact_lease_fault, exact_meta_fault, id_conflict, indexed_for, leads_with,
    lease_holds_job, lease_is_of, leased_for, live_lease_fault, meta_is_of, meta_is_of_resolution,
    prelaunch_fault, prelaunch_terminal, queryable_fault, reconstruction_fault,
    resolution_meta_fault, reworded, state_invalid, turn_recovery_fault,
};
use crate::job_service::payload::{
    ExecutionPayload, PayloadModel, TurnSection, TurnSectionModel,
};
use crate::job_service::query::{
    held_job_fault, index_names, indexed_files_fault, terminal_publication_fault, unindexed_fault,
    JobFiles, JobService, LeaseEvidence, UnindexedDirectory,
};
use crate::job_service::resolve::{
    accepted_meta_fault, lease_change_fault, live_fault, request_lease, resolution_fault,
    ResolutionEvidence,
};
use crate::job_service::submit::{
    election_fault, handshake_fault, submit_fault, take_over_fault, JobRecords, SubmitEvidence,
};
use crate::job_service::turn::{
    accepted_payload_fault, origin_fault, submit_turn_fault, turn_fits_task, TurnEvidence, TurnFacts,
};
use crate::error::WorkerError;
use crate::laws::status::{
    coherent, coherent_statuses_are_accepted, has_ended, statuses_name_their_processes,
};
use crate::task::{TaskProgress, TaskState};
use crate::text::{opt_text, starts_with};

verus! {

/// A fault with this code and this text.
pub open spec fn told(fault: Option<Seq<char>>, code: Seq<char>, message: Seq<char>) -> bool {
    fault == Some(code + ": "@ + message)
}

/// The two codes of a job's own records, and a fault in other words.
pub proof fn records_have_their_codes(
    message: Seq<char>,
    fault: Option<Seq<char>>,
    error: WorkerError,
    prefix: Seq<char>,
)
    ensures
        state_invalid(message) == "JOB_STATE_INVALID"@ + ": "@ + message,
        id_conflict(message) == "JOB_ID_CONFLICT"@ + ": "@ + message,
        fault is Some ==> reworded(fault, message) == Some(message),
        fault is None ==> reworded(fault, message) is None,
        leads_with(error, prefix) <==> error is Protocol && starts_with(
            error->Protocol_0@,
            prefix,
        ),
{
}

/// A job that the index does not know is not found, and one that was given up
/// says so, whatever else is asked of it.
pub proof fn unknown_jobs_are_not_found(
    service: JobService,
    request: CancelModel,
    fence: CancelFence,
)
    ensures
        service.disposition is None ==> {
            &&& told(service.authority_fault(), "JOB_NOT_FOUND"@, "job ID is not indexed"@)
            &&& told(
                cancel_fault(service, request, fence),
                "JOB_NOT_FOUND"@,
                "job ID is not indexed"@,
            )
        },
        (service.disposition matches Some(JobDisposition::Abandoned { .. })) ==> {
            &&& told(
                service.authority_fault(),
                "JOB_ABANDONED"@,
                "job ID was permanently abandoned"@,
            )
            &&& told(
                cancel_fault(service, request, fence),
                "JOB_ABANDONED"@,
                "job ID was permanently abandoned"@,
            )
        },
{
}

/// A cancellation by a client that the job was not accepted for is refused
/// before the job's files are looked at.
pub proof fn strangers_are_told_of_the_index(
    service: JobService,
    request: CancelRequest,
    fence: CancelFence,
    identity: IndexedIdentity,
    initial: JobStatus,
)
    requires
        service.disposition == Some(JobDisposition::Accepted { identity, status: initial }),
        identity.job_id != request.job_id || identity.client_id != request.client_id
            || identity.request_fingerprint.text@ != request.request_fingerprint.text@,
    ensures
        told(
            cancel_fault(service, request@, fence),
            "JOB_ID_CONFLICT"@,
            "cancel request does not match the accepted job index"@,
        ),
{
}

/// What is told of a job's files: what is missing comes before what does not
/// agree with the index.
pub proof fn broken_records_are_told(
    indexed: IndexedIdentity,
    initial: StatusModel,
    files: Option<JobFiles>,
)
    ensures
        files is None ==> told(
            indexed_files_fault(indexed@, initial, files),
            "JOB_STATE_INVALID"@,
            "accepted job directory is absent or unsafe"@,
        ),
        (files matches Some(held) && held.meta is None) ==> told(
            indexed_files_fault(indexed@, initial, files),
            "JOB_STATE_INVALID"@,
            "canonical job metadata is invalid"@,
        ),
        (files matches Some(held) && (held.meta matches Some(meta) && (meta.job_id
            != indexed.job_id || meta.client_id != indexed.client_id || meta.project_id@
            != indexed.project_id@ || meta.worktree_id@ != indexed.worktree_id@
            || meta.request_fingerprint.text@ != indexed.request_fingerprint.text@))) ==> told(
            indexed_files_fault(indexed@, initial, files),
            "JOB_ID_CONFLICT"@,
            "accepted index does not match canonical job metadata"@,
        ),
        (files matches Some(held) && (held.meta matches Some(meta) && index_names(indexed@, meta@)
            && initial != bare_status(JobState::Accepted, meta.created_at_millis))) ==> told(
            indexed_files_fault(indexed@, initial, files),
            "JOB_STATE_INVALID"@,
            "accepted index does not contain the immutable initial status"@,
        ),
        (files matches Some(held) && held.status is None && (held.meta matches Some(meta)
            && index_names(indexed@, meta@) && initial == bare_status(
            JobState::Accepted,
            meta.created_at_millis,
        ))) ==> told(
            indexed_files_fault(indexed@, initial, files),
            "JOB_STATE_INVALID"@,
            "canonical mutable job status is invalid"@,
        ),
        (files matches Some(held) && (held.status matches Some(status) && (
        held.meta matches Some(meta) && index_names(indexed@, meta@) && initial == bare_status(
            JobState::Accepted,
            meta.created_at_millis,
        )))) ==> indexed_files_fault(indexed@, initial, files) == queryable_fault(
            files->0.meta->0@,
            files->0.status->0@,
        ),
{
}

/// What is told of a status that its job cannot have.
pub proof fn impossible_statuses_are_told(meta: MetaModel, status: StatusModel)
    ensures
        ({
            let fault = queryable_fault(meta, status);
            let code = "JOB_STATE_INVALID"@;
            let known = meta.fault() is None && coherent(status);
            &&& meta.fault() is Some ==> told(fault, code, "canonical job metadata is invalid"@)
            &&& meta.fault() is None && !coherent(status) ==> told(
                fault,
                code,
                "canonical mutable job status is invalid"@,
            )
            &&& known && (status.state == JobState::Uploading || status.state
                == JobState::Verified) ==> told(
                fault,
                code,
                "an accepted job cannot return to a pre-acceptance state"@,
            )
            &&& known && status.state == JobState::Accepted && status.supervisor_pid is None
                && status.updated_at_millis != meta.created_at_millis ==> told(
                fault,
                code,
                "identityless accepted status must equal durable initial acceptance"@,
            )
            &&& known && (status.state == JobState::Succeeded || status.state == JobState::Failed
                || status.state == JobState::TimedOut) && status.child_pid is None ==> told(
                fault,
                code,
                "command terminal status requires both durable process identities"@,
            )
            &&& known && status.state == JobState::Cancelled && status.child_pid is None
                && status.error_code != Some("CANCELLED_PRELAUNCH"@) ==> told(
                fault,
                code,
                "no-child cancelled status must be the deliberate prelaunch cancellation form"@,
            )
            &&& known && status.state == JobState::Lost && status.supervisor_pid is None ==> told(
                fault,
                code,
                "lost accepted job requires a durable supervisor identity"@,
            )
            &&& known && (status.state == JobState::Running || ((status.state
                == JobState::Succeeded || status.state == JobState::Failed) && status.child_pid
                is Some)) && status.error_code is Some ==> told(
                fault,
                code,
                "ordinary lifecycle status cannot carry an infrastructure error"@,
            )
            &&& known && status.child_pid is Some && (status.state == JobState::Cancelled
                || status.state == JobState::TimedOut || status.state == JobState::Lost)
                && status.error_code is None ==> told(
                fault,
                code,
                "infrastructure terminal status requires an error code"@,
            )
            &&& known && status.state == JobState::Running && status.error_code is None
                && status.updated_at_millis < meta.created_at_millis ==> told(
                fault,
                code,
                "mutable job status predates durable acceptance"@,
            )
        }),
{
    coherent_statuses_are_accepted(status);
}

/// What is told where a job's lease is broken, missing or another's, of a query
/// and of a cancellation.
pub proof fn broken_leases_are_told(files: JobFiles, lease: LeaseRecord, request: CancelModel)
    requires
        files.meta is Some,
        files.status is Some,
        !has_ended(files.status->0.state),
    ensures
        ({
            let meta = files.meta->0@;
            let held = LeaseEvidence::Held { lease };
            &&& told(
                held_job_fault(files, LeaseEvidence::Invalid),
                "JOB_STATE_INVALID"@,
                "live lease is invalid"@,
            )
            &&& told(
                held_job_fault(files, LeaseEvidence::Absent),
                "JOB_STATE_INVALID"@,
                "nonterminal job has no live lease"@,
            )
            &&& lease@.fault() is Some ==> told(
                held_job_fault(files, held),
                "JOB_STATE_INVALID"@,
                "live lease is invalid"@,
            )
            &&& lease@.fault() is None && !lease_holds_job(meta, lease@) ==> told(
                held_job_fault(files, held),
                "JOB_ID_CONFLICT"@,
                "nonterminal job metadata does not match the live lease"@,
            )
            &&& told(
                cancelled_job_fault(files, LeaseEvidence::Invalid, request),
                "JOB_STATE_INVALID"@,
                "live lease is invalid"@,
            )
            &&& told(
                cancelled_job_fault(files, LeaseEvidence::Absent, request),
                "JOB_STATE_INVALID"@,
                "nonterminal cancellation target has no live lease"@,
            )
            &&& lease.job_id != meta.job_id ==> told(
                cancelled_job_fault(files, held, request),
                "JOB_STATE_INVALID"@,
                "nonterminal cancellation target has no live lease"@,
            )
            &&& lease@.fault() is None && lease_holds_job(meta, lease@) && (request.job_id
                != lease.job_id || request.client_id != lease.client_id || request.lease_token
                != lease.lease_token || request.request_fingerprint
                != lease.request_fingerprint.text@) ==> told(
                cancelled_job_fault(files, held, request),
                "JOB_ID_CONFLICT"@,
                "cancel request does not match the live lease"@,
            )
        }),
{
}

/// A cancellation that the supervisor's lock keeps waiting for too long is
/// refused where there is still something to cancel.
pub proof fn long_waits_are_told(service: JobService, request: CancelModel, meta: JobMeta, lease: LeaseRecord)
    requires
        cancel_authority_fault(service, request) is None,
        service.files matches Some(files) && files.meta == Some(meta),
        service.lease == (LeaseEvidence::Held { lease }),
        lease.job_id == meta.job_id,
    ensures
        told(
            cancel_fault(service, request, (CancelFence::Busy { expired: true })),
            "SUPERVISOR_LOCK_PENDING"@,
            "supervisor handoff did not become available during cancellation"@,
        ),
        cancel_fault(service, request, (CancelFence::Busy { expired: false })) is None,
        cancel_fault(service, request, CancelFence::Held) is None,
        cancel_fault(service, request, CancelFence::Untried) is None,
{
}

/// A task's turn is cancelled where the turn is the pending one and its lease is
/// the task's; a turn that has finished meanwhile needs no lease.
pub proof fn turns_of_others_are_not_cancelled(
    task: TaskProgress,
    turn_id: JobId,
    lease: LeaseRecord,
    project_id: Seq<char>,
    worktree_id: Seq<char>,
)
    ensures
        ({
            let absent = cancel_task_fault(task, turn_id, None, project_id, worktree_id);
            let present = cancel_task_fault(task, turn_id, Some(lease), project_id, worktree_id);
            let done = task.state == TaskState::Open && task.finished(turn_id);
            let pending = task.state == TaskState::Active && task.pending(turn_id);
            &&& done ==> absent is None && present is None
            &&& !done && !pending ==> told(
                absent,
                "TASK_CLOSED"@,
                "task does not have the requested active turn"@,
            ) && told(
                present,
                "TASK_CLOSED"@,
                "task does not have the requested active turn"@,
            )
            &&& pending ==> told(absent, "TASK_NOT_FOUND"@, "active task lease is absent"@)
            &&& pending && lease.job_id != turn_id ==> told(
                present,
                "TASK_NOT_FOUND"@,
                "active task lease is absent"@,
            )
            &&& pending && lease.job_id == turn_id && (lease.project_id@ != project_id
                || lease.worktree_id@ != worktree_id) ==> told(
                present,
                "TASK_TURN_CONFLICT"@,
                "active task lease does not match task metadata"@,
            )
            &&& pending && lease.job_id == turn_id && lease.project_id@ == project_id
                && lease.worktree_id@ == worktree_id ==> present is None
        }),
{
}

/// A turn's ending is published again where the turn is the pending one of its
/// task; another turn of the task is in its way.
pub proof fn other_turns_are_in_the_way(
    section: Option<TurnSection>,
    task: TaskProgress,
    job_id: JobId,
    status: StatusModel,
)
    ensures
        ({
            let fault = terminal_publication_fault(section, task, job_id, status);
            &&& section is None || task.state != TaskState::Active ==> fault is None
            &&& section is Some && task.state == TaskState::Active && !task.pending(job_id) ==> told(
                fault,
                "TASK_TURN_CONFLICT"@,
                "terminal job retains a turn payload but task has another active turn"@,
            )
            &&& section is Some && task.state == TaskState::Active && task.pending(job_id) ==> fault
                == turn_recovery_fault(status)
        }),
        status.state == JobState::Failed && status.exit_code is None && status.terminating_signal
            is None ==> told(
            turn_recovery_fault(status),
            "JOB_STATE_INVALID"@,
            "failed turn status has no command outcome"@,
        ),
        !has_ended(status.state) ==> told(
            turn_recovery_fault(status),
            "JOB_STATE_INVALID"@,
            "turn publication recovery requires a terminal job status"@,
        ),
        has_ended(status.state) && status.state != JobState::Failed ==> turn_recovery_fault(status)
            is None,
{
}

/// An unindexed job is not found without its own lease or its directory.
pub proof fn unindexed_jobs_need_their_lease(
    job_id: JobId,
    lease: LeaseRecord,
    directory: UnindexedDirectory,
)
    ensures
        told(
            unindexed_fault(job_id, LeaseEvidence::Invalid, directory),
            "JOB_STATE_INVALID"@,
            "live lease is invalid"@,
        ),
        told(
            unindexed_fault(job_id, LeaseEvidence::Absent, directory),
            "JOB_NOT_FOUND"@,
            "job ID is not indexed"@,
        ),
        lease.job_id != job_id ==> told(
            unindexed_fault(job_id, (LeaseEvidence::Held { lease }), directory),
            "JOB_NOT_FOUND"@,
            "job ID is not indexed"@,
        ),
        lease.job_id == job_id ==> told(
            unindexed_fault(
                job_id,
                (LeaseEvidence::Held { lease }),
                UnindexedDirectory::Missing,
            ),
            "JOB_NOT_FOUND"@,
            "job ID is not indexed"@,
        ) && told(
            unindexed_fault(job_id, (LeaseEvidence::Held { lease }), UnindexedDirectory::Unsafe),
            "JOB_STATE_INVALID"@,
            "unindexed final job directory is unsafe"@,
        ),
        (directory matches UnindexedDirectory::Open { files } && lease.job_id == job_id
            && files.meta is None) ==> told(
            unindexed_fault(job_id, (LeaseEvidence::Held { lease }), directory),
            "JOB_STATE_INVALID"@,
            "unindexed final metadata is invalid"@,
        ),
        (directory matches UnindexedDirectory::Open { files } && lease.job_id == job_id && (
        files.meta matches Some(meta) && live_lease_fault(meta@, lease@) is None) && files.status
            is None) ==> told(
            unindexed_fault(job_id, (LeaseEvidence::Held { lease }), directory),
            "JOB_STATE_INVALID"@,
            "unindexed final status is invalid"@,
        ),
        (directory matches UnindexedDirectory::Open { files } && lease.job_id == job_id && (
        files.meta matches Some(meta) && live_lease_fault(meta@, lease@) is None && (
        files.status matches Some(status) && status@ != bare_status(
            JobState::Accepted,
            meta.created_at_millis,
        )))) ==> told(
            unindexed_fault(job_id, (LeaseEvidence::Held { lease }), directory),
            "JOB_STATE_INVALID"@,
            "unindexed final job is not an exact prelaunch Accepted job"@,
        ),
{
}

/// A submission is checked against itself, then against the index, and then
/// against its lease, without which nothing new is accepted.
pub proof fn submissions_are_checked_in_order(evidence: SubmitEvidence, request: SubmitModel)
    ensures
        request.bound().fault() is Some ==> submit_fault(evidence, request)
            == request.bound().fault(),
        (request.bound().fault() is None && (evidence.disposition matches Some(
            JobDisposition::Abandoned { identity },
        ) && identity@.is_for(request.bound()))) ==> told(
            submit_fault(evidence, request),
            "JOB_ABANDONED"@,
            "job ID was permanently abandoned"@,
        ),
        (request.bound().fault() is None && (evidence.disposition matches Some(held)
            && !disposition_identity(held)@.is_for(request.bound()))) ==> told(
            submit_fault(evidence, request),
            "JOB_ID_CONFLICT"@,
            "job ID belongs to another immutable request"@,
        ),
        request.bound().fault() is None && evidence.disposition is None && (evidence.lease is None
            || evidence.lease->0.job_id != request.material.job_id) ==> told(
            submit_fault(evidence, request),
            "LEASE_MISSING"@,
            "matching live lease is absent"@,
        ),
        (request.bound().fault() is None && evidence.disposition is None && (
        evidence.lease matches Some(lease) && lease.job_id == request.material.job_id
            && lease@.fault() is None && !lease_is_of(lease@, request))) ==> told(
            submit_fault(evidence, request),
            "JOB_ID_CONFLICT"@,
            "live lease does not match the immutable submit request"@,
        ),
{
}

/// A job's recorded facts are checked before they are held against the request.
pub proof fn recorded_facts_are_checked_first(
    meta: MetaModel,
    request: SubmitModel,
    lease: LeaseModel,
    identity: ResolutionModel,
)
    ensures
        meta.fault() is Some ==> exact_meta_fault(meta, request, lease) == meta.fault()
            && resolution_meta_fault(identity, meta) == meta.fault(),
        meta.fault() is None && !meta_is_of(meta, request, lease) ==> told(
            exact_meta_fault(meta, request, lease),
            "JOB_ID_CONFLICT"@,
            "canonical job metadata does not match the immutable request"@,
        ),
        meta.fault() is None && !meta_is_of_resolution(meta, identity) ==> told(
            resolution_meta_fault(identity, meta),
            "JOB_ID_CONFLICT"@,
            "accepted metadata belongs to another immutable request"@,
        ),
        lease.fault() is Some ==> exact_lease_fault(lease, request) == lease.fault(),
{
}

/// A supervisor that another candidate started, that failed before its command,
/// or that did not show in time is told apart.
pub proof fn failed_handshakes_are_told(candidate: ProcessIdentity, status: StatusModel)
    ensures
        (status.supervisor() matches Some(identity) && identity != candidate) ==> told(
            handshake_fault(candidate, status, true),
            "SUPERVISOR_HANDSHAKE"@,
            "durable supervisor identity belongs to another candidate"@,
        ) && told(
            handshake_fault(candidate, status, false),
            "SUPERVISOR_HANDSHAKE"@,
            "durable supervisor identity belongs to another candidate"@,
        ),
        status.supervisor() == Some(candidate) && prelaunch_terminal(status) ==> told(
            handshake_fault(candidate, status, true),
            "SUPERVISOR_PRELAUNCH_FAILED"@,
            "supervisor recorded a terminal failure before command execution"@,
        ) && told(
            handshake_fault(candidate, status, false),
            "SUPERVISOR_PRELAUNCH_FAILED"@,
            "supervisor recorded a terminal failure before command execution"@,
        ),
        status.supervisor() == Some(candidate) && (status.state == JobState::Uploading
            || status.state == JobState::Verified) ==> told(
            handshake_fault(candidate, status, false),
            "SUPERVISOR_PRELAUNCH_FAILED"@,
            "supervisor recorded a terminal failure before child launch"@,
        ),
        status.supervisor() is None ==> told(
            handshake_fault(candidate, status, true),
            "SUPERVISOR_HANDSHAKE_TIMEOUT"@,
            "supervisor identity was not durably observed within five seconds"@,
        ) && handshake_fault(candidate, status, false) is None,
{
}

/// A job is taken over only under its lease, and only before its launch.
pub proof fn strange_jobs_are_not_taken_over(
    lease: LeaseRecord,
    job: JobRecords,
    request: SubmitModel,
)
    ensures
        told(
            take_over_fault(None, job, request),
            "LEASE_MISSING"@,
            "matching live lease is absent"@,
        ),
        lease@.fault() is None && !lease_is_of(lease@, request) ==> told(
            take_over_fault(Some(lease), job, request),
            "JOB_ID_CONFLICT"@,
            "live lease does not match the immutable submit request"@,
        ),
        exact_lease_fault(lease@, request) is None && exact_meta_fault(job.meta@, request, lease@)
            is None && coherent(job.status@) && job.status.supervisor_pid is None && (
        job.status.state == JobState::Uploading || job.status.state == JobState::Verified) ==> told(
            take_over_fault(Some(lease), job, request),
            "JOB_ID_CONFLICT"@,
            "supervisor retry found a non-prelaunch job state"@,
        ),
{
    coherent_statuses_are_accepted(job.status@);
}

/// A turn's target must be there exactly where results are pushed, and be the
/// one that the task was pinned to.
pub proof fn wrong_targets_are_told(pinned: Option<Seq<char>>, actual: Seq<char>, expected: Seq<char>)
    ensures
        origin_fault(pinned, false, None) is None,
        told(
            origin_fault(pinned, true, None),
            "REQUEST_CONFLICT"@,
            "push publication has no origin target"@,
        ),
        told(
            origin_fault(pinned, false, Some(actual)),
            "REQUEST_CONFLICT"@,
            "turn has an unexpected origin target"@,
        ),
        told(
            origin_fault(None, true, Some(actual)),
            "REQUEST_CONFLICT"@,
            "push publication has no pinned origin target"@,
        ),
        actual != expected ==> told(
            origin_fault(Some(expected), true, Some(actual)),
            "REQUEST_CONFLICT"@,
            "turn origin target does not match the task"@,
        ),
        origin_fault(Some(actual), true, Some(actual)) is None,
{
}

/// Why a new turn is refused: its lease, its preparation, its worker, its terms
/// and its session are looked at in this order.
pub proof fn unprepared_turns_are_told(
    evidence: TurnEvidence,
    request: SubmitModel,
    turn: TurnFacts,
    lease: LeaseRecord,
)
    requires
        evidence.disposition is None,
        request.bound().fault() is None,
    ensures
        ({
            let fault = submit_turn_fault(evidence, request, turn);
            let leased = evidence.lease == Some(lease) && lease.job_id == request.material.job_id
                && exact_lease_fault(lease@, request) is None;
            let prepared = evidence.resumed || (evidence.progress.state == TaskState::Active
                && evidence.progress.pending(request.material.job_id));
            &&& evidence.lease is None || evidence.lease->0.job_id != request.material.job_id
                ==> told(fault, "LEASE_MISSING"@, "matching task lease is absent"@)
            &&& leased && !prepared && !(turn.resume && evidence.progress.state == TaskState::Open)
                ==> told(
                fault,
                "TASK_BUSY"@,
                "task does not have the requested prepared active turn"@,
            )
            &&& leased && !prepared && turn.resume && evidence.progress.state == TaskState::Open
                ==> fault is None
            &&& leased && prepared && evidence.progress.last_turn is None ==> told(
                fault,
                "REQUEST_CONFLICT"@,
                "prepared turn history is absent"@,
            )
            &&& leased && prepared && evidence.progress.last_turn is Some && opt_text(
                evidence.progress.worker,
            ) != Some(lease.worker_name@) ==> told(
                fault,
                "TASK_TURN_CONFLICT"@,
                "turn worker does not match the task's selected worker"@,
            )
            &&& leased && prepared && evidence.progress.last_turn is Some && opt_text(
                evidence.progress.worker,
            ) == Some(lease.worker_name@) && !turn_fits_task(evidence, request, turn) ==> told(
                fault,
                "REQUEST_CONFLICT"@,
                "turn does not match the prepared task"@,
            )
            &&& leased && prepared && evidence.progress.last_turn is Some && opt_text(
                evidence.progress.worker,
            ) == Some(lease.worker_name@) && turn_fits_task(evidence, request, turn) && turn.resume
                && !evidence.session_bound ==> told(
                fault,
                "SESSION_UNBOUND"@,
                "resumed turn requires a bound agent session"@,
            )
        }),
{
}

/// What is told of a lease and of an acceptance that are another request's, when
/// a request is resolved.
pub proof fn other_requests_are_told(
    identity: ResolutionModel,
    lease: LeaseRecord,
    later: LeaseRecord,
    disposition: JobDisposition,
    meta: JobMeta,
)
    ensures
        request_lease(identity, None) is None,
        request_lease(identity, Some(lease)) == if lease.job_id == identity.job_id {
            Some(lease)
        } else {
            None
        },
        lease.job_id != identity.job_id ==> live_fault(identity, Some(lease)) is None,
        lease.job_id == identity.job_id && !leased_for(identity, lease@) ==> told(
            live_fault(identity, Some(lease)),
            "JOB_ID_CONFLICT"@,
            "live lease belongs to another immutable request"@,
        ),
        lease@ != later@ ==> told(
            lease_change_fault(Some(lease), Some(later)),
            "JOB_ID_CONFLICT"@,
            "live lease changed before abandonment selection"@,
        ),
        told(
            lease_change_fault(Some(lease), None),
            "JOB_ID_CONFLICT"@,
            "exact live lease disappeared before abandonment selection"@,
        ),
        lease_change_fault(None, Some(later)) is None,
        !indexed_for(identity, disposition_identity(disposition)@) ==> told(
            accepted_meta_fault(identity, disposition, None),
            "JOB_ID_CONFLICT"@,
            "accepted disposition belongs to another immutable request"@,
        ),
        indexed_for(identity, disposition_identity(disposition)@) ==> told(
            accepted_meta_fault(identity, disposition, None),
            "JOB_ID_CONFLICT"@,
            "accepted final job is absent or unsafe"@,
        ) && told(
            accepted_meta_fault(identity, disposition, Some(None)),
            "JOB_ID_CONFLICT"@,
            "accepted metadata is invalid"@,
        ) && accepted_meta_fault(identity, disposition, Some(Some(meta))) == resolution_meta_fault(
            identity,
            meta@,
        ),
{
}

/// A supervisor is elected only for a job that was not launched, whose files are
/// complete and whose workspace is the snapshot that was asked for.
pub proof fn unready_elections_are_told(
    job: JobRecords,
    request: SubmitModel,
    lease: LeaseModel,
    prelaunch: Option<PrelaunchEvidence>,
    workspace_matches: bool,
    limit: u64,
)
    requires
        exact_meta_fault(job.meta@, request, lease) is None,
        coherent(job.status@),
    ensures
        ({
            let fault = election_fault(job, request, lease, prelaunch, workspace_matches, limit);
            let waiting = job.status.state == JobState::Accepted && job.status.child_pid is None;
            let complete = prelaunch is Some && prelaunch->0.job_fault(request, limit) is None;
            &&& job.status.supervisor_pid is Some ==> fault == prelaunch_fault(job.status@)
            &&& job.status.supervisor_pid is None && !waiting ==> told(
                fault,
                "JOB_ID_CONFLICT"@,
                "supervisor election found a non-prelaunch job state"@,
            )
            &&& job.status.supervisor_pid is None && waiting && !complete ==> told(
                fault,
                "JOB_ID_CONFLICT"@,
                "indexed final job is not an exact complete prelaunch job"@,
            )
            &&& job.status.supervisor_pid is None && waiting && complete && !workspace_matches
                ==> told(
                fault,
                "JOB_ID_CONFLICT"@,
                "indexed final workspace does not match the verified snapshot"@,
            )
            &&& job.status.supervisor_pid is None && waiting && complete && workspace_matches
                ==> fault is None
        }),
{
    coherent_statuses_are_accepted(job.status@);
    statuses_name_their_processes(job.status@);
}

/// A request is not given up where another one was, nor where its remains are
/// those of an accepted job.
pub proof fn unresolvable_requests_are_told(
    identity: ResolutionModel,
    evidence: ResolutionEvidence,
    before: Option<LeaseRecord>,
    canonical: Seq<u8>,
)
    ensures
        (evidence.disposition matches Some(JobDisposition::Abandoned { identity: other })
            && !indexed_for(identity, other@)) ==> told(
            resolution_fault(identity, evidence, before, canonical),
            "JOB_ID_CONFLICT"@,
            "abandonment belongs to another immutable request"@,
        ),
        (evidence.disposition matches Some(JobDisposition::Accepted { .. })) ==> resolution_fault(
            identity,
            evidence,
            before,
            canonical,
        ) == accepted_meta_fault(identity, evidence.disposition->0, evidence.accepted_meta),
        evidence.disposition is None && evidence.live is None && before is None && final_fault(
            identity,
            evidence.directory,
            canonical,
        ) is None && final_kind(evidence.directory) == Some(ResolutionFinal::Complete) ==> told(
            resolution_fault(identity, evidence, before, canonical),
            "JOB_ID_CONFLICT"@,
            "complete accepted evidence conflicts with abandonment state"@,
        ),
        evidence.disposition is None && evidence.live is None && before is None && final_fault(
            identity,
            evidence.directory,
            canonical,
        ) is Some ==> resolution_fault(identity, evidence, before, canonical) == final_fault(
            identity,
            evidence.directory,
            canonical,
        ),
{
}

/// An accepted turn's payload must have a section, and it must be this turn's.
pub proof fn other_sections_are_told(
    payload: PayloadModel,
    section: TurnSectionModel,
    request: SubmitModel,
    turn: TurnFacts,
)
    ensures
        payload.turn is None ==> told(
            accepted_payload_fault(payload, request, turn),
            "JOB_ID_CONFLICT"@,
            "accepted turn job has no durable turn section"@,
        ),
        payload.turn == Some(section) && payload.turn_fault(request, section) is Some
            ==> accepted_payload_fault(payload, request, turn) == payload.turn_fault(
            request,
            section,
        ),
        payload.turn == Some(section) && payload.turn_fault(request, section) is None
            && section.turn != turn.canonical@ ==> told(
            accepted_payload_fault(payload, request, turn),
            "REQUEST_CONFLICT"@,
            "accepted turn job belongs to another turn"@,
        ),
        payload.turn == Some(section) && payload.turn_fault(request, section) is None
            && section.turn == turn.canonical@ ==> accepted_payload_fault(payload, request, turn)
            is None,
{
}

/// A request is rebuilt only from a payload that is the job's.
pub proof fn strange_reconstructions_are_told(
    payload: ExecutionPayload,
    meta: MetaModel,
    lease: LeaseModel,
)
    ensures
        told(
            reconstruction_fault(None, meta, lease),
            "JOB_STATE_INVALID"@,
            "identityless accepted payload is invalid"@,
        ),
        payload@.durable_fault(lease, meta) is Some ==> told(
            reconstruction_fault(Some(payload), meta, lease),
            "JOB_ID_CONFLICT"@,
            "execution payload identity differs"@,
        ),
{
}

} // verus!
