//! Accepting a job once, launching it, and settling what became of it.
use vstd::prelude::*;
use crate::host_store::{IndexedIdentity, JobDisposition};
use crate::job::control::SubmitResponse;
use crate::job::record::{JobMeta, LeaseRecord};
use crate::job::request::{ResolveOrAbandonRequest, SubmitRequest};
use crate::job::status::{JobState, JobStatus, ProcessIdentity, StatusModel};
use crate::job_service::identity::{
    accepted_fault, exact_lease_fault, exact_meta_fault, indexed_for, lease_is_of, leased_for,
    live_lease_fault, prelaunch_fault, resolution_meta_fault, turn_recovery, turn_recovery_fault,
};
use crate::job_service::query::{index_names, never_launched};
use crate::job_service::submit::{
    election_fault, handshake_fault, job_supervision_step, settled, submit_fault, submit_step,
    take_over_fault, JobOrigin, JobRecords, SubmitEvidence, SubmitStep, SupervisionStep,
};
use crate::laws::status::{
    coherent, coherent_statuses_are_accepted, has_ended, statuses_name_their_processes,
};
use crate::task::{TerminalPath, TurnTerminal};

verus! {

/// A lease is that of a request exactly where it repeats the request.
pub proof fn exact_leases_repeat_the_request(lease: LeaseRecord, request: SubmitRequest)
    ensures
        lease_is_of(lease@, request@) <==> {
            let material = request.material;
            &&& lease.job_id == material.job_id
            &&& lease.client_id == material.client_id
            &&& lease.lease_token == material.lease_token
            &&& lease.request_fingerprint.text@ == request.request_fingerprint.text@
            &&& lease.worker_name@ == material.worker_name@
            &&& lease.project_id@ == material.project_id@
            &&& lease.worktree_id@ == material.worktree_id@
            &&& lease.manifest_digest@ == material.manifest_digest@
            &&& lease.timeout_millis == material.timeout_millis
            &&& lease.resource_class@ == material.resource_class@
            &&& lease.command_summary == material.command@.summarized()
        },
        exact_lease_fault(lease@, request@) is None <==> lease@.fault() is None && lease_is_of(
            lease@,
            request@,
        ),
{
}

/// The lease of a running job agrees with its facts in every name.
pub proof fn live_leases_repeat_the_facts(meta: JobMeta, lease: LeaseRecord)
    ensures
        live_lease_fault(meta@, lease@) is None <==> {
            &&& lease@.fault() is None
            &&& meta.job_id == lease.job_id
            &&& meta.client_id == lease.client_id
            &&& meta.request_fingerprint.text@ == lease.request_fingerprint.text@
            &&& meta.worker_name@ == lease.worker_name@
            &&& meta.project_id@ == lease.project_id@
            &&& meta.worktree_id@ == lease.worktree_id@
            &&& meta.manifest_digest@ == lease.manifest_digest@
            &&& meta.timeout_millis == lease.timeout_millis
            &&& meta.resource_class@ == lease.resource_class@
            &&& meta.command_summary == lease.command_summary
        },
{
}

/// A job's facts are those of a request under a lease exactly where they repeat
/// the request and the lease is the job's.
pub proof fn exact_facts_repeat_the_request(
    meta: JobMeta,
    request: SubmitRequest,
    lease: LeaseRecord,
)
    ensures
        exact_meta_fault(meta@, request@, lease@) is None <==> {
            let material = request.material;
            &&& meta@.fault() is None
            &&& meta.job_id == material.job_id
            &&& meta.client_id == material.client_id
            &&& meta.worker_name@ == material.worker_name@
            &&& meta.project_id@ == material.project_id@
            &&& meta.worktree_id@ == material.worktree_id@
            &&& meta.manifest_digest@ == material.manifest_digest@
            &&& meta.request_fingerprint.text@ == request.request_fingerprint.text@
            &&& meta.command_summary == material.command@.summarized()
            &&& meta.relative_working_dir@ == material.relative_working_dir@
            &&& meta.timeout_millis == material.timeout_millis
            &&& meta.resource_class@ == material.resource_class@
            &&& meta.created_at_millis == material.created_at_millis
            &&& lease.job_id == meta.job_id
            &&& lease.client_id == meta.client_id
            &&& lease.request_fingerprint.text@ == meta.request_fingerprint.text@
        },
{
}

/// What a client wants settled is a job exactly where the job's facts, its index
/// entry or its lease repeat what the client names.
pub proof fn settled_records_repeat_the_request(
    identity: ResolveOrAbandonRequest,
    meta: JobMeta,
    entry: IndexedIdentity,
    lease: LeaseRecord,
)
    ensures
        resolution_meta_fault(identity@, meta@) is None <==> {
            &&& meta@.fault() is None
            &&& meta.job_id == identity.job_id
            &&& meta.client_id == identity.client_id
            &&& meta.created_at_millis == identity.created_at_millis
            &&& meta.request_fingerprint.text@ == identity.request_fingerprint.text@
            &&& meta.worker_name@ == identity.worker_name@
            &&& meta.project_id@ == identity.project_id@
            &&& meta.worktree_id@ == identity.worktree_id@
            &&& meta.manifest_digest@ == identity.manifest_digest@
            &&& meta.relative_working_dir@ == identity.relative_working_dir@
            &&& meta.timeout_millis == identity.timeout_millis
            &&& meta.resource_class@ == identity.resource_class@
            &&& meta.command_summary == identity.command_summary
        },
        indexed_for(identity@, entry@) <==> {
            &&& entry.job_id == identity.job_id
            &&& entry.client_id == identity.client_id
            &&& entry.project_id@ == identity.project_id@
            &&& entry.worktree_id@ == identity.worktree_id@
            &&& entry.request_fingerprint.text@ == identity.request_fingerprint.text@
        },
        index_names(entry@, meta@) <==> {
            &&& entry.job_id == meta.job_id
            &&& entry.client_id == meta.client_id
            &&& entry.project_id@ == meta.project_id@
            &&& entry.worktree_id@ == meta.worktree_id@
            &&& entry.request_fingerprint.text@ == meta.request_fingerprint.text@
        },
        leased_for(identity@, lease@) <==> {
            &&& lease.job_id == identity.job_id
            &&& lease.client_id == identity.client_id
            &&& lease.lease_token == identity.lease_token
            &&& lease.request_fingerprint.text@ == identity.request_fingerprint.text@
            &&& lease.worker_name@ == identity.worker_name@
            &&& lease.project_id@ == identity.project_id@
            &&& lease.worktree_id@ == identity.worktree_id@
            &&& lease.manifest_digest@ == identity.manifest_digest@
            &&& lease.timeout_millis == identity.timeout_millis
            &&& lease.resource_class@ == identity.resource_class@
            &&& lease.command_summary == identity.command_summary
        },
{
}

/// A request is answered as one accepted before exactly where the index holds
/// an acceptance for this very request; one that was given up stays so.
pub proof fn accepted_requests_match_the_index(
    disposition: JobDisposition,
    request: SubmitRequest,
)
    ensures
        accepted_fault(disposition, request@) is None <==> {
            disposition matches JobDisposition::Accepted { identity, status } && identity.job_id
                == request.material.job_id && identity.client_id == request.material.client_id
                && identity.project_id@ == request.material.project_id@ && identity.worktree_id@
                == request.material.worktree_id@ && identity.request_fingerprint.text@
                == request.request_fingerprint.text@ && coherent(status@)
        },
{
    if let JobDisposition::Accepted { status, .. } = disposition {
        coherent_statuses_are_accepted(status@);
    }
}

/// A lease that was granted for a request, with all that this takes.
pub open spec fn granted(lease: LeaseRecord, request: SubmitRequest) -> bool {
    lease@.fault() is None && lease_is_of(lease@, request@)
}

/// A new request under its own lease is published.
pub proof fn new_jobs_are_published(
    evidence: SubmitEvidence,
    request: SubmitRequest,
    lease: LeaseRecord,
    step: SubmitStep,
)
    requires
        request@.bound().fault() is None,
        evidence.disposition is None,
        evidence.lease == Some(lease),
        granted(lease, request),
    ensures
        submit_fault(evidence, request@) is None,
        submit_step(step, evidence, request@) ==> step is Publish,
{
}

/// Without a lease for it, no new job is published; a lease of another job does
/// not help.
pub proof fn unleased_jobs_are_refused(evidence: SubmitEvidence, request: SubmitRequest)
    requires
        evidence.disposition is None,
        evidence.lease is None || evidence.lease->0.job_id != request.material.job_id,
    ensures
        submit_fault(evidence, request@) is Some,
{
}

/// A request that was accepted before is answered from the job: the status is
/// asked for where no lease of the job is left; under its lease the job is read,
/// and one that has a supervisor is reported, while one that has none gets one.
pub proof fn accepted_jobs_are_replayed(
    evidence: SubmitEvidence,
    request: SubmitRequest,
    identity: IndexedIdentity,
    initial: JobStatus,
    step: SubmitStep,
)
    requires
        request@.bound().fault() is None,
        evidence.disposition == Some(JobDisposition::Accepted { identity, status: initial }),
        identity.job_id == request.material.job_id,
        identity.client_id == request.material.client_id,
        identity.project_id@ == request.material.project_id@,
        identity.worktree_id@ == request.material.worktree_id@,
        identity.request_fingerprint.text@ == request.request_fingerprint.text@,
        coherent(initial@),
        submit_step(step, evidence, request@),
    ensures
        (evidence.lease is None || evidence.lease->0.job_id != request.material.job_id)
            ==> submit_fault(evidence, request@) is None && step is QueryStatus,
        (evidence.lease is Some && granted(evidence.lease->0, request) && evidence.job is None)
            ==> submit_fault(evidence, request@) is None && step is ReadJob,
        (evidence.lease is Some && granted(evidence.lease->0, request) && (evidence.job matches Some(
            job,
        ) && exact_meta_fault(job.meta@, request@, evidence.lease->0@) is None && coherent(
            job.status@,
        ) && !has_ended(job.status.state))) ==> submit_fault(evidence, request@) is None && if (
        evidence.job->0.status.supervisor_pid is Some) {
            step matches SubmitStep::Answer { response } && (
            response matches SubmitResponse::Existing { status } && status
                == evidence.job->0.status)
        } else {
            step is ElectSupervisor
        },
{
    coherent_statuses_are_accepted(initial@);
    if let Some(job) = evidence.job {
        coherent_statuses_are_accepted(job.status@);
        if coherent(job.status@) {
            statuses_name_their_processes(job.status@);
        }
    }
}

/// A job whose command never ran is told from every other: it has ended, and
/// either no child was recorded or the code is one of six.
pub proof fn prelaunch_ends_are_told_apart(status: StatusModel)
    requires
        coherent(status),
    ensures
        prelaunch_fault(status) is Some <==> {
            &&& has_ended(status.state)
            &&& status.child_pid is None || status.error_code == Some("PAYLOAD_ERASURE_FAILED"@)
                || status.error_code == Some("CHILD_GATE_INVALID"@) || status.error_code == Some(
                "CHILD_EXEC_INVALID"@,
            ) || status.error_code == Some("CHILD_GO_FAILED"@) || status.error_code == Some(
                "CHILD_PRE_GO_FAILED"@,
            ) || status.error_code == Some("EXEC_FAILED"@)
        },
{
    coherent_statuses_are_accepted(status);
    statuses_name_their_processes(status);
}

/// A launch is observed where the durable supervisor is the candidate itself
/// and the job goes on or has ended after its command ran; while no supervisor
/// is recorded it is waited for, until the time is over.
pub proof fn launches_are_observed(candidate: ProcessIdentity, status: StatusModel, expired: bool)
    requires
        coherent(status),
        status.state != JobState::Uploading,
        status.state != JobState::Verified,
    ensures
        status.supervisor_pid is None ==> (handshake_fault(candidate, status, expired) is Some
            <==> expired),
        status.supervisor_pid is Some ==> (handshake_fault(candidate, status, expired) is None
            <==> status.supervisor_pid == Some(candidate.pid) && status.supervisor_start_identity
            == Some(candidate.start_time_micros) && prelaunch_fault(status) is None),
{
    coherent_statuses_are_accepted(status);
    statuses_name_their_processes(status);
}

/// A job that is exact, was never launched and has its verified workspace is
/// launched by the winner of the supervisor's lock; one that got a supervisor
/// meanwhile is not.
pub proof fn elected_supervisors_launch(
    job: JobRecords,
    request: SubmitRequest,
    lease: LeaseRecord,
    prelaunch: crate::job_service::evidence::PrelaunchEvidence,
    limit: u64,
)
    requires
        exact_meta_fault(job.meta@, request@, lease@) is None,
        coherent(job.status@),
        job.status.state == JobState::Accepted,
        job.status.supervisor_pid is None,
        prelaunch.job_fault(request@, limit) is None,
    ensures
        election_fault(job, request@, lease@, Some(prelaunch), true, limit) is None,
        election_fault(job, request@, lease@, Some(prelaunch), false, limit) is Some,
        election_fault(job, request@, lease@, None, true, limit) is Some,
{
    coherent_statuses_are_accepted(job.status@);
    statuses_name_their_processes(job.status@);
}

/// A job is settled once it has a supervisor or has ended; until then it may be
/// taken over under its own lease.
pub proof fn unsettled_jobs_are_taken_over(
    job: JobRecords,
    request: SubmitRequest,
    lease: LeaseRecord,
)
    requires
        exact_meta_fault(job.meta@, request@, lease@) is None,
        coherent(job.status@),
        granted(lease, request),
    ensures
        settled(job.status@) <==> job.status.supervisor_pid is Some || has_ended(job.status.state),
        job.status.state == JobState::Accepted ==> take_over_fault(Some(lease), job, request@)
            is None,
        take_over_fault(None, job, request@) is Some,
{
    coherent_statuses_are_accepted(job.status@);
    statuses_name_their_processes(job.status@);
}

/// Whoever wins the lock launches the job, whatever its origin; a loser waits
/// only for jobs that were there before.
pub proof fn lock_winners_launch(
    origin: JobOrigin,
    meta: JobMeta,
    status: JobStatus,
    won: SupervisionStep,
    lost: SupervisionStep,
)
    requires
        job_supervision_step(won, origin, true, meta, status),
        job_supervision_step(lost, origin, false, meta, status),
    ensures
        won is Launch,
        lost is AwaitSupervisor <==> origin == JobOrigin::Repaired || origin == JobOrigin::Replayed,
        lost matches SupervisionStep::Answer { response } ==> match response {
            SubmitResponse::Accepted { meta: m, status: s } => origin == JobOrigin::New && *m
                == meta && s == status,
            SubmitResponse::Existing { status: s } => origin == JobOrigin::TakenOver && s == status,
        },
        !(lost is Launch),
{
}

/// How a job ended is told to its task: by the exit code, by the signal as a
/// negative number, or by the host; a job that goes on tells nothing.
pub proof fn endings_are_told(status: StatusModel)
    requires
        coherent(status),
    ensures
        turn_recovery_fault(status) is None <==> has_ended(status.state),
        status.state == JobState::Succeeded ==> turn_recovery(status) == Some(
            (
                TurnTerminal::Succeeded,
                TerminalPath::ChildExit { code: 0i32 },
                Some(0i32),
            ),
        ),
        status.state == JobState::Failed && status.exit_code is Some ==> turn_recovery(status)
            == Some(
            (
                TurnTerminal::Failed,
                TerminalPath::ChildExit { code: status.exit_code->0 as i32 },
                Some(status.exit_code->0 as i32),
            ),
        ),
        status.state == JobState::Failed && status.terminating_signal is Some
            && status.terminating_signal->0 <= 2147483647 ==> (turn_recovery(status) matches Some(
            ending,
        ) && ending.0 == TurnTerminal::Cancelled && ending.2 is None && (
        ending.1 matches TerminalPath::ChildExit { code } && code
            == -(status.terminating_signal->0 as int))),
        status.state == JobState::Failed && status.terminating_signal is Some
            && status.terminating_signal->0 > 2147483647 ==> turn_recovery(status) == Some(
            (TurnTerminal::Cancelled, TerminalPath::ChildExit { code: -1i32 }, None::<i32>),
        ),
        status.state == JobState::Cancelled ==> turn_recovery(status) == Some(
            (TurnTerminal::Cancelled, TerminalPath::HostCancel, None::<i32>),
        ),
        status.state == JobState::TimedOut ==> turn_recovery(status) == Some(
            (TurnTerminal::TimedOut, TerminalPath::Timeout, None::<i32>),
        ),
        status.state == JobState::Lost ==> turn_recovery(status) == Some(
            (TurnTerminal::Lost, TerminalPath::LostReconciliation, None::<i32>),
        ),
{
}

/// A job was never launched exactly where it is accepted and names no process.
pub proof fn unlaunched_jobs_name_no_process(status: StatusModel)
    requires
        coherent(status),
    ensures
        never_launched(status) <==> status.state == JobState::Accepted && status.supervisor_pid
            is None && status.child_pid is None,
{
    coherent_statuses_are_accepted(status);
    statuses_name_their_processes(status);
}

} // verus!
