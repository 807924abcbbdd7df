//! One job on its host: what is reported of it, and how it is cancelled.
use vstd::prelude::*;
use crate::host_store::{IndexedIdentity, JobDisposition};
use crate::job::control::CancelRequest;
use crate::job::record::{JobMeta, LeaseRecord, MetaModel};
use crate::job::status::{bare_status, JobState, JobStatus, StatusModel};
use crate::job_service::cancel::{cancel_fault, cancel_step, cancelled, CancelFence, CancelStep};
use crate::job_service::evidence::LogEvidence;
use crate::job_service::identity::{live_lease_fault, queryable_fault};
use crate::job_service::query::{
    status_fault, status_step, JobFiles, JobService, LeaseEvidence, QueryPurpose, StatusStep,
    SupervisorEvidence,
};
use crate::laws::records::{
    job_facts_are_accepted, leases_are_accepted, names_work, startable, summarizes,
};
use crate::laws::status::{
    coherent, coherent_statuses_are_accepted, has_ended, statuses_name_their_processes,
};

verus! {

/// A status that an accepted job can have: it makes sense, does not go back
/// before the acceptance, and says how the job came to its end.
pub open spec fn fits_job(created: u64, status: StatusModel) -> bool {
    &&& coherent(status)
    &&& status.state != JobState::Uploading && status.state != JobState::Verified
    &&& status.updated_at_millis >= created
    &&& (status.state == JobState::Accepted && status.supervisor_pid is None)
        ==> status.updated_at_millis == created
    &&& (status.state == JobState::Succeeded || status.state == JobState::Failed || status.state
        == JobState::TimedOut) ==> status.child_pid is Some
    &&& (status.state == JobState::Cancelled && status.child_pid is None) ==> status.error_code
        == Some("CANCELLED_PRELAUNCH"@)
    &&& status.state == JobState::Lost ==> status.supervisor_pid is Some
    &&& (status.error_code is Some) == (status.state == JobState::Cancelled || status.state
        == JobState::TimedOut || status.state == JobState::Lost)
}

/// What a host shows of an accepted job is accepted exactly where the job's
/// facts name the work and its status is one that such a job can have.
pub proof fn accepted_jobs_are_shown(meta: MetaModel, status: StatusModel)
    ensures
        queryable_fault(meta, status) is None <==> meta.fault() is None && fits_job(
            meta.created_at_millis,
            status,
        ),
{
    coherent_statuses_are_accepted(status);
    if status.fault() is None {
        statuses_name_their_processes(status);
        if status.state == JobState::Accepted && status.supervisor_pid is None
            && status.error_code is None && status.updated_at_millis == meta.created_at_millis {
            assert(status == bare_status(JobState::Accepted, meta.created_at_millis));
        }
    }
}

/// The index, the job's files and its logs agree with one another.
pub open spec fn records_agree(
    service: JobService,
    identity: IndexedIdentity,
    initial: JobStatus,
    meta: JobMeta,
    status: JobStatus,
    stdout: u64,
    stderr: u64,
) -> bool {
    &&& service.disposition == Some(JobDisposition::Accepted { identity, status: initial })
    &&& service.files == Some(
        JobFiles {
            meta: Some(meta),
            status: Some(status),
            stdout: LogEvidence::Length { bytes: stdout },
            stderr: LogEvidence::Length { bytes: stderr },
        },
    )
    &&& identity.job_id == meta.job_id
    &&& identity.client_id == meta.client_id
    &&& identity.project_id@ == meta.project_id@
    &&& identity.worktree_id@ == meta.worktree_id@
    &&& identity.request_fingerprint.text@ == meta.request_fingerprint.text@
    &&& initial.state == JobState::Accepted
    &&& initial.updated_at_millis == meta.created_at_millis
    &&& initial.supervisor_pid is None && initial.supervisor_start_identity is None
    &&& initial.child_pid is None && initial.child_start_identity is None
    &&& initial.exit_code is None && initial.terminating_signal is None
    &&& initial.final_stdout_bytes is None && initial.final_stderr_bytes is None
    &&& initial.error_code is None && initial.cleanup_error_code is None
    &&& meta.protocol_version == 1
    &&& names_work(
        meta.worker_name@,
        meta.project_id@,
        meta.worktree_id@,
        meta.manifest_digest@,
        meta.resource_class@,
        meta.timeout_millis,
    )
    &&& startable(meta.relative_working_dir@)
    &&& summarizes(meta.command_summary)
    &&& fits_job(meta.created_at_millis, status@)
    &&& has_ended(status.state) ==> status.final_stdout_bytes == Some(stdout)
        && status.final_stderr_bytes == Some(stderr)
}

/// No lease of the job is held.
pub open spec fn unheld(service: JobService, meta: JobMeta) -> bool {
    match service.lease {
        LeaseEvidence::Invalid => false,
        LeaseEvidence::Absent => true,
        LeaseEvidence::Held { lease } => lease.job_id != meta.job_id,
    }
}

/// The job's own lease is held, and agrees with its facts.
pub open spec fn held(service: JobService, meta: JobMeta, lease: LeaseRecord) -> bool {
    &&& service.lease == (LeaseEvidence::Held { lease })
    &&& lease.job_id == meta.job_id
    &&& lease.client_id == meta.client_id
    &&& lease.request_fingerprint.text@ == meta.request_fingerprint.text@
    &&& lease.worker_name@ == meta.worker_name@
    &&& lease.project_id@ == meta.project_id@
    &&& lease.worktree_id@ == meta.worktree_id@
    &&& lease.manifest_digest@ == meta.manifest_digest@
    &&& lease.timeout_millis == meta.timeout_millis
    &&& lease.resource_class@ == meta.resource_class@
    &&& lease.command_summary == meta.command_summary
    &&& lease.created_at_millis <= lease.expires_at_millis
}

proof fn agreeing_records_have_no_fault(
    service: JobService,
    identity: IndexedIdentity,
    initial: JobStatus,
    meta: JobMeta,
    status: JobStatus,
    stdout: u64,
    stderr: u64,
)
    requires
        records_agree(service, identity, initial, meta, status, stdout, stderr),
    ensures
        crate::job_service::query::indexed_files_fault(identity@, initial@, service.files) is None,
        has_ended(status.state) ==> crate::job_service::evidence::ended_logs_fault(
            status@,
            service.files->0.stdout,
            service.files->0.stderr,
        ) is None,
        status@.state.terminal() == has_ended(status.state),
{
    job_facts_are_accepted(meta@);
    accepted_jobs_are_shown(meta@, status@);
    coherent_statuses_are_accepted(status@);
    assert(initial@ == bare_status(JobState::Accepted, meta.created_at_millis));
}

proof fn held_leases_have_no_fault(service: JobService, meta: JobMeta, lease: LeaseRecord)
    requires
        held(service, meta, lease),
        meta@.fault() is None,
    ensures
        live_lease_fault(meta@, lease@) is None,
        lease@.fault() is None,
{
    job_facts_are_accepted(meta@);
    leases_are_accepted(lease@);
}

/// An ended job whose records agree and of which no lease is held is confirmed,
/// with its recorded facts and status, to the client that it was accepted for,
/// whatever the supervisor's lock.
pub proof fn ended_jobs_are_confirmed(
    service: JobService,
    request: CancelRequest,
    fence: CancelFence,
    identity: IndexedIdentity,
    initial: JobStatus,
    meta: JobMeta,
    status: JobStatus,
    stdout: u64,
    stderr: u64,
    step: CancelStep,
)
    requires
        records_agree(service, identity, initial, meta, status, stdout, stderr),
        request.job_id == identity.job_id,
        request.client_id == identity.client_id,
        request.request_fingerprint.text@ == identity.request_fingerprint.text@,
        has_ended(status.state),
        unheld(service, meta),
    ensures
        cancel_fault(service, request@, fence) is None,
        cancel_step(step, service, fence) <==> step == (CancelStep::ConfirmCleanup {
            meta,
            status,
        }),
{
    agreeing_records_have_no_fault(service, identity, initial, meta, status, stdout, stderr);
}

/// A job whose own lease is held is cancelled for the holder of the lease: the
/// supervisor is fenced first and waited for while that is worth it; behind the
/// fence an ended job is cleaned up, one without a command is recorded as
/// cancelled, and any other has its command stopped.
pub proof fn held_jobs_are_cancelled(
    service: JobService,
    request: CancelRequest,
    fence: CancelFence,
    identity: IndexedIdentity,
    initial: JobStatus,
    meta: JobMeta,
    status: JobStatus,
    stdout: u64,
    stderr: u64,
    lease: LeaseRecord,
    step: CancelStep,
)
    requires
        records_agree(service, identity, initial, meta, status, stdout, stderr),
        request.job_id == identity.job_id,
        request.client_id == identity.client_id,
        request.request_fingerprint.text@ == identity.request_fingerprint.text@,
        held(service, meta, lease),
        request.lease_token == lease.lease_token,
    ensures
        cancel_fault(service, request@, fence) is None <==> fence != (CancelFence::Busy {
            expired: true,
        }),
        cancel_step(step, service, fence) ==> match fence {
            CancelFence::Untried => step is FenceSupervisor,
            CancelFence::Busy { .. } => step is Retry,
            CancelFence::Held => if has_ended(status.state) {
                step matches CancelStep::CleanUp { lease: l, meta: m, status: s } && l@ == lease@
                    && m == meta && s == status
            } else if status.child_pid is None {
                step matches CancelStep::CancelPrelaunch { lease: l, meta: m, status: s } && l@
                    == lease@ && m == meta && s == status
            } else {
                step matches CancelStep::StopChild { lease: l, meta: m, status: s, child } && l@
                    == lease@ && m == meta && s == status && Some(child.pid) == status.child_pid
                    && Some(child.start_time_micros) == status.child_start_identity
            },
        },
{
    agreeing_records_have_no_fault(service, identity, initial, meta, status, stdout, stderr);
    job_facts_are_accepted(meta@);
    held_leases_have_no_fault(service, meta, lease);
    coherent_statuses_are_accepted(status@);
    statuses_name_their_processes(status@);
}

/// Nothing is cancelled for a client whose request is not the accepted one, nor
/// for one without the lease's token, nor where the job goes on without a lease.
pub proof fn strangers_cancel_nothing(
    service: JobService,
    request: CancelRequest,
    fence: CancelFence,
)
    requires
        cancel_fault(service, request@, fence) is None,
    ensures
        service.disposition matches Some(JobDisposition::Accepted { identity, .. })
            && identity.job_id == request.job_id && identity.client_id == request.client_id
            && identity.request_fingerprint.text@ == request.request_fingerprint.text@,
        service.files matches Some(files) && files.meta is Some && files.status is Some,
        !(service.lease is Invalid),
        ({
            let meta = service.files->0.meta->0;
            let status = service.files->0.status->0;
            &&& meta.job_id == request.job_id
            &&& (service.lease matches LeaseEvidence::Held { lease } && lease.job_id
                == request.job_id) ==> (service.lease matches LeaseEvidence::Held { lease }
                && lease.lease_token == request.lease_token && lease.client_id == request.client_id
                && lease.request_fingerprint.text@ == request.request_fingerprint.text@)
            &&& !has_ended(status.state) ==> (service.lease matches LeaseEvidence::Held { lease }
                && lease.job_id == request.job_id)
        }),
{
    coherent_statuses_are_accepted(service.files->0.status->0@);
}

/// The purposes for which a job is put in order, and those for which a failed
/// cleanup is told.
pub proof fn purposes_decide(purpose: QueryPurpose)
    ensures
        purpose.puts_in_order() <==> purpose is Status || purpose is Log || purpose is Replay
            || purpose is Reconcile || purpose == (QueryPurpose::Resolution {
            ensure_supervisor: true,
        }),
        purpose.requires_cleanup() <==> purpose is Reconcile || purpose
            == (QueryPurpose::Resolution { ensure_supervisor: true }),
{
}

/// An answer in this version of the protocol about this job as it stands.
pub open spec fn tells(step: StatusStep, meta: JobMeta, status: JobStatus) -> bool {
    step matches StatusStep::Report { response } && response.protocol_version == 1
        && response.meta@ == meta@ && response.status@ == status@
}

/// An ended job that no lease holds is reported as it stands, to everyone and
/// for every purpose.
pub proof fn ended_jobs_are_reported(
    service: JobService,
    supervisor: SupervisorEvidence,
    purpose: QueryPurpose,
    identity: IndexedIdentity,
    initial: JobStatus,
    meta: JobMeta,
    status: JobStatus,
    stdout: u64,
    stderr: u64,
    step: StatusStep,
)
    requires
        records_agree(service, identity, initial, meta, status, stdout, stderr),
        has_ended(status.state),
        unheld(service, meta),
    ensures
        status_fault(service, supervisor, purpose) is None,
        status_step(step, service, supervisor, purpose) ==> tells(step, meta, status),
{
    agreeing_records_have_no_fault(service, identity, initial, meta, status, stdout, stderr);
}

/// A job under its own lease is reported where nothing is to be put in order or
/// its supervisor is busy; else the supervisor is fenced, and then looked for.
/// What is behind the fence decides: a job that changed meanwhile is read again,
/// one that was never launched is launched, an ended one is cleaned up, one
/// whose supervisor leads its own group is reported, and any other is
/// reconciled.
pub proof fn held_jobs_are_put_in_order(
    service: JobService,
    supervisor: SupervisorEvidence,
    purpose: QueryPurpose,
    identity: IndexedIdentity,
    initial: JobStatus,
    meta: JobMeta,
    status: JobStatus,
    stdout: u64,
    stderr: u64,
    lease: LeaseRecord,
    step: StatusStep,
)
    requires
        records_agree(service, identity, initial, meta, status, stdout, stderr),
        held(service, meta, lease),
        supervisor matches SupervisorEvidence::Fenced { current } ==> (current matches Some(read)
            && fits_job(meta.created_at_millis, read@)),
        supervisor matches SupervisorEvidence::Observed { current, .. } ==> (current matches Some(
            read,
        ) && fits_job(meta.created_at_millis, read@)),
        status_step(step, service, supervisor, purpose),
    ensures
        status_fault(service, supervisor, purpose) is None,
        (purpose is Reread || purpose == (QueryPurpose::Resolution { ensure_supervisor: false }))
            ==> tells(step, meta, status),
        !(purpose is Reread || purpose == (QueryPurpose::Resolution { ensure_supervisor: false }))
            ==> match supervisor {
            SupervisorEvidence::Untried => step is FenceSupervisor,
            SupervisorEvidence::Busy => tells(step, meta, status),
            SupervisorEvidence::Fenced { current } => if current->0@ != status@ {
                step is Reread
            } else if has_ended(status.state) {
                step matches StatusStep::FinishTerminal {
                    lease: l,
                    meta: m,
                    status: s,
                    require_cleanup,
                } && l@ == lease@ && m@ == meta@ && s@ == status@ && require_cleanup == (
                purpose is Reconcile || purpose is Resolution)
            } else if status.supervisor_pid is None {
                step matches StatusStep::Launch { lease: l, meta: m, status: s } && l@ == lease@
                    && m@ == meta@ && s@ == status@
            } else {
                step matches StatusStep::ObserveSupervisor { identity: process } && Some(
                    process.pid,
                ) == status.supervisor_pid && Some(process.start_time_micros)
                    == status.supervisor_start_identity
            },
            SupervisorEvidence::Observed { current, process_group } => if current->0@ != status@ {
                step is Reread
            } else if has_ended(status.state) {
                step is FinishTerminal
            } else if status.supervisor_pid is None {
                step is Launch
            } else if status.state == JobState::Running && process_group == status.supervisor_pid {
                tells(step, meta, status)
            } else {
                step matches StatusStep::Reconcile { lease: l, meta: m, status: s } && l@ == lease@
                    && m@ == meta@ && s@ == status@
            },
        },
{
    agreeing_records_have_no_fault(service, identity, initial, meta, status, stdout, stderr);
    job_facts_are_accepted(meta@);
    held_leases_have_no_fault(service, meta, lease);
    coherent_statuses_are_accepted(status@);
    statuses_name_their_processes(status@);
    match supervisor {
        SupervisorEvidence::Fenced { current } => {
            accepted_jobs_are_shown(meta@, current->0@);
        },
        SupervisorEvidence::Observed { current, .. } => {
            accepted_jobs_are_shown(meta@, current->0@);
        },
        _ => {},
    }
}

/// Of an identity that the index does not know, nothing is reported before it
/// was looked for; of one that was given up, nothing at all.
pub proof fn unknown_jobs_are_looked_for(
    service: JobService,
    supervisor: SupervisorEvidence,
    purpose: QueryPurpose,
    step: StatusStep,
)
    ensures
        service.disposition is None ==> status_fault(service, supervisor, purpose) is None && (
        status_step(step, service, supervisor, purpose) ==> step is RecoverUnindexed),
        service.disposition matches Some(JobDisposition::Abandoned { .. }) ==> status_fault(
            service,
            supervisor,
            purpose,
        ) is Some,
{
}

/// A cancelled job ends now, or when it was last changed if the clock is behind,
/// with the lengths of its logs; the code tells whether a command was launched.
pub proof fn cancellations_say_what_happened(
    status: StatusModel,
    now: u64,
    stdout: u64,
    stderr: u64,
)
    requires
        coherent(status),
    ensures
        ({
            let next = cancelled(status, now, stdout, stderr);
            &&& next.state == JobState::Cancelled
            &&& next.updated_at_millis >= now && next.updated_at_millis
                >= status.updated_at_millis
            &&& next.updated_at_millis == now || next.updated_at_millis
                == status.updated_at_millis
            &&& next.final_stdout_bytes == Some(stdout)
            &&& next.final_stderr_bytes == Some(stderr)
            &&& status.child_pid is None ==> next.error_code == Some("CANCELLED_PRELAUNCH"@)
            &&& status.child_pid is Some ==> next.error_code == Some("CANCELLED"@)
            &&& next.exit_code is None && next.terminating_signal is None
            &&& next.child_pid == status.child_pid
            &&& next.supervisor_pid == status.supervisor_pid
        }),
{
    coherent_statuses_are_accepted(status);
    statuses_name_their_processes(status);
}

} // verus!
