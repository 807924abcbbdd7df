//! What the results of a job's operations have to say.
use vstd::prelude::*;
use vstd::string::*;
use crate::error::WorkerError;
use crate::job::control::{
    CancelResponse, ResolveOrAbandonOutcome, ResolveOrAbandonResponse, StatusResponse,
    StatusResponseModel,
};
use crate::job::record::{JobMeta, LeaseModel, LeaseRecord, MetaModel};
use crate::job::request::ResolutionModel;
use crate::job::status::{status_outcome, JobState, JobStatus, StatusModel};
use crate::job_service::identity::{
    answers_cancel, cancel_answer_fault, queryable_fault, rebuilt_material, resolution_meta_fault,
    resolution_response_fault,
};
use crate::job_service::payload::PayloadModel;
use crate::job_service::query::{
    answers, fenced_fault, fenced_status, lease_view, own_lease, supervisor_lives, JobFiles,
    JobService, LeaseEvidence, SupervisorEvidence,
};
use crate::job_service::resolve::cleanup_pending;
use crate::laws::refusals::told;

verus! {

/// A new status is given back exactly where it has no fault, and is the one that
/// was asked for; one status may precede another where the change has no fault.
pub proof fn good_statuses_are_given_back(
    result: Result<JobStatus, WorkerError>,
    message: Seq<char>,
    status: StatusModel,
    next: StatusModel,
)
    ensures
        status_outcome(result, None, status) <==> result is Ok && result->Ok_0@ == status,
        status_outcome(result, Some(message), status) <==> result is Err && result->Err_0
            is Protocol && result->Err_0->Protocol_0@ == message,
        status.may_precede(next) <==> status.transition_fault(next) is None,
        status.valid() <==> status.fault() is None,
{
}

/// An answer tells the job's facts and its status in this version of the
/// protocol, of a query and of a cancellation alike.
pub proof fn answers_tell_the_job(
    response: StatusResponse,
    cancelled: CancelResponse,
    meta: JobMeta,
    status: JobStatus,
)
    ensures
        answers(response, meta, status) <==> response.protocol_version == 1 && response.meta == meta
            && response.status == status,
        answers_cancel(cancelled, meta@, status@) <==> cancelled.protocol_version == 1
            && cancelled.status.protocol_version == 1 && cancelled.status.meta@ == meta@
            && cancelled.status.status@ == status@,
        cancel_answer_fault(meta@, status@) is None <==> meta@.fault() is None && status@.fault()
            is None && status.updated_at_millis >= meta.created_at_millis,
{
}

/// A cleanup that is still to come is answered with its code, and nothing else.
pub proof fn pending_cleanups_tell_their_code(
    result: Result<ResolveOrAbandonResponse, WorkerError>,
    code: Seq<char>,
)
    ensures
        cleanup_pending(result, code) <==> {
            &&& result is Ok
            &&& result->Ok_0.protocol_version == 1
            &&& result->Ok_0.outcome matches ResolveOrAbandonOutcome::CleanupPending { code: given }
                && given@ == code
        },
{
}

/// An answer about a resolved request is checked before it is held against the
/// request.
pub proof fn resolved_answers_are_checked_first(
    identity: ResolutionModel,
    response: StatusResponseModel,
)
    ensures
        response.fault() is Some ==> resolution_response_fault(identity, response)
            == response.fault(),
        response.fault() is None ==> resolution_response_fault(identity, response)
            == resolution_meta_fault(identity, response.meta),
{
}

/// A lease is a job's own where it names the job; what was recorded is what the
/// files hold; and a fenced supervisor shows the status that was read then.
pub proof fn evidence_is_what_was_read(
    service: JobService,
    meta: MetaModel,
    lease: LeaseRecord,
    files: JobFiles,
    current: Option<JobStatus>,
    process_group: Option<u32>,
    status: StatusModel,
)
    ensures
        own_lease(meta, LeaseEvidence::Absent) is None,
        own_lease(meta, LeaseEvidence::Invalid) is None,
        own_lease(meta, (LeaseEvidence::Held { lease })) == if lease.job_id == meta.job_id {
            Some(lease@)
        } else {
            None
        },
        lease_view(Some(lease)) == Some(lease@),
        lease_view(None) is None,
        service.files == Some(files) && files.meta is Some ==> service.recorded_meta()
            == files.meta->0,
        service.files == Some(files) && files.status is Some ==> service.recorded_status()
            == files.status->0,
        fenced_status((SupervisorEvidence::Fenced { current })) == current,
        fenced_status((SupervisorEvidence::Observed { current, process_group })) == current,
        fenced_status(SupervisorEvidence::Untried) is None,
        fenced_status(SupervisorEvidence::Busy) is None,
        told(
            fenced_fault(meta, None),
            "JOB_STATE_INVALID"@,
            "canonical mutable job status is invalid"@,
        ),
        current is Some ==> fenced_fault(meta, current) == queryable_fault(meta, current->0@),
        supervisor_lives(status, process_group) <==> status.state == JobState::Running
            && status.supervisor() is Some && process_group == Some(status.supervisor()->0.pid),
{
}

/// A request is rebuilt from what the job's records and its lease say; only the
/// command is the payload's.
pub proof fn requests_are_rebuilt_from_records(
    payload: PayloadModel,
    meta: MetaModel,
    lease: LeaseModel,
)
    ensures
        ({
            let material = rebuilt_material(payload, meta, lease);
            &&& material.protocol_version == 1
            &&& material.job_id == meta.job_id
            &&& material.client_id == meta.client_id
            &&& material.lease_token == lease.lease_token
            &&& material.created_at_millis == meta.created_at_millis
            &&& material.worker_name == meta.worker_name
            &&& material.project_id == meta.project_id
            &&& material.worktree_id == meta.worktree_id
            &&& material.manifest_digest == meta.manifest_digest
            &&& material.relative_working_dir == meta.relative_working_dir
            &&& material.timeout_millis == meta.timeout_millis
            &&& material.resource_class == meta.resource_class
            &&& material.command == payload.command
        }),
{
}

} // verus!
