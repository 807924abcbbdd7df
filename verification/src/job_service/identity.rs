//! Whose job it is: the checks that tie a host's records to one request, and
//! to one another.
use vstd::prelude::*;
use crate::error::{
    coded, earliest, fault_if, outcome_of, protocol_code, protocol_refusal, WorkerError,
};
use crate::host_store::{IndexedIdentity, IndexedModel, JobDisposition};
use crate::job::checks::printable_texts_are_accepted;
use crate::job::control::{
    CancelModel, CancelRequest, CancelResponse, StatusResponse, StatusResponseModel,
};
use crate::job::record::{JobMeta, LeaseModel, LeaseRecord, MetaModel};
use crate::job::request::{
    MaterialModel, RequestFingerprintMaterial, ResolutionModel, ResolveOrAbandonRequest,
    SubmitModel, SubmitRequest,
};
use crate::job::status::{bare_status, JobState, JobStatus, StatusModel};
use crate::job::PROTOCOL_VERSION;
use crate::job_service::payload::{ExecutionPayload, PayloadModel};
use crate::task::{TerminalPath, TurnTerminal};
use crate::text::{has_prefix, opt_text, starts_with, text_eq};

verus! {

/// The text of a refusal because a job's durable records contradict each other.
pub open spec fn state_invalid(message: Seq<char>) -> Seq<char> {
    coded("JOB_STATE_INVALID"@, message)
}

/// The text of a refusal because a job identity is used for something else.
pub open spec fn id_conflict(message: Seq<char>) -> Seq<char> {
    coded("JOB_ID_CONFLICT"@, message)
}

pub fn job_state_invalid(message: &str) -> (error: WorkerError)
    ensures
        protocol_refusal(error, state_invalid(message@)),
{
    protocol_code("JOB_STATE_INVALID", message)
}

pub fn job_id_conflict(message: &str) -> (error: WorkerError)
    ensures
        protocol_refusal(error, id_conflict(message@)),
{
    protocol_code("JOB_ID_CONFLICT", message)
}

/// `fault` reported under another text.
pub open spec fn reworded(fault: Option<Seq<char>>, message: Seq<char>) -> Option<Seq<char>> {
    fault_if(fault is Some, message)
}

/// Whether an optional code is exactly this one.
pub fn code_is(code: &Option<String>, expected: &str) -> (same: bool)
    ensures
        same == (opt_text(*code) == Some(expected@)),
{
    match code {
        Some(text) => text_eq(text.as_str(), expected),
        None => false,
    }
}

/// A protocol error that leads with this code.
pub open spec fn leads_with(error: WorkerError, prefix: Seq<char>) -> bool {
    error matches WorkerError::Protocol(message) && starts_with(message@, prefix)
}

fn error_leads_with(error: &WorkerError, prefix: &str) -> (leads: bool)
    ensures
        leads == leads_with(*error, prefix@),
{
    match error {
        WorkerError::Protocol(message) => has_prefix(message.as_str(), prefix),
        _ => false,
    }
}

/// Whether a status was replaced by someone else first.
pub fn is_status_changed(error: &WorkerError) -> (changed: bool)
    ensures
        changed == leads_with(*error, "STATUS_CHANGED:"@),
{
    error_leads_with(error, "STATUS_CHANGED:")
}

pub fn is_prelaunch_failure(error: &WorkerError) -> (failed: bool)
    ensures
        failed == leads_with(*error, "SUPERVISOR_PRELAUNCH_FAILED:"@),
{
    error_leads_with(error, "SUPERVISOR_PRELAUNCH_FAILED:")
}

/// What a query reports where the job index could not be read: an identity
/// conflict as it is, anything else as an invalid disposition.
pub fn disposition_failure(error: WorkerError) -> (reported: WorkerError)
    ensures
        leads_with(error, "JOB_ID_CONFLICT:"@) ==> reported == error,
        !leads_with(error, "JOB_ID_CONFLICT:"@) ==> protocol_refusal(
            reported,
            state_invalid("job disposition is invalid"@),
        ),
{
    if error_leads_with(&error, "JOB_ID_CONFLICT:") {
        error
    } else {
        job_state_invalid("job disposition is invalid")
    }
}

/// The moment that a changed status gets: now, but never before the status
/// that it replaces.
pub fn reconciliation_timestamp(now: u64, previous: u64) -> (at: u64)
    ensures
        at == if now > previous {
            now
        } else {
            previous
        },
{
    if now > previous {
        now
    } else {
        previous
    }
}

/// A status that an accepted job may show its client.
pub open spec fn queryable_fault(meta: MetaModel, status: StatusModel) -> Option<Seq<char>> {
    earliest(
        reworded(meta.fault(), state_invalid("canonical job metadata is invalid"@)),
        earliest(
            reworded(status.fault(), state_invalid("canonical mutable job status is invalid"@)),
            earliest(
                fault_if(
                    status.state == JobState::Uploading || status.state == JobState::Verified,
                    state_invalid("an accepted job cannot return to a pre-acceptance state"@),
                ),
                earliest(
                    fault_if(
                        status.state == JobState::Accepted && status.supervisor() is None
                            && status.child() is None && status != bare_status(
                            JobState::Accepted,
                            meta.created_at_millis,
                        ),
                        state_invalid(
                            "identityless accepted status must equal durable initial acceptance"@,
                        ),
                    ),
                    earliest(
                        processes_fault(status),
                        earliest(
                            error_code_fault(status),
                            fault_if(
                                status.updated_at_millis < meta.created_at_millis,
                                state_invalid("mutable job status predates durable acceptance"@),
                            ),
                        ),
                    ),
                ),
            ),
        ),
    )
}

/// An ended job names the processes that its ending needs.
pub open spec fn processes_fault(status: StatusModel) -> Option<Seq<char>> {
    let supervised = status.supervisor() is Some;
    let launched = status.child() is Some;
    match status.state {
        JobState::Succeeded | JobState::Failed | JobState::TimedOut => fault_if(
            !supervised || !launched,
            state_invalid("command terminal status requires both durable process identities"@),
        ),
        JobState::Cancelled => if !launched {
            fault_if(
                status.error_code != Some("CANCELLED_PRELAUNCH"@),
                state_invalid(
                    "no-child cancelled status must be the deliberate prelaunch cancellation form"@,
                ),
            )
        } else {
            fault_if(
                !supervised,
                state_invalid("running cancellation requires both durable process identities"@),
            )
        },
        JobState::Lost => fault_if(
            !supervised,
            state_invalid("lost accepted job requires a durable supervisor identity"@),
        ),
        _ => None,
    }
}

/// A status carries an error code exactly where no command outcome ended it.
pub open spec fn error_code_fault(status: StatusModel) -> Option<Seq<char>> {
    match status.state {
        JobState::Accepted | JobState::Running | JobState::Succeeded | JobState::Failed => fault_if(
            status.error_code is Some,
            state_invalid("ordinary lifecycle status cannot carry an infrastructure error"@),
        ),
        JobState::Cancelled | JobState::TimedOut | JobState::Lost => fault_if(
            status.error_code is None,
            state_invalid("infrastructure terminal status requires an error code"@),
        ),
        _ => None,
    }
}

pub fn validate_queryable_status(meta: &JobMeta, status: &JobStatus) -> (result: Result<
    (),
    WorkerError,
>)
    ensures
        outcome_of(result, queryable_fault(meta@, status@)),
{
    if meta.validate().is_err() {
        return Err(job_state_invalid("canonical job metadata is invalid"));
    }
    if status.validate().is_err() {
        return Err(job_state_invalid("canonical mutable job status is invalid"));
    }
    if status.state == JobState::Uploading || status.state == JobState::Verified {
        return Err(job_state_invalid("an accepted job cannot return to a pre-acceptance state"));
    }
    let supervised = status.supervisor_identity().is_some();
    let launched = status.child_identity().is_some();
    if status.state == JobState::Accepted && !supervised && !launched {
        let initial = JobStatus::accepted(meta.created_at_millis)?;
        if !status.same(&initial) {
            return Err(
                job_state_invalid(
                    "identityless accepted status must equal durable initial acceptance",
                ),
            );
        }
    }
    match status.state {
        JobState::Succeeded | JobState::Failed | JobState::TimedOut => {
            if !supervised || !launched {
                return Err(
                    job_state_invalid(
                        "command terminal status requires both durable process identities",
                    ),
                );
            }
        },
        JobState::Cancelled => {
            if !launched {
                if !code_is(&status.error_code, "CANCELLED_PRELAUNCH") {
                    return Err(
                        job_state_invalid(
                            "no-child cancelled status must be the deliberate prelaunch cancellation form",
                        ),
                    );
                }
            } else if !supervised {
                return Err(
                    job_state_invalid(
                        "running cancellation requires both durable process identities",
                    ),
                );
            }
        },
        JobState::Lost => {
            if !supervised {
                return Err(
                    job_state_invalid("lost accepted job requires a durable supervisor identity"),
                );
            }
        },
        _ => {},
    }
    match status.state {
        JobState::Accepted | JobState::Running | JobState::Succeeded | JobState::Failed => {
            if status.error_code.is_some() {
                return Err(
                    job_state_invalid(
                        "ordinary lifecycle status cannot carry an infrastructure error",
                    ),
                );
            }
        },
        JobState::Cancelled | JobState::TimedOut | JobState::Lost => {
            if status.error_code.is_none() {
                return Err(
                    job_state_invalid("infrastructure terminal status requires an error code"),
                );
            }
        },
        _ => {},
    }
    if status.updated_at_millis < meta.created_at_millis {
        return Err(job_state_invalid("mutable job status predates durable acceptance"));
    }
    Ok(())
}

/// The lease is the one under which the job was accepted.
pub open spec fn lease_holds_job(meta: MetaModel, lease: LeaseModel) -> bool {
    &&& meta.job_id == lease.job_id
    &&& meta.client_id == lease.client_id
    &&& meta.request_fingerprint == lease.request_fingerprint
    &&& meta.worker_name == lease.worker_name
    &&& meta.project_id == lease.project_id
    &&& meta.worktree_id == lease.worktree_id
    &&& meta.manifest_digest == lease.manifest_digest
    &&& meta.timeout_millis == lease.timeout_millis
    &&& meta.resource_class == lease.resource_class
    &&& meta.command_summary == lease.command_summary
}

pub open spec fn live_lease_fault(meta: MetaModel, lease: LeaseModel) -> Option<Seq<char>> {
    earliest(
        reworded(lease.fault(), state_invalid("live lease is invalid"@)),
        fault_if(
            !lease_holds_job(meta, lease),
            id_conflict("nonterminal job metadata does not match the live lease"@),
        ),
    )
}

pub fn require_meta_matches_live_lease(meta: &JobMeta, lease: &LeaseRecord) -> (result: Result<
    (),
    WorkerError,
>)
    ensures
        outcome_of(result, live_lease_fault(meta@, lease@)),
{
    if lease.validate().is_err() {
        return Err(job_state_invalid("live lease is invalid"));
    }
    if meta.job_id != lease.job_id || meta.client_id != lease.client_id
        || !meta.request_fingerprint.same(&lease.request_fingerprint) || !text_eq(
        meta.worker_name.as_str(),
        lease.worker_name.as_str(),
    ) || !text_eq(meta.project_id.as_str(), lease.project_id.as_str()) || !text_eq(
        meta.worktree_id.as_str(),
        lease.worktree_id.as_str(),
    ) || !text_eq(meta.manifest_digest.as_str(), lease.manifest_digest.as_str())
        || meta.timeout_millis != lease.timeout_millis || !text_eq(
        meta.resource_class.as_str(),
        lease.resource_class.as_str(),
    ) || meta.command_summary != lease.command_summary {
        return Err(job_id_conflict("nonterminal job metadata does not match the live lease"));
    }
    Ok(())
}

pub open spec fn cancel_lease_fault(request: CancelModel, lease: LeaseModel) -> Option<Seq<char>> {
    earliest(
        reworded(lease.fault(), state_invalid("live lease is invalid"@)),
        fault_if(
            request.job_id != lease.job_id || request.client_id != lease.client_id
                || request.lease_token != lease.lease_token || request.request_fingerprint
                != lease.request_fingerprint,
            id_conflict("cancel request does not match the live lease"@),
        ),
    )
}

/// The request's own version has been checked.
pub fn require_cancel_matches_lease(request: &CancelRequest, lease: &LeaseRecord) -> (result: Result<
    (),
    WorkerError,
>)
    ensures
        outcome_of(result, cancel_lease_fault(request@, lease@)),
{
    if lease.validate().is_err() {
        return Err(job_state_invalid("live lease is invalid"));
    }
    if request.job_id != lease.job_id || request.client_id != lease.client_id
        || request.lease_token != lease.lease_token || !request.request_fingerprint.same(
        &lease.request_fingerprint,
    ) {
        return Err(job_id_conflict("cancel request does not match the live lease"));
    }
    Ok(())
}

/// The lease was granted for exactly this request.
pub open spec fn lease_is_of(lease: LeaseModel, request: SubmitModel) -> bool {
    &&& lease.job_id == request.material.job_id
    &&& lease.client_id == request.material.client_id
    &&& lease.lease_token == request.material.lease_token
    &&& lease.request_fingerprint == request.request_fingerprint
    &&& lease.worker_name == request.material.worker_name
    &&& lease.project_id == request.material.project_id
    &&& lease.worktree_id == request.material.worktree_id
    &&& lease.manifest_digest == request.material.manifest_digest
    &&& lease.timeout_millis == request.material.timeout_millis
    &&& lease.resource_class == request.material.resource_class
    &&& lease.command_summary == request.material.command.summarized()
}

pub open spec fn exact_lease_fault(lease: LeaseModel, request: SubmitModel) -> Option<Seq<char>> {
    earliest(
        lease.fault(),
        fault_if(
            !lease_is_of(lease, request),
            id_conflict("live lease does not match the immutable submit request"@),
        ),
    )
}

pub fn require_exact_lease(lease: &LeaseRecord, request: &SubmitRequest) -> (result: Result<
    (),
    WorkerError,
>)
    requires
        request@.material.command.fault() is None,
    ensures
        outcome_of(result, exact_lease_fault(lease@, request@)),
{
    lease.validate()?;
    let material = &request.material;
    let summary = material.command.summary()?;
    if lease.job_id != material.job_id || lease.client_id != material.client_id
        || lease.lease_token != material.lease_token || !lease.request_fingerprint.same(
        &request.request_fingerprint,
    ) || !text_eq(lease.worker_name.as_str(), material.worker_name.as_str()) || !text_eq(
        lease.project_id.as_str(),
        material.project_id.as_str(),
    ) || !text_eq(lease.worktree_id.as_str(), material.worktree_id.as_str()) || !text_eq(
        lease.manifest_digest.as_str(),
        material.manifest_digest.as_str(),
    ) || lease.timeout_millis != material.timeout_millis || !text_eq(
        lease.resource_class.as_str(),
        material.resource_class.as_str(),
    ) || lease.command_summary != summary {
        return Err(job_id_conflict("live lease does not match the immutable submit request"));
    }
    Ok(())
}

/// Why a job identity that has been used may not be used for this request.
pub open spec fn accepted_fault(disposition: JobDisposition, request: SubmitModel) -> Option<
    Seq<char>,
> {
    match disposition {
        JobDisposition::Accepted { identity, status } => if identity@.is_for(request.bound()) {
            status@.fault()
        } else {
            Some(id_conflict("job ID belongs to another immutable request"@))
        },
        JobDisposition::Abandoned { identity } => if identity@.is_for(request.bound()) {
            Some(coded("JOB_ABANDONED"@, "job ID was permanently abandoned"@))
        } else {
            Some(id_conflict("job ID belongs to another immutable request"@))
        },
    }
}

/// The first status of a job that this very request was accepted for.
pub fn require_matching_accepted(disposition: &JobDisposition, request: &SubmitRequest) -> (result:
    Result<JobStatus, WorkerError>)
    ensures
        outcome_of(result, accepted_fault(*disposition, request@)),
        result matches Ok(status) ==> disposition matches JobDisposition::Accepted {
            status: recorded,
            ..
        } && status == recorded,
{
    match disposition {
        JobDisposition::Accepted { identity, status } => {
            if identity.is_for_request(&request.material, &request.request_fingerprint) {
                status.validate()?;
                Ok(status.clone())
            } else {
                Err(job_id_conflict("job ID belongs to another immutable request"))
            }
        },
        JobDisposition::Abandoned { identity } => {
            if identity.is_for_request(&request.material, &request.request_fingerprint) {
                Err(protocol_code("JOB_ABANDONED", "job ID was permanently abandoned"))
            } else {
                Err(job_id_conflict("job ID belongs to another immutable request"))
            }
        },
    }
}

/// The metadata records exactly this request, under this lease.
pub open spec fn meta_is_of(meta: MetaModel, request: SubmitModel, lease: LeaseModel) -> bool {
    &&& meta == request.material.meta(request.request_fingerprint)
    &&& lease.job_id == meta.job_id
    &&& lease.client_id == meta.client_id
    &&& lease.request_fingerprint == meta.request_fingerprint
}

pub open spec fn exact_meta_fault(meta: MetaModel, request: SubmitModel, lease: LeaseModel) -> Option<
    Seq<char>,
> {
    earliest(
        meta.fault(),
        fault_if(
            !meta_is_of(meta, request, lease),
            id_conflict("canonical job metadata does not match the immutable request"@),
        ),
    )
}

pub fn require_exact_meta(meta: &JobMeta, request: &SubmitRequest, lease: &LeaseRecord) -> (result:
    Result<(), WorkerError>)
    requires
        request@.material.command.fault() is None,
    ensures
        outcome_of(result, exact_meta_fault(meta@, request@, lease@)),
{
    meta.validate()?;
    let material = &request.material;
    let summary = material.command.summary()?;
    if meta.job_id != material.job_id || meta.client_id != material.client_id
        || !meta.request_fingerprint.same(&request.request_fingerprint) || !text_eq(
        meta.worker_name.as_str(),
        material.worker_name.as_str(),
    ) || !text_eq(meta.project_id.as_str(), material.project_id.as_str()) || !text_eq(
        meta.worktree_id.as_str(),
        material.worktree_id.as_str(),
    ) || !text_eq(meta.manifest_digest.as_str(), material.manifest_digest.as_str())
        || meta.created_at_millis != material.created_at_millis || !text_eq(
        meta.relative_working_dir.as_str(),
        material.relative_working_dir.as_str(),
    ) || meta.timeout_millis != material.timeout_millis || !text_eq(
        meta.resource_class.as_str(),
        material.resource_class.as_str(),
    ) || meta.command_summary != summary || lease.job_id != meta.job_id || lease.client_id
        != meta.client_id || !lease.request_fingerprint.same(&meta.request_fingerprint) {
        return Err(
            job_id_conflict("canonical job metadata does not match the immutable request"),
        );
    }
    Ok(())
}

/// The metadata records the request that is being resolved.
pub open spec fn meta_is_of_resolution(meta: MetaModel, identity: ResolutionModel) -> bool {
    meta.resolution(identity.lease_token) == (ResolutionModel {
        protocol_version: PROTOCOL_VERSION,
        ..identity
    })
}

pub open spec fn resolution_meta_fault(identity: ResolutionModel, meta: MetaModel) -> Option<
    Seq<char>,
> {
    earliest(
        meta.fault(),
        fault_if(
            !meta_is_of_resolution(meta, identity),
            id_conflict("accepted metadata belongs to another immutable request"@),
        ),
    )
}

pub fn require_resolution_meta(identity: &ResolveOrAbandonRequest, meta: &JobMeta) -> (result: Result<
    (),
    WorkerError,
>)
    ensures
        outcome_of(result, resolution_meta_fault(identity@, meta@)),
{
    meta.validate()?;
    if meta.job_id == identity.job_id && meta.client_id == identity.client_id
        && meta.request_fingerprint.same(&identity.request_fingerprint) && text_eq(
        meta.worker_name.as_str(),
        identity.worker_name.as_str(),
    ) && text_eq(meta.project_id.as_str(), identity.project_id.as_str()) && text_eq(
        meta.worktree_id.as_str(),
        identity.worktree_id.as_str(),
    ) && text_eq(meta.manifest_digest.as_str(), identity.manifest_digest.as_str())
        && meta.created_at_millis == identity.created_at_millis && text_eq(
        meta.relative_working_dir.as_str(),
        identity.relative_working_dir.as_str(),
    ) && meta.timeout_millis == identity.timeout_millis && text_eq(
        meta.resource_class.as_str(),
        identity.resource_class.as_str(),
    ) && meta.command_summary == identity.command_summary {
        Ok(())
    } else {
        Err(job_id_conflict("accepted metadata belongs to another immutable request"))
    }
}

pub open spec fn resolution_response_fault(
    identity: ResolutionModel,
    response: StatusResponseModel,
) -> Option<Seq<char>> {
    earliest(response.fault(), resolution_meta_fault(identity, response.meta))
}

pub fn require_resolution_response(
    identity: &ResolveOrAbandonRequest,
    response: &StatusResponse,
) -> (result: Result<(), WorkerError>)
    ensures
        outcome_of(result, resolution_response_fault(identity@, response@)),
{
    response.validate()?;
    require_resolution_meta(identity, &response.meta)
}

/// The job index records the request that is being resolved.
pub open spec fn indexed_for(identity: ResolutionModel, indexed: IndexedModel) -> bool {
    &&& indexed.job_id == identity.job_id
    &&& indexed.client_id == identity.client_id
    &&& indexed.project_id == identity.project_id
    &&& indexed.worktree_id == identity.worktree_id
    &&& indexed.request_fingerprint == identity.request_fingerprint
}

pub open spec fn disposition_identity(disposition: JobDisposition) -> IndexedIdentity {
    match disposition {
        JobDisposition::Accepted { identity, .. } => identity,
        JobDisposition::Abandoned { identity } => identity,
    }
}

pub fn matches_disposition(identity: &ResolveOrAbandonRequest, disposition: &JobDisposition) -> (
matches: bool)
    ensures
        matches == indexed_for(identity@, disposition_identity(*disposition)@),
{
    let indexed = match disposition {
        JobDisposition::Accepted { identity, .. } => identity,
        JobDisposition::Abandoned { identity } => identity,
    };
    indexed.job_id == identity.job_id && indexed.client_id == identity.client_id && text_eq(
        indexed.project_id.as_str(),
        identity.project_id.as_str(),
    ) && text_eq(indexed.worktree_id.as_str(), identity.worktree_id.as_str())
        && indexed.request_fingerprint.same(&identity.request_fingerprint)
}

/// The lease was granted for the request that is being resolved.
pub open spec fn leased_for(identity: ResolutionModel, lease: LeaseModel) -> bool {
    &&& lease.job_id == identity.job_id
    &&& lease.client_id == identity.client_id
    &&& lease.lease_token == identity.lease_token
    &&& lease.request_fingerprint == identity.request_fingerprint
    &&& lease.worker_name == identity.worker_name
    &&& lease.project_id == identity.project_id
    &&& lease.worktree_id == identity.worktree_id
    &&& lease.manifest_digest == identity.manifest_digest
    &&& lease.timeout_millis == identity.timeout_millis
    &&& lease.resource_class == identity.resource_class
    &&& lease.command_summary == identity.command_summary
}

pub fn matches_lease(identity: &ResolveOrAbandonRequest, lease: &LeaseRecord) -> (matches: bool)
    ensures
        matches == leased_for(identity@, lease@),
{
    lease.job_id == identity.job_id && lease.client_id == identity.client_id && lease.lease_token
        == identity.lease_token && lease.request_fingerprint.same(&identity.request_fingerprint)
        && text_eq(lease.worker_name.as_str(), identity.worker_name.as_str()) && text_eq(
        lease.project_id.as_str(),
        identity.project_id.as_str(),
    ) && text_eq(lease.worktree_id.as_str(), identity.worktree_id.as_str()) && text_eq(
        lease.manifest_digest.as_str(),
        identity.manifest_digest.as_str(),
    ) && lease.timeout_millis == identity.timeout_millis && text_eq(
        lease.resource_class.as_str(),
        identity.resource_class.as_str(),
    ) && lease.command_summary == identity.command_summary
}

/// A code that says that the job's command never ran.
pub open spec fn prelaunch_code(code: Seq<char>) -> bool {
    code == "PAYLOAD_ERASURE_FAILED"@ || code == "CHILD_GATE_INVALID"@ || code
        == "CHILD_EXEC_INVALID"@ || code == "CHILD_GO_FAILED"@ || code == "CHILD_PRE_GO_FAILED"@
        || code == "EXEC_FAILED"@
}

/// The job ended before its command ran.
pub open spec fn prelaunch_terminal(status: StatusModel) -> bool {
    status.state.terminal() && (status.child() is None || (status.error_code matches Some(code)
        && prelaunch_code(code)))
}

pub fn is_prelaunch_terminal(status: &JobStatus) -> (ended: bool)
    ensures
        ended == prelaunch_terminal(status@),
{
    status.state.is_terminal() && (status.child_identity().is_none() || code_is(
        &status.error_code,
        "PAYLOAD_ERASURE_FAILED",
    ) || code_is(&status.error_code, "CHILD_GATE_INVALID") || code_is(
        &status.error_code,
        "CHILD_EXEC_INVALID",
    ) || code_is(&status.error_code, "CHILD_GO_FAILED") || code_is(
        &status.error_code,
        "CHILD_PRE_GO_FAILED",
    ) || code_is(&status.error_code, "EXEC_FAILED"))
}

pub open spec fn prelaunch_fault(status: StatusModel) -> Option<Seq<char>> {
    fault_if(
        prelaunch_terminal(status),
        coded(
            "SUPERVISOR_PRELAUNCH_FAILED"@,
            "supervisor recorded a terminal failure before command execution"@,
        ),
    )
}

pub fn reject_prelaunch_terminal(status: &JobStatus) -> (result: Result<(), WorkerError>)
    ensures
        outcome_of(result, prelaunch_fault(status@)),
{
    if is_prelaunch_terminal(status) {
        return Err(
            protocol_code(
                "SUPERVISOR_PRELAUNCH_FAILED",
                "supervisor recorded a terminal failure before command execution",
            ),
        );
    }
    Ok(())
}

pub open spec fn cancel_answer_fault(meta: MetaModel, status: StatusModel) -> Option<Seq<char>> {
    (StatusResponseModel {
        protocol_version: PROTOCOL_VERSION,
        meta,
        status,
    }).fault()
}

/// What a turn's record is told about a job that ended.
pub open spec fn turn_recovery(status: StatusModel) -> Option<
    (TurnTerminal, TerminalPath, Option<i32>),
> {
    match status.state {
        JobState::Succeeded => Some(
            (
                TurnTerminal::Succeeded,
                TerminalPath::ChildExit {
                    code: match status.exit_code {
                        Some(code) => code as i32,
                        None => 0i32,
                    },
                },
                match status.exit_code {
                    Some(code) => Some(code as i32),
                    None => None,
                },
            ),
        ),
        JobState::Failed => match (status.exit_code, status.terminating_signal) {
            (Some(code), _) => Some(
                (
                    TurnTerminal::Failed,
                    TerminalPath::ChildExit { code: code as i32 },
                    Some(code as i32),
                ),
            ),
            (None, Some(signal)) => Some(
                (
                    TurnTerminal::Cancelled,
                    TerminalPath::ChildExit {
                        code: if signal <= i32::MAX {
                            (-(signal as int)) as i32
                        } else {
                            -1i32
                        },
                    },
                    None,
                ),
            ),
            (None, None) => None,
        },
        JobState::Cancelled => Some((TurnTerminal::Cancelled, TerminalPath::HostCancel, None)),
        JobState::TimedOut => Some((TurnTerminal::TimedOut, TerminalPath::Timeout, None)),
        JobState::Lost => Some((TurnTerminal::Lost, TerminalPath::LostReconciliation, None)),
        _ => None,
    }
}

pub open spec fn turn_recovery_fault(status: StatusModel) -> Option<Seq<char>> {
    if turn_recovery(status) is Some {
        None
    } else if status.state == JobState::Failed {
        Some(state_invalid("failed turn status has no command outcome"@))
    } else {
        Some(state_invalid("turn publication recovery requires a terminal job status"@))
    }
}

pub fn terminal_turn_recovery(status: &JobStatus) -> (result: Result<
    (TurnTerminal, TerminalPath, Option<i32>),
    WorkerError,
>)
    ensures
        outcome_of(result, turn_recovery_fault(status@)),
        result matches Ok(ending) ==> turn_recovery(status@) == Some(ending),
{
    match status.state {
        JobState::Succeeded => match status.exit_code {
            Some(code) => Ok(
                (
                    TurnTerminal::Succeeded,
                    TerminalPath::ChildExit { code: code as i32 },
                    Some(code as i32),
                ),
            ),
            None => Ok((TurnTerminal::Succeeded, TerminalPath::ChildExit { code: 0 }, None)),
        },
        JobState::Failed => match (status.exit_code, status.terminating_signal) {
            (Some(code), _) => Ok(
                (
                    TurnTerminal::Failed,
                    TerminalPath::ChildExit { code: code as i32 },
                    Some(code as i32),
                ),
            ),
            (None, Some(signal)) => {
                let code: i32 = if signal <= 0x7fff_ffff {
                    -(signal as i32)
                } else {
                    -1
                };
                Ok((TurnTerminal::Cancelled, TerminalPath::ChildExit { code }, None))
            },
            (None, None) => Err(job_state_invalid("failed turn status has no command outcome")),
        },
        JobState::Cancelled => Ok((TurnTerminal::Cancelled, TerminalPath::HostCancel, None)),
        JobState::TimedOut => Ok((TurnTerminal::TimedOut, TerminalPath::Timeout, None)),
        JobState::Lost => Ok((TurnTerminal::Lost, TerminalPath::LostReconciliation, None)),
        _ => Err(job_state_invalid("turn publication recovery requires a terminal job status")),
    }
}

/// The request that an accepted job without processes was accepted for.
pub open spec fn rebuilt_material(
    payload: PayloadModel,
    meta: MetaModel,
    lease: LeaseModel,
) -> MaterialModel {
    crate::job_service::payload::recorded_material(
        PayloadModel {
            job_id: meta.job_id,
            client_id: meta.client_id,
            lease_token: lease.lease_token,
            ..payload
        },
        meta.resolution(lease.lease_token),
    )
}

pub open spec fn reconstruction_fault(
    payload: Option<ExecutionPayload>,
    meta: MetaModel,
    lease: LeaseModel,
) -> Option<Seq<char>> {
    match payload {
        None => Some(state_invalid("identityless accepted payload is invalid"@)),
        Some(payload) => earliest(
            reworded(
                payload@.durable_fault(lease, meta),
                id_conflict("execution payload identity differs"@),
            ),
            exact_lease_fault(
                lease,
                SubmitModel {
                    material: rebuilt_material(payload@, meta, lease),
                    request_fingerprint: meta.request_fingerprint,
                },
            ),
        ),
    }
}

/// A payload that belongs to a job rebuilds the request that the job was
/// accepted for.
proof fn rebuilt_requests_fit(payload: PayloadModel, meta: MetaModel, lease: LeaseModel)
    requires
        payload.durable_fault(lease, meta) is None,
    ensures
        ({
            let request = SubmitModel {
                material: rebuilt_material(payload, meta, lease),
                request_fingerprint: meta.request_fingerprint,
            };
            &&& request.material.fault() is None
            &&& request.material.digest() == meta.request_fingerprint
            &&& lease.fault() is None
            &&& meta.fault() is None
            &&& meta_is_of(meta, request, lease)
        }),
{
    let stored = crate::job_service::payload::recorded_material(
        payload,
        meta.resolution(payload.lease_token),
    );
    let material = rebuilt_material(payload, meta, lease);
    assert(stored == material);
    assert(meta == material.meta(meta.request_fingerprint));
}

/// The request that an accepted job was made for, out of what the host keeps
/// of it. `payload` is its execution payload where that could be read.
pub fn reconstruct_submit_request(
    payload: Option<&ExecutionPayload>,
    meta: &JobMeta,
    lease: &LeaseRecord,
) -> (result: Result<SubmitRequest, WorkerError>)
    ensures
        outcome_of(
            result,
            reconstruction_fault(
                match payload {
                    Some(held) => Some(*held),
                    None => None,
                },
                meta@,
                lease@,
            ),
        ),
        result matches Ok(request) ==> {
            &&& request@.bound().fault() is None
            &&& request@.material == rebuilt_material(payload->0@, meta@, lease@)
            &&& request@.request_fingerprint == meta@.request_fingerprint
            &&& lease_is_of(lease@, request@)
            &&& meta_is_of(meta@, request@, lease@)
        },
{
    let payload = match payload {
        Some(held) => held,
        None => {
            return Err(job_state_invalid("identityless accepted payload is invalid"));
        },
    };
    if payload.validate_for_durable_job(lease, meta).is_err() {
        return Err(job_id_conflict("execution payload identity differs"));
    }
    proof {
        rebuilt_requests_fit(payload@, meta@, lease@);
    }
    let material = match RequestFingerprintMaterial::new(
        meta.job_id,
        meta.client_id,
        lease.lease_token,
        meta.created_at_millis,
        meta.worker_name.clone(),
        meta.project_id.clone(),
        meta.worktree_id.clone(),
        meta.manifest_digest.clone(),
        meta.relative_working_dir.clone(),
        meta.timeout_millis,
        meta.resource_class.clone(),
        payload.command.clone(),
    ) {
        Ok(material) => material,
        Err(_) => {
            return Err(job_state_invalid("identityless accepted intent is invalid"));
        },
    };
    let request = SubmitRequest::new(material);
    if !request.request_fingerprint.same(&meta.request_fingerprint) {
        return Err(job_id_conflict("identityless accepted intent has a different fingerprint"));
    }
    require_exact_lease(lease, &request)?;
    require_exact_meta(meta, &request, lease)?;
    Ok(request)
}

/// An answer of this protocol to a cancellation, with a status of this protocol
/// that says exactly this of the job.
pub open spec fn answers_cancel(
    response: CancelResponse,
    meta: MetaModel,
    status: StatusModel,
) -> bool {
    &&& response.protocol_version == PROTOCOL_VERSION
    &&& response.status@ == (StatusResponseModel {
        protocol_version: PROTOCOL_VERSION,
        meta,
        status,
    })
}

/// What a client that cancels a job is told.
pub fn cancel_response(meta: JobMeta, status: JobStatus) -> (result: Result<
    CancelResponse,
    WorkerError,
>)
    ensures
        outcome_of(result, cancel_answer_fault(meta@, status@)),
        result matches Ok(response) ==> answers_cancel(response, meta@, status@),
{
    CancelResponse::new(StatusResponse::new(meta, status)?)
}

/// A job that is cancelled before its command ran, or while it ran, is left in
/// a status that its client may be shown.
pub proof fn cancelled_jobs_can_be_shown(
    meta: MetaModel,
    status: StatusModel,
    at: u64,
    stdout: u64,
    stderr: u64,
)
    requires
        queryable_fault(meta, status) is None,
        status.state == JobState::Accepted || status.state == JobState::Running,
        status.updated_at_millis <= at,
    ensures
        status.state == JobState::Accepted && status.child() is None ==> queryable_fault(
            meta,
            status.ended(
                JobState::Cancelled,
                at,
                None,
                None,
                stdout,
                stderr,
                Some("CANCELLED_PRELAUNCH"@),
            ),
        ) is None,
        status.child() is Some ==> queryable_fault(
            meta,
            status.ended(JobState::Cancelled, at, None, None, stdout, stderr, Some("CANCELLED"@)),
        ) is None,
        status.supervisor() is Some ==> queryable_fault(
            meta,
            status.ended(JobState::Lost, at, None, None, stdout, stderr, Some("SUPERVISOR_LOST"@)),
        ) is None,
{
    reveal_strlit("CANCELLED_PRELAUNCH");
    reveal_strlit("CANCELLED");
    reveal_strlit("SUPERVISOR_LOST");
    printable_texts_are_accepted("CANCELLED_PRELAUNCH"@, 128, "status error code"@);
    printable_texts_are_accepted("CANCELLED"@, 128, "status error code"@);
    printable_texts_are_accepted("SUPERVISOR_LOST"@, 128, "status error code"@);
}

} // verus!
