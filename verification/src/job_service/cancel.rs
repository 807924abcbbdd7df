//! How a host cancels exactly one accepted job.
use vstd::prelude::*;
use crate::error::{coded, earliest, fault_if, outcome_of, protocol_code, WorkerError};
use crate::host_store::{IndexedIdentity, IndexedModel, JobDisposition};
use crate::job::control::{CancelModel, CancelRequest, CancelResponse};
use crate::job::ids::JobId;
use crate::job::record::{JobMeta, LeaseRecord, MetaModel};
use crate::job::status::{status_outcome, JobState, JobStatus, ProcessIdentity, StatusModel};
use crate::job_service::evidence::{ended_logs_fault, validate_terminal_log_lengths};
use crate::job_service::identity::{
    answers_cancel, cancel_answer_fault, cancel_lease_fault, cancel_response, id_conflict, job_id_conflict,
    job_state_invalid, live_lease_fault, queryable_fault, reconciliation_timestamp,
    require_cancel_matches_lease, require_meta_matches_live_lease, state_invalid,
};
use crate::job_service::payload::{ExecutionPayload, TurnSection};
use crate::job_service::query::{
    indexed_files_fault, lease_view, own_lease, read_indexed_files, JobFiles, JobService,
    LeaseEvidence, TurnPublication,
};
use crate::laws::jobs::{ended_jobs_are_confirmed, records_agree, unheld};
use crate::laws::status::has_ended;
use crate::task::{TaskProgress, TaskState, TerminalPath, TurnTerminal};
use crate::text::text_eq;

verus! {

/// The supervisor's lock, as a cancellation found it.
#[derive(Debug, Clone, Copy, PartialEq, Eq, Structural)]
pub enum CancelFence {
    Untried,
    /// Someone holds it; `expired` once the cancellation has waited enough.
    Busy { expired: bool },
    /// The cancellation holds it, and read the job again since.
    Held,
}

/// What a host does next to cancel a job.
pub enum CancelStep {
    /// The job has ended and was cleaned up: check that the cleanup was for
    /// this very request, and answer.
    ConfirmCleanup { meta: JobMeta, status: JobStatus },
    /// Try the supervisor's lock without waiting, and ask again.
    FenceSupervisor,
    /// Let go of the admission lock, wait a little, and start again.
    Retry,
    /// The job has ended: clean up after it, and answer.
    CleanUp { lease: LeaseRecord, meta: JobMeta, status: JobStatus },
    /// No command was launched: record the cancellation.
    CancelPrelaunch { lease: LeaseRecord, meta: JobMeta, status: JobStatus },
    /// Stop the command's process group, then record the cancellation.
    StopChild { lease: LeaseRecord, meta: JobMeta, status: JobStatus, child: ProcessIdentity },
}

/// The index names the job that the request names.
pub open spec fn index_fits(indexed: IndexedModel, request: CancelModel) -> bool {
    &&& indexed.job_id == request.job_id
    &&& indexed.client_id == request.client_id
    &&& indexed.request_fingerprint == request.request_fingerprint
}

/// The first contradiction between the cancelled job, its logs and its lease.
pub open spec fn cancelled_job_fault(
    files: JobFiles,
    lease: LeaseEvidence,
    request: CancelModel,
) -> Option<Seq<char>> {
    let meta = files.meta->0;
    let status = files.status->0;
    earliest(
        if status@.state.terminal() {
            ended_logs_fault(status@, files.stdout, files.stderr)
        } else {
            None
        },
        match lease {
            LeaseEvidence::Invalid => Some(state_invalid("live lease is invalid"@)),
            _ => match lease {
                LeaseEvidence::Held { lease: held } => if held.job_id == meta.job_id {
                    earliest(
                        live_lease_fault(meta@, held@),
                        cancel_lease_fault(request, held@),
                    )
                } else {
                    fault_if(
                        !status@.state.terminal(),
                        state_invalid("nonterminal cancellation target has no live lease"@),
                    )
                },
                _ => fault_if(
                    !status@.state.terminal(),
                    state_invalid("nonterminal cancellation target has no live lease"@),
                ),
            },
        },
    )
}

/// The first reason why the request may not cancel the job.
pub open spec fn cancel_authority_fault(service: JobService, request: CancelModel) -> Option<
    Seq<char>,
> {
    match service.disposition {
        None => Some(coded("JOB_NOT_FOUND"@, "job ID is not indexed"@)),
        Some(JobDisposition::Abandoned { .. }) => Some(
            coded("JOB_ABANDONED"@, "job ID was permanently abandoned"@),
        ),
        Some(JobDisposition::Accepted { identity, status }) => earliest(
            fault_if(
                !index_fits(identity@, request),
                id_conflict("cancel request does not match the accepted job index"@),
            ),
            earliest(
                indexed_files_fault(identity@, status@, service.files),
                cancelled_job_fault(service.files->0, service.lease, request),
            ),
        ),
    }
}

/// The first reason why a cancellation cannot go on.
pub open spec fn cancel_fault(service: JobService, request: CancelModel, fence: CancelFence) -> Option<
    Seq<char>,
> {
    earliest(
        cancel_authority_fault(service, request),
        fault_if(
            fence == (CancelFence::Busy { expired: true }) && !(
            service.recorded_status()@.state.terminal() && own_lease(
                service.recorded_meta()@,
                service.lease,
            ) is None),
            coded(
                "SUPERVISOR_LOCK_PENDING"@,
                "supervisor handoff did not become available during cancellation"@,
            ),
        ),
    )
}

/// The step that a cancellation takes where nothing contradicts itself.
pub open spec fn cancel_step(step: CancelStep, service: JobService, fence: CancelFence) -> bool {
    let meta = service.recorded_meta();
    let status = service.recorded_status();
    let own = own_lease(meta@, service.lease);
    if status@.state.terminal() && own is None {
        step == (CancelStep::ConfirmCleanup { meta, status })
    } else {
        match fence {
            CancelFence::Untried => step is FenceSupervisor,
            CancelFence::Busy { .. } => step is Retry,
            CancelFence::Held => if status@.state.terminal() {
                step matches CancelStep::CleanUp { lease, meta: m, status: s } && Some(lease@)
                    == own && m == meta && s == status
            } else {
                match status@.child() {
                    None => step matches CancelStep::CancelPrelaunch { lease, meta: m, status: s }
                        && Some(lease@) == own && m == meta && s == status,
                    Some(process) => step matches CancelStep::StopChild {
                        lease,
                        meta: m,
                        status: s,
                        child,
                    } && Some(lease@) == own && m == meta && s == status && child == process,
                }
            },
        }
    }
}

impl JobService {
    /// The records of the job, once the request has proved that it may cancel
    /// it.
    fn read_cancel_authority(&self, request: &CancelRequest) -> (result: Result<
        (JobMeta, JobStatus, Option<LeaseRecord>),
        WorkerError,
    >)
        ensures
            outcome_of(result, cancel_authority_fault(*self, request@)),
            result matches Ok(found) ==> {
                &&& found.0 == self.recorded_meta()
                &&& found.1 == self.recorded_status()
                &&& lease_view(found.2) == own_lease(found.0@, self.lease)
                &&& queryable_fault(found.0@, found.1@) is None
                &&& !found.1@.state.terminal() ==> found.2 is Some
            },
    {
        request.validate()?;
        let (identity, initial) = match &self.disposition {
            None => {
                return Err(protocol_code("JOB_NOT_FOUND", "job ID is not indexed"));
            },
            Some(JobDisposition::Abandoned { .. }) => {
                return Err(protocol_code("JOB_ABANDONED", "job ID was permanently abandoned"));
            },
            Some(JobDisposition::Accepted { identity, status }) => (identity, status),
        };
        if identity.job_id != request.job_id || identity.client_id != request.client_id
            || !identity.request_fingerprint.same(&request.request_fingerprint) {
            return Err(job_id_conflict("cancel request does not match the accepted job index"));
        }
        let files = match &self.files {
            Some(files) => files,
            None => {
                return Err(job_state_invalid("accepted job directory is absent or unsafe"));
            },
        };
        let (meta, status) = read_indexed_files(identity, initial, files)?;
        if status.state.is_terminal() {
            validate_terminal_log_lengths(status, files.stdout, files.stderr)?;
        }
        let lease = match &self.lease {
            LeaseEvidence::Invalid => {
                return Err(job_state_invalid("live lease is invalid"));
            },
            LeaseEvidence::Held { lease } => {
                if lease.job_id == meta.job_id {
                    require_meta_matches_live_lease(meta, lease)?;
                    require_cancel_matches_lease(request, lease)?;
                    Some(lease.clone())
                } else {
                    None
                }
            },
            LeaseEvidence::Absent => None,
        };
        if lease.is_none() && !status.state.is_terminal() {
            return Err(job_state_invalid("nonterminal cancellation target has no live lease"));
        }
        Ok((meta.clone(), status.clone(), lease))
    }

    /// What the host does next to cancel the job. It never waits for the
    /// supervisor while it holds the admission lock, and acts only on what it
    /// read behind the supervisor's fence.
    pub fn cancel(&self, request: &CancelRequest, fence: CancelFence) -> (result: Result<
        CancelStep,
        WorkerError,
    >)
        ensures
            outcome_of(result, cancel_fault(*self, request@, fence)),
            result matches Ok(step) ==> cancel_step(step, *self, fence),
            forall|
                identity: IndexedIdentity,
                initial: JobStatus,
                meta: JobMeta,
                status: JobStatus,
                stdout: u64,
                stderr: u64,
            | #[trigger]
                records_agree(*self, identity, initial, meta, status, stdout, stderr)
                    && request.job_id == identity.job_id && request.client_id
                    == identity.client_id && request.request_fingerprint.text@
                    == identity.request_fingerprint.text@ && has_ended(status.state) && unheld(
                    *self,
                    meta,
                ) ==> result == Ok::<CancelStep, WorkerError>(
                    CancelStep::ConfirmCleanup { meta, status },
                ),
    {
        proof {
            assert forall|
                identity: IndexedIdentity,
                initial: JobStatus,
                meta: JobMeta,
                status: JobStatus,
                stdout: u64,
                stderr: u64,
                step: CancelStep,
            | #[trigger]
                records_agree(*self, identity, initial, meta, status, stdout, stderr)
                    && request.job_id == identity.job_id && request.client_id
                    == identity.client_id && request.request_fingerprint.text@
                    == identity.request_fingerprint.text@ && has_ended(status.state) && unheld(
                    *self,
                    meta,
                ) && #[trigger] cancel_step(step, *self, fence) implies cancel_fault(
                *self,
                request@,
                fence,
            ) is None && step == (CancelStep::ConfirmCleanup { meta, status }) by {
                ended_jobs_are_confirmed(
                    *self,
                    *request,
                    fence,
                    identity,
                    initial,
                    meta,
                    status,
                    stdout,
                    stderr,
                    step,
                );
            }
            assert forall|
                identity: IndexedIdentity,
                initial: JobStatus,
                meta: JobMeta,
                status: JobStatus,
                stdout: u64,
                stderr: u64,
            | #[trigger]
                records_agree(*self, identity, initial, meta, status, stdout, stderr)
                    && request.job_id == identity.job_id && request.client_id
                    == identity.client_id && request.request_fingerprint.text@
                    == identity.request_fingerprint.text@ && has_ended(status.state) && unheld(
                    *self,
                    meta,
                ) implies cancel_fault(*self, request@, fence) is None by {
                ended_jobs_are_confirmed(
                    *self,
                    *request,
                    fence,
                    identity,
                    initial,
                    meta,
                    status,
                    stdout,
                    stderr,
                    CancelStep::Retry,
                );
            }
        }
        let (meta, status, own) = self.read_cancel_authority(request)?;
        let lease = match own {
            Some(lease) => lease,
            None => {
                return Ok(CancelStep::ConfirmCleanup { meta, status });
            },
        };
        match fence {
            CancelFence::Untried => Ok(CancelStep::FenceSupervisor),
            CancelFence::Busy { expired } => {
                if expired {
                    return Err(
                        protocol_code(
                            "SUPERVISOR_LOCK_PENDING",
                            "supervisor handoff did not become available during cancellation",
                        ),
                    );
                }
                Ok(CancelStep::Retry)
            },
            CancelFence::Held => {
                if status.state.is_terminal() {
                    return Ok(CancelStep::CleanUp { lease, meta, status });
                }
                match status.child_identity() {
                    None => Ok(CancelStep::CancelPrelaunch { lease, meta, status }),
                    Some(child) => Ok(CancelStep::StopChild { lease, meta, status, child }),
                }
            },
        }
    }
}

/// The status that a cancelled job ends in.
pub open spec fn cancelled(status: StatusModel, now: u64, stdout: u64, stderr: u64) -> StatusModel {
    status.ended(
        JobState::Cancelled,
        if now > status.updated_at_millis {
            now
        } else {
            status.updated_at_millis
        },
        None,
        None,
        stdout,
        stderr,
        Some(
            if status.child() is None {
                "CANCELLED_PRELAUNCH"@
            } else {
                "CANCELLED"@
            },
        ),
    )
}

/// Records the cancellation of a job, whose logs are this long. A job without
/// a command gets the deliberate form that tells it from a stopped one.
pub fn cancelled_status(status: &JobStatus, now: u64, stdout: u64, stderr: u64) -> (result: Result<
    JobStatus,
    WorkerError,
>)
    ensures
        ({
            let next = cancelled(status@, now, stdout, stderr);
            status_outcome(
                result,
                earliest(
                    fault_if(
                        status@.child() is None && status@.state != JobState::Accepted,
                        "prelaunch cancellation requires accepted status without a child identity"@,
                    ),
                    status@.proposal_fault(next),
                ),
                next,
            )
        }),
{
    let at: u64 = reconciliation_timestamp(now, status.updated_at_millis);
    if status.child_identity().is_none() {
        status.into_prelaunch_cancelled(at, stdout, stderr)
    } else {
        status.into_infrastructure_terminal(
            JobState::Cancelled,
            at,
            stdout,
            stderr,
            "CANCELLED".to_owned(),
        )
    }
}

/// The answer after a cancellation was recorded. A turn that could not be
/// published is reported before a cleanup that failed.
pub fn after_cancellation(
    meta: JobMeta,
    cancelled: JobStatus,
    publication: Result<(), WorkerError>,
    cleanup: Result<(), WorkerError>,
) -> (result: Result<CancelResponse, WorkerError>)
    ensures
        publication is Err ==> result == Err::<CancelResponse, WorkerError>(publication->Err_0),
        publication is Ok && cleanup is Err ==> result == Err::<CancelResponse, WorkerError>(
            cleanup->Err_0,
        ),
        publication is Ok && cleanup is Ok ==> {
            &&& outcome_of(result, cancel_answer_fault(meta@, cancelled@))
            &&& result matches Ok(response) ==> answers_cancel(response, meta@, cancelled@)
        },
{
    publication?;
    cleanup?;
    cancel_response(meta, cancelled)
}

/// The answer after an ended job was cleaned up: the status as it was read
/// then, or else as it was known.
pub fn after_ended_cleanup(
    meta: JobMeta,
    known: JobStatus,
    observed: Option<JobStatus>,
    cleanup: Result<(), WorkerError>,
) -> (result: Result<CancelResponse, WorkerError>)
    ensures
        cleanup is Err ==> result == Err::<CancelResponse, WorkerError>(cleanup->Err_0),
        cleanup is Ok ==> {
            let status = match observed {
                Some(read) => read,
                None => known,
            };
            &&& outcome_of(result, cancel_answer_fault(meta@, status@))
            &&& result matches Ok(response) ==> answers_cancel(response, meta@, status@)
        },
{
    cleanup?;
    let status = match observed {
        Some(read) => read,
        None => known,
    };
    cancel_response(meta, status)
}

/// The turn whose task has to be told of the cancellation, where the job has
/// kept a payload and the payload is of a turn.
pub fn cancelled_turn<'a>(
    payload: Option<&'a ExecutionPayload>,
    lease: &LeaseRecord,
    meta: &JobMeta,
) -> (result: Result<Option<&'a TurnSection>, WorkerError>)
    ensures
        payload matches Some(held) ==> outcome_of(result, held@.durable_fault(lease@, meta@)),
        payload is None ==> result is Ok,
        result matches Ok(section) ==> match payload {
            None => section is None,
            Some(held) => match section {
                None => held.turn is None,
                Some(turn) => held.turn == Some(*turn),
            },
        },
{
    match payload {
        None => Ok(None),
        Some(held) => {
            held.validate_for_durable_job(lease, meta)?;
            Ok(held.turn.as_ref())
        },
    }
}

/// A task has to be told of a cancelled turn while the turn is its active one.
pub fn turn_awaits_its_end(task: &TaskProgress, job_id: JobId) -> (awaits: bool)
    ensures
        awaits == (task.state == TaskState::Active && task.pending(job_id)),
{
    task.state == TaskState::Active && task.is_pending(job_id)
}

/// What a task is told about its cancelled turn. `section` is the turn that the
/// job has kept (see [`cancelled_turn`]), and `task` the task as it stands.
pub fn cancelled_publication(
    section: Option<&TurnSection>,
    task: &TaskProgress,
    job_id: JobId,
) -> (publication: TurnPublication)
    ensures
        publication == (if section is Some && task.state == TaskState::Active && task.pending(
            job_id,
        ) {
            TurnPublication::Publish {
                terminal: TurnTerminal::Cancelled,
                path: TerminalPath::HostCancel,
                exit_code: None,
            }
        } else {
            TurnPublication::Nothing
        }),
{
    if section.is_some() && turn_awaits_its_end(task, job_id) {
        TurnPublication::Publish {
            terminal: TurnTerminal::Cancelled,
            path: TerminalPath::HostCancel,
            exit_code: None,
        }
    } else {
        TurnPublication::Nothing
    }
}

pub open spec fn cancel_task_fault(
    task: TaskProgress,
    turn_id: JobId,
    lease: Option<LeaseRecord>,
    project_id: Seq<char>,
    worktree_id: Seq<char>,
) -> Option<Seq<char>> {
    if task.state == TaskState::Open && task.finished(turn_id) {
        None
    } else if task.state != TaskState::Active || !task.pending(turn_id) {
        Some(coded("TASK_CLOSED"@, "task does not have the requested active turn"@))
    } else {
        match lease {
            None => Some(coded("TASK_NOT_FOUND"@, "active task lease is absent"@)),
            Some(lease) => if lease.job_id != turn_id {
                Some(coded("TASK_NOT_FOUND"@, "active task lease is absent"@))
            } else {
                fault_if(
                    lease.project_id@ != project_id || lease.worktree_id@ != worktree_id,
                    coded(
                        "TASK_TURN_CONFLICT"@,
                        "active task lease does not match task metadata"@,
                    ),
                )
            },
        }
    }
}

impl JobService {
    /// The cancellation that ends a task's turn; nothing where the turn has
    /// ended. `project_id` and `worktree_id` are the task's own.
    pub fn cancel_task(
        task: &TaskProgress,
        turn_id: JobId,
        lease: Option<&LeaseRecord>,
        project_id: &str,
        worktree_id: &str,
    ) -> (result: Result<Option<CancelRequest>, WorkerError>)
        ensures
            outcome_of(
                result,
                cancel_task_fault(
                    *task,
                    turn_id,
                    match lease {
                        Some(held) => Some(*held),
                        None => None,
                    },
                    project_id@,
                    worktree_id@,
                ),
            ),
            result matches Ok(request) ==> match request {
                None => task.state == TaskState::Open && task.finished(turn_id),
                Some(cancel) => {
                    &&& task.state == TaskState::Active && task.pending(turn_id)
                    &&& cancel@ == (CancelModel {
                        job_id: turn_id,
                        client_id: lease->0.client_id,
                        lease_token: lease->0.lease_token,
                        request_fingerprint: lease->0.request_fingerprint.text@,
                    })
                },
            },
    {
        if task.state == TaskState::Open && task.is_finished(turn_id) {
            return Ok(None);
        }
        if task.state != TaskState::Active || !task.is_pending(turn_id) {
            return Err(
                protocol_code("TASK_CLOSED", "task does not have the requested active turn"),
            );
        }
        let lease = match lease {
            Some(lease) => lease,
            None => {
                return Err(protocol_code("TASK_NOT_FOUND", "active task lease is absent"));
            },
        };
        if lease.job_id != turn_id {
            return Err(protocol_code("TASK_NOT_FOUND", "active task lease is absent"));
        }
        if !text_eq(lease.project_id.as_str(), project_id) || !text_eq(
            lease.worktree_id.as_str(),
            worktree_id,
        ) {
            return Err(
                protocol_code(
                    "TASK_TURN_CONFLICT",
                    "active task lease does not match task metadata",
                ),
            );
        }
        let cancel = CancelRequest::new(
            turn_id,
            lease.client_id,
            lease.lease_token,
            lease.request_fingerprint.clone(),
        )?;
        Ok(Some(cancel))
    }
}

/// A job that has not ended is cancelled only for the holder of its lease: the
/// request carries the lease's own token and fingerprint.
pub proof fn only_the_lease_holder_cancels(
    service: JobService,
    request: CancelModel,
    fence: CancelFence,
    step: CancelStep,
)
    requires
        cancel_fault(service, request, fence) is None,
        cancel_step(step, service, fence),
        step is CancelPrelaunch || step is StopChild || step is CleanUp,
    ensures
        fence == CancelFence::Held,
        service.lease matches LeaseEvidence::Held { lease } && lease@.job_id == request.job_id
            && lease@.client_id == request.client_id && lease@.lease_token == request.lease_token
            && lease@.request_fingerprint == request.request_fingerprint,
{
}

/// The status that a cancellation records may follow the job's own, whatever
/// the clock says.
pub proof fn cancellations_are_allowed(
    meta: MetaModel,
    status: StatusModel,
    now: u64,
    stdout: u64,
    stderr: u64,
)
    requires
        queryable_fault(meta, status) is None,
        !status.state.terminal(),
    ensures
        status.proposal_fault(cancelled(status, now, stdout, stderr)) is None,
        queryable_fault(meta, cancelled(status, now, stdout, stderr)) is None,
{
    let at = if now > status.updated_at_millis {
        now
    } else {
        status.updated_at_millis
    };
    crate::job_service::identity::cancelled_jobs_can_be_shown(meta, status, at, stdout, stderr);
}

} // verus!
