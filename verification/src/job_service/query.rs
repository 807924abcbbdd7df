//! What a host reports of a job, and what it first puts in order.
use vstd::prelude::*;
use crate::error::{coded, earliest, fault_if, outcome_of, protocol_code, WorkerError};
use crate::host_store::{IndexedIdentity, IndexedModel, JobDisposition};
use crate::job::control::{StatusResponse, StatusResponseModel};
use crate::job::ids::JobId;
use crate::job::logs::{log_chunk_outcome, LogChunk, LogStream};
use crate::job::record::{JobMeta, LeaseModel, LeaseRecord, MetaModel};
use crate::job::request::{SubmitModel, SubmitRequest};
use crate::job::status::{
    bare_status, status_outcome, JobState, JobStatus, ProcessIdentity, StatusModel,
};
use crate::job::PROTOCOL_VERSION;
use crate::job_service::evidence::{
    ended_logs_fault, private_directory_fault, validate_empty_prelaunch_private_directories,
    validate_terminal_log_lengths, LogEvidence, PrivateDirectory,
};
use crate::job_service::identity::{
    id_conflict, is_prelaunch_failure, is_status_changed, job_id_conflict, job_state_invalid,
    leads_with, lease_is_of, live_lease_fault, meta_is_of, queryable_fault, rebuilt_material,
    reconciliation_timestamp, reconstruct_submit_request, reconstruction_fault,
    require_meta_matches_live_lease, reworded,
    state_invalid, terminal_turn_recovery, turn_recovery, turn_recovery_fault,
    validate_queryable_status,
};
use crate::job_service::payload::{ExecutionPayload, TurnSection};
use crate::task::{TaskProgress, TaskState, TerminalPath, TurnTerminal};
use crate::text::text_eq;

verus! {

/// A supervisor that was started for a job and has not been heard of yet.
#[derive(Debug, Clone, Copy, PartialEq, Eq, Structural)]
pub struct LaunchCandidate {
    pub identity: ProcessIdentity,
}

impl LaunchCandidate {
    pub fn new(identity: ProcessIdentity) -> (candidate: LaunchCandidate)
        ensures
            candidate.identity == identity,
    {
        LaunchCandidate { identity }
    }

    pub fn identity(self) -> (identity: ProcessIdentity)
        ensures
            identity == self.identity,
    {
        self.identity
    }
}

/// The lease that a host holds for a job.
pub enum LeaseEvidence {
    Invalid,
    Absent,
    Held { lease: LeaseRecord },
}

/// The records of an accepted job, where they are canonical.
pub struct JobFiles {
    pub meta: Option<JobMeta>,
    pub status: Option<JobStatus>,
    pub stdout: LogEvidence,
    pub stderr: LogEvidence,
}

/// What a host knows about one job while it holds the job's admission lock.
pub struct JobService {
    pub disposition: Option<JobDisposition>,
    /// The files of the accepted job, where its directory could be opened.
    pub files: Option<JobFiles>,
    pub lease: LeaseEvidence,
}

/// The records of an accepted job, checked against one another.
pub struct AuthoritativeJob {
    pub meta: JobMeta,
    pub status: JobStatus,
    /// The live lease, where it is the job's own.
    pub lease: Option<LeaseRecord>,
}

/// How the job's supervisor was found.
pub enum SupervisorEvidence {
    /// Its lock has not been tried.
    Untried,
    /// Someone holds its lock.
    Busy,
    /// This host holds the lock now, and read the status again.
    Fenced { current: Option<JobStatus> },
    /// So it does, and it looked for the recorded supervisor: `process_group` is
    /// the group of that very process where it still runs.
    Observed { current: Option<JobStatus>, process_group: Option<u32> },
}

/// What a host does next for a client that asks about a job.
pub enum StatusStep {
    /// Answer.
    Report { response: StatusResponse },
    /// The index does not know the job: see whether it was published
    /// (see [`unindexed_request`]), index it, and ask again.
    RecoverUnindexed,
    /// Try the supervisor's lock without waiting, and ask again.
    FenceSupervisor,
    /// Look for the recorded supervisor, and ask again.
    ObserveSupervisor { identity: ProcessIdentity },
    /// Someone else changed the job: read everything again, and only report.
    Reread,
    /// Publish and clean up after the ended job.
    FinishTerminal { lease: LeaseRecord, meta: JobMeta, status: JobStatus, require_cleanup: bool },
    /// The supervisor is gone: stop what it left and record the loss.
    Reconcile { lease: LeaseRecord, meta: JobMeta, status: JobStatus },
    /// The job was never launched: launch it.
    Launch { lease: LeaseRecord, meta: JobMeta, status: JobStatus },
}

/// The index names exactly this job.
pub open spec fn index_names(indexed: IndexedModel, meta: MetaModel) -> bool {
    &&& meta.job_id == indexed.job_id
    &&& meta.client_id == indexed.client_id
    &&& meta.project_id == indexed.project_id
    &&& meta.worktree_id == indexed.worktree_id
    &&& meta.request_fingerprint == indexed.request_fingerprint
}

pub fn index_is_of(indexed: &IndexedIdentity, meta: &JobMeta) -> (matches: bool)
    ensures
        matches == index_names(indexed@, meta@),
{
    meta.job_id == indexed.job_id && meta.client_id == indexed.client_id && text_eq(
        meta.project_id.as_str(),
        indexed.project_id.as_str(),
    ) && text_eq(meta.worktree_id.as_str(), indexed.worktree_id.as_str())
        && meta.request_fingerprint.same(&indexed.request_fingerprint)
}

/// The first contradiction between the index and the job's records.
pub open spec fn indexed_files_fault(
    indexed: IndexedModel,
    initial: StatusModel,
    files: Option<JobFiles>,
) -> Option<Seq<char>> {
    match files {
        None => Some(state_invalid("accepted job directory is absent or unsafe"@)),
        Some(files) => match files.meta {
            None => Some(state_invalid("canonical job metadata is invalid"@)),
            Some(meta) => earliest(
                fault_if(
                    !index_names(indexed, meta@),
                    id_conflict("accepted index does not match canonical job metadata"@),
                ),
                earliest(
                    fault_if(
                        initial != bare_status(JobState::Accepted, meta.created_at_millis),
                        state_invalid(
                            "accepted index does not contain the immutable initial status"@,
                        ),
                    ),
                    match files.status {
                        None => Some(state_invalid("canonical mutable job status is invalid"@)),
                        Some(status) => queryable_fault(meta@, status@),
                    },
                ),
            ),
        },
    }
}

/// The first contradiction between the job's records, its lease and its logs.
pub open spec fn held_job_fault(files: JobFiles, lease: LeaseEvidence) -> Option<Seq<char>> {
    let meta = files.meta->0;
    let status = files.status->0;
    match lease {
        LeaseEvidence::Invalid => Some(state_invalid("live lease is invalid"@)),
        LeaseEvidence::Absent => if status@.state.terminal() {
            ended_logs_fault(status@, files.stdout, files.stderr)
        } else {
            Some(state_invalid("nonterminal job has no live lease"@))
        },
        LeaseEvidence::Held { lease } => if status@.state.terminal() {
            earliest(
                ended_logs_fault(status@, files.stdout, files.stderr),
                if lease.job_id == meta.job_id {
                    live_lease_fault(meta@, lease@)
                } else {
                    None
                },
            )
        } else {
            live_lease_fault(meta@, lease@)
        },
    }
}

/// The lease that still holds the job.
pub open spec fn own_lease(meta: MetaModel, lease: LeaseEvidence) -> Option<LeaseModel> {
    match lease {
        LeaseEvidence::Held { lease } => if lease.job_id == meta.job_id {
            Some(lease@)
        } else {
            None
        },
        _ => None,
    }
}

pub open spec fn lease_view(lease: Option<LeaseRecord>) -> Option<LeaseModel> {
    match lease {
        Some(held) => Some(held@),
        None => None,
    }
}

impl JobService {
    pub fn new(
        disposition: Option<JobDisposition>,
        files: Option<JobFiles>,
        lease: LeaseEvidence,
    ) -> (service: JobService)
        ensures
            service == (JobService { disposition, files, lease }),
    {
        JobService { disposition, files, lease }
    }

    /// The first reason why nothing can be reported of the job.
    pub open spec fn authority_fault(&self) -> Option<Seq<char>> {
        match self.disposition {
            None => Some(coded("JOB_NOT_FOUND"@, "job ID is not indexed"@)),
            Some(JobDisposition::Abandoned { .. }) => Some(
                coded("JOB_ABANDONED"@, "job ID was permanently abandoned"@),
            ),
            Some(JobDisposition::Accepted { identity, status }) => earliest(
                indexed_files_fault(identity@, status@, self.files),
                held_job_fault(self.files->0, self.lease),
            ),
        }
    }

    pub open spec fn recorded_meta(&self) -> JobMeta {
        self.files->0.meta->0
    }

    pub open spec fn recorded_status(&self) -> JobStatus {
        self.files->0.status->0
    }

    /// The records of the accepted job, checked against one another.
    pub fn authoritative_job(&self) -> (result: Result<AuthoritativeJob, WorkerError>)
        ensures
            outcome_of(result, self.authority_fault()),
            result matches Ok(job) ==> {
                &&& job.meta == self.recorded_meta()
                &&& job.status == self.recorded_status()
                &&& lease_view(job.lease) == own_lease(job.meta@, self.lease)
                &&& queryable_fault(job.meta@, job.status@) is None
                &&& !job.status@.state.terminal() ==> job.lease is Some
            },
    {
        let (identity, initial) = match &self.disposition {
            None => {
                return Err(protocol_code("JOB_NOT_FOUND", "job ID is not indexed"));
            },
            Some(JobDisposition::Abandoned { .. }) => {
                return Err(protocol_code("JOB_ABANDONED", "job ID was permanently abandoned"));
            },
            Some(JobDisposition::Accepted { identity, status }) => (identity, status),
        };
        let files = match &self.files {
            Some(files) => files,
            None => {
                return Err(job_state_invalid("accepted job directory is absent or unsafe"));
            },
        };
        let (meta, status) = read_indexed_files(identity, initial, files)?;
        let lease = match &self.lease {
            LeaseEvidence::Invalid => {
                return Err(job_state_invalid("live lease is invalid"));
            },
            LeaseEvidence::Absent => {
                if !status.state.is_terminal() {
                    return Err(job_state_invalid("nonterminal job has no live lease"));
                }
                validate_terminal_log_lengths(status, files.stdout, files.stderr)?;
                None
            },
            LeaseEvidence::Held { lease } => {
                if status.state.is_terminal() {
                    validate_terminal_log_lengths(status, files.stdout, files.stderr)?;
                    if lease.job_id == meta.job_id {
                        require_meta_matches_live_lease(meta, lease)?;
                        Some(lease.clone())
                    } else {
                        None
                    }
                } else {
                    require_meta_matches_live_lease(meta, lease)?;
                    Some(lease.clone())
                }
            },
        };
        Ok(AuthoritativeJob { meta: meta.clone(), status: status.clone(), lease })
    }
}

/// The records of the job that the index names.
pub fn read_indexed_files<'a>(identity: &IndexedIdentity, initial: &JobStatus, files: &'a JobFiles) -> (
result: Result<(&'a JobMeta, &'a JobStatus), WorkerError>)
    ensures
        outcome_of(result, indexed_files_fault(identity@, initial@, Some(*files))),
        result matches Ok(found) ==> files.meta == Some(*found.0) && files.status == Some(
            *found.1,
        ),
{
    let meta = match &files.meta {
        Some(meta) => meta,
        None => {
            return Err(job_state_invalid("canonical job metadata is invalid"));
        },
    };
    if !index_is_of(identity, meta) {
        return Err(job_id_conflict("accepted index does not match canonical job metadata"));
    }
    let expected = JobStatus::accepted(meta.created_at_millis)?;
    if !initial.same(&expected) {
        return Err(
            job_state_invalid("accepted index does not contain the immutable initial status"),
        );
    }
    let status = match &files.status {
        Some(status) => status,
        None => {
            return Err(job_state_invalid("canonical mutable job status is invalid"));
        },
    };
    validate_queryable_status(meta, status)?;
    Ok((meta, status))
}

/// An accepted job that no process was recorded for.
pub open spec fn never_launched(status: StatusModel) -> bool {
    status.state == JobState::Accepted && status.supervisor() is None && status.child() is None
}

/// The status that was read behind the supervisor's fence cannot be used.
pub open spec fn fenced_fault(meta: MetaModel, current: Option<JobStatus>) -> Option<Seq<char>> {
    match current {
        None => Some(state_invalid("canonical mutable job status is invalid"@)),
        Some(status) => queryable_fault(meta, status@),
    }
}

/// The status that was read behind the supervisor's fence.
pub open spec fn fenced_status(supervisor: SupervisorEvidence) -> Option<JobStatus> {
    match supervisor {
        SupervisorEvidence::Fenced { current } => current,
        SupervisorEvidence::Observed { current, .. } => current,
        _ => None,
    }
}

/// What a job's status is asked for.
#[derive(Debug, Clone, Copy, PartialEq, Eq, Structural)]
pub enum QueryPurpose {
    /// To show how the job stands.
    Status,
    /// To read one of its logs.
    Log,
    /// To answer a submission that was accepted before.
    Replay,
    /// To put the job in order.
    Reconcile,
    /// To settle a job whose acceptance its client never saw.
    Resolution { ensure_supervisor: bool },
    /// To look again, after the job has changed.
    Reread,
}

impl QueryPurpose {
    /// The job is launched, reconciled or cleaned up where it needs to be.
    pub open spec fn puts_in_order(self) -> bool {
        match self {
            QueryPurpose::Resolution { ensure_supervisor } => ensure_supervisor,
            QueryPurpose::Reread => false,
            _ => true,
        }
    }

    /// A cleanup that fails is reported. A reading of the job goes on without
    /// it, since a later one tries again.
    pub open spec fn requires_cleanup(self) -> bool {
        match self {
            QueryPurpose::Reconcile => true,
            QueryPurpose::Resolution { ensure_supervisor } => ensure_supervisor,
            _ => false,
        }
    }

    pub fn ensure_supervisor(self) -> (ensure: bool)
        ensures
            ensure == self.puts_in_order(),
    {
        match self {
            QueryPurpose::Resolution { ensure_supervisor } => ensure_supervisor,
            QueryPurpose::Reread => false,
            _ => true,
        }
    }

    pub fn require_cleanup(self) -> (require: bool)
        ensures
            require == self.requires_cleanup(),
    {
        match self {
            QueryPurpose::Reconcile => true,
            QueryPurpose::Resolution { ensure_supervisor } => ensure_supervisor,
            _ => false,
        }
    }
}

/// The first reason why a query cannot be answered or taken further.
pub open spec fn status_fault(
    service: JobService,
    supervisor: SupervisorEvidence,
    purpose: QueryPurpose,
) -> Option<Seq<char>> {
    if service.disposition is None {
        None
    } else {
        earliest(
            service.authority_fault(),
            if !purpose.puts_in_order() || own_lease(service.recorded_meta()@, service.lease) is None {
                None
            } else {
                match supervisor {
                    SupervisorEvidence::Untried | SupervisorEvidence::Busy => None,
                    _ => fenced_fault(service.recorded_meta()@, fenced_status(supervisor)),
                }
            },
        )
    }
}

/// The step reports this job as it stands.
pub open spec fn reports(step: StatusStep, meta: MetaModel, status: StatusModel) -> bool {
    step matches StatusStep::Report { response } && response@ == (StatusResponseModel {
        protocol_version: PROTOCOL_VERSION,
        meta,
        status,
    })
}

/// The recorded supervisor of a running job still leads its own group.
pub open spec fn supervisor_lives(status: StatusModel, process_group: Option<u32>) -> bool {
    &&& status.state == JobState::Running
    &&& status.supervisor() matches Some(identity) && process_group == Some(identity.pid)
}

/// The step that a query takes where nothing contradicts itself.
pub open spec fn status_step(
    step: StatusStep,
    service: JobService,
    supervisor: SupervisorEvidence,
    purpose: QueryPurpose,
) -> bool {
    let meta = service.recorded_meta()@;
    let status = service.recorded_status()@;
    let lease = own_lease(meta, service.lease);
    if service.disposition is None {
        step is RecoverUnindexed
    } else if !purpose.puts_in_order() || lease is None || supervisor is Busy {
        reports(step, meta, status)
    } else if supervisor is Untried {
        step is FenceSupervisor
    } else {
        let current = fenced_status(supervisor)->0@;
        if current != status {
            step is Reread
        } else if never_launched(status) {
            step matches StatusStep::Launch { lease: held, meta: m, status: s } && Some(held@)
                == lease && m@ == meta && s@ == status
        } else if status.state.terminal() {
            step matches StatusStep::FinishTerminal { lease: held, meta: m, status: s, require_cleanup }
                && Some(held@) == lease && m@ == meta && s@ == status && require_cleanup
                == purpose.requires_cleanup()
        } else {
            match supervisor {
                SupervisorEvidence::Observed { process_group, .. } => if supervisor_lives(
                    status,
                    process_group,
                ) {
                    reports(step, meta, status)
                } else {
                    step matches StatusStep::Reconcile { lease: held, meta: m, status: s } && Some(
                        held@,
                    ) == lease && m@ == meta && s@ == status
                },
                _ => step matches StatusStep::ObserveSupervisor { identity }
                    && status.supervisor() == Some(identity),
            }
        }
    }
}

impl JobService {
    /// What the host does next for a query. For some purposes it only reports.
    pub fn query(&self, supervisor: SupervisorEvidence, purpose: QueryPurpose) -> (result: Result<
        StatusStep,
        WorkerError,
    >)
        ensures
            outcome_of(result, status_fault(*self, supervisor, purpose)),
            result matches Ok(step) ==> status_step(step, *self, supervisor, purpose),
    {
        if self.disposition.is_none() {
            return Ok(StatusStep::RecoverUnindexed);
        }
        let job = self.authoritative_job()?;
        if !purpose.ensure_supervisor() {
            return report(job.meta, job.status);
        }
        let lease = match job.lease {
            Some(lease) => lease,
            None => {
                return report(job.meta, job.status);
            },
        };
        let (current, observed) = match supervisor {
            SupervisorEvidence::Untried => {
                return Ok(StatusStep::FenceSupervisor);
            },
            SupervisorEvidence::Busy => {
                return report(job.meta, job.status);
            },
            SupervisorEvidence::Fenced { current } => (current, None),
            SupervisorEvidence::Observed { current, process_group } => (
                current,
                Some(process_group),
            ),
        };
        let current = match current {
            Some(status) => status,
            None => {
                return Err(job_state_invalid("canonical mutable job status is invalid"));
            },
        };
        validate_queryable_status(&job.meta, &current)?;
        if !current.same(&job.status) {
            return Ok(StatusStep::Reread);
        }
        let meta = job.meta;
        let status = job.status;
        let require_cleanup = purpose.require_cleanup();
        let identity = match status.supervisor_identity() {
            Some(identity) => identity,
            None => {
                if status.state.is_terminal() {
                    return Ok(StatusStep::FinishTerminal { lease, meta, status, require_cleanup });
                }
                return Ok(StatusStep::Launch { lease, meta, status });
            },
        };
        if status.state.is_terminal() {
            return Ok(StatusStep::FinishTerminal { lease, meta, status, require_cleanup });
        }
        match observed {
            None => Ok(StatusStep::ObserveSupervisor { identity }),
            Some(process_group) => {
                if status.state == JobState::Running && process_group == Some(identity.pid) {
                    report(meta, status)
                } else {
                    Ok(StatusStep::Reconcile { lease, meta, status })
                }
            },
        }
    }

    /// A client asks about its job. A cleanup that fails does not keep it from
    /// the answer.
    pub fn status(&self, supervisor: SupervisorEvidence) -> (result: Result<
        StatusStep,
        WorkerError,
    >)
        ensures
            outcome_of(result, status_fault(*self, supervisor, QueryPurpose::Status)),
            result matches Ok(step) ==> status_step(step, *self, supervisor, QueryPurpose::Status),
    {
        self.query(supervisor, QueryPurpose::Status)
    }

    /// A client asks for its job to be put in order: a cleanup that fails is
    /// reported.
    pub fn reconcile_job(&self, supervisor: SupervisorEvidence) -> (result: Result<
        StatusStep,
        WorkerError,
    >)
        ensures
            outcome_of(result, status_fault(*self, supervisor, QueryPurpose::Reconcile)),
            result matches Ok(step) ==> status_step(
                step,
                *self,
                supervisor,
                QueryPurpose::Reconcile,
            ),
    {
        self.query(supervisor, QueryPurpose::Reconcile)
    }
}

/// An answer about a job whose records agree.
fn report(meta: JobMeta, status: JobStatus) -> (result: Result<StatusStep, WorkerError>)
    requires
        queryable_fault(meta@, status@) is None,
    ensures
        result matches Ok(step) && reports(step, meta@, status@),
{
    let response = StatusResponse::new(meta, status)?;
    Ok(StatusStep::Report { response })
}

/// An answer of this protocol about exactly this job.
pub open spec fn answers(response: StatusResponse, meta: JobMeta, status: JobStatus) -> bool {
    response == (StatusResponse { protocol_version: PROTOCOL_VERSION, meta, status })
}

/// The answer about a job, or the one complaint that an inconsistent answer
/// gives rise to.
pub fn answer(meta: JobMeta, status: JobStatus) -> (result: Result<StatusResponse, WorkerError>)
    ensures
        outcome_of(
            result,
            reworded(
                (StatusResponseModel {
                    protocol_version: PROTOCOL_VERSION,
                    meta: meta@,
                    status: status@,
                }).fault(),
                state_invalid("job status response is inconsistent"@),
            ),
        ),
        result matches Ok(response) ==> answers(response, meta, status),
{
    match StatusResponse::new(meta, status) {
        Ok(response) => Ok(response),
        Err(_) => Err(job_state_invalid("job status response is inconsistent")),
    }
}

/// How a turn's record is brought in line with its ended job.
pub enum TurnPublication {
    Nothing,
    Publish { terminal: TurnTerminal, path: TerminalPath, exit_code: Option<i32> },
}

pub open spec fn terminal_publication_fault(
    section: Option<TurnSection>,
    task: TaskProgress,
    job_id: JobId,
    status: StatusModel,
) -> Option<Seq<char>> {
    if section is None || task.state != TaskState::Active {
        None
    } else if task.pending(job_id) {
        turn_recovery_fault(status)
    } else {
        Some(
            coded(
                "TASK_TURN_CONFLICT"@,
                "terminal job retains a turn payload but task has another active turn"@,
            ),
        )
    }
}

/// What a task is told about its turn, whose job has ended but has kept its
/// payload. `section` is the turn that the payload names, if any, and `task`
/// the task as it stands.
pub fn terminal_publication(
    section: Option<&TurnSection>,
    task: &TaskProgress,
    job_id: JobId,
    status: &JobStatus,
) -> (result: Result<TurnPublication, WorkerError>)
    ensures
        outcome_of(
            result,
            terminal_publication_fault(
                match section {
                    Some(held) => Some(*held),
                    None => None,
                },
                *task,
                job_id,
                status@,
            ),
        ),
        result matches Ok(publication) ==> if section is Some && task.state == TaskState::Active {
            publication matches TurnPublication::Publish { terminal, path, exit_code }
                && turn_recovery(status@) == Some((terminal, path, exit_code))
        } else {
            publication is Nothing
        },
{
    if section.is_none() || task.state != TaskState::Active {
        return Ok(TurnPublication::Nothing);
    }
    if !task.is_pending(job_id) {
        return Err(
            protocol_code(
                "TASK_TURN_CONFLICT",
                "terminal job retains a turn payload but task has another active turn",
            ),
        );
    }
    let (terminal, path, exit_code) = terminal_turn_recovery(status)?;
    Ok(TurnPublication::Publish { terminal, path, exit_code })
}

/// What a task is told about its turn, whose job has lost its supervisor: that
/// the turn is lost, however the task stands. `payload` is what the job has
/// kept of it, if anything.
pub fn lost_publication(
    payload: Option<&ExecutionPayload>,
    lease: &LeaseRecord,
    meta: &JobMeta,
) -> (result: Result<TurnPublication, WorkerError>)
    ensures
        outcome_of(
            result,
            match payload {
                Some(held) => held@.durable_fault(lease@, meta@),
                None => None,
            },
        ),
        result matches Ok(publication) ==> if payload is Some && payload->0.turn is Some {
            publication == (TurnPublication::Publish {
                terminal: TurnTerminal::Lost,
                path: TerminalPath::LostReconciliation,
                exit_code: None,
            })
        } else {
            publication is Nothing
        },
{
    match payload {
        None => Ok(TurnPublication::Nothing),
        Some(held) => {
            held.validate_for_durable_job(lease, meta)?;
            if held.turn.is_some() {
                Ok(
                    TurnPublication::Publish {
                        terminal: TurnTerminal::Lost,
                        path: TerminalPath::LostReconciliation,
                        exit_code: None,
                    },
                )
            } else {
                Ok(TurnPublication::Nothing)
            }
        },
    }
}

/// The status of a job whose supervisor is gone.
pub fn lost_status(current: &JobStatus, now: u64, stdout: u64, stderr: u64) -> (result: Result<
    JobStatus,
    WorkerError,
>)
    ensures
        ({
            let at = if now > current.updated_at_millis {
                now
            } else {
                current.updated_at_millis
            };
            let next = current@.ended(
                JobState::Lost,
                at,
                None,
                None,
                stdout,
                stderr,
                Some("SUPERVISOR_LOST"@),
            );
            status_outcome(result, current@.proposal_fault(next), next)
        }),
{
    current.into_infrastructure_terminal(
        JobState::Lost,
        reconciliation_timestamp(now, current.updated_at_millis),
        stdout,
        stderr,
        "SUPERVISOR_LOST".to_owned(),
    )
}

/// What is reported after an ended job was cleaned up: the status as it was
/// read then, or else as it was known before. A query reports it although the
/// cleanup failed, since a later one tries again; a reconciliation reports the
/// failure.
pub fn after_terminal_cleanup(
    meta: JobMeta,
    known: JobStatus,
    observed: Option<JobStatus>,
    cleanup: Result<(), WorkerError>,
    require_cleanup: bool,
) -> (result: Result<StatusResponse, WorkerError>)
    ensures
        cleanup matches Err(error) && require_cleanup ==> result == Err::<
            StatusResponse,
            WorkerError,
        >(cleanup->Err_0),
        !(cleanup is Err && require_cleanup) ==> {
            let status = match observed {
                Some(read) => read,
                None => known,
            };
            &&& outcome_of(
                result,
                reworded(
                    (StatusResponseModel {
                        protocol_version: PROTOCOL_VERSION,
                        meta: meta@,
                        status: status@,
                    }).fault(),
                    state_invalid("job status response is inconsistent"@),
                ),
            )
            &&& result matches Ok(response) ==> answers(response, meta, status)
        },
{
    let status = match observed {
        Some(read) => read,
        None => known,
    };
    match cleanup {
        Ok(()) => answer(meta, status),
        Err(error) => {
            if require_cleanup {
                Err(error)
            } else {
                answer(meta, status)
            }
        },
    }
}

/// What a query reports of an ended job, once its turn was published and the
/// job was cleaned up: a publication that failed comes before anything about
/// the cleanup, whether or not the cleanup is required.
pub fn after_terminal_publication(
    meta: JobMeta,
    known: JobStatus,
    observed: Option<JobStatus>,
    publication: Result<(), WorkerError>,
    cleanup: Result<(), WorkerError>,
    require_cleanup: bool,
) -> (result: Result<StatusResponse, WorkerError>)
    ensures
        publication is Err ==> result == Err::<StatusResponse, WorkerError>(publication->Err_0),
        publication is Ok && cleanup is Err && require_cleanup ==> result == Err::<
            StatusResponse,
            WorkerError,
        >(cleanup->Err_0),
        publication is Ok && !(cleanup is Err && require_cleanup) ==> {
            let status = match observed {
                Some(read) => read,
                None => known,
            };
            &&& outcome_of(
                result,
                reworded(
                    (StatusResponseModel {
                        protocol_version: PROTOCOL_VERSION,
                        meta: meta@,
                        status: status@,
                    }).fault(),
                    state_invalid("job status response is inconsistent"@),
                ),
            )
            &&& result matches Ok(response) ==> answers(response, meta, status)
        },
{
    publication?;
    after_terminal_cleanup(meta, known, observed, cleanup, require_cleanup)
}

/// What is reported after a job's supervisor was found gone: a publication
/// that failed comes before a cleanup that failed.
pub fn after_reconciliation(
    meta: JobMeta,
    lost: JobStatus,
    publication: Result<(), WorkerError>,
    cleanup: Result<(), WorkerError>,
) -> (result: Result<StatusResponse, WorkerError>)
    ensures
        publication is Err ==> result == Err::<StatusResponse, WorkerError>(publication->Err_0),
        publication is Ok && cleanup is Err ==> result == Err::<StatusResponse, WorkerError>(
            cleanup->Err_0,
        ),
        publication is Ok && cleanup is Ok ==> {
            &&& outcome_of(
                result,
                reworded(
                    (StatusResponseModel {
                        protocol_version: PROTOCOL_VERSION,
                        meta: meta@,
                        status: lost@,
                    }).fault(),
                    state_invalid("job status response is inconsistent"@),
                ),
            )
            &&& result matches Ok(response) ==> answers(response, meta, lost)
        },
{
    publication?;
    cleanup?;
    answer(meta, lost)
}

/// What is reported after a launch that a query started: `reread` is what a
/// fresh read without a supervisor gave.
pub fn after_query_launch(
    launched: Result<(), WorkerError>,
    before: &JobStatus,
    reread: Result<StatusResponse, WorkerError>,
) -> (result: Result<StatusResponse, WorkerError>)
    ensures
        launched is Ok ==> result == reread,
        launched matches Err(error) ==> if !leads_with(error, "SUPERVISOR_PRELAUNCH_FAILED:"@) {
            result == Err::<StatusResponse, WorkerError>(error)
        } else {
            match reread {
                Err(_) => result == reread,
                Ok(response) => if response.status@ != before@ {
                    result == reread
                } else {
                    result == Err::<StatusResponse, WorkerError>(error)
                },
            }
        },
{
    match launched {
        Ok(()) => reread,
        Err(error) => {
            if !is_prelaunch_failure(&error) {
                return Err(error);
            }
            match reread {
                Ok(response) => {
                    if response.status.same(before) {
                        Err(error)
                    } else {
                        Ok(response)
                    }
                },
                Err(authority_error) => Err(authority_error),
            }
        },
    }
}

/// What is to be noted on an ended job after its cleanup was tried.
#[derive(Debug, Clone, Copy, PartialEq, Eq, Structural)]
pub enum CleanupNote {
    Nothing,
    /// Note that the job's files could not be removed.
    MutableCleanupFailed,
    /// Note that the job's slot could not be released.
    LeaseReleaseFailed,
    /// An earlier failure no longer holds.
    Clear,
}

/// What a cleanup leaves on the ended job: `released` is the release's
/// outcome, which is only tried after the files were removed.
pub fn cleanup_note(terminal: &JobStatus, removed: bool, released: bool) -> (note: CleanupNote)
    ensures
        note == (if removed && released {
            if terminal.cleanup_error_code is Some {
                CleanupNote::Clear
            } else {
                CleanupNote::Nothing
            }
        } else if terminal.cleanup_error_code is Some {
            CleanupNote::Nothing
        } else if removed {
            CleanupNote::LeaseReleaseFailed
        } else {
            CleanupNote::MutableCleanupFailed
        }),
{
    let noted = terminal.cleanup_error_code.is_some();
    if removed && released {
        if noted {
            CleanupNote::Clear
        } else {
            CleanupNote::Nothing
        }
    } else if noted {
        CleanupNote::Nothing
    } else if removed {
        CleanupNote::LeaseReleaseFailed
    } else {
        CleanupNote::MutableCleanupFailed
    }
}

/// The ended job with a cleanup failure noted, where nobody changed it since.
pub fn enriched_status(current: &JobStatus, terminal: &JobStatus, code: String, now: u64) -> (result:
    Result<JobStatus, WorkerError>)
    ensures
        current@ != terminal@ ==> outcome_of(
            result,
            Some(
                coded("STATUS_CHANGED"@, "terminal status changed before cleanup enrichment"@),
            ),
        ),
        current@ == terminal@ ==> {
            let at = if now > current.updated_at_millis {
                now
            } else {
                current.updated_at_millis
            };
            let next = current@.uncleaned(code@, at);
            status_outcome(
                result,
                earliest(
                    fault_if(
                        !current.state.terminal() || current.cleanup_error_code is Some,
                        "cleanup error may enrich a terminal status once"@,
                    ),
                    current@.proposal_fault(next),
                ),
                next,
            )
        },
{
    if !current.same(terminal) {
        return Err(
            protocol_code("STATUS_CHANGED", "terminal status changed before cleanup enrichment"),
        );
    }
    current.with_cleanup_error(code, reconciliation_timestamp(now, current.updated_at_millis))
}

/// Whether the note of an earlier cleanup failure is taken off an ended job:
/// only where nobody changed the job since.
pub fn note_is_cleared(current: &JobStatus, terminal: &JobStatus) -> (cleared: bool)
    ensures
        cleared == (terminal.cleanup_error_code is Some && current@ == terminal@),
{
    terminal.cleanup_error_code.is_some() && current.same(terminal)
}

/// A note that could not be taken off because the job changed meanwhile is
/// left to the next read.
pub fn after_clearing_note(written: Result<(), WorkerError>) -> (result: Result<(), WorkerError>)
    ensures
        match written {
            Ok(()) => result is Ok,
            Err(error) => if leads_with(error, "STATUS_CHANGED:"@) {
                result is Ok
            } else {
                result == written
            },
        },
{
    match written {
        Ok(()) => Ok(()),
        Err(error) => {
            if is_status_changed(&error) {
                Ok(())
            } else {
                Err(error)
            }
        },
    }
}

/// What a failed read of a log is.
#[derive(Debug, Clone, Copy, PartialEq, Eq, Structural)]
pub enum LogReadFailure {
    BeyondEof,
    Io,
}

/// The file that a log stream is kept in.
pub fn log_file_name(stream: LogStream) -> (name: &'static str)
    ensures
        name@ == (match stream {
            LogStream::Stdout => "stdout.log"@,
            LogStream::Stderr => "stderr.log"@,
        }),
{
    match stream {
        LogStream::Stdout => "stdout.log",
        LogStream::Stderr => "stderr.log",
    }
}

impl JobService {
    /// One chunk of a job's log, out of what the host read at `offset`.
    pub fn read_log(
        stream: LogStream,
        offset: u64,
        read: Result<Vec<u8>, LogReadFailure>,
    ) -> (result: Result<LogChunk, WorkerError>)
        ensures
            read matches Err(failure) ==> match failure {
                LogReadFailure::BeyondEof => outcome_of(
                    result,
                    Some(coded("LOG_OFFSET_BEYOND_EOF"@, "requested log offset is beyond EOF"@)),
                ),
                LogReadFailure::Io => result == Err::<LogChunk, WorkerError>(WorkerError::Io),
            },
            read matches Ok(bytes) ==> log_chunk_outcome(result, stream, offset, bytes@),
    {
        match read {
            Ok(bytes) => LogChunk::new(stream, offset, bytes),
            Err(LogReadFailure::BeyondEof) => Err(
                protocol_code("LOG_OFFSET_BEYOND_EOF", "requested log offset is beyond EOF"),
            ),
            Err(LogReadFailure::Io) => Err(WorkerError::Io),
        }
    }
}

/// What a host finds where the directory of an unindexed job would be.
pub enum UnindexedDirectory {
    Missing,
    Unsafe,
    Open { files: UnindexedFiles },
}

pub struct UnindexedFiles {
    pub meta: Option<JobMeta>,
    pub status: Option<JobStatus>,
    pub home: PrivateDirectory,
    pub tmp: PrivateDirectory,
    pub payload: Option<ExecutionPayload>,
}

pub open spec fn unindexed_files_fault(files: UnindexedFiles, lease: LeaseModel) -> Option<Seq<char>> {
    match files.meta {
        None => Some(state_invalid("unindexed final metadata is invalid"@)),
        Some(meta) => earliest(
            live_lease_fault(meta@, lease),
            earliest(
                match files.status {
                    None => Some(state_invalid("unindexed final status is invalid"@)),
                    Some(status) => fault_if(
                        status@ != bare_status(JobState::Accepted, meta.created_at_millis),
                        state_invalid("unindexed final job is not an exact prelaunch Accepted job"@),
                    ),
                },
                earliest(
                    earliest(
                        private_directory_fault(files.home),
                        private_directory_fault(files.tmp),
                    ),
                    reconstruction_fault(files.payload, meta@, lease),
                ),
            ),
        ),
    }
}

pub open spec fn unindexed_fault(
    job_id: JobId,
    lease: LeaseEvidence,
    directory: UnindexedDirectory,
) -> Option<Seq<char>> {
    match lease {
        LeaseEvidence::Invalid => Some(state_invalid("live lease is invalid"@)),
        LeaseEvidence::Absent => Some(coded("JOB_NOT_FOUND"@, "job ID is not indexed"@)),
        LeaseEvidence::Held { lease } => if lease.job_id != job_id {
            Some(coded("JOB_NOT_FOUND"@, "job ID is not indexed"@))
        } else {
            match directory {
                UnindexedDirectory::Missing => Some(
                    coded("JOB_NOT_FOUND"@, "job ID is not indexed"@),
                ),
                UnindexedDirectory::Unsafe => Some(
                    state_invalid("unindexed final job directory is unsafe"@),
                ),
                UnindexedDirectory::Open { files } => unindexed_files_fault(files, lease@),
            }
        },
    }
}

/// The request that the files of a job were accepted for: its material is
/// rebuilt from them, and its fingerprint is the one that they record.
pub open spec fn rebuilt_from(request: SubmitModel, files: UnindexedFiles, lease: LeaseModel) -> bool {
    &&& files.meta is Some
    &&& files.payload is Some
    &&& request.material == rebuilt_material(files.payload->0@, files.meta->0@, lease)
    &&& request.request_fingerprint == files.meta->0@.request_fingerprint
    &&& meta_is_of(files.meta->0@, request, lease)
}

/// The request of a job that was published but never indexed. Its lease, its
/// records and its payload must all be of one request that was never launched.
pub fn unindexed_request(
    job_id: JobId,
    lease: &LeaseEvidence,
    directory: &UnindexedDirectory,
) -> (result: Result<SubmitRequest, WorkerError>)
    ensures
        outcome_of(result, unindexed_fault(job_id, *lease, *directory)),
        result matches Ok(request) ==> {
            &&& request@.bound().fault() is None
            &&& request@.material.job_id == job_id
            &&& lease matches LeaseEvidence::Held { lease: held } && {
                &&& lease_is_of(held@, request@)
                &&& directory matches UnindexedDirectory::Open { files } && rebuilt_from(
                    request@,
                    *files,
                    held@,
                )
            }
        },
{
    let lease = match lease {
        LeaseEvidence::Invalid => {
            return Err(job_state_invalid("live lease is invalid"));
        },
        LeaseEvidence::Absent => {
            return Err(protocol_code("JOB_NOT_FOUND", "job ID is not indexed"));
        },
        LeaseEvidence::Held { lease } => lease,
    };
    if lease.job_id != job_id {
        return Err(protocol_code("JOB_NOT_FOUND", "job ID is not indexed"));
    }
    let files = match directory {
        UnindexedDirectory::Missing => {
            return Err(protocol_code("JOB_NOT_FOUND", "job ID is not indexed"));
        },
        UnindexedDirectory::Unsafe => {
            return Err(job_state_invalid("unindexed final job directory is unsafe"));
        },
        UnindexedDirectory::Open { files } => files,
    };
    let meta = match &files.meta {
        Some(meta) => meta,
        None => {
            return Err(job_state_invalid("unindexed final metadata is invalid"));
        },
    };
    require_meta_matches_live_lease(meta, lease)?;
    let status = match &files.status {
        Some(status) => status,
        None => {
            return Err(job_state_invalid("unindexed final status is invalid"));
        },
    };
    let expected = JobStatus::accepted(meta.created_at_millis)?;
    if !status.same(&expected) {
        return Err(
            job_state_invalid("unindexed final job is not an exact prelaunch Accepted job"),
        );
    }
    validate_empty_prelaunch_private_directories(files.home, files.tmp)?;
    reconstruct_submit_request(files.payload.as_ref(), meta, lease)
}

/// The records that may be indexed for an unindexed job: what was read at
/// first must be what the validation read.
pub fn confirm_unindexed(
    meta: &JobMeta,
    status: &JobStatus,
    validated: &Option<(JobMeta, JobStatus)>,
) -> (result: Result<(), WorkerError>)
    ensures
        outcome_of(
            result,
            match validated {
                None => Some(coded("JOB_NOT_FOUND"@, "job ID is not indexed"@)),
                Some(records) => fault_if(
                    records.0@ != meta@ || records.1@ != status@,
                    state_invalid("unindexed final job changed during validation"@),
                ),
            },
        ),
{
    match validated {
        None => Err(protocol_code("JOB_NOT_FOUND", "job ID is not indexed")),
        Some(records) => {
            if !records.0.same(meta) || !records.1.same(status) {
                Err(job_state_invalid("unindexed final job changed during validation"))
            } else {
                Ok(())
            }
        },
    }
}

/// Of two clients that find the same ended job, the one who reconciles it is told
/// of a cleanup that failed, and the one who reads it is not.
pub proof fn only_repairs_report_failed_cleanups(
    service: JobService,
    supervisor: SupervisorEvidence,
    read: StatusStep,
    repaired: StatusStep,
)
    requires
        status_step(read, service, supervisor, QueryPurpose::Status),
        status_step(repaired, service, supervisor, QueryPurpose::Reconcile),
    ensures
        read is FinishTerminal <==> repaired is FinishTerminal,
        read matches StatusStep::FinishTerminal { require_cleanup, .. } ==> !require_cleanup,
        repaired matches StatusStep::FinishTerminal { require_cleanup, .. } ==> require_cleanup,
{
}

/// A job is launched, reconciled or cleaned up only behind the supervisor's
/// fence and under the job's own lease, and never while its supervisor lives.
pub proof fn queries_act_only_behind_the_fence(
    service: JobService,
    supervisor: SupervisorEvidence,
    purpose: QueryPurpose,
    step: StatusStep,
)
    requires
        status_fault(service, supervisor, purpose) is None,
        status_step(step, service, supervisor, purpose),
        step is Launch || step is Reconcile || step is FinishTerminal,
    ensures
        purpose.puts_in_order(),
        supervisor is Fenced || supervisor is Observed,
        own_lease(service.recorded_meta()@, service.lease) is Some,
        step is Launch ==> never_launched(service.recorded_status()@),
        step is FinishTerminal ==> service.recorded_status()@.state.terminal(),
        step is Reconcile ==> !service.recorded_status()@.state.terminal()
            && service.recorded_status()@.supervisor() is Some,
        step matches StatusStep::Reconcile { .. } ==> supervisor matches SupervisorEvidence::Observed {
            process_group,
            ..
        } && !supervisor_lives(service.recorded_status()@, process_group),
{
    let status = service.recorded_status()@;
    assert(status.valid());
    crate::job::status::valid_statuses_are_complete(status);
}

} // verus!
