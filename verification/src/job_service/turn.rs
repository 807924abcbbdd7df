//! How a host accepts one turn of a task.
use vstd::prelude::*;
use crate::error::{coded, earliest, fault_if, outcome_of, protocol_code, WorkerError};
use crate::host_store::JobDisposition;
use crate::job::control::SubmitResponse;
use crate::job::ids::TaskId;
use crate::job::record::{JobMeta, LeaseModel, LeaseRecord};
use crate::job::request::{SubmitModel, SubmitRequest};
use crate::job::status::{bare_status, JobState, JobStatus};
use crate::job_service::evidence::{
    turn_job_fault, validate_indexed_turn_prelaunch_job, PrelaunchEvidence,
};
use crate::job_service::identity::{
    accepted_fault, exact_lease_fault, exact_meta_fault, id_conflict, job_id_conflict,
    require_exact_lease, require_exact_meta, require_matching_accepted,
};
use crate::job_service::payload::{ExecutionPayload, PayloadModel, TurnSection};
use crate::job_service::query::{never_launched, JobService};
use crate::job_service::submit::{
    exact_job_fault, read_exact_job, JobRecords, SupervisionStep,
};
use crate::task::{AgentKind, LastTurn, TaskProgress, TaskState};
use crate::text::{opt_text, opt_text_eq, text_eq};

verus! {

/// The terms under which an agent works.
#[derive(Debug, PartialEq, Eq)]
pub struct TurnTerms {
    pub agent: AgentKind,
    pub model: Option<String>,
    /// What the agent may do, how long and how much of it, in canonical JSON.
    pub policy: String,
    pub limits: String,
    pub env_profile: Option<String>,
}

impl TurnTerms {
    pub open spec fn agrees(&self, other: &TurnTerms) -> bool {
        &&& self.agent == other.agent
        &&& opt_text(self.model) == opt_text(other.model)
        &&& self.policy@ == other.policy@
        &&& self.limits@ == other.limits@
        &&& opt_text(self.env_profile) == opt_text(other.env_profile)
    }

    pub fn same(&self, other: &TurnTerms) -> (same: bool)
        ensures
            same == self.agrees(other),
    {
        self.agent == other.agent && opt_text_eq(&self.model, &other.model) && text_eq(
            self.policy.as_str(),
            other.policy.as_str(),
        ) && text_eq(self.limits.as_str(), other.limits.as_str()) && opt_text_eq(
            &self.env_profile,
            &other.env_profile,
        )
    }
}

/// One turn that a client asks for.
#[derive(Debug, PartialEq, Eq)]
pub struct TurnFacts {
    pub task_id: TaskId,
    pub turn_number: u32,
    /// Whether it goes on with the agent's earlier session.
    pub resume: bool,
    pub base_oid: String,
    pub terms: TurnTerms,
    /// The turn in canonical JSON.
    pub canonical: String,
    /// The address that the turn is to push to, if it is to.
    pub origin_url: Option<String>,
}

/// The task that the turn belongs to.
#[derive(Debug, PartialEq, Eq)]
pub struct TaskFacts {
    pub worktree_id: String,
    pub base_oid: String,
    pub terms: TurnTerms,
    /// Whether results are pushed, and to which pinned address.
    pub pushes: bool,
    pub push_origin_url: Option<String>,
}

/// A turn pushes exactly where its task does, and only to the pinned address.
pub open spec fn origin_fault(
    pinned: Option<Seq<char>>,
    pushes: bool,
    origin: Option<Seq<char>>,
) -> Option<Seq<char>> {
    match (pushes, origin) {
        (false, None) => None,
        (true, None) => Some(coded("REQUEST_CONFLICT"@, "push publication has no origin target"@)),
        (false, Some(_)) => Some(
            coded("REQUEST_CONFLICT"@, "turn has an unexpected origin target"@),
        ),
        (true, Some(actual)) => match pinned {
            Some(expected) => fault_if(
                actual != expected,
                coded("REQUEST_CONFLICT"@, "turn origin target does not match the task"@),
            ),
            None => Some(
                coded("REQUEST_CONFLICT"@, "push publication has no pinned origin target"@),
            ),
        },
    }
}

pub fn validate_turn_origin(
    push_origin_url: &Option<String>,
    pushes: bool,
    origin_url: &Option<String>,
) -> (result: Result<(), WorkerError>)
    ensures
        outcome_of(
            result,
            origin_fault(opt_text(*push_origin_url), pushes, opt_text(*origin_url)),
        ),
{
    match (push_origin_url, pushes, origin_url) {
        (_, false, None) => Ok(()),
        (_, true, None) => Err(
            protocol_code("REQUEST_CONFLICT", "push publication has no origin target"),
        ),
        (_, false, Some(_)) => Err(
            protocol_code("REQUEST_CONFLICT", "turn has an unexpected origin target"),
        ),
        (Some(expected), true, Some(actual)) => {
            if text_eq(actual.as_str(), expected.as_str()) {
                Ok(())
            } else {
                Err(protocol_code("REQUEST_CONFLICT", "turn origin target does not match the task"))
            }
        },
        (None, true, Some(_)) => Err(
            protocol_code("REQUEST_CONFLICT", "push publication has no pinned origin target"),
        ),
    }
}

/// What a host knows when a turn is submitted.
pub struct TurnEvidence {
    pub disposition: Option<JobDisposition>,
    pub lease: Option<LeaseRecord>,
    pub task: TaskFacts,
    /// How the task stands; with `resumed`, after it was made ready for this
    /// resumed turn.
    pub progress: TaskProgress,
    pub resumed: bool,
    pub session_bound: bool,
    /// The job's records and its payload, once they were asked for.
    pub job: Option<JobRecords>,
    pub payload: Option<ExecutionPayload>,
}

/// What the host does next for a submitted turn.
pub enum TurnStep {
    /// Read the job's records, and ask again.
    ReadJob,
    /// Read the job's payload, and ask again.
    ReadPayload,
    Answer { response: SubmitResponse },
    /// Ask how the accepted job stands, and answer with its status.
    QueryStatus,
    /// Try the supervisor's lock: launch the job, or answer with its status.
    ElectSupervisor,
    /// Make the open task ready for this turn, and ask again.
    PrepareResume,
    /// Publish the turn. `bind_session` tells whether the agent's session is
    /// known from the start and has to be recorded.
    Publish { bind_session: bool },
}

/// The lease that is held for the turn's job.
pub open spec fn turn_lease(evidence: TurnEvidence, request: SubmitModel) -> Option<LeaseRecord> {
    match evidence.lease {
        Some(lease) => if lease.job_id == request.material.job_id {
            Some(lease)
        } else {
            None
        },
        None => None,
    }
}

/// The payload of an accepted turn that was never launched is this turn's.
pub open spec fn accepted_payload_fault(
    payload: PayloadModel,
    request: SubmitModel,
    turn: TurnFacts,
) -> Option<Seq<char>> {
    match payload.turn {
        None => Some(id_conflict("accepted turn job has no durable turn section"@)),
        Some(section) => earliest(
            payload.turn_fault(request, section),
            fault_if(
                section.turn != turn.canonical@,
                coded("REQUEST_CONFLICT"@, "accepted turn job belongs to another turn"@),
            ),
        ),
    }
}

/// The first reason why an accepted turn cannot be answered.
pub open spec fn accepted_turn_fault(
    evidence: TurnEvidence,
    request: SubmitModel,
    turn: TurnFacts,
) -> Option<Seq<char>> {
    earliest(
        accepted_fault(evidence.disposition->0, request),
        earliest(
            origin_fault(
                opt_text(evidence.task.push_origin_url),
                evidence.task.pushes,
                opt_text(turn.origin_url),
            ),
            match turn_lease(evidence, request) {
                None => None,
                Some(lease) => earliest(
                    exact_lease_fault(lease@, request),
                    match evidence.job {
                        None => None,
                        Some(job) => earliest(
                            exact_job_fault(job, request, lease@),
                            if never_launched(job.status@) && evidence.payload is Some {
                                accepted_payload_fault(evidence.payload->0@, request, turn)
                            } else {
                                None
                            },
                        ),
                    },
                ),
            },
        ),
    )
}

/// The task is ready for this turn.
pub open spec fn turn_is_prepared(evidence: TurnEvidence, request: SubmitModel) -> bool {
    evidence.resumed || (evidence.progress.state == TaskState::Active && evidence.progress.pending(
        request.material.job_id,
    ))
}

/// The turn works on what the task has reached, under the task's terms.
pub open spec fn turn_fits_task(evidence: TurnEvidence, request: SubmitModel, turn: TurnFacts) -> bool {
    &&& request.material.worktree_id == evidence.task.worktree_id@
    &&& turn.turn_number == evidence.progress.last_turn->0.turn_number
    &&& turn.terms.agrees(&evidence.task.terms)
    &&& turn.base_oid@ == match evidence.progress.head_oid {
        Some(head) => head@,
        None => evidence.task.base_oid@,
    }
}

/// The first reason why a new turn may not be published.
pub open spec fn new_turn_fault(evidence: TurnEvidence, request: SubmitModel, turn: TurnFacts) -> Option<
    Seq<char>,
> {
    match turn_lease(evidence, request) {
        None => Some(coded("LEASE_MISSING"@, "matching task lease is absent"@)),
        Some(lease) => earliest(
            exact_lease_fault(lease@, request),
            if !turn_is_prepared(evidence, request) {
                fault_if(
                    !(turn.resume && evidence.progress.state == TaskState::Open),
                    coded("TASK_BUSY"@, "task does not have the requested prepared active turn"@),
                )
            } else {
                earliest(
                    fault_if(
                        evidence.progress.last_turn is None,
                        coded("REQUEST_CONFLICT"@, "prepared turn history is absent"@),
                    ),
                    earliest(
                        fault_if(
                            opt_text(evidence.progress.worker) != Some(lease.worker_name@),
                            coded(
                                "TASK_TURN_CONFLICT"@,
                                "turn worker does not match the task's selected worker"@,
                            ),
                        ),
                        earliest(
                            fault_if(
                                !turn_fits_task(evidence, request, turn),
                                coded(
                                    "REQUEST_CONFLICT"@,
                                    "turn does not match the prepared task"@,
                                ),
                            ),
                            earliest(
                                fault_if(
                                    turn.resume && !evidence.session_bound,
                                    coded(
                                        "SESSION_UNBOUND"@,
                                        "resumed turn requires a bound agent session"@,
                                    ),
                                ),
                                origin_fault(
                                    opt_text(evidence.task.push_origin_url),
                                    evidence.task.pushes,
                                    opt_text(turn.origin_url),
                                ),
                            ),
                        ),
                    ),
                )
            },
        ),
    }
}

/// The first reason why a turn may not be submitted.
pub open spec fn submit_turn_fault(
    evidence: TurnEvidence,
    request: SubmitModel,
    turn: TurnFacts,
) -> Option<Seq<char>> {
    earliest(
        request.bound().fault(),
        if evidence.disposition is Some {
            accepted_turn_fault(evidence, request, turn)
        } else {
            new_turn_fault(evidence, request, turn)
        },
    )
}

/// The step that a submitted turn takes where nothing speaks against it.
pub open spec fn submit_turn_step(
    step: TurnStep,
    evidence: TurnEvidence,
    request: SubmitModel,
    turn: TurnFacts,
) -> bool {
    if evidence.disposition is Some {
        match turn_lease(evidence, request) {
            None => step is QueryStatus,
            Some(_) => match evidence.job {
                None => step is ReadJob,
                Some(job) => if job.status@.state.terminal() {
                    step is QueryStatus
                } else if never_launched(job.status@) {
                    if evidence.payload is None {
                        step is ReadPayload
                    } else {
                        step is ElectSupervisor
                    }
                } else {
                    step matches TurnStep::Answer { response } && (
                    response matches SubmitResponse::Existing { status } && status == job.status)
                },
            },
        }
    } else if !turn_is_prepared(evidence, request) {
        step is PrepareResume
    } else {
        step == (TurnStep::Publish {
            bind_session: turn.terms.agent == AgentKind::Claude && !turn.resume,
        })
    }
}

fn replay_turn(request: &SubmitRequest, turn: &TurnFacts, evidence: &TurnEvidence, disposition: &JobDisposition) -> (
result: Result<TurnStep, WorkerError>)
    requires
        request@.bound().fault() is None,
        evidence.disposition == Some(*disposition),
    ensures
        outcome_of(result, accepted_turn_fault(*evidence, request@, *turn)),
        result matches Ok(step) ==> submit_turn_step(step, *evidence, request@, *turn),
{
    require_matching_accepted(disposition, request)?;
    validate_turn_origin(&evidence.task.push_origin_url, evidence.task.pushes, &turn.origin_url)?;
    let lease = match &evidence.lease {
        Some(lease) => lease,
        None => {
            return Ok(TurnStep::QueryStatus);
        },
    };
    if lease.job_id != request.material.job_id {
        return Ok(TurnStep::QueryStatus);
    }
    require_exact_lease(lease, request)?;
    let job = match &evidence.job {
        Some(job) => job,
        None => {
            return Ok(TurnStep::ReadJob);
        },
    };
    read_exact_job(job, request, lease)?;
    let status = &job.status;
    if status.state.is_terminal() {
        return Ok(TurnStep::QueryStatus);
    }
    if status.state == JobState::Accepted && status.supervisor_identity().is_none()
        && status.child_identity().is_none() {
        let payload = match &evidence.payload {
            Some(payload) => payload,
            None => {
                return Ok(TurnStep::ReadPayload);
            },
        };
        let section = match &payload.turn {
            Some(section) => section,
            None => {
                return Err(job_id_conflict("accepted turn job has no durable turn section"));
            },
        };
        payload.validate_for_turn(request, section)?;
        if !text_eq(section.turn.as_str(), turn.canonical.as_str()) {
            return Err(
                protocol_code("REQUEST_CONFLICT", "accepted turn job belongs to another turn"),
            );
        }
        return Ok(TurnStep::ElectSupervisor);
    }
    Ok(TurnStep::Answer { response: SubmitResponse::Existing { status: status.clone() } })
}

fn fits_task(request: &SubmitRequest, turn: &TurnFacts, evidence: &TurnEvidence, pending: LastTurn) -> (
fits: bool)
    requires
        evidence.progress.last_turn == Some(pending),
    ensures
        fits == turn_fits_task(*evidence, request@, *turn),
{
    let reached = match &evidence.progress.head_oid {
        Some(head) => head.as_str(),
        None => evidence.task.base_oid.as_str(),
    };
    text_eq(request.material.worktree_id.as_str(), evidence.task.worktree_id.as_str())
        && turn.turn_number == pending.turn_number && turn.terms.same(&evidence.task.terms)
        && text_eq(turn.base_oid.as_str(), reached)
}

fn begin_turn(request: &SubmitRequest, turn: &TurnFacts, evidence: &TurnEvidence) -> (result: Result<
    TurnStep,
    WorkerError,
>)
    requires
        request@.bound().fault() is None,
        evidence.disposition is None,
    ensures
        outcome_of(result, new_turn_fault(*evidence, request@, *turn)),
        result matches Ok(step) ==> submit_turn_step(step, *evidence, request@, *turn),
{
    let lease = match &evidence.lease {
        Some(lease) => lease,
        None => {
            return Err(protocol_code("LEASE_MISSING", "matching task lease is absent"));
        },
    };
    if lease.job_id != request.material.job_id {
        return Err(protocol_code("LEASE_MISSING", "matching task lease is absent"));
    }
    require_exact_lease(lease, request)?;
    let progress = &evidence.progress;
    let prepared = evidence.resumed || (progress.state == TaskState::Active && progress.is_pending(
        request.material.job_id,
    ));
    if !prepared {
        if turn.resume && progress.state == TaskState::Open {
            return Ok(TurnStep::PrepareResume);
        }
        return Err(
            protocol_code("TASK_BUSY", "task does not have the requested prepared active turn"),
        );
    }
    let pending = match progress.last_turn {
        Some(pending) => pending,
        None => {
            return Err(protocol_code("REQUEST_CONFLICT", "prepared turn history is absent"));
        },
    };
    let selected = match &progress.worker {
        Some(worker) => text_eq(worker.as_str(), lease.worker_name.as_str()),
        None => false,
    };
    if !selected {
        return Err(
            protocol_code(
                "TASK_TURN_CONFLICT",
                "turn worker does not match the task's selected worker",
            ),
        );
    }
    if !fits_task(request, turn, evidence, pending) {
        return Err(protocol_code("REQUEST_CONFLICT", "turn does not match the prepared task"));
    }
    if turn.resume && !evidence.session_bound {
        return Err(protocol_code("SESSION_UNBOUND", "resumed turn requires a bound agent session"));
    }
    validate_turn_origin(&evidence.task.push_origin_url, evidence.task.pushes, &turn.origin_url)?;
    Ok(
        TurnStep::Publish {
            bind_session: turn.terms.agent == AgentKind::Claude && !turn.resume,
        },
    )
}

impl JobService {
    /// What the host does next for a submitted turn. A turn that was accepted
    /// is answered again from its job, without asking what its task awaits: a
    /// completed turn is no longer awaited, and yet the same request.
    pub fn submit_turn(request: &SubmitRequest, turn: &TurnFacts, evidence: &TurnEvidence) -> (result:
        Result<TurnStep, WorkerError>)
        ensures
            outcome_of(result, submit_turn_fault(*evidence, request@, *turn)),
            result matches Ok(step) ==> submit_turn_step(step, *evidence, request@, *turn),
    {
        request.validate()?;
        match &evidence.disposition {
            Some(disposition) => replay_turn(request, turn, evidence, disposition),
            None => begin_turn(request, turn, evidence),
        }
    }
}

/// What the host's clock shows when a turn is accepted or a session is bound, in
/// milliseconds since the epoch; `None` for a clock before the epoch.
pub fn now_millis(since_epoch: Option<u128>) -> (result: Result<u64, WorkerError>)
    ensures
        outcome_of(
            result,
            match since_epoch {
                None => Some(coded("CLOCK_INVALID"@, "system clock precedes the Unix epoch"@)),
                Some(millis) => fault_if(
                    millis > u64::MAX,
                    coded("CLOCK_INVALID"@, "system clock is outside the range"@),
                ),
            },
        ),
        result matches Ok(now) ==> since_epoch == Some(now as u128),
{
    match since_epoch {
        None => Err(protocol_code("CLOCK_INVALID", "system clock precedes the Unix epoch")),
        Some(millis) => {
            if millis > 0xffff_ffff_ffff_ffff {
                Err(protocol_code("CLOCK_INVALID", "system clock is outside the range"))
            } else {
                Ok(millis as u64)
            }
        },
    }
}

/// When the index is told that a turn was accepted: a turn whose job was found
/// complete was accepted when that job was made, whatever the clock shows; a
/// new one is accepted now.
pub fn turn_accepted_at(repaired: Option<&JobRecords>, since_epoch: Option<u128>) -> (result: Result<
    u64,
    WorkerError,
>)
    ensures
        outcome_of(
            result,
            match (repaired, since_epoch) {
                (Some(_), _) => None,
                (None, None) => Some(
                    coded("CLOCK_INVALID"@, "system clock precedes the Unix epoch"@),
                ),
                (None, Some(millis)) => fault_if(
                    millis > u64::MAX,
                    coded("CLOCK_INVALID"@, "system clock is outside the range"@),
                ),
            },
        ),
        result matches Ok(at) ==> match repaired {
            Some(job) => at == job.meta.created_at_millis,
            None => since_epoch == Some(at as u128),
        },
{
    match repaired {
        Some(job) => Ok(job.meta.created_at_millis),
        None => now_millis(since_epoch),
    }
}

/// How a turn came to be ready for its supervisor.
#[derive(Debug, Clone, Copy, PartialEq, Eq, Structural)]
pub enum TurnOrigin {
    /// It was published just now.
    New,
    /// It was published before, and is indexed only now.
    Repaired,
    /// It was published and indexed before.
    Replayed,
}

/// Who launches a turn, and what its client is told: `lock_won` tells whether
/// the supervisor's lock was free. A turn that is indexed now is accepted,
/// whoever launches it; one that was indexed before is there already. No turn
/// is waited for.
pub fn turn_supervision(origin: TurnOrigin, lock_won: bool, meta: JobMeta, status: JobStatus) -> (step:
    SupervisionStep)
    ensures
        step == (if lock_won {
            SupervisionStep::Launch { newly_accepted: origin != TurnOrigin::Replayed }
        } else if origin != TurnOrigin::Replayed {
            SupervisionStep::Answer {
                response: SubmitResponse::Accepted { meta: Box::new(meta), status },
            }
        } else {
            SupervisionStep::Answer { response: SubmitResponse::Existing { status } }
        }),
{
    if lock_won {
        SupervisionStep::Launch { newly_accepted: origin != TurnOrigin::Replayed }
    } else if origin != TurnOrigin::Replayed {
        SupervisionStep::Answer {
            response: SubmitResponse::Accepted { meta: Box::new(meta), status },
        }
    } else {
        SupervisionStep::Answer { response: SubmitResponse::Existing { status } }
    }
}

/// A final turn that could be read in full.
pub struct TurnRepairEvidence {
    pub job: JobRecords,
    pub prelaunch: PrelaunchEvidence,
    pub prompt: Vec<u8>,
    pub schema: Vec<u8>,
    pub tail_bytes: u64,
}

/// What a host finds where an unindexed turn's directory would be.
pub enum TurnRepairDirectory {
    Missing,
    Unreadable,
    Read { evidence: TurnRepairEvidence },
}

/// A final turn that the index may still be told of.
pub open spec fn turn_repairable(
    evidence: TurnRepairEvidence,
    request: SubmitModel,
    lease: LeaseModel,
    section: TurnSection,
    canonical_schema: Seq<u8>,
    limit: u64,
) -> bool {
    &&& exact_meta_fault(evidence.job.meta@, request, lease) is None
    &&& evidence.job.status@ == bare_status(
        JobState::Accepted,
        evidence.job.meta.created_at_millis,
    )
    &&& turn_job_fault(
        evidence.prelaunch,
        request,
        section,
        evidence.prompt@,
        evidence.schema@,
        canonical_schema,
        evidence.tail_bytes,
        limit,
    ) is None
}

fn is_turn_repairable(
    evidence: &TurnRepairEvidence,
    request: &SubmitRequest,
    lease: &LeaseRecord,
    section: &TurnSection,
    canonical_schema: &[u8],
    supervisor_log_limit: u64,
) -> (holds: bool)
    requires
        request@.material.command.fault() is None,
    ensures
        holds == turn_repairable(
            *evidence,
            request@,
            lease@,
            *section,
            canonical_schema@,
            supervisor_log_limit,
        ),
{
    if require_exact_meta(&evidence.job.meta, request, lease).is_err() {
        return false;
    }
    match JobStatus::accepted(evidence.job.meta.created_at_millis) {
        Ok(initial) => {
            if !evidence.job.status.same(&initial) {
                return false;
            }
        },
        Err(_) => {
            return false;
        },
    }
    validate_indexed_turn_prelaunch_job(
        &evidence.prelaunch,
        request,
        section,
        evidence.prompt.as_slice(),
        evidence.schema.as_slice(),
        canonical_schema,
        evidence.tail_bytes,
        supervisor_log_limit,
    ).is_ok()
}

/// The records of a final turn that the index does not know, where it is
/// complete, exact and was never launched; nothing where there is no such turn.
pub fn read_repairable_turn_final(
    directory: TurnRepairDirectory,
    request: &SubmitRequest,
    lease: &LeaseRecord,
    section: &TurnSection,
    canonical_schema: &[u8],
    supervisor_log_limit: u64,
) -> (result: Result<Option<JobRecords>, WorkerError>)
    requires
        request@.material.command.fault() is None,
    ensures
        (match directory {
            TurnRepairDirectory::Missing => result == Ok::<Option<JobRecords>, WorkerError>(None),
            TurnRepairDirectory::Unreadable => outcome_of(
                result,
                Some(
                    id_conflict("unindexed final turn evidence is incomplete or conflicting"@),
                ),
            ),
            TurnRepairDirectory::Read { evidence } => {
                &&& outcome_of(
                    result,
                    fault_if(
                        !turn_repairable(
                            evidence,
                            request@,
                            lease@,
                            *section,
                            canonical_schema@,
                            supervisor_log_limit,
                        ),
                        id_conflict("unindexed final turn evidence is incomplete or conflicting"@),
                    ),
                )
                &&& result matches Ok(found) ==> found == Some(evidence.job)
            },
        }),
{
    match directory {
        TurnRepairDirectory::Missing => Ok(None),
        TurnRepairDirectory::Unreadable => Err(
            job_id_conflict("unindexed final turn evidence is incomplete or conflicting"),
        ),
        TurnRepairDirectory::Read { evidence } => {
            if is_turn_repairable(
                &evidence,
                request,
                lease,
                section,
                canonical_schema,
                supervisor_log_limit,
            ) {
                Ok(Some(evidence.job))
            } else {
                Err(job_id_conflict("unindexed final turn evidence is incomplete or conflicting"))
            }
        },
    }
}

/// A turn is published only while its task waits for exactly this turn, or was
/// made ready for it, and under a lease on the task's own worker.
pub proof fn turns_are_published_for_their_task(
    evidence: TurnEvidence,
    request: SubmitModel,
    turn: TurnFacts,
    step: TurnStep,
)
    requires
        submit_turn_fault(evidence, request, turn) is None,
        submit_turn_step(step, evidence, request, turn),
        step is Publish,
    ensures
        evidence.disposition is None,
        turn_is_prepared(evidence, request),
        turn_fits_task(evidence, request, turn),
        turn_lease(evidence, request) matches Some(lease) && opt_text(evidence.progress.worker)
            == Some(lease.worker_name@),
        turn.resume ==> evidence.session_bound,
{
}

} // verus!
