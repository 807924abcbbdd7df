//! The queue in which jobs wait for a worker.
use vstd::prelude::*;
use crate::error::{earliest, fault_if, outcome_of, protocol_error, WorkerError};
use crate::job::checks::{
    hex_fault, opaque_fault, requirements_fault, validate_hex_component, validate_opaque_identifier,
    validate_requirements, validate_worker_name, worker_name_fault,
};
use crate::job::command::CommandSummary;
use crate::job::ids::{ClientId, JobId, RequestFingerprint, RunId};
use crate::job::request::{ResolutionModel, ResolveOrAbandonRequest};
use crate::job::status::ProcessIdentity;
use crate::scheduler::WorkerPreference;
use crate::text::{text_eq, texts};

verus! {

/// One outstanding spawn permit. The token is unique per spawn attempt and is
/// never reused after release, steal, or completion.
#[derive(Debug, Clone, Copy, PartialEq, Eq, Structural)]
pub struct RunnerSlotReservation {
    pub reserver: ProcessIdentity,
    pub token: u128,
    pub child: Option<ProcessIdentity>,
}

impl RunnerSlotReservation {
    pub open spec fn fault(self) -> Option<Seq<char>> {
        earliest(
            self.reserver.fault(),
            fault_if(self.token == 0, "runner slot token must be unique and non-nil"@),
        )
    }

    pub fn new(reserver: ProcessIdentity, token: u128) -> (result: Result<
        RunnerSlotReservation,
        WorkerError,
    >)
        ensures
            ({
                let reservation = RunnerSlotReservation { reserver, token, child: None };
                &&& outcome_of(result, reservation.fault())
                &&& result matches Ok(made) ==> made == reservation
            }),
    {
        reserver.validate()?;
        if token == 0 {
            return Err(protocol_error("runner slot token must be unique and non-nil"));
        }
        Ok(RunnerSlotReservation { reserver, token, child: None })
    }

    pub fn with_child(self, child: ProcessIdentity) -> (result: Result<
        RunnerSlotReservation,
        WorkerError,
    >)
        ensures
            outcome_of(result, child.fault()),
            result matches Ok(made) ==> made == (RunnerSlotReservation {
                child: Some(child),
                ..self
            }),
    {
        child.validate()?;
        Ok(RunnerSlotReservation { reserver: self.reserver, token: self.token, child: Some(child) })
    }

    pub fn reserver(self) -> (reserver: ProcessIdentity)
        ensures
            reserver == self.reserver,
    {
        self.reserver
    }

    pub fn token(self) -> (token: u128)
        ensures
            token == self.token,
    {
        self.token
    }

    pub fn child(self) -> (child: Option<ProcessIdentity>)
        ensures
            child == self.child,
    {
        self.child
    }
}

/// A place in the queue; zero until one is assigned.
#[derive(Debug, Clone, Copy, PartialEq, Eq, PartialOrd, Ord, Hash, Structural)]
pub struct QueueId {
    pub value: u64,
}

impl QueueId {
    pub open spec fn fault(self) -> Option<Seq<char>> {
        fault_if(self.value == 0, "queue ID must be positive"@)
    }

    pub fn new(value: u64) -> (result: Result<QueueId, WorkerError>)
        ensures
            outcome_of(result, (QueueId { value }).fault()),
            result matches Ok(id) ==> id == (QueueId { value }),
    {
        if value == 0 {
            return Err(protocol_error("queue ID must be positive"));
        }
        Ok(QueueId { value })
    }

    pub fn value(self) -> (value: u64)
        ensures
            value == self.value,
    {
        self.value
    }

    pub fn pending() -> (id: QueueId)
        ensures
            id.value == 0,
    {
        QueueId { value: 0 }
    }

    /// The following place, until the sequence is used up.
    pub fn checked_next(self) -> (result: Result<QueueId, WorkerError>)
        ensures
            outcome_of(
                result,
                fault_if(self.value == u64::MAX, "queue sequence is exhausted"@),
            ),
            result matches Ok(next) ==> next.value == self.value + 1,
    {
        match self.value.checked_add(1) {
            Some(value) => QueueId::new(value),
            None => Err(protocol_error("queue sequence is exhausted")),
        }
    }
}

#[derive(Debug, Clone, Copy, PartialEq, Eq, Structural)]
pub enum QueueEntryKind {
    Batch,
    TaskTurn,
}

impl QueueEntryKind {
    pub open spec fn spelling(self) -> Seq<char> {
        match self {
            QueueEntryKind::Batch => "batch"@,
            QueueEntryKind::TaskTurn => "task_turn"@,
        }
    }

    /// The word that stands for the kind where it is written down.
    pub fn name(self) -> (name: &'static str)
        ensures
            name@ == self.spelling(),
    {
        match self {
            QueueEntryKind::Batch => "batch",
            QueueEntryKind::TaskTurn => "task_turn",
        }
    }

    /// The kind that a written word stands for.
    pub fn from_text(value: &str) -> (result: Result<QueueEntryKind, WorkerError>)
        ensures
            outcome_of(
                result,
                fault_if(
                    value@ != "batch"@ && value@ != "task_turn"@,
                    "queue entry kind is invalid"@,
                ),
            ),
            result matches Ok(kind) ==> kind.spelling() == value@,
    {
        if text_eq(value, "batch") {
            Ok(QueueEntryKind::Batch)
        } else if text_eq(value, "task_turn") {
            Ok(QueueEntryKind::TaskTurn)
        } else {
            Err(protocol_error("queue entry kind is invalid"))
        }
    }
}

/// A written kind reads back: no two kinds are written alike.
pub proof fn kinds_are_told_apart(left: QueueEntryKind, right: QueueEntryKind)
    requires
        left.spelling() == right.spelling(),
    ensures
        left == right,
{
    reveal_strlit("batch");
    reveal_strlit("task_turn");
    assert("batch"@.len() == 5 && "task_turn"@.len() == 9);
}

/// The run that an entry belongs to, and how many of it may run at once.
#[derive(Debug, PartialEq, Eq)]
pub struct QueueRunReference {
    pub run_id: RunId,
    pub max_parallel: u32,
}

impl QueueRunReference {
    pub open spec fn fault(&self) -> Option<Seq<char>> {
        earliest(
            opaque_fault(self.run_id.text@, "run ID"@),
            fault_if(self.max_parallel == 0, "run maximum parallelism must be positive"@),
        )
    }

    pub fn new(run_id: RunId, max_parallel: u32) -> (result: Result<QueueRunReference, WorkerError>)
        ensures
            ({
                let reference = QueueRunReference { run_id, max_parallel };
                &&& outcome_of(result, reference.fault())
                &&& result matches Ok(made) ==> made == reference
            }),
    {
        let reference = QueueRunReference { run_id, max_parallel };
        reference.validate()?;
        Ok(reference)
    }

    pub fn validate(&self) -> (result: Result<(), WorkerError>)
        ensures
            outcome_of(result, self.fault()),
    {
        validate_opaque_identifier(self.run_id.as_str(), "run ID")?;
        if self.max_parallel == 0 {
            return Err(protocol_error("run maximum parallelism must be positive"));
        }
        Ok(())
    }

    pub fn run_id(&self) -> (value: &RunId)
        ensures
            *value == self.run_id,
    {
        &self.run_id
    }

    pub fn max_parallel(&self) -> (value: u32)
        ensures
            value == self.max_parallel,
    {
        self.max_parallel
    }

}

/// Who answers for a queue entry.
///
/// A parked task turn waits for a runner slot. Parked entries are ownerless on
/// purpose; the oldest one is adopted before it enters the owner-scoped queue.
#[derive(Debug, PartialEq, Eq)]
pub enum QueueState {
    Waiting { owner: ProcessIdentity },
    Dispatching {
        dispatch_owner: ProcessIdentity,
        selected_worker: String,
        claimed_at_millis: u64,
    },
    Parked,
}

impl QueueState {
    pub open spec fn owned_by(&self) -> Option<ProcessIdentity> {
        match self {
            QueueState::Waiting { owner } => Some(*owner),
            QueueState::Dispatching { dispatch_owner, .. } => Some(*dispatch_owner),
            QueueState::Parked => None,
        }
    }

    pub open spec fn fault(&self, enqueued_at_millis: u64) -> Option<Seq<char>> {
        earliest(
            match self.owned_by() {
                Some(owner) => owner.fault(),
                None => None,
            },
            match self {
                QueueState::Dispatching { selected_worker, claimed_at_millis, .. } => earliest(
                    worker_name_fault(selected_worker@),
                    fault_if(
                        *claimed_at_millis == 0 || *claimed_at_millis < enqueued_at_millis,
                        "queue claim timestamp predates enqueue timestamp"@,
                    ),
                ),
                _ => None,
            },
        )
    }

    pub fn owner(&self) -> (owner: &ProcessIdentity)
        requires
            *self !is Parked,
        ensures
            self.owned_by() == Some(*owner),
    {
        match self {
            QueueState::Waiting { owner } => owner,
            QueueState::Dispatching { dispatch_owner, .. } => dispatch_owner,
            QueueState::Parked => vstd::pervasive::unreached(),
        }
    }

    pub fn owner_opt(&self) -> (owner: Option<&ProcessIdentity>)
        ensures
            (match owner {
                Some(held) => Some(*held),
                None => None,
            }) == self.owned_by(),
    {
        match self {
            QueueState::Waiting { owner } => Some(owner),
            QueueState::Dispatching { dispatch_owner, .. } => Some(dispatch_owner),
            QueueState::Parked => None,
        }
    }

    pub fn validate(&self, enqueued_at_millis: u64) -> (result: Result<(), WorkerError>)
        ensures
            outcome_of(result, self.fault(enqueued_at_millis)),
    {
        if let Some(owner) = self.owner_opt() {
            owner.validate()?;
        }
        if let QueueState::Dispatching { selected_worker, claimed_at_millis, .. } = self {
            validate_worker_name(selected_worker.as_str())?;
            if *claimed_at_millis == 0 || *claimed_at_millis < enqueued_at_millis {
                return Err(protocol_error("queue claim timestamp predates enqueue timestamp"));
            }
        }
        Ok(())
    }
}

pub open spec fn preference_fault(preference: &WorkerPreference) -> Option<Seq<char>> {
    match preference {
        WorkerPreference::Automatic => None,
        WorkerPreference::Pinned { worker } => worker_name_fault(worker@),
    }
}

fn validate_worker_preference(preference: &WorkerPreference) -> (result: Result<(), WorkerError>)
    ensures
        outcome_of(result, preference_fault(preference)),
{
    match preference {
        WorkerPreference::Automatic => Ok(()),
        WorkerPreference::Pinned { worker } => validate_worker_name(worker.as_str()),
    }
}

/// Proof that a dispatched entry was given up before any host accepted it.
#[derive(Debug, PartialEq, Eq)]
pub struct QueueAbandonmentProof {
    pub queue_id: QueueId,
    pub job_id: JobId,
    pub client_id: ClientId,
    pub selected_worker: String,
    pub project_id: String,
    pub worktree_id: String,
    pub command_summary: CommandSummary,
    pub request_fingerprint: RequestFingerprint,
    pub claimed_at_millis: u64,
    pub recorded_by: ProcessIdentity,
}

/// What a [`QueueAbandonmentProof`] says.
pub struct ProofModel {
    pub queue_id: QueueId,
    pub job_id: JobId,
    pub client_id: ClientId,
    pub selected_worker: Seq<char>,
    pub project_id: Seq<char>,
    pub worktree_id: Seq<char>,
    pub command_summary: CommandSummary,
    pub request_fingerprint: Seq<char>,
    pub claimed_at_millis: u64,
    pub recorded_by: ProcessIdentity,
}

impl View for QueueAbandonmentProof {
    type V = ProofModel;

    open spec fn view(&self) -> ProofModel {
        ProofModel {
            queue_id: self.queue_id,
            job_id: self.job_id,
            client_id: self.client_id,
            selected_worker: self.selected_worker@,
            project_id: self.project_id@,
            worktree_id: self.worktree_id@,
            command_summary: self.command_summary,
            request_fingerprint: self.request_fingerprint.text@,
            claimed_at_millis: self.claimed_at_millis,
            recorded_by: self.recorded_by,
        }
    }
}

impl Clone for QueueAbandonmentProof {
    fn clone(&self) -> (copy: QueueAbandonmentProof)
        ensures
            copy == *self,
    {
        QueueAbandonmentProof {
            queue_id: self.queue_id,
            job_id: self.job_id,
            client_id: self.client_id,
            selected_worker: self.selected_worker.clone(),
            project_id: self.project_id.clone(),
            worktree_id: self.worktree_id.clone(),
            command_summary: self.command_summary,
            request_fingerprint: self.request_fingerprint.clone(),
            claimed_at_millis: self.claimed_at_millis,
            recorded_by: self.recorded_by,
        }
    }
}

impl QueueAbandonmentProof {
    /// Whether two records say the same.
    pub fn same(&self, other: &QueueAbandonmentProof) -> (same: bool)
        ensures
            same == (self@ == other@),
    {
        self.queue_id == other.queue_id
            && self.job_id == other.job_id
            && self.client_id == other.client_id
            && text_eq(self.selected_worker.as_str(), other.selected_worker.as_str())
            && text_eq(self.project_id.as_str(), other.project_id.as_str())
            && text_eq(self.worktree_id.as_str(), other.worktree_id.as_str())
            && self.command_summary == other.command_summary
            && self.request_fingerprint.same(&other.request_fingerprint)
            && self.claimed_at_millis == other.claimed_at_millis
            && self.recorded_by == other.recorded_by
    }
}

impl ProofModel {
    pub open spec fn fault(self) -> Option<Seq<char>> {
        earliest(
            self.queue_id.fault(),
            earliest(
                worker_name_fault(self.selected_worker),
                earliest(
                    hex_fault(self.project_id, "abandonment proof project ID"@),
                    earliest(
                        hex_fault(self.worktree_id, "abandonment proof worktree ID"@),
                        earliest(
                            self.command_summary.fault(),
                            earliest(
                                self.recorded_by.fault(),
                                fault_if(
                                    self.claimed_at_millis == 0,
                                    "abandonment proof claim timestamp must be positive"@,
                                ),
                            ),
                        ),
                    ),
                ),
            ),
        )
    }

    /// The proof speaks of exactly this entry's reservation.
    pub open spec fn matches_entry(self, entry: &QueueEntry) -> bool {
        &&& self.queue_id == entry.queue_id
        &&& self.job_id == entry.job_id
        &&& self.client_id == entry.client_id
        &&& entry.state matches QueueState::Dispatching { selected_worker, claimed_at_millis, .. }
            && self.selected_worker == selected_worker@ && self.claimed_at_millis
            == claimed_at_millis
        &&& self.project_id == entry.project_id@
        &&& self.worktree_id == entry.worktree_id@
        &&& self.command_summary == entry.command_summary
    }

    pub open spec fn against_fault(self, entry: &QueueEntry) -> Option<Seq<char>> {
        earliest(
            self.fault(),
            earliest(
                fault_if(
                    entry.state !is Dispatching,
                    "pre-acceptance abandonment proof requires a dispatch reservation"@,
                ),
                earliest(
                    fault_if(
                        !self.matches_entry(entry),
                        "abandonment proof does not match its queue reservation"@,
                    ),
                    fault_if(
                        entry.kind == QueueEntryKind::Batch && Some(self.recorded_by)
                            != entry.state.owned_by(),
                        "batch abandonment proof must match its immutable owner"@,
                    ),
                ),
            ),
        )
    }
}

/// The request resolves exactly the job that this entry reserved a worker for.
pub open spec fn resolves_entry(request: ResolutionModel, entry: &QueueEntry) -> bool {
    &&& request.job_id == entry.job_id
    &&& request.client_id == entry.client_id
    &&& entry.state matches QueueState::Dispatching { selected_worker, .. } && request.worker_name
        == selected_worker@
    &&& request.project_id == entry.project_id@
    &&& request.worktree_id == entry.worktree_id@
    &&& request.command_summary == entry.command_summary
}

/// The proof that an abandoned request leaves on its entry.
pub open spec fn abandonment(
    entry: &QueueEntry,
    request: ResolutionModel,
    recorded_by: ProcessIdentity,
) -> ProofModel {
    ProofModel {
        queue_id: entry.queue_id,
        job_id: entry.job_id,
        client_id: entry.client_id,
        selected_worker: entry.state->selected_worker@,
        project_id: entry.project_id@,
        worktree_id: entry.worktree_id@,
        command_summary: entry.command_summary,
        request_fingerprint: request.request_fingerprint,
        claimed_at_millis: entry.state->claimed_at_millis,
        recorded_by,
    }
}

impl QueueAbandonmentProof {
    pub fn from_resolution(
        entry: &QueueEntry,
        request: &ResolveOrAbandonRequest,
        recorded_by: ProcessIdentity,
    ) -> (result: Result<QueueAbandonmentProof, WorkerError>)
        ensures
            outcome_of(
                result,
                earliest(
                    request@.fault(),
                    earliest(
                        recorded_by.fault(),
                        earliest(
                            fault_if(
                                entry.state !is Dispatching,
                                "pre-acceptance abandonment proof requires a dispatch reservation"@,
                            ),
                            earliest(
                                fault_if(
                                    entry.state.owned_by() != Some(recorded_by),
                                    "queue dispatch owner does not match"@,
                                ),
                                earliest(
                                    fault_if(
                                        !resolves_entry(request@, entry),
                                        "abandonment resolution does not match the queue reservation"@,
                                    ),
                                    abandonment(entry, request@, recorded_by).against_fault(entry),
                                ),
                            ),
                        ),
                    ),
                ),
            ),
            result matches Ok(proof_made) ==> proof_made@ == abandonment(
                entry,
                request@,
                recorded_by,
            ),
    {
        request.validate()?;
        recorded_by.validate()?;
        match &entry.state {
            QueueState::Dispatching { dispatch_owner, selected_worker, claimed_at_millis } => {
                if *dispatch_owner != recorded_by {
                    return Err(protocol_error("queue dispatch owner does not match"));
                }
                if request.job_id != entry.job_id || request.client_id != entry.client_id
                    || !text_eq(request.worker_name.as_str(), selected_worker.as_str())
                    || !text_eq(request.project_id.as_str(), entry.project_id.as_str())
                    || !text_eq(request.worktree_id.as_str(), entry.worktree_id.as_str())
                    || request.command_summary != entry.command_summary {
                    return Err(
                        protocol_error(
                            "abandonment resolution does not match the queue reservation",
                        ),
                    );
                }
                let made = QueueAbandonmentProof {
                    queue_id: entry.queue_id,
                    job_id: entry.job_id,
                    client_id: entry.client_id,
                    selected_worker: selected_worker.clone(),
                    project_id: entry.project_id.clone(),
                    worktree_id: entry.worktree_id.clone(),
                    command_summary: entry.command_summary,
                    request_fingerprint: request.request_fingerprint.clone(),
                    claimed_at_millis: *claimed_at_millis,
                    recorded_by,
                };
                made.validate_against(entry)?;
                Ok(made)
            },
            _ => Err(
                protocol_error("pre-acceptance abandonment proof requires a dispatch reservation"),
            ),
        }
    }

    pub fn validate(&self) -> (result: Result<(), WorkerError>)
        ensures
            outcome_of(result, self@.fault()),
    {
        QueueId::new(self.queue_id.value)?;
        validate_worker_name(self.selected_worker.as_str())?;
        validate_hex_component(self.project_id.as_str(), "abandonment proof project ID")?;
        validate_hex_component(self.worktree_id.as_str(), "abandonment proof worktree ID")?;
        self.command_summary.validate()?;
        self.recorded_by.validate()?;
        if self.claimed_at_millis == 0 {
            return Err(protocol_error("abandonment proof claim timestamp must be positive"));
        }
        Ok(())
    }

    pub fn validate_against(&self, entry: &QueueEntry) -> (result: Result<(), WorkerError>)
        ensures
            outcome_of(result, self@.against_fault(entry)),
    {
        self.validate()?;
        match &entry.state {
            QueueState::Dispatching { dispatch_owner, selected_worker, claimed_at_millis } => {
                if self.queue_id != entry.queue_id || self.job_id != entry.job_id || self.client_id
                    != entry.client_id || !text_eq(
                    self.selected_worker.as_str(),
                    selected_worker.as_str(),
                ) || !text_eq(self.project_id.as_str(), entry.project_id.as_str()) || !text_eq(
                    self.worktree_id.as_str(),
                    entry.worktree_id.as_str(),
                ) || self.command_summary != entry.command_summary || self.claimed_at_millis
                    != *claimed_at_millis {
                    return Err(
                        protocol_error("abandonment proof does not match its queue reservation"),
                    );
                }
                if entry.kind == QueueEntryKind::Batch && self.recorded_by != *dispatch_owner {
                    return Err(
                        protocol_error("batch abandonment proof must match its immutable owner"),
                    );
                }
                Ok(())
            },
            _ => Err(
                protocol_error("pre-acceptance abandonment proof requires a dispatch reservation"),
            ),
        }
    }

    pub fn queue_id(&self) -> (value: QueueId)
        ensures
            value == self.queue_id,
    {
        self.queue_id
    }

    pub fn job_id(&self) -> (value: JobId)
        ensures
            value == self.job_id,
    {
        self.job_id
    }

    pub fn client_id(&self) -> (value: ClientId)
        ensures
            value == self.client_id,
    {
        self.client_id
    }

    pub fn selected_worker(&self) -> (value: &str)
        ensures
            value@ == self.selected_worker@,
    {
        self.selected_worker.as_str()
    }

    pub fn project_id(&self) -> (value: &str)
        ensures
            value@ == self.project_id@,
    {
        self.project_id.as_str()
    }

    pub fn worktree_id(&self) -> (value: &str)
        ensures
            value@ == self.worktree_id@,
    {
        self.worktree_id.as_str()
    }

    pub fn command_summary(&self) -> (value: &CommandSummary)
        ensures
            *value == self.command_summary,
    {
        &self.command_summary
    }

    pub fn request_fingerprint(&self) -> (value: &RequestFingerprint)
        ensures
            *value == self.request_fingerprint,
    {
        &self.request_fingerprint
    }

    pub fn claimed_at_millis(&self) -> (value: u64)
        ensures
            value == self.claimed_at_millis,
    {
        self.claimed_at_millis
    }

    pub fn recorded_by(&self) -> (value: &ProcessIdentity)
        ensures
            *value == self.recorded_by,
    {
        &self.recorded_by
    }

}

/// A job's place in the queue.
#[derive(Debug, PartialEq, Eq)]
pub struct QueueEntry {
    pub queue_id: QueueId,
    pub job_id: JobId,
    pub client_id: ClientId,
    pub project_id: String,
    pub worktree_id: String,
    pub command_summary: CommandSummary,
    pub requirements: Vec<String>,
    pub preference: WorkerPreference,
    pub kind: QueueEntryKind,
    pub run: Option<QueueRunReference>,
    pub enqueue_owner: ProcessIdentity,
    pub state: QueueState,
    pub preacceptance_abandonment_proof: Option<QueueAbandonmentProof>,
    pub cancel_requested_at_millis: Option<u64>,
    pub enqueued_at_millis: u64,
    pub slot_reservation: Option<RunnerSlotReservation>,
}

impl QueueEntry {
    pub open spec fn fault(&self) -> Option<Seq<char>> {
        earliest(
            hex_fault(self.project_id@, "queue project ID"@),
            earliest(
                hex_fault(self.worktree_id@, "queue worktree ID"@),
                earliest(
                    self.command_summary.fault(),
                    earliest(
                        requirements_fault(texts(self.requirements@)),
                        earliest(
                            preference_fault(&self.preference),
                            earliest(
                                self.enqueue_owner.fault(),
                                earliest(
                                    self.state.fault(self.enqueued_at_millis),
                                    self.late_fault(),
                                ),
                            ),
                        ),
                    ),
                ),
            ),
        )
    }

    /// The faults that are looked for once the entry's parts are sound.
    pub open spec fn late_fault(&self) -> Option<Seq<char>> {
        earliest(
            fault_if(self.enqueued_at_millis == 0, "queue enqueue timestamp must be positive"@),
            earliest(
                match self.run {
                    Some(run) => run.fault(),
                    None => None,
                },
                earliest(
                    fault_if(
                        self.cancel_requested_at_millis matches Some(at) && at
                            < self.enqueued_at_millis,
                        "queue cancellation timestamp predates enqueue timestamp"@,
                    ),
                    earliest(
                        match self.slot_reservation {
                            Some(reserved) => reserved.fault(),
                            None => None,
                        },
                        earliest(
                            match self.preacceptance_abandonment_proof {
                                Some(held) => held@.against_fault(self),
                                None => None,
                            },
                            fault_if(
                                self.kind == QueueEntryKind::Batch && self.state.owned_by() != Some(
                                    self.enqueue_owner,
                                ),
                                "batch queue ownership is not replaceable"@,
                            ),
                        ),
                    ),
                ),
            ),
        )
    }

    pub open spec fn valid(&self) -> bool {
        self.fault() is None
    }

    #[allow(clippy::too_many_arguments)]
    pub fn new(
        job_id: JobId,
        client_id: ClientId,
        project_id: String,
        worktree_id: String,
        command_summary: CommandSummary,
        requirements: Vec<String>,
        preference: WorkerPreference,
        kind: QueueEntryKind,
        run: Option<QueueRunReference>,
        owner: ProcessIdentity,
        enqueued_at_millis: u64,
    ) -> (result: Result<QueueEntry, WorkerError>)
        ensures
            ({
                let entry = QueueEntry {
                    queue_id: QueueId { value: 0 },
                    job_id,
                    client_id,
                    project_id,
                    worktree_id,
                    command_summary,
                    requirements,
                    preference,
                    kind,
                    run,
                    enqueue_owner: owner,
                    state: QueueState::Waiting { owner },
                    preacceptance_abandonment_proof: None,
                    cancel_requested_at_millis: None,
                    enqueued_at_millis,
                    slot_reservation: None,
                };
                &&& outcome_of(result, entry.fault())
                &&& result matches Ok(made) ==> made == entry
            }),
    {
        let entry = QueueEntry {
            queue_id: QueueId::pending(),
            job_id,
            client_id,
            project_id,
            worktree_id,
            command_summary,
            requirements,
            preference,
            kind,
            run,
            enqueue_owner: owner,
            state: QueueState::Waiting { owner },
            preacceptance_abandonment_proof: None,
            cancel_requested_at_millis: None,
            enqueued_at_millis,
            slot_reservation: None,
        };
        entry.validate()?;
        Ok(entry)
    }

    pub fn validate(&self) -> (result: Result<(), WorkerError>)
        ensures
            outcome_of(result, self.fault()),
    {
        validate_hex_component(self.project_id.as_str(), "queue project ID")?;
        validate_hex_component(self.worktree_id.as_str(), "queue worktree ID")?;
        self.command_summary.validate()?;
        validate_requirements(&self.requirements)?;
        validate_worker_preference(&self.preference)?;
        self.enqueue_owner.validate()?;
        self.state.validate(self.enqueued_at_millis)?;
        if self.enqueued_at_millis == 0 {
            return Err(protocol_error("queue enqueue timestamp must be positive"));
        }
        if let Some(run) = &self.run {
            run.validate()?;
        }
        if let Some(at) = self.cancel_requested_at_millis {
            if at < self.enqueued_at_millis {
                return Err(
                    protocol_error("queue cancellation timestamp predates enqueue timestamp"),
                );
            }
        }
        if let Some(reserved) = self.slot_reservation {
            RunnerSlotReservation::new(reserved.reserver, reserved.token)?;
        }
        if let Some(held) = &self.preacceptance_abandonment_proof {
            held.validate_against(self)?;
        }
        if self.kind == QueueEntryKind::Batch {
            let replaced = match self.owner_opt() {
                Some(owner) => *owner != self.enqueue_owner,
                None => true,
            };
            if replaced {
                return Err(protocol_error("batch queue ownership is not replaceable"));
            }
        }
        Ok(())
    }

    /// Moves the entry's time forward to `floor`, never back.
    pub fn coalesce_enqueued_at(&mut self, floor: u64)
        ensures
            *final(self) == (QueueEntry {
                enqueued_at_millis: if old(self).enqueued_at_millis < floor {
                    floor
                } else {
                    old(self).enqueued_at_millis
                },
                ..*old(self)
            }),
    {
        if self.enqueued_at_millis < floor {
            self.enqueued_at_millis = floor;
        }
    }

    pub open spec fn reserved(self, reservation: Option<RunnerSlotReservation>) -> QueueEntry {
        QueueEntry { slot_reservation: reservation, ..self }
    }

    /// Records or clears the spawn permit. The permit is kept as given once it
    /// is well formed, whatever else the entry's checks then report.
    pub fn set_slot_reservation(&mut self, reservation: Option<RunnerSlotReservation>) -> (result:
        Result<(), WorkerError>)
        ensures
            ({
                let unusable = match reservation {
                    Some(held) => held.fault(),
                    None => None,
                };
                if unusable is Some {
                    outcome_of(result, unusable) && *final(self) == *old(self)
                } else {
                    *final(self) == old(self).reserved(reservation) && outcome_of(
                        result,
                        final(self).fault(),
                    )
                }
            }),
    {
        if let Some(held) = reservation {
            RunnerSlotReservation::new(held.reserver, held.token)?;
        }
        self.slot_reservation = reservation;
        self.validate()
    }

    pub fn assign_queue_id(&mut self, queue_id: QueueId)
        ensures
            *final(self) == (QueueEntry { queue_id, ..*old(self) }),
    {
        self.queue_id = queue_id;
    }

    /// The state under another owner.
    pub open spec fn adopted(self, owner: ProcessIdentity) -> QueueEntry {
        QueueEntry {
            state: match self.state {
                QueueState::Waiting { .. } => QueueState::Waiting { owner },
                QueueState::Dispatching { selected_worker, claimed_at_millis, .. } =>
                    QueueState::Dispatching {
                    dispatch_owner: owner,
                    selected_worker,
                    claimed_at_millis,
                },
                QueueState::Parked => QueueState::Parked,
            },
            ..self
        }
    }

    /// Hands a task turn to another process. The new owner stands once the
    /// turn may be adopted at all, whatever the entry's checks then report.
    pub fn adopt(&mut self, owner: ProcessIdentity) -> (result: Result<(), WorkerError>)
        ensures
            ({
                let refused = earliest(
                    fault_if(
                        old(self).kind != QueueEntryKind::TaskTurn,
                        "only a task turn can be adopted"@,
                    ),
                    fault_if(
                        old(self).state is Parked,
                        "a parked task turn must be unparked first"@,
                    ),
                );
                if refused is Some {
                    outcome_of(result, refused) && *final(self) == *old(self)
                } else {
                    *final(self) == old(self).adopted(owner) && outcome_of(
                        result,
                        final(self).fault(),
                    )
                }
            }),
    {
        if self.kind != QueueEntryKind::TaskTurn {
            return Err(protocol_error("only a task turn can be adopted"));
        }
        let state = match &self.state {
            QueueState::Waiting { .. } => QueueState::Waiting { owner },
            QueueState::Dispatching { selected_worker, claimed_at_millis, .. } =>
                QueueState::Dispatching {
                dispatch_owner: owner,
                selected_worker: selected_worker.clone(),
                claimed_at_millis: *claimed_at_millis,
            },
            QueueState::Parked => {
                return Err(protocol_error("a parked task turn must be unparked first"));
            },
        };
        self.state = state;
        self.validate()
    }

    pub open spec fn parked(self) -> QueueEntry {
        QueueEntry { state: QueueState::Parked, slot_reservation: None, ..self }
    }

    /// Takes a waiting task turn out of its owner's hands, with its spawn
    /// permit.
    pub fn park(&mut self) -> (result: Result<(), WorkerError>)
        ensures
            ({
                let refused = earliest(
                    fault_if(
                        old(self).kind != QueueEntryKind::TaskTurn,
                        "only a task turn can be parked"@,
                    ),
                    earliest(
                        fault_if(
                            old(self).preacceptance_abandonment_proof is Some,
                            "an abandoned queue row cannot be parked"@,
                        ),
                        fault_if(
                            old(self).state !is Waiting,
                            "only a waiting task turn can be parked"@,
                        ),
                    ),
                );
                if refused is Some {
                    outcome_of(result, refused) && *final(self) == *old(self)
                } else {
                    *final(self) == old(self).parked() && outcome_of(result, final(self).fault())
                }
            }),
    {
        if self.kind != QueueEntryKind::TaskTurn {
            return Err(protocol_error("only a task turn can be parked"));
        }
        if self.preacceptance_abandonment_proof.is_some() {
            return Err(protocol_error("an abandoned queue row cannot be parked"));
        }
        if !matches!(self.state, QueueState::Waiting { .. }) {
            return Err(protocol_error("only a waiting task turn can be parked"));
        }
        self.state = QueueState::Parked;
        self.slot_reservation = None;
        self.validate()
    }

    pub open spec fn waiting_for(self, owner: ProcessIdentity) -> QueueEntry {
        QueueEntry { state: QueueState::Waiting { owner }, ..self }
    }

    pub fn unpark(&mut self, owner: ProcessIdentity) -> (result: Result<(), WorkerError>)
        ensures
            ({
                let refused = earliest(
                    owner.fault(),
                    fault_if(
                        old(self).kind != QueueEntryKind::TaskTurn || old(self).state !is Parked,
                        "only a parked task turn can be unparked"@,
                    ),
                );
                if refused is Some {
                    outcome_of(result, refused) && *final(self) == *old(self)
                } else {
                    *final(self) == old(self).waiting_for(owner) && outcome_of(
                        result,
                        final(self).fault(),
                    )
                }
            }),
    {
        owner.validate()?;
        if self.kind != QueueEntryKind::TaskTurn || !matches!(self.state, QueueState::Parked) {
            return Err(protocol_error("only a parked task turn can be unparked"));
        }
        self.state = QueueState::Waiting { owner };
        self.validate()
    }

    /// Records that the reserved worker never accepted the job. The same proof
    /// may be recorded again, to no effect; another one is refused.
    pub fn record_preacceptance_abandoned(&mut self, abandoned: QueueAbandonmentProof) -> (result:
        Result<bool, WorkerError>)
        ensures
            ({
                let refused = earliest(
                    abandoned@.against_fault(old(self)),
                    earliest(
                        fault_if(
                            old(self).state.owned_by() != Some(abandoned.recorded_by),
                            "queue dispatch owner does not match"@,
                        ),
                        fault_if(
                            old(self).preacceptance_abandonment_proof matches Some(existing)
                                && existing@ != abandoned@,
                            "queue row already has a different abandonment proof"@,
                        ),
                    ),
                );
                if refused is Some {
                    outcome_of(result, refused) && *final(self) == *old(self)
                } else if old(self).preacceptance_abandonment_proof is Some {
                    result == Ok::<bool, WorkerError>(false) && *final(self) == *old(self)
                } else {
                    &&& *final(self) == (QueueEntry {
                        preacceptance_abandonment_proof: Some(abandoned),
                        ..*old(self)
                    })
                    &&& outcome_of(result, final(self).fault())
                    &&& result matches Ok(recorded) ==> recorded
                }
            }),
    {
        abandoned.validate_against(self)?;
        let owned = match self.state.owner_opt() {
            Some(owner) => *owner == abandoned.recorded_by,
            None => false,
        };
        if !owned {
            return Err(protocol_error("queue dispatch owner does not match"));
        }
        if let Some(existing) = &self.preacceptance_abandonment_proof {
            return if existing.same(&abandoned) {
                Ok(false)
            } else {
                Err(protocol_error("queue row already has a different abandonment proof"))
            };
        }
        self.preacceptance_abandonment_proof = Some(abandoned);
        self.validate()?;
        Ok(true)
    }

    pub open spec fn dispatched(
        self,
        dispatch_owner: ProcessIdentity,
        selected_worker: String,
        claimed_at_millis: u64,
    ) -> QueueEntry {
        QueueEntry {
            state: QueueState::Dispatching { dispatch_owner, selected_worker, claimed_at_millis },
            ..self
        }
    }

    /// Reserves a worker for the entry, and reports what the entry's checks
    /// then say.
    pub fn dispatch(
        &mut self,
        dispatch_owner: ProcessIdentity,
        selected_worker: String,
        claimed_at_millis: u64,
    ) -> (result: Result<(), WorkerError>)
        ensures
            *final(self) == old(self).dispatched(
                dispatch_owner,
                selected_worker,
                claimed_at_millis,
            ),
            outcome_of(result, final(self).fault()),
    {
        self.state = QueueState::Dispatching { dispatch_owner, selected_worker, claimed_at_millis };
        self.validate()
    }

    /// Returns a dispatched entry to the queue, under the same owner.
    pub fn revert(&mut self, dispatch_owner: ProcessIdentity) -> (result: Result<(), WorkerError>)
        ensures
            ({
                let refused = earliest(
                    fault_if(
                        old(self).preacceptance_abandonment_proof is Some,
                        "a proven abandoned queue row cannot be reverted"@,
                    ),
                    earliest(
                        fault_if(
                            old(self).state is Parked,
                            "a parked queue row is not dispatching"@,
                        ),
                        fault_if(
                            old(self).state is Waiting || old(self).state.owned_by() != Some(
                                dispatch_owner,
                            ),
                            "queue dispatch owner does not match"@,
                        ),
                    ),
                );
                if refused is Some {
                    outcome_of(result, refused) && *final(self) == *old(self)
                } else {
                    *final(self) == old(self).waiting_for(dispatch_owner) && outcome_of(
                        result,
                        final(self).fault(),
                    )
                }
            }),
    {
        if self.preacceptance_abandonment_proof.is_some() {
            return Err(protocol_error("a proven abandoned queue row cannot be reverted"));
        }
        let owned = match &self.state {
            QueueState::Dispatching { dispatch_owner: current, .. } => *current == dispatch_owner,
            QueueState::Parked => {
                return Err(protocol_error("a parked queue row is not dispatching"));
            },
            QueueState::Waiting { .. } => false,
        };
        if !owned {
            return Err(protocol_error("queue dispatch owner does not match"));
        }
        self.state = QueueState::Waiting { owner: dispatch_owner };
        self.validate()
    }

    /// Asks for the entry's cancellation; a later request may only move the
    /// time forward.
    pub fn request_cancel(&mut self, requested_at_millis: u64) -> (result: Result<(), WorkerError>)
        ensures
            ({
                let refused = earliest(
                    fault_if(
                        requested_at_millis < old(self).enqueued_at_millis,
                        "queue cancellation timestamp predates enqueue timestamp"@,
                    ),
                    fault_if(
                        old(self).cancel_requested_at_millis matches Some(existing)
                            && requested_at_millis < existing,
                        "queue cancellation timestamp moved backwards"@,
                    ),
                );
                if refused is Some {
                    outcome_of(result, refused) && *final(self) == *old(self)
                } else {
                    &&& *final(self) == (QueueEntry {
                        cancel_requested_at_millis: Some(requested_at_millis),
                        ..*old(self)
                    })
                    &&& outcome_of(result, final(self).fault())
                }
            }),
    {
        if requested_at_millis < self.enqueued_at_millis {
            return Err(protocol_error("queue cancellation timestamp predates enqueue timestamp"));
        }
        if let Some(existing) = self.cancel_requested_at_millis {
            if requested_at_millis < existing {
                return Err(protocol_error("queue cancellation timestamp moved backwards"));
            }
        }
        self.cancel_requested_at_millis = Some(requested_at_millis);
        self.validate()
    }

    /// A worker that the entry's preference admits and that offers every
    /// capability the entry requires. Unknown capabilities satisfy only an
    /// entry that requires none.
    pub open spec fn eligible(&self, worker: Seq<char>, capabilities: Option<Seq<Seq<char>>>) -> bool {
        &&& match self.preference {
            WorkerPreference::Automatic => true,
            WorkerPreference::Pinned { worker: pinned } => pinned@ == worker,
        }
        &&& self.requirements@.len() == 0 || (capabilities matches Some(offered) && forall|i: int|
            0 <= i < self.requirements@.len() ==> offered.contains(
                #[trigger] texts(self.requirements@)[i],
            ))
    }

    pub fn eligible_for(&self, worker: &str, capabilities: Option<&Vec<String>>) -> (eligible: bool)
        ensures
            eligible == self.eligible(
                worker@,
                match capabilities {
                    Some(offered) => Some(texts(offered@)),
                    None => None,
                },
            ),
    {
        let preferred = match &self.preference {
            WorkerPreference::Automatic => true,
            WorkerPreference::Pinned { worker: pinned } => text_eq(pinned.as_str(), worker),
        };
        if !preferred {
            return false;
        }
        if self.requirements.len() == 0 {
            return true;
        }
        match capabilities {
            None => false,
            Some(offered) => offers_all(&self.requirements, offered),
        }
    }

    pub fn queue_id(&self) -> (value: QueueId)
        ensures
            value == self.queue_id,
    {
        self.queue_id
    }

    pub fn job_id(&self) -> (value: JobId)
        ensures
            value == self.job_id,
    {
        self.job_id
    }

    pub fn client_id(&self) -> (value: ClientId)
        ensures
            value == self.client_id,
    {
        self.client_id
    }

    pub fn project_id(&self) -> (value: &str)
        ensures
            value@ == self.project_id@,
    {
        self.project_id.as_str()
    }

    pub fn worktree_id(&self) -> (value: &str)
        ensures
            value@ == self.worktree_id@,
    {
        self.worktree_id.as_str()
    }

    pub fn command_summary(&self) -> (value: &CommandSummary)
        ensures
            *value == self.command_summary,
    {
        &self.command_summary
    }

    pub fn preference(&self) -> (value: &WorkerPreference)
        ensures
            *value == self.preference,
    {
        &self.preference
    }

    pub fn kind(&self) -> (value: QueueEntryKind)
        ensures
            value == self.kind,
    {
        self.kind
    }

    pub fn run(&self) -> (value: Option<&QueueRunReference>)
        ensures
            (match value { Some(held) => Some(*held), None => None::<QueueRunReference> }) == self.run,
    {
        self.run.as_ref()
    }

    pub fn enqueue_owner(&self) -> (value: &ProcessIdentity)
        ensures
            *value == self.enqueue_owner,
    {
        &self.enqueue_owner
    }

    pub fn state(&self) -> (value: &QueueState)
        ensures
            *value == self.state,
    {
        &self.state
    }

    pub fn preacceptance_abandonment_proof(&self) -> (value: Option<&QueueAbandonmentProof>)
        ensures
            (match value { Some(held) => Some(*held), None => None::<QueueAbandonmentProof> }) == self.preacceptance_abandonment_proof,
    {
        self.preacceptance_abandonment_proof.as_ref()
    }

    pub fn cancel_requested_at_millis(&self) -> (value: Option<u64>)
        ensures
            value == self.cancel_requested_at_millis,
    {
        self.cancel_requested_at_millis
    }

    pub fn enqueued_at_millis(&self) -> (value: u64)
        ensures
            value == self.enqueued_at_millis,
    {
        self.enqueued_at_millis
    }

    pub fn slot_reservation(&self) -> (value: Option<RunnerSlotReservation>)
        ensures
            value == self.slot_reservation,
    {
        self.slot_reservation
    }

    pub fn requirements(&self) -> (value: &[String])
        ensures
            value@ == self.requirements@,
    {
        self.requirements.as_slice()
    }

    pub fn owner(&self) -> (owner: &ProcessIdentity)
        requires
            self.state !is Parked,
        ensures
            self.state.owned_by() == Some(*owner),
    {
        self.state.owner()
    }

    /// The durable owner, if the entry is not parked.
    pub fn owner_opt(&self) -> (owner: Option<&ProcessIdentity>)
        ensures
            (match owner {
                Some(held) => Some(*held),
                None => None,
            }) == self.state.owned_by(),
    {
        self.state.owner_opt()
    }

    pub fn is_cancel_requested(&self) -> (requested: bool)
        ensures
            requested == (self.cancel_requested_at_millis is Some),
    {
        self.cancel_requested_at_millis.is_some()
    }
}

/// Whether every required text is offered.
fn offers_all(required: &Vec<String>, offered: &Vec<String>) -> (all: bool)
    ensures
        all == (forall|i: int|
            0 <= i < required@.len() ==> texts(offered@).contains(#[trigger] texts(required@)[i])),
{
    let mut i: usize = 0;
    while i < required.len()
        invariant
            i <= required.len(),
            forall|j: int|
                0 <= j < i ==> texts(offered@).contains(#[trigger] texts(required@)[j]),
        decreases required.len() - i,
    {
        let found = crate::job::checks::among_first(offered, offered.len(), required[i].as_str());
        assert(texts(offered@).take(offered@.len() as int) =~= texts(offered@));
        assert(texts(required@)[i as int] == required@[i as int]@);
        if !found {
            return false;
        }
        i += 1;
    }
    true
}

/// The whole queue.
#[derive(Debug, PartialEq, Eq)]
pub struct QueueSnapshot {
    pub next_id: QueueId,
    pub entries: Vec<QueueEntry>,
}

/// Two entries of one run that disagree on how many of it may run at once.
pub open spec fn caps_conflict(left: &QueueEntry, right: &QueueEntry) -> bool {
    match (left.run, right.run) {
        (Some(a), Some(b)) => a.run_id.text@ == b.run_id.text@ && a.max_parallel != b.max_parallel,
        _ => false,
    }
}

/// Two entries that reserve the same worker.
pub open spec fn share_worker(left: &QueueEntry, right: &QueueEntry) -> bool {
    match (left.state, right.state) {
        (
            QueueState::Dispatching { selected_worker: a, .. },
            QueueState::Dispatching { selected_worker: b, .. },
        ) => a@ == b@,
        _ => false,
    }
}

/// The fault that an entry has among those before it.
pub open spec fn queue_fault_at(entries: Seq<QueueEntry>, next_id: QueueId, at: int) -> Option<
    Seq<char>,
> {
    let entry = entries[at];
    let previous_id = if at == 0 {
        0
    } else {
        entries[at - 1].queue_id.value
    };
    let previous_time = if at == 0 {
        0
    } else {
        entries[at - 1].enqueued_at_millis
    };
    earliest(
        entry.fault(),
        earliest(
            fault_if(
                entry.queue_id.value <= previous_id || entry.queue_id.value >= next_id.value,
                "queue IDs are not strictly increasing below next ID"@,
            ),
            earliest(
                fault_if(
                    entry.enqueued_at_millis < previous_time,
                    "queue timestamps are not monotonic"@,
                ),
                earliest(
                    fault_if(
                        exists|j: int| 0 <= j < at && (#[trigger] entries[j]).job_id == entry.job_id,
                        "queue contains a duplicate job ID"@,
                    ),
                    earliest(
                        fault_if(
                            exists|j: int|
                                0 <= j < at && #[trigger] caps_conflict(&entries[j], &entry),
                            "queue contains conflicting maximum parallelism for one run ID"@,
                        ),
                        fault_if(
                            exists|j: int| 0 <= j < at && #[trigger] share_worker(&entries[j], &entry),
                            "queue contains duplicate dispatch worker reservations"@,
                        ),
                    ),
                ),
            ),
        ),
    )
}

/// The first fault of the entries from `at` on.
pub open spec fn queue_faults(entries: Seq<QueueEntry>, next_id: QueueId, at: int) -> Option<
    Seq<char>,
>
    decreases entries.len() - at,
{
    if at >= entries.len() {
        None
    } else {
        earliest(queue_fault_at(entries, next_id, at), queue_faults(entries, next_id, at + 1))
    }
}

fn caps_clash(left: &QueueEntry, right: &QueueEntry) -> (clash: bool)
    ensures
        clash == caps_conflict(left, right),
{
    match (&left.run, &right.run) {
        (Some(a), Some(b)) => a.max_parallel != b.max_parallel && text_eq(
            a.run_id.as_str(),
            b.run_id.as_str(),
        ),
        _ => false,
    }
}

fn same_reservation(left: &QueueEntry, right: &QueueEntry) -> (shared: bool)
    ensures
        shared == share_worker(left, right),
{
    match (&left.state, &right.state) {
        (
            QueueState::Dispatching { selected_worker: a, .. },
            QueueState::Dispatching { selected_worker: b, .. },
        ) => text_eq(a.as_str(), b.as_str()),
        _ => false,
    }
}

impl QueueSnapshot {
    pub open spec fn fault(&self) -> Option<Seq<char>> {
        queue_faults(self.entries@, self.next_id, 0)
    }

    pub fn validate(&self) -> (result: Result<(), WorkerError>)
        ensures
            outcome_of(result, self.fault()),
    {
        let mut previous_id: u64 = 0;
        let mut previous_time: u64 = 0;
        let mut i: usize = 0;
        let ghost entries = self.entries@;
        while i < self.entries.len()
            invariant
                i <= self.entries.len(),
                entries == self.entries@,
                self.fault() == queue_faults(entries, self.next_id, i as int),
                previous_id == (if i == 0 {
                    0
                } else {
                    entries[i - 1].queue_id.value
                }),
                previous_time == (if i == 0 {
                    0
                } else {
                    entries[i - 1].enqueued_at_millis
                }),
            decreases self.entries.len() - i,
        {
            let entry = &self.entries[i];
            assert(*entry == entries[i as int]);
            entry.validate()?;
            let queue_id: u64 = entry.queue_id.value;
            if queue_id <= previous_id || queue_id >= self.next_id.value {
                return Err(protocol_error("queue IDs are not strictly increasing below next ID"));
            }
            if entry.enqueued_at_millis < previous_time {
                return Err(protocol_error("queue timestamps are not monotonic"));
            }
            let mut duplicate_job = false;
            let mut conflicting_caps = false;
            let mut duplicate_worker = false;
            let mut j: usize = 0;
            while j < i
                invariant
                    j <= i < self.entries.len(),
                    entries == self.entries@,
                    *entry == entries[i as int],
                    duplicate_job == (exists|k: int|
                        0 <= k < j && (#[trigger] entries[k]).job_id == entry.job_id),
                    conflicting_caps == (exists|k: int|
                        0 <= k < j && #[trigger] caps_conflict(&entries[k], entry)),
                    duplicate_worker == (exists|k: int|
                        0 <= k < j && #[trigger] share_worker(&entries[k], entry)),
                decreases i - j,
            {
                let earlier = &self.entries[j];
                assert(*earlier == entries[j as int]);
                if earlier.job_id == entry.job_id {
                    duplicate_job = true;
                }
                if caps_clash(earlier, entry) {
                    conflicting_caps = true;
                }
                if same_reservation(earlier, entry) {
                    duplicate_worker = true;
                }
                j += 1;
            }
            if duplicate_job {
                return Err(protocol_error("queue contains a duplicate job ID"));
            }
            if conflicting_caps {
                return Err(
                    protocol_error("queue contains conflicting maximum parallelism for one run ID"),
                );
            }
            if duplicate_worker {
                return Err(
                    protocol_error("queue contains duplicate dispatch worker reservations"),
                );
            }
            previous_id = queue_id;
            previous_time = entry.enqueued_at_millis;
            i += 1;
        }
        Ok(())
    }

    pub fn next_id(&self) -> (value: QueueId)
        ensures
            value == self.next_id,
    {
        self.next_id
    }

    pub fn entries(&self) -> (entries: &[QueueEntry])
        ensures
            entries@ == self.entries@,
    {
        self.entries.as_slice()
    }

    pub fn empty() -> (snapshot: QueueSnapshot)
        ensures
            snapshot.next_id.value == 1,
            snapshot.entries@.len() == 0,
            snapshot.fault() is None,
    {
        QueueSnapshot { next_id: QueueId { value: 1 }, entries: Vec::new() }
    }
}

/// An entry that a dispatcher has claimed.
#[derive(Debug, PartialEq, Eq)]
pub struct QueueClaim {
    pub entry: QueueEntry,
}

impl QueueClaim {
    pub fn new(entry: QueueEntry) -> (claim: QueueClaim)
        ensures
            claim.entry == entry,
    {
        QueueClaim { entry }
    }

    pub fn entry(&self) -> (value: &QueueEntry)
        ensures
            *value == self.entry,
    {
        &self.entry
    }

}

/// What asking for a queued job's cancellation did.
#[derive(Debug, PartialEq, Eq)]
pub enum QueueCancel {
    RemovedWaiting { job_id: JobId },
    RequestedDispatch { job_id: JobId, dispatch_owner: ProcessIdentity },
}

proof fn queue_has_no_fault_from(entries: Seq<QueueEntry>, next_id: QueueId, from: int, at: int)
    requires
        0 <= from <= at < entries.len(),
        queue_faults(entries, next_id, from) is None,
    ensures
        queue_fault_at(entries, next_id, at) is None,
    decreases at - from,
{
    if from < at {
        queue_has_no_fault_from(entries, next_id, from + 1, at);
    }
}

/// In a valid queue the places and times follow the order, and no two entries
/// share a job or a reserved worker, or disagree on their run's parallelism.
pub proof fn valid_queues_are_ordered(snapshot: QueueSnapshot, left: int, right: int)
    requires
        snapshot.fault() is None,
        0 <= left < right < snapshot.entries@.len(),
    ensures
        snapshot.entries@[left].valid(),
        snapshot.entries@[right].valid(),
        0 < snapshot.entries@[left].queue_id.value < snapshot.entries@[right].queue_id.value
            < snapshot.next_id.value,
        snapshot.entries@[left].enqueued_at_millis <= snapshot.entries@[right].enqueued_at_millis,
        snapshot.entries@[left].job_id != snapshot.entries@[right].job_id,
        !caps_conflict(&snapshot.entries@[left], &snapshot.entries@[right]),
        !share_worker(&snapshot.entries@[left], &snapshot.entries@[right]),
    decreases right - left,
{
    let entries = snapshot.entries@;
    queue_has_no_fault_from(entries, snapshot.next_id, 0, left);
    queue_has_no_fault_from(entries, snapshot.next_id, 0, right);
    assert(entries[left].job_id == entries[left].job_id);
    assert(caps_conflict(&entries[left], &entries[right]) || !caps_conflict(
        &entries[left],
        &entries[right],
    ));
    assert(share_worker(&entries[left], &entries[right]) || !share_worker(
        &entries[left],
        &entries[right],
    ));
    if left + 1 < right {
        valid_queues_are_ordered(snapshot, left, right - 1);
    }
}

/// Parking and unparking a valid task turn gives it to the new owner, without a
/// spawn permit, and changes nothing else.
pub proof fn parked_turns_come_back(entry: QueueEntry, owner: ProcessIdentity)
    requires
        entry.valid(),
        entry.kind == QueueEntryKind::TaskTurn,
        entry.state is Waiting,
        entry.preacceptance_abandonment_proof is None,
        owner.fault() is None,
    ensures
        entry.parked().valid(),
        entry.parked().waiting_for(owner).valid(),
        entry.parked().waiting_for(owner) == entry.waiting_for(owner).reserved(None),
{
}

/// Dispatching a valid waiting entry to a worker and reverting it restores the
/// entry, for the owner that it had.
pub proof fn reverted_dispatches_restore(
    entry: QueueEntry,
    owner: ProcessIdentity,
    worker: String,
    claimed_at_millis: u64,
)
    requires
        entry.valid(),
        entry.state == (QueueState::Waiting { owner }),
        worker_name_fault(worker@) is None,
        claimed_at_millis >= entry.enqueued_at_millis,
    ensures
        entry.dispatched(owner, worker, claimed_at_millis).valid(),
        entry.dispatched(owner, worker, claimed_at_millis).waiting_for(owner) == entry,
{
}

/// A batch entry is never handed to another process: whatever state a valid
/// one is in, the process that queued it owns it.
pub proof fn batches_keep_their_owner(entry: QueueEntry)
    requires
        entry.valid(),
        entry.kind == QueueEntryKind::Batch,
    ensures
        entry.state !is Parked,
        entry.state.owned_by() == Some(entry.enqueue_owner),
        entry.preacceptance_abandonment_proof matches Some(held) ==> held.recorded_by
            == entry.enqueue_owner,
{
}

} // verus!
