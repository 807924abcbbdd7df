//! What a supervisor is handed to run.
use vstd::prelude::*;
use crate::error::{coded, earliest, fault_if, outcome_of, protocol_code, WorkerError};
use crate::job::command::{CommandModel, CommandSpec};
use crate::job::ids::{ClientId, JobId, LeaseToken, RequestFingerprint, TaskId};
use crate::job::record::{JobMeta, LeaseModel, LeaseRecord, MetaModel};
use crate::job::request::{
    MaterialModel, RequestFingerprintMaterial, ResolutionModel, ResolveOrAbandonRequest,
    SubmitModel, SubmitRequest,
};
use crate::job::PROTOCOL_VERSION;
use crate::text::text_eq;

verus! {

pub const EXECUTION_PAYLOAD_VERSION: u32 = 2;

/// The part of a payload that makes its job one turn of a task. `turn` is the
/// turn and `canonical` the whole section in canonical JSON, by which two turns
/// and two sections are told apart.
#[derive(Debug, PartialEq, Eq)]
pub struct TurnSection {
    pub task_id: TaskId,
    pub project_id: String,
    pub digest: String,
    pub prompt_sha256: String,
    pub turn: String,
    pub canonical: String,
}

/// What a [`TurnSection`] says.
pub struct TurnSectionModel {
    pub task_id: TaskId,
    pub project_id: Seq<char>,
    pub digest: Seq<char>,
    pub prompt_sha256: Seq<char>,
    pub turn: Seq<char>,
    pub canonical: Seq<char>,
}

impl View for TurnSection {
    type V = TurnSectionModel;

    open spec fn view(&self) -> TurnSectionModel {
        TurnSectionModel {
            task_id: self.task_id,
            project_id: self.project_id@,
            digest: self.digest@,
            prompt_sha256: self.prompt_sha256@,
            turn: self.turn@,
            canonical: self.canonical@,
        }
    }
}

impl Clone for TurnSection {
    fn clone(&self) -> (copy: TurnSection)
        ensures
            copy == *self,
    {
        TurnSection {
            task_id: self.task_id,
            project_id: self.project_id.clone(),
            digest: self.digest.clone(),
            prompt_sha256: self.prompt_sha256.clone(),
            turn: self.turn.clone(),
            canonical: self.canonical.clone(),
        }
    }
}

impl TurnSection {
    /// Whether two records say the same.
    pub fn same(&self, other: &TurnSection) -> (same: bool)
        ensures
            same == (self@ == other@),
    {
        self.task_id == other.task_id
            && text_eq(self.project_id.as_str(), other.project_id.as_str())
            && text_eq(self.digest.as_str(), other.digest.as_str())
            && text_eq(self.prompt_sha256.as_str(), other.prompt_sha256.as_str())
            && text_eq(self.turn.as_str(), other.turn.as_str())
            && text_eq(self.canonical.as_str(), other.canonical.as_str())
    }
}

impl TurnSection {
    pub fn task_id(&self) -> (value: TaskId)
        ensures
            value == self.task_id,
    {
        self.task_id
    }

    pub fn project_id(&self) -> (value: &str)
        ensures
            value@ == self.project_id@,
    {
        self.project_id.as_str()
    }

    pub fn digest(&self) -> (value: &str)
        ensures
            value@ == self.digest@,
    {
        self.digest.as_str()
    }

    pub fn prompt_sha256(&self) -> (value: &str)
        ensures
            value@ == self.prompt_sha256@,
    {
        self.prompt_sha256.as_str()
    }

}

/// What a supervisor runs, bound to the request that asked for it.
#[derive(PartialEq, Eq)]
pub struct ExecutionPayload {
    pub version: u32,
    pub job_id: JobId,
    pub client_id: ClientId,
    pub request_fingerprint: RequestFingerprint,
    pub lease_token: LeaseToken,
    pub command: CommandSpec,
    pub turn: Option<TurnSection>,
}

/// What an [`ExecutionPayload`] says.
pub struct PayloadModel {
    pub version: u32,
    pub job_id: JobId,
    pub client_id: ClientId,
    pub request_fingerprint: Seq<char>,
    pub lease_token: LeaseToken,
    pub command: CommandModel,
    pub turn: Option<TurnSectionModel>,
}

/// What an optional section says.
pub open spec fn section_view(section: Option<TurnSection>) -> Option<TurnSectionModel> {
    match section {
        Some(turn) => Some(turn@),
        None => None,
    }
}

impl View for ExecutionPayload {
    type V = PayloadModel;

    open spec fn view(&self) -> PayloadModel {
        PayloadModel {
            version: self.version,
            job_id: self.job_id,
            client_id: self.client_id,
            request_fingerprint: self.request_fingerprint.text@,
            lease_token: self.lease_token,
            command: self.command@,
            turn: section_view(self.turn),
        }
    }
}

/// The material of a job that runs `command`, as its metadata records the rest.
pub open spec fn recorded_material(
    payload: PayloadModel,
    facts: ResolutionModel,
) -> MaterialModel {
    MaterialModel {
        protocol_version: PROTOCOL_VERSION,
        job_id: payload.job_id,
        client_id: payload.client_id,
        lease_token: payload.lease_token,
        created_at_millis: facts.created_at_millis,
        worker_name: facts.worker_name,
        project_id: facts.project_id,
        worktree_id: facts.worktree_id,
        manifest_digest: facts.manifest_digest,
        relative_working_dir: facts.relative_working_dir,
        timeout_millis: facts.timeout_millis,
        resource_class: facts.resource_class,
        command: payload.command,
    }
}

impl PayloadModel {
    /// The payload that a request is given.
    pub open spec fn of_request(request: SubmitModel, turn: Option<TurnSectionModel>) -> PayloadModel {
        PayloadModel {
            version: EXECUTION_PAYLOAD_VERSION,
            job_id: request.material.job_id,
            client_id: request.material.client_id,
            request_fingerprint: request.request_fingerprint,
            lease_token: request.material.lease_token,
            command: request.material.command,
            turn,
        }
    }

    /// The payload belongs to the request, whatever turn it is for.
    pub open spec fn bound_to(self, request: SubmitModel) -> bool {
        self == PayloadModel::of_request(request, self.turn)
    }

    pub open spec fn request_fault(self, request: SubmitModel) -> Option<Seq<char>> {
        earliest(
            request.bound().fault(),
            fault_if(
                !(self.bound_to(request) && self.turn is None),
                coded("JOB_ID_CONFLICT"@, "execution payload does not match the immutable request"@),
            ),
        )
    }

    pub open spec fn common_fault(self, request: SubmitModel) -> Option<Seq<char>> {
        earliest(
            request.bound().fault(),
            fault_if(
                !self.bound_to(request),
                coded("JOB_ID_CONFLICT"@, "execution payload does not match the immutable request"@),
            ),
        )
    }

    pub open spec fn turn_fault(self, request: SubmitModel, section: TurnSectionModel) -> Option<
        Seq<char>,
    > {
        earliest(
            self.common_fault(request),
            fault_if(
                self.turn != Some(section) || section.digest != request.material.manifest_digest,
                coded(
                    "JOB_ID_CONFLICT"@,
                    "execution payload turn does not match the immutable request"@,
                ),
            ),
        )
    }

    /// The payload is the one of this lease and this job.
    pub open spec fn is_of_job(self, lease: LeaseModel, meta: MetaModel) -> bool {
        &&& self.version == EXECUTION_PAYLOAD_VERSION
        &&& self.job_id == lease.job_id
        &&& self.job_id == meta.job_id
        &&& self.client_id == lease.client_id
        &&& self.client_id == meta.client_id
        &&& self.lease_token == lease.lease_token
        &&& self.request_fingerprint == lease.request_fingerprint
        &&& self.request_fingerprint == meta.request_fingerprint
        &&& recorded_material(self, meta.resolution(self.lease_token)).digest()
            == self.request_fingerprint
        &&& self.command.summarized() == meta.command_summary
        &&& self.command.summarized() == lease.command_summary
    }

    pub open spec fn durable_fault(self, lease: LeaseModel, meta: MetaModel) -> Option<Seq<char>> {
        earliest(
            lease.fault(),
            earliest(
                meta.fault(),
                earliest(
                    recorded_material(self, meta.resolution(self.lease_token)).fault(),
                    earliest(
                        fault_if(
                            !self.is_of_job(lease, meta),
                            coded(
                                "JOB_ID_CONFLICT"@,
                                "execution payload does not match durable job identity"@,
                            ),
                        ),
                        fault_if(
                            self.turn matches Some(turn) && (turn.project_id != meta.project_id
                                || turn.digest != meta.manifest_digest),
                            coded(
                                "JOB_ID_CONFLICT"@,
                                "execution payload turn does not match durable job metadata"@,
                            ),
                        ),
                    ),
                ),
            ),
        )
    }

    /// The payload is the one that the resolved request left behind.
    pub open spec fn is_of_resolution(self, identity: ResolutionModel) -> bool {
        &&& self.version == EXECUTION_PAYLOAD_VERSION
        &&& self.job_id == identity.job_id
        &&& self.client_id == identity.client_id
        &&& self.lease_token == identity.lease_token
        &&& self.request_fingerprint == identity.request_fingerprint
        &&& recorded_material(self, identity).digest() == self.request_fingerprint
        &&& self.command.summarized() == identity.command_summary
        &&& self.turn matches Some(turn) ==> turn.project_id == identity.project_id && turn.digest
            == identity.manifest_digest
    }

    pub open spec fn resolution_fault(self, identity: ResolutionModel) -> Option<Seq<char>> {
        earliest(
            recorded_material(self, identity).fault(),
            fault_if(
                !self.is_of_resolution(identity),
                coded(
                    "JOB_ID_CONFLICT"@,
                    "incomplete execution payload belongs to another immutable request"@,
                ),
            ),
        )
    }
}

impl ExecutionPayload {
    pub fn new(request: &SubmitRequest) -> (result: Result<ExecutionPayload, WorkerError>)
        ensures
            outcome_of(result, request@.bound().fault()),
            result matches Ok(payload) ==> payload@ == PayloadModel::of_request(request@, None),
    {
        ExecutionPayload::new_with_turn(request, None)
    }

    pub fn new_with_turn(request: &SubmitRequest, turn: Option<TurnSection>) -> (result: Result<
        ExecutionPayload,
        WorkerError,
    >)
        ensures
            ({
                let payload = PayloadModel::of_request(request@, section_view(turn));
                &&& outcome_of(
                    result,
                    match turn {
                        Some(section) => payload.turn_fault(request@, section@),
                        None => payload.request_fault(request@),
                    },
                )
                &&& result matches Ok(made) ==> made@ == payload
            }),
    {
        request.validate()?;
        let payload = ExecutionPayload {
            version: EXECUTION_PAYLOAD_VERSION,
            job_id: request.material.job_id,
            client_id: request.material.client_id,
            request_fingerprint: request.request_fingerprint.clone(),
            lease_token: request.material.lease_token,
            command: request.material.command.clone(),
            turn,
        };
        match &payload.turn {
            Some(section) => payload.validate_for_turn(request, section)?,
            None => payload.validate_for(request)?,
        }
        Ok(payload)
    }

    /// Whether the payload belongs to the request, whatever turn it is for.
    fn is_bound_to(&self, request: &SubmitRequest) -> (bound: bool)
        ensures
            bound == self@.bound_to(request@),
    {
        self.version == EXECUTION_PAYLOAD_VERSION && self.job_id == request.material.job_id
            && self.client_id == request.material.client_id && self.request_fingerprint.same(
            &request.request_fingerprint,
        ) && self.lease_token == request.material.lease_token && self.command.same(
            &request.material.command,
        )
    }

    pub fn validate_for(&self, request: &SubmitRequest) -> (result: Result<(), WorkerError>)
        ensures
            outcome_of(result, self@.request_fault(request@)),
    {
        request.validate()?;
        if !self.is_bound_to(request) || self.turn.is_some() {
            return Err(
                protocol_code(
                    "JOB_ID_CONFLICT",
                    "execution payload does not match the immutable request",
                ),
            );
        }
        self.command.validate()
    }

    pub fn validate_for_turn(&self, request: &SubmitRequest, section: &TurnSection) -> (result:
        Result<(), WorkerError>)
        ensures
            outcome_of(result, self@.turn_fault(request@, section@)),
    {
        self.validate_for_common(request)?;
        let same_section = match &self.turn {
            Some(turn) => turn.same(section),
            None => false,
        };
        if !same_section || !text_eq(
            section.digest.as_str(),
            request.material.manifest_digest.as_str(),
        ) {
            return Err(
                protocol_code(
                    "JOB_ID_CONFLICT",
                    "execution payload turn does not match the immutable request",
                ),
            );
        }
        Ok(())
    }

    fn validate_for_common(&self, request: &SubmitRequest) -> (result: Result<(), WorkerError>)
        ensures
            outcome_of(result, self@.common_fault(request@)),
    {
        request.validate()?;
        if !self.is_bound_to(request) {
            return Err(
                protocol_code(
                    "JOB_ID_CONFLICT",
                    "execution payload does not match the immutable request",
                ),
            );
        }
        self.command.validate()
    }

    pub fn validate_for_durable_job(&self, lease: &LeaseRecord, meta: &JobMeta) -> (result: Result<
        (),
        WorkerError,
    >)
        ensures
            outcome_of(result, self@.durable_fault(lease@, meta@)),
    {
        lease.validate()?;
        meta.validate()?;
        let material = RequestFingerprintMaterial::new(
            self.job_id,
            self.client_id,
            self.lease_token,
            meta.created_at_millis,
            meta.worker_name.clone(),
            meta.project_id.clone(),
            meta.worktree_id.clone(),
            meta.manifest_digest.clone(),
            meta.relative_working_dir.clone(),
            meta.timeout_millis,
            meta.resource_class.clone(),
            self.command.clone(),
        )?;
        let recomputed = material.fingerprint();
        let summary = self.command.summary()?;
        if self.version != EXECUTION_PAYLOAD_VERSION || self.job_id != lease.job_id
            || self.client_id != lease.client_id || !self.request_fingerprint.same(
            &lease.request_fingerprint,
        ) || self.lease_token != lease.lease_token || self.job_id != meta.job_id
            || self.client_id != meta.client_id || !self.request_fingerprint.same(
            &meta.request_fingerprint,
        ) || !recomputed.same(&self.request_fingerprint) || summary != meta.command_summary
            || summary != lease.command_summary {
            return Err(
                protocol_code(
                    "JOB_ID_CONFLICT",
                    "execution payload does not match durable job identity",
                ),
            );
        }
        if let Some(turn) = &self.turn {
            if !text_eq(turn.project_id.as_str(), meta.project_id.as_str()) || !text_eq(
                turn.digest.as_str(),
                meta.manifest_digest.as_str(),
            ) {
                return Err(
                    protocol_code(
                        "JOB_ID_CONFLICT",
                        "execution payload turn does not match durable job metadata",
                    ),
                );
            }
        }
        self.command.validate()
    }

    pub fn validate_for_resolution(&self, identity: &ResolveOrAbandonRequest) -> (result: Result<
        (),
        WorkerError,
    >)
        ensures
            outcome_of(result, self@.resolution_fault(identity@)),
    {
        let turn_matches = match &self.turn {
            Some(section) => text_eq(section.project_id.as_str(), identity.project_id.as_str())
                && text_eq(section.digest.as_str(), identity.manifest_digest.as_str()),
            None => true,
        };
        let material = RequestFingerprintMaterial::new(
            self.job_id,
            self.client_id,
            self.lease_token,
            identity.created_at_millis,
            identity.worker_name.clone(),
            identity.project_id.clone(),
            identity.worktree_id.clone(),
            identity.manifest_digest.clone(),
            identity.relative_working_dir.clone(),
            identity.timeout_millis,
            identity.resource_class.clone(),
            self.command.clone(),
        )?;
        let summary = self.command.summary()?;
        if self.version == EXECUTION_PAYLOAD_VERSION && self.job_id == identity.job_id
            && self.client_id == identity.client_id && self.lease_token == identity.lease_token
            && self.request_fingerprint.same(&identity.request_fingerprint)
            && material.fingerprint().same(&self.request_fingerprint) && summary
            == identity.command_summary && turn_matches {
            Ok(())
        } else {
            Err(
                protocol_code(
                    "JOB_ID_CONFLICT",
                    "incomplete execution payload belongs to another immutable request",
                ),
            )
        }
    }

    pub fn command(&self) -> (value: &CommandSpec)
        ensures
            *value == self.command,
    {
        &self.command
    }

    pub fn turn(&self) -> (value: Option<&TurnSection>)
        ensures
            (match value { Some(held) => Some(*held), None => None::<TurnSection> }) == self.turn,
    {
        self.turn.as_ref()
    }

}

/// A payload made for a request passes every later check of the job that the
/// request becomes.
pub proof fn payloads_fit_their_jobs(
    request: SubmitModel,
    turn: Option<TurnSectionModel>,
    created: u64,
    expires: u64,
)
    requires
        request.bound().fault() is None,
        created <= expires,
        turn matches Some(section) ==> section.project_id == request.material.project_id
            && section.digest == request.material.manifest_digest,
    ensures
        ({
            let payload = PayloadModel::of_request(request, turn);
            let meta = request.material.meta(request.request_fingerprint);
            let lease = request.material.lease(request.request_fingerprint, created, expires);
            &&& payload.common_fault(request) is None
            &&& turn is None ==> payload.request_fault(request) is None
            &&& turn matches Some(section) ==> payload.turn_fault(request, section) is None
            &&& payload.durable_fault(lease, meta) is None
            &&& payload.resolution_fault(request.bound().resolution()) is None
        }),
{
    let payload = PayloadModel::of_request(request, turn);
    let meta = request.material.meta(request.request_fingerprint);
    assert(recorded_material(payload, meta.resolution(payload.lease_token)) == request.material);
    assert(recorded_material(payload, request.bound().resolution()) == request.material);
}

} // verus!
