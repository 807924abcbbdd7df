//! Requests and answers between a laptop and a host.
use vstd::prelude::*;
use crate::error::{earliest, fault_if, outcome_of, protocol_error, WorkerError};
use crate::job::checks::{
    control_code_fault, control_message_fault, non_nul_fault, validate_control_code,
    validate_control_message, validate_non_nul,
};
use crate::job::ids::{ClientId, JobId, LeaseToken, RequestFingerprint, TaskId};
use crate::job::logs::LogChunk;
use crate::job::record::{JobMeta, LocalJobRecord, MetaModel};
use crate::job::status::{JobStatus, StatusModel};
use crate::job::{MAX_FLEET_RECONCILE_IDS, PROTOCOL_VERSION};
use crate::text::text_eq;

verus! {

/// A host's answer to a submitted job.
#[derive(Debug, PartialEq, Eq)]
pub enum SubmitResponse {
    Accepted { meta: Box<JobMeta>, status: JobStatus },
    Existing { status: JobStatus },
}

impl SubmitResponse {
    pub open spec fn fault(&self) -> Option<Seq<char>> {
        match self {
            SubmitResponse::Accepted { meta, status } => earliest(meta@.fault(), status@.fault()),
            SubmitResponse::Existing { status } => status@.fault(),
        }
    }

    pub open spec fn reported(&self) -> JobStatus {
        match self {
            SubmitResponse::Accepted { status, .. } => *status,
            SubmitResponse::Existing { status } => *status,
        }
    }

    pub fn validate(&self) -> (result: Result<(), WorkerError>)
        ensures
            outcome_of(result, self.fault()),
    {
        match self {
            SubmitResponse::Accepted { meta, status } => {
                meta.validate()?;
                status.validate()
            },
            SubmitResponse::Existing { status } => status.validate(),
        }
    }

    pub fn status(&self) -> (status: &JobStatus)
        ensures
            *status == self.reported(),
    {
        match self {
            SubmitResponse::Accepted { status, .. } => status,
            SubmitResponse::Existing { status } => status,
        }
    }
}

#[derive(Debug, Clone, Copy, PartialEq, Eq, Structural)]
pub struct StatusRequest {
    pub protocol_version: u32,
    pub job_id: JobId,
}

impl StatusRequest {
    pub fn new(job_id: JobId) -> (request: StatusRequest)
        ensures
            request == (StatusRequest { protocol_version: PROTOCOL_VERSION, job_id }),
    {
        StatusRequest { protocol_version: PROTOCOL_VERSION, job_id }
    }

    pub fn validate(&self) -> (result: Result<(), WorkerError>)
        ensures
            outcome_of(
                result,
                fault_if(
                    self.protocol_version != PROTOCOL_VERSION,
                    "status request has an incompatible protocol version"@,
                ),
            ),
    {
        if self.protocol_version != PROTOCOL_VERSION {
            return Err(protocol_error("status request has an incompatible protocol version"));
        }
        Ok(())
    }

    pub fn protocol_version(&self) -> (value: u32)
        ensures
            value == self.protocol_version,
    {
        self.protocol_version
    }

    pub fn job_id(&self) -> (value: JobId)
        ensures
            value == self.job_id,
    {
        self.job_id
    }

}

/// A job's facts and where it stands.
#[derive(Debug, PartialEq, Eq)]
pub struct StatusResponse {
    pub protocol_version: u32,
    pub meta: JobMeta,
    pub status: JobStatus,
}

/// What a [`StatusResponse`] says.
pub struct StatusResponseModel {
    pub protocol_version: u32,
    pub meta: MetaModel,
    pub status: StatusModel,
}

impl View for StatusResponse {
    type V = StatusResponseModel;

    open spec fn view(&self) -> StatusResponseModel {
        StatusResponseModel {
            protocol_version: self.protocol_version,
            meta: self.meta@,
            status: self.status@,
        }
    }
}

impl Clone for StatusResponse {
    fn clone(&self) -> (copy: StatusResponse)
        ensures
            copy == *self,
    {
        StatusResponse {
            protocol_version: self.protocol_version,
            meta: self.meta.clone(),
            status: self.status.clone(),
        }
    }
}

impl StatusResponse {
    /// Whether two records say the same.
    pub fn same(&self, other: &StatusResponse) -> (same: bool)
        ensures
            same == (self@ == other@),
    {
        self.protocol_version == other.protocol_version
            && self.meta.same(&other.meta)
            && self.status.same(&other.status)
    }
}

impl StatusResponseModel {
    pub open spec fn fault(self) -> Option<Seq<char>> {
        earliest(
            fault_if(
                self.protocol_version != PROTOCOL_VERSION,
                "status response has an incompatible protocol version"@,
            ),
            earliest(
                self.meta.fault(),
                earliest(
                    self.status.fault(),
                    fault_if(
                        self.status.updated_at_millis < self.meta.created_at_millis,
                        "status response timestamp predates job acceptance"@,
                    ),
                ),
            ),
        )
    }
}

impl StatusResponse {
    pub fn new(meta: JobMeta, status: JobStatus) -> (result: Result<StatusResponse, WorkerError>)
        ensures
            ({
                let response = StatusResponse { protocol_version: PROTOCOL_VERSION, meta, status };
                &&& outcome_of(result, response@.fault())
                &&& result matches Ok(made) ==> made == response
            }),
    {
        let response = StatusResponse { protocol_version: PROTOCOL_VERSION, meta, status };
        response.validate()?;
        Ok(response)
    }

    pub fn validate(&self) -> (result: Result<(), WorkerError>)
        ensures
            outcome_of(result, self@.fault()),
    {
        if self.protocol_version != PROTOCOL_VERSION {
            return Err(protocol_error("status response has an incompatible protocol version"));
        }
        self.meta.validate()?;
        self.status.validate()?;
        if self.status.updated_at_millis < self.meta.created_at_millis {
            return Err(protocol_error("status response timestamp predates job acceptance"));
        }
        Ok(())
    }

    pub fn protocol_version(&self) -> (value: u32)
        ensures
            value == self.protocol_version,
    {
        self.protocol_version
    }

    pub fn meta(&self) -> (value: &JobMeta)
        ensures
            *value == self.meta,
    {
        &self.meta
    }

    pub fn status(&self) -> (value: &JobStatus)
        ensures
            *value == self.status,
    {
        &self.status
    }

}

/// A bounded host request. It is only a set of known jobs: no path, namespace
/// or worker-wide discovery is accepted.
#[derive(Debug, PartialEq, Eq)]
pub struct FleetReconcileRequest {
    pub known_job_ids: Vec<JobId>,
}

/// No job stands twice in a list.
pub open spec fn jobs_distinct(ids: Seq<JobId>) -> bool {
    forall|i: int, j: int| 0 <= i < j < ids.len() ==> ids[i] != ids[j]
}

impl FleetReconcileRequest {
    pub open spec fn fault(&self) -> Option<Seq<char>> {
        earliest(
            fault_if(
                self.known_job_ids@.len() > MAX_FLEET_RECONCILE_IDS,
                "fleet reconciliation request exceeds 100 job IDs"@,
            ),
            fault_if(
                !jobs_distinct(self.known_job_ids@),
                "fleet reconciliation request contains duplicate job IDs"@,
            ),
        )
    }

    pub fn new(known_job_ids: Vec<JobId>) -> (result: Result<FleetReconcileRequest, WorkerError>)
        ensures
            ({
                let request = FleetReconcileRequest { known_job_ids };
                &&& outcome_of(result, request.fault())
                &&& result matches Ok(made) ==> made == request
            }),
    {
        let request = FleetReconcileRequest { known_job_ids };
        request.validate()?;
        Ok(request)
    }

    pub fn validate(&self) -> (result: Result<(), WorkerError>)
        ensures
            outcome_of(result, self.fault()),
    {
        if self.known_job_ids.len() > MAX_FLEET_RECONCILE_IDS {
            return Err(protocol_error("fleet reconciliation request exceeds 100 job IDs"));
        }
        let mut i: usize = 0;
        while i < self.known_job_ids.len()
            invariant
                i <= self.known_job_ids.len() <= MAX_FLEET_RECONCILE_IDS,
                forall|k: int, m: int|
                    0 <= k < m < i ==> self.known_job_ids@[k] != self.known_job_ids@[m],
            decreases self.known_job_ids.len() - i,
        {
            let mut j: usize = 0;
            while j < i
                invariant
                    j <= i < self.known_job_ids.len() <= MAX_FLEET_RECONCILE_IDS,
                    forall|k: int|
                        0 <= k < j ==> self.known_job_ids@[k] != self.known_job_ids@[i as int],
                decreases i - j,
            {
                if self.known_job_ids[j] == self.known_job_ids[i] {
                    assert(!jobs_distinct(self.known_job_ids@));
                    return Err(
                        protocol_error("fleet reconciliation request contains duplicate job IDs"),
                    );
                }
                j += 1;
            }
            i += 1;
        }
        Ok(())
    }

    pub fn known_job_ids(&self) -> (ids: &[JobId])
        ensures
            ids@ == self.known_job_ids@,
    {
        self.known_job_ids.as_slice()
    }
}

/// What a host found out about one job.
#[derive(Debug, PartialEq, Eq)]
pub enum FleetReconcileJobResult {
    Status { status: Box<StatusResponse> },
    Error { job_id: JobId, error: HostControlError },
}

impl FleetReconcileJobResult {
    pub open spec fn job(&self) -> JobId {
        match self {
            FleetReconcileJobResult::Status { status } => status.meta.job_id,
            FleetReconcileJobResult::Error { job_id, .. } => *job_id,
        }
    }

    pub open spec fn fault(&self) -> Option<Seq<char>> {
        match self {
            FleetReconcileJobResult::Status { status } => status@.fault(),
            FleetReconcileJobResult::Error { error, .. } => error@.fault(),
        }
    }

    pub fn job_id(&self) -> (job_id: JobId)
        ensures
            job_id == self.job(),
    {
        match self {
            FleetReconcileJobResult::Status { status } => status.meta.job_id,
            FleetReconcileJobResult::Error { job_id, .. } => *job_id,
        }
    }

    pub fn status(&self) -> (status: Option<&StatusResponse>)
        ensures
            match self {
                FleetReconcileJobResult::Status { status: held } => status matches Some(found)
                    && *found == **held,
                FleetReconcileJobResult::Error { .. } => status is None,
            },
    {
        match self {
            FleetReconcileJobResult::Status { status } => Some(status),
            FleetReconcileJobResult::Error { .. } => None,
        }
    }

    pub fn error(&self) -> (error: Option<&HostControlError>)
        ensures
            match self {
                FleetReconcileJobResult::Status { .. } => error is None,
                FleetReconcileJobResult::Error { error: held, .. } => error matches Some(found)
                    && *found == *held,
            },
    {
        match self {
            FleetReconcileJobResult::Status { .. } => None,
            FleetReconcileJobResult::Error { error, .. } => Some(error),
        }
    }

    pub fn validate(&self) -> (result: Result<(), WorkerError>)
        ensures
            outcome_of(result, self.fault()),
    {
        match self {
            FleetReconcileJobResult::Status { status } => status.validate(),
            FleetReconcileJobResult::Error { error, .. } => error.validate(),
        }
    }
}

#[derive(Debug, PartialEq, Eq)]
pub struct FleetReconcileResponse {
    pub results: Vec<FleetReconcileJobResult>,
}

pub open spec fn fleet_fault_at(results: Seq<FleetReconcileJobResult>, at: int) -> Option<
    Seq<char>,
> {
    earliest(
        results[at].fault(),
        fault_if(
            exists|j: int| 0 <= j < at && (#[trigger] results[j]).job() == results[at].job(),
            "fleet reconciliation response contains duplicate job IDs"@,
        ),
    )
}

/// The first fault of the results from `at` on.
pub open spec fn fleet_faults(results: Seq<FleetReconcileJobResult>, at: int) -> Option<Seq<char>>
    decreases results.len() - at,
{
    if at >= results.len() {
        None
    } else {
        earliest(fleet_fault_at(results, at), fleet_faults(results, at + 1))
    }
}

impl FleetReconcileResponse {
    pub open spec fn fault(&self) -> Option<Seq<char>> {
        earliest(
            fault_if(
                self.results@.len() > MAX_FLEET_RECONCILE_IDS,
                "fleet reconciliation response exceeds 100 job IDs"@,
            ),
            fleet_faults(self.results@, 0),
        )
    }

    pub fn new(results: Vec<FleetReconcileJobResult>) -> (result: Result<
        FleetReconcileResponse,
        WorkerError,
    >)
        ensures
            ({
                let response = FleetReconcileResponse { results };
                &&& outcome_of(result, response.fault())
                &&& result matches Ok(made) ==> made == response
            }),
    {
        let response = FleetReconcileResponse { results };
        response.validate()?;
        Ok(response)
    }

    pub fn validate(&self) -> (result: Result<(), WorkerError>)
        ensures
            outcome_of(result, self.fault()),
    {
        if self.results.len() > MAX_FLEET_RECONCILE_IDS {
            return Err(protocol_error("fleet reconciliation response exceeds 100 job IDs"));
        }
        let mut i: usize = 0;
        while i < self.results.len()
            invariant
                i <= self.results.len() <= MAX_FLEET_RECONCILE_IDS,
                self.fault() == fleet_faults(self.results@, i as int),
            decreases self.results.len() - i,
        {
            let current = &self.results[i];
            current.validate()?;
            let mut j: usize = 0;
            while j < i
                invariant
                    j <= i < self.results.len() <= MAX_FLEET_RECONCILE_IDS,
                    *current == self.results@[i as int],
                    current.fault() is None,
                    self.fault() == fleet_faults(self.results@, i as int),
                    forall|k: int|
                        0 <= k < j ==> (#[trigger] self.results@[k]).job() != current.job(),
                decreases i - j,
            {
                if self.results[j].job_id() == current.job_id() {
                    assert(self.results@[j as int].job() == current.job());
                    return Err(
                        protocol_error("fleet reconciliation response contains duplicate job IDs"),
                    );
                }
                j += 1;
            }
            i += 1;
        }
        Ok(())
    }

    pub fn results(&self) -> (results: &[FleetReconcileJobResult])
        ensures
            results@ == self.results@,
    {
        self.results.as_slice()
    }
}

/// A request to cancel exactly one accepted job. The operation is bound by the
/// accepted identity, so it carries no version of its own.
#[derive(PartialEq, Eq)]
pub struct CancelRequest {
    pub job_id: JobId,
    pub client_id: ClientId,
    pub lease_token: LeaseToken,
    pub request_fingerprint: RequestFingerprint,
}

/// What a [`CancelRequest`] says.
pub struct CancelModel {
    pub job_id: JobId,
    pub client_id: ClientId,
    pub lease_token: LeaseToken,
    pub request_fingerprint: Seq<char>,
}

impl View for CancelRequest {
    type V = CancelModel;

    open spec fn view(&self) -> CancelModel {
        CancelModel {
            job_id: self.job_id,
            client_id: self.client_id,
            lease_token: self.lease_token,
            request_fingerprint: self.request_fingerprint.text@,
        }
    }
}

impl Clone for CancelRequest {
    fn clone(&self) -> (copy: CancelRequest)
        ensures
            copy == *self,
    {
        CancelRequest {
            job_id: self.job_id,
            client_id: self.client_id,
            lease_token: self.lease_token,
            request_fingerprint: self.request_fingerprint.clone(),
        }
    }
}

impl CancelRequest {
    /// Whether two records say the same.
    pub fn same(&self, other: &CancelRequest) -> (same: bool)
        ensures
            same == (self@ == other@),
    {
        self.job_id == other.job_id
            && self.client_id == other.client_id
            && self.lease_token == other.lease_token
            && self.request_fingerprint.same(&other.request_fingerprint)
    }
}

impl CancelRequest {
    pub fn new(
        job_id: JobId,
        client_id: ClientId,
        lease_token: LeaseToken,
        request_fingerprint: RequestFingerprint,
    ) -> (result: Result<CancelRequest, WorkerError>)
        ensures
            result == Ok::<CancelRequest, WorkerError>(
                CancelRequest { job_id, client_id, lease_token, request_fingerprint },
            ),
    {
        let request = CancelRequest { job_id, client_id, lease_token, request_fingerprint };
        request.validate()?;
        Ok(request)
    }

    pub fn from_local_record(record: &LocalJobRecord) -> (result: Result<
        CancelRequest,
        WorkerError,
    >)
        ensures
            outcome_of(result, record.fault()),
            result matches Ok(request) ==> request@ == (CancelModel {
                job_id: record.meta.job_id,
                client_id: record.meta.client_id,
                lease_token: record.lease_token,
                request_fingerprint: record.meta.request_fingerprint.text@,
            }),
    {
        record.validate()?;
        CancelRequest::new(
            record.meta.job_id,
            record.meta.client_id,
            record.lease_token,
            record.meta.request_fingerprint.clone(),
        )
    }

    /// The identifiers are checked where they are made, so nothing is left to
    /// refuse here.
    pub fn validate(&self) -> (result: Result<(), WorkerError>)
        ensures
            result is Ok,
    {
        Ok(())
    }

    pub fn job_id(&self) -> (value: JobId)
        ensures
            value == self.job_id,
    {
        self.job_id
    }

    pub fn client_id(&self) -> (value: ClientId)
        ensures
            value == self.client_id,
    {
        self.client_id
    }

    pub fn lease_token(&self) -> (value: LeaseToken)
        ensures
            value == self.lease_token,
    {
        self.lease_token
    }

    pub fn request_fingerprint(&self) -> (value: &RequestFingerprint)
        ensures
            *value == self.request_fingerprint,
    {
        &self.request_fingerprint
    }

}

#[derive(Debug, PartialEq, Eq)]
pub struct CancelResponse {
    pub protocol_version: u32,
    pub status: StatusResponse,
}

impl CancelResponse {
    pub open spec fn fault(&self) -> Option<Seq<char>> {
        earliest(
            fault_if(
                self.protocol_version != PROTOCOL_VERSION,
                "cancel response has an incompatible protocol version"@,
            ),
            self.status@.fault(),
        )
    }

    pub fn new(status: StatusResponse) -> (result: Result<CancelResponse, WorkerError>)
        ensures
            outcome_of(result, status@.fault()),
            result matches Ok(response) ==> response == (CancelResponse {
                protocol_version: PROTOCOL_VERSION,
                status,
            }),
    {
        let response = CancelResponse { protocol_version: PROTOCOL_VERSION, status };
        response.validate()?;
        Ok(response)
    }

    pub fn validate(&self) -> (result: Result<(), WorkerError>)
        ensures
            outcome_of(result, self.fault()),
    {
        if self.protocol_version != PROTOCOL_VERSION {
            return Err(protocol_error("cancel response has an incompatible protocol version"));
        }
        self.status.validate()
    }

    pub fn protocol_version(&self) -> (value: u32)
        ensures
            value == self.protocol_version,
    {
        self.protocol_version
    }

    pub fn status(&self) -> (value: &StatusResponse)
        ensures
            *value == self.status,
    {
        &self.status
    }

}

/// How a job of uncertain acceptance was settled.
#[derive(Debug, PartialEq, Eq)]
pub enum ResolveOrAbandonOutcome {
    Accepted { response: StatusResponse },
    Abandoned,
    CleanupPending { code: String },
}

impl ResolveOrAbandonOutcome {
    pub open spec fn fault(&self) -> Option<Seq<char>> {
        match self {
            ResolveOrAbandonOutcome::Accepted { response } => response@.fault(),
            ResolveOrAbandonOutcome::Abandoned => None,
            ResolveOrAbandonOutcome::CleanupPending { code } => control_code_fault(
                code@,
                "cleanup-pending code"@,
            ),
        }
    }

    pub fn validate(&self) -> (result: Result<(), WorkerError>)
        ensures
            outcome_of(result, self.fault()),
    {
        match self {
            ResolveOrAbandonOutcome::Accepted { response } => response.validate(),
            ResolveOrAbandonOutcome::Abandoned => Ok(()),
            ResolveOrAbandonOutcome::CleanupPending { code } => validate_control_code(
                code.as_str(),
                "cleanup-pending code",
            ),
        }
    }
}

#[derive(Debug, PartialEq, Eq)]
pub struct ResolveOrAbandonResponse {
    pub protocol_version: u32,
    pub outcome: ResolveOrAbandonOutcome,
}

impl ResolveOrAbandonResponse {
    pub open spec fn fault(&self) -> Option<Seq<char>> {
        earliest(
            fault_if(
                self.protocol_version != PROTOCOL_VERSION,
                "resolve-or-abandon response has an incompatible protocol version"@,
            ),
            self.outcome.fault(),
        )
    }

    pub fn new(outcome: ResolveOrAbandonOutcome) -> (result: Result<
        ResolveOrAbandonResponse,
        WorkerError,
    >)
        ensures
            outcome_of(result, outcome.fault()),
            result matches Ok(response) ==> response == (ResolveOrAbandonResponse {
                protocol_version: PROTOCOL_VERSION,
                outcome,
            }),
    {
        let response = ResolveOrAbandonResponse { protocol_version: PROTOCOL_VERSION, outcome };
        response.validate()?;
        Ok(response)
    }

    pub fn accepted(response: StatusResponse) -> (result: Result<
        ResolveOrAbandonResponse,
        WorkerError,
    >)
        ensures
            outcome_of(result, response@.fault()),
            result matches Ok(made) ==> made.outcome == (ResolveOrAbandonOutcome::Accepted {
                response,
            }) && made.protocol_version == PROTOCOL_VERSION,
    {
        ResolveOrAbandonResponse::new(ResolveOrAbandonOutcome::Accepted { response })
    }

    pub fn abandoned() -> (response: ResolveOrAbandonResponse)
        ensures
            response == (ResolveOrAbandonResponse {
                protocol_version: PROTOCOL_VERSION,
                outcome: ResolveOrAbandonOutcome::Abandoned,
            }),
    {
        ResolveOrAbandonResponse {
            protocol_version: PROTOCOL_VERSION,
            outcome: ResolveOrAbandonOutcome::Abandoned,
        }
    }

    pub fn cleanup_pending(code: String) -> (result: Result<ResolveOrAbandonResponse, WorkerError>)
        ensures
            outcome_of(result, control_code_fault(code@, "cleanup-pending code"@)),
            result matches Ok(made) ==> made.outcome == (ResolveOrAbandonOutcome::CleanupPending {
                code,
            }) && made.protocol_version == PROTOCOL_VERSION,
    {
        ResolveOrAbandonResponse::new(ResolveOrAbandonOutcome::CleanupPending { code })
    }

    pub fn validate(&self) -> (result: Result<(), WorkerError>)
        ensures
            outcome_of(result, self.fault()),
    {
        if self.protocol_version != PROTOCOL_VERSION {
            return Err(
                protocol_error("resolve-or-abandon response has an incompatible protocol version"),
            );
        }
        self.outcome.validate()
    }

    pub fn protocol_version(&self) -> (value: u32)
        ensures
            value == self.protocol_version,
    {
        self.protocol_version
    }

    pub fn outcome(&self) -> (value: &ResolveOrAbandonOutcome)
        ensures
            *value == self.outcome,
    {
        &self.outcome
    }

}

/// What a laptop concludes about a job that it could not see accepted.
#[derive(Debug, PartialEq, Eq)]
pub enum PreacceptanceDisposition {
    Accepted(StatusResponse),
    Abandoned,
    CleanupPending { code: String },
    UnknownRemote { code: String },
}

impl PreacceptanceDisposition {
    pub open spec fn fault(&self) -> Option<Seq<char>> {
        match self {
            PreacceptanceDisposition::Accepted(response) => response@.fault(),
            PreacceptanceDisposition::Abandoned => None,
            PreacceptanceDisposition::CleanupPending { code } => control_code_fault(
                code@,
                "cleanup-pending code"@,
            ),
            PreacceptanceDisposition::UnknownRemote { code } => control_code_fault(
                code@,
                "unknown-remote code"@,
            ),
        }
    }

    pub fn cleanup_pending(code: String) -> (result: Result<PreacceptanceDisposition, WorkerError>)
        ensures
            outcome_of(result, control_code_fault(code@, "cleanup-pending code"@)),
            result matches Ok(made) ==> made == (PreacceptanceDisposition::CleanupPending { code }),
    {
        let disposition = PreacceptanceDisposition::CleanupPending { code };
        disposition.validate()?;
        Ok(disposition)
    }

    pub fn unknown_remote(code: String) -> (result: Result<PreacceptanceDisposition, WorkerError>)
        ensures
            outcome_of(result, control_code_fault(code@, "unknown-remote code"@)),
            result matches Ok(made) ==> made == (PreacceptanceDisposition::UnknownRemote { code }),
    {
        let disposition = PreacceptanceDisposition::UnknownRemote { code };
        disposition.validate()?;
        Ok(disposition)
    }

    pub fn validate(&self) -> (result: Result<(), WorkerError>)
        ensures
            outcome_of(result, self.fault()),
    {
        match self {
            PreacceptanceDisposition::Accepted(response) => response.validate(),
            PreacceptanceDisposition::Abandoned => Ok(()),
            PreacceptanceDisposition::CleanupPending { code } => validate_control_code(
                code.as_str(),
                "cleanup-pending code",
            ),
            PreacceptanceDisposition::UnknownRemote { code } => validate_control_code(
                code.as_str(),
                "unknown-remote code",
            ),
        }
    }
}

/// A refusal's code and its text for people.
#[derive(Debug, PartialEq, Eq)]
pub struct HostControlErrorDetail {
    pub code: String,
    pub message: String,
}

/// What a [`HostControlErrorDetail`] says.
pub struct ErrorDetailModel {
    pub code: Seq<char>,
    pub message: Seq<char>,
}

impl View for HostControlErrorDetail {
    type V = ErrorDetailModel;

    open spec fn view(&self) -> ErrorDetailModel {
        ErrorDetailModel {
            code: self.code@,
            message: self.message@,
        }
    }
}

impl Clone for HostControlErrorDetail {
    fn clone(&self) -> (copy: HostControlErrorDetail)
        ensures
            copy == *self,
    {
        HostControlErrorDetail {
            code: self.code.clone(),
            message: self.message.clone(),
        }
    }
}

impl HostControlErrorDetail {
    /// Whether two records say the same.
    pub fn same(&self, other: &HostControlErrorDetail) -> (same: bool)
        ensures
            same == (self@ == other@),
    {
        text_eq(self.code.as_str(), other.code.as_str())
            && text_eq(self.message.as_str(), other.message.as_str())
    }
}

impl ErrorDetailModel {
    pub open spec fn fault(self) -> Option<Seq<char>> {
        earliest(
            control_code_fault(self.code, "host control error code"@),
            control_message_fault(self.message, "host control error message"@),
        )
    }
}

impl HostControlErrorDetail {
    pub fn new(code: String, message: String) -> (result: Result<
        HostControlErrorDetail,
        WorkerError,
    >)
        ensures
            ({
                let detail = HostControlErrorDetail { code, message };
                &&& outcome_of(result, detail@.fault())
                &&& result matches Ok(made) ==> made == detail
            }),
    {
        let detail = HostControlErrorDetail { code, message };
        detail.validate()?;
        Ok(detail)
    }

    pub fn validate(&self) -> (result: Result<(), WorkerError>)
        ensures
            outcome_of(result, self@.fault()),
    {
        validate_control_code(self.code.as_str(), "host control error code")?;
        validate_control_message(self.message.as_str(), "host control error message")
    }

    pub fn code(&self) -> (value: &str)
        ensures
            value@ == self.code@,
    {
        self.code.as_str()
    }

    pub fn message(&self) -> (value: &str)
        ensures
            value@ == self.message@,
    {
        self.message.as_str()
    }

}

/// A host's refusal.
#[derive(Debug, PartialEq, Eq)]
pub struct HostControlError {
    pub protocol_version: u32,
    pub error: HostControlErrorDetail,
}

/// What a [`HostControlError`] says.
pub struct HostErrorModel {
    pub protocol_version: u32,
    pub error: ErrorDetailModel,
}

impl View for HostControlError {
    type V = HostErrorModel;

    open spec fn view(&self) -> HostErrorModel {
        HostErrorModel {
            protocol_version: self.protocol_version,
            error: self.error@,
        }
    }
}

impl Clone for HostControlError {
    fn clone(&self) -> (copy: HostControlError)
        ensures
            copy == *self,
    {
        HostControlError {
            protocol_version: self.protocol_version,
            error: self.error.clone(),
        }
    }
}

impl HostControlError {
    /// Whether two records say the same.
    pub fn same(&self, other: &HostControlError) -> (same: bool)
        ensures
            same == (self@ == other@),
    {
        self.protocol_version == other.protocol_version
            && self.error.same(&other.error)
    }
}

impl HostErrorModel {
    pub open spec fn fault(self) -> Option<Seq<char>> {
        earliest(
            fault_if(
                self.protocol_version != PROTOCOL_VERSION,
                "host control error has an incompatible protocol version"@,
            ),
            self.error.fault(),
        )
    }
}

/// The refusal that carries this code and message.
pub open spec fn host_error(code: Seq<char>, message: Seq<char>) -> HostErrorModel {
    HostErrorModel {
        protocol_version: PROTOCOL_VERSION,
        error: ErrorDetailModel { code, message },
    }
}

impl HostControlError {
    pub fn new(code: String, message: String) -> (result: Result<HostControlError, WorkerError>)
        ensures
            outcome_of(result, host_error(code@, message@).fault()),
            result matches Ok(made) ==> made@ == host_error(code@, message@),
    {
        let detail = HostControlErrorDetail::new(code, message)?;
        let error = HostControlError { protocol_version: PROTOCOL_VERSION, error: detail };
        error.validate()?;
        Ok(error)
    }

    pub fn validate(&self) -> (result: Result<(), WorkerError>)
        ensures
            outcome_of(result, self@.fault()),
    {
        if self.protocol_version != PROTOCOL_VERSION {
            return Err(protocol_error("host control error has an incompatible protocol version"));
        }
        self.error.validate()
    }

    pub fn protocol_version(&self) -> (value: u32)
        ensures
            value == self.protocol_version,
    {
        self.protocol_version
    }

    pub fn error(&self) -> (value: &HostControlErrorDetail)
        ensures
            *value == self.error,
    {
        &self.error
    }

}

/// One line of a command's machine-readable output.
///
/// Of a task's status and a turn's outcome an event knows only whether they
/// can be written as JSON.
#[allow(inconsistent_fields)]
#[derive(Debug, PartialEq, Eq)]
pub enum JsonEvent {
    Accepted { protocol_version: u32, response: SubmitResponse },
    Log { protocol_version: u32, chunk: LogChunk },
    Status { protocol_version: u32, response: Box<StatusResponse> },
    TaskCreated { protocol_version: u32, task_id: TaskId, run_id: Option<String>, title: String },
    TaskState { protocol_version: u32, task_id: TaskId, status_encodes: bool },
    TurnAccepted { protocol_version: u32, task_id: TaskId, turn_id: JobId, worker: String },
    TurnTerminal { protocol_version: u32, task_id: TaskId, turn_id: JobId, outcome_encodes: bool },
    ResultImported { protocol_version: u32, task_id: TaskId, head_oid: String, local_ref: String },
    Error { protocol_version: u32, code: String, message: String },
}

impl JsonEvent {
    pub open spec fn version(&self) -> u32 {
        match self {
            JsonEvent::Accepted { protocol_version, .. } => *protocol_version,
            JsonEvent::Log { protocol_version, .. } => *protocol_version,
            JsonEvent::Status { protocol_version, .. } => *protocol_version,
            JsonEvent::TaskCreated { protocol_version, .. } => *protocol_version,
            JsonEvent::TaskState { protocol_version, .. } => *protocol_version,
            JsonEvent::TurnAccepted { protocol_version, .. } => *protocol_version,
            JsonEvent::TurnTerminal { protocol_version, .. } => *protocol_version,
            JsonEvent::ResultImported { protocol_version, .. } => *protocol_version,
            JsonEvent::Error { protocol_version, .. } => *protocol_version,
        }
    }

    pub open spec fn body_fault(&self) -> Option<Seq<char>> {
        match self {
            JsonEvent::Accepted { response, .. } => response.fault(),
            JsonEvent::Log { chunk, .. } => chunk.fault(),
            JsonEvent::Status { response, .. } => response@.fault(),
            JsonEvent::TaskCreated { title, .. } => non_nul_fault(title@, 120, "task title"@),
            JsonEvent::TaskState { status_encodes, .. } => fault_if(
                !*status_encodes,
                "task status event is invalid"@,
            ),
            JsonEvent::TurnAccepted { worker, .. } => non_nul_fault(worker@, 128, "worker name"@),
            JsonEvent::TurnTerminal { outcome_encodes, .. } => fault_if(
                !*outcome_encodes,
                "turn terminal event is invalid"@,
            ),
            JsonEvent::ResultImported { local_ref, .. } => non_nul_fault(
                local_ref@,
                512,
                "result ref"@,
            ),
            JsonEvent::Error { code, message, .. } => earliest(
                non_nul_fault(code@, 128, "error code"@),
                non_nul_fault(message@, 4096, "error message"@),
            ),
        }
    }

    /// The event of a command that failed, with the code and the text that its
    /// error shows to anyone.
    pub fn error(code: String, message: String) -> (event: JsonEvent)
        ensures
            event == (JsonEvent::Error { protocol_version: PROTOCOL_VERSION, code, message }),
    {
        JsonEvent::Error { protocol_version: PROTOCOL_VERSION, code, message }
    }

    pub open spec fn fault(&self) -> Option<Seq<char>> {
        earliest(
            self.body_fault(),
            fault_if(
                self.version() != PROTOCOL_VERSION,
                "event has an incompatible protocol version"@,
            ),
        )
    }

    pub fn validate(&self) -> (result: Result<(), WorkerError>)
        ensures
            outcome_of(result, self.fault()),
    {
        let version: u32 = match self {
            JsonEvent::Accepted { protocol_version, response } => {
                response.validate()?;
                *protocol_version
            },
            JsonEvent::Log { protocol_version, chunk } => {
                chunk.validate()?;
                *protocol_version
            },
            JsonEvent::Status { protocol_version, response } => {
                response.validate()?;
                *protocol_version
            },
            JsonEvent::TaskCreated { protocol_version, title, .. } => {
                validate_non_nul(title.as_str(), 120, "task title")?;
                *protocol_version
            },
            JsonEvent::TaskState { protocol_version, status_encodes, .. } => {
                if !*status_encodes {
                    return Err(protocol_error("task status event is invalid"));
                }
                *protocol_version
            },
            JsonEvent::TurnAccepted { protocol_version, worker, .. } => {
                validate_non_nul(worker.as_str(), 128, "worker name")?;
                *protocol_version
            },
            JsonEvent::TurnTerminal { protocol_version, outcome_encodes, .. } => {
                if !*outcome_encodes {
                    return Err(protocol_error("turn terminal event is invalid"));
                }
                *protocol_version
            },
            JsonEvent::ResultImported { protocol_version, local_ref, .. } => {
                validate_non_nul(local_ref.as_str(), 512, "result ref")?;
                *protocol_version
            },
            JsonEvent::Error { protocol_version, code, message } => {
                validate_non_nul(code.as_str(), 128, "error code")?;
                validate_non_nul(message.as_str(), 4096, "error message")?;
                *protocol_version
            },
        };
        if version != PROTOCOL_VERSION {
            return Err(protocol_error("event has an incompatible protocol version"));
        }
        Ok(())
    }
}

proof fn fleet_has_no_fault_from(results: Seq<FleetReconcileJobResult>, from: int, at: int)
    requires
        0 <= from <= at < results.len(),
        fleet_faults(results, from) is None,
    ensures
        fleet_fault_at(results, at) is None,
    decreases at - from,
{
    if from < at {
        fleet_has_no_fault_from(results, from + 1, at);
    }
}

/// A valid fleet answer reports each job at most once.
pub proof fn fleet_answers_are_unique(response: FleetReconcileResponse, left: int, right: int)
    requires
        response.fault() is None,
        0 <= left < right < response.results@.len(),
    ensures
        response.results@[left].job() != response.results@[right].job(),
        response.results@[left].fault() is None,
{
    fleet_has_no_fault_from(response.results@, 0, left);
    fleet_has_no_fault_from(response.results@, 0, right);
    assert(response.results@[left].job() == response.results@[left].job());
}

} // verus!
