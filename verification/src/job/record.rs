//! What laptops and hosts remember of a job.
use vstd::prelude::*;
use crate::error::{earliest, fault_if, outcome_of, protocol_error, WorkerError};
use crate::job::checks::{
    control_code_fault, hex_fault, non_nul_fault, validate_control_code, validate_hex_component,
    validate_non_nul,
};
use crate::job::command::CommandSummary;
use crate::job::ids::{ClientId, JobId, LeaseToken, RequestFingerprint};
use crate::job::request::{
    is_working_dir, timeout_ok, working_dir_ok, MaterialModel, RequestFingerprintMaterial,
    ResolutionModel,
};
use crate::job::status::JobStatus;
use crate::job::{MAX_TIMEOUT_MILLIS, PROTOCOL_VERSION};
use crate::text::text_eq;

verus! {

/// The unchanging facts of an accepted job.
#[derive(Debug, PartialEq, Eq)]
pub struct JobMeta {
    pub protocol_version: u32,
    pub job_id: JobId,
    pub client_id: ClientId,
    pub worker_name: String,
    pub project_id: String,
    pub worktree_id: String,
    pub manifest_digest: String,
    pub request_fingerprint: RequestFingerprint,
    pub command_summary: CommandSummary,
    pub relative_working_dir: String,
    pub timeout_millis: u64,
    pub resource_class: String,
    pub created_at_millis: u64,
}

/// What a [`JobMeta`] says.
pub struct MetaModel {
    pub protocol_version: u32,
    pub job_id: JobId,
    pub client_id: ClientId,
    pub worker_name: Seq<char>,
    pub project_id: Seq<char>,
    pub worktree_id: Seq<char>,
    pub manifest_digest: Seq<char>,
    pub request_fingerprint: Seq<char>,
    pub command_summary: CommandSummary,
    pub relative_working_dir: Seq<char>,
    pub timeout_millis: u64,
    pub resource_class: Seq<char>,
    pub created_at_millis: u64,
}

impl View for JobMeta {
    type V = MetaModel;

    open spec fn view(&self) -> MetaModel {
        MetaModel {
            protocol_version: self.protocol_version,
            job_id: self.job_id,
            client_id: self.client_id,
            worker_name: self.worker_name@,
            project_id: self.project_id@,
            worktree_id: self.worktree_id@,
            manifest_digest: self.manifest_digest@,
            request_fingerprint: self.request_fingerprint.text@,
            command_summary: self.command_summary,
            relative_working_dir: self.relative_working_dir@,
            timeout_millis: self.timeout_millis,
            resource_class: self.resource_class@,
            created_at_millis: self.created_at_millis,
        }
    }
}

impl Clone for JobMeta {
    fn clone(&self) -> (copy: JobMeta)
        ensures
            copy == *self,
    {
        JobMeta {
            protocol_version: self.protocol_version,
            job_id: self.job_id,
            client_id: self.client_id,
            worker_name: self.worker_name.clone(),
            project_id: self.project_id.clone(),
            worktree_id: self.worktree_id.clone(),
            manifest_digest: self.manifest_digest.clone(),
            request_fingerprint: self.request_fingerprint.clone(),
            command_summary: self.command_summary,
            relative_working_dir: self.relative_working_dir.clone(),
            timeout_millis: self.timeout_millis,
            resource_class: self.resource_class.clone(),
            created_at_millis: self.created_at_millis,
        }
    }
}

impl JobMeta {
    /// Whether two records say the same.
    pub fn same(&self, other: &JobMeta) -> (same: bool)
        ensures
            same == (self@ == other@),
    {
        self.protocol_version == other.protocol_version
            && self.job_id == other.job_id
            && self.client_id == other.client_id
            && text_eq(self.worker_name.as_str(), other.worker_name.as_str())
            && text_eq(self.project_id.as_str(), other.project_id.as_str())
            && text_eq(self.worktree_id.as_str(), other.worktree_id.as_str())
            && text_eq(self.manifest_digest.as_str(), other.manifest_digest.as_str())
            && self.request_fingerprint.same(&other.request_fingerprint)
            && self.command_summary == other.command_summary
            && text_eq(self.relative_working_dir.as_str(), other.relative_working_dir.as_str())
            && self.timeout_millis == other.timeout_millis
            && text_eq(self.resource_class.as_str(), other.resource_class.as_str())
            && self.created_at_millis == other.created_at_millis
    }
}

impl MaterialModel {
    /// The facts of a job that this material asks for.
    pub open spec fn meta(self, fingerprint: Seq<char>) -> MetaModel {
        MetaModel {
            protocol_version: PROTOCOL_VERSION,
            job_id: self.job_id,
            client_id: self.client_id,
            worker_name: self.worker_name,
            project_id: self.project_id,
            worktree_id: self.worktree_id,
            manifest_digest: self.manifest_digest,
            request_fingerprint: fingerprint,
            command_summary: self.command.summarized(),
            relative_working_dir: self.relative_working_dir,
            timeout_millis: self.timeout_millis,
            resource_class: self.resource_class,
            created_at_millis: self.created_at_millis,
        }
    }

    /// The lease that this material is granted.
    pub open spec fn lease(self, fingerprint: Seq<char>, created: u64, expires: u64) -> LeaseModel {
        LeaseModel {
            job_id: self.job_id,
            client_id: self.client_id,
            lease_token: self.lease_token,
            request_fingerprint: fingerprint,
            worker_name: self.worker_name,
            project_id: self.project_id,
            worktree_id: self.worktree_id,
            manifest_digest: self.manifest_digest,
            timeout_millis: self.timeout_millis,
            resource_class: self.resource_class,
            command_summary: self.command.summarized(),
            created_at_millis: created,
            expires_at_millis: expires,
        }
    }
}

impl MetaModel {
    pub open spec fn fault(self) -> Option<Seq<char>> {
        earliest(
            fault_if(
                self.protocol_version != PROTOCOL_VERSION,
                "job metadata has an incompatible protocol version"@,
            ),
            earliest(
                hex_fault(self.project_id, "project ID"@),
                earliest(
                    hex_fault(self.worktree_id, "worktree ID"@),
                    earliest(
                        hex_fault(self.manifest_digest, "manifest digest"@),
                        earliest(
                            non_nul_fault(self.worker_name, 128, "worker name"@),
                            earliest(
                                fault_if(
                                    !working_dir_ok(self.relative_working_dir),
                                    "job metadata relative working directory is invalid"@,
                                ),
                                earliest(
                                    non_nul_fault(self.resource_class, 64, "resource class"@),
                                    earliest(
                                        self.command_summary.fault(),
                                        fault_if(
                                            !timeout_ok(self.timeout_millis),
                                            "job metadata timeout is outside the supported range"@,
                                        ),
                                    ),
                                ),
                            ),
                        ),
                    ),
                ),
            ),
        )
    }

    pub open spec fn resolution(self, lease_token: LeaseToken) -> ResolutionModel {
        ResolutionModel {
            protocol_version: PROTOCOL_VERSION,
            job_id: self.job_id,
            client_id: self.client_id,
            lease_token,
            created_at_millis: self.created_at_millis,
            request_fingerprint: self.request_fingerprint,
            worker_name: self.worker_name,
            project_id: self.project_id,
            worktree_id: self.worktree_id,
            manifest_digest: self.manifest_digest,
            relative_working_dir: self.relative_working_dir,
            timeout_millis: self.timeout_millis,
            resource_class: self.resource_class,
            command_summary: self.command_summary,
        }
    }
}

impl JobMeta {
    pub fn new(
        material: &RequestFingerprintMaterial,
        request_fingerprint: RequestFingerprint,
    ) -> (result: Result<JobMeta, WorkerError>)
        requires
            material@.valid(),
        ensures
            outcome_of(
                result,
                fault_if(
                    material@.digest() != request_fingerprint.text@,
                    "job metadata fingerprint does not match its material"@,
                ),
            ),
            result matches Ok(meta) ==> meta@ == material@.meta(request_fingerprint.text@)
                && meta@.fault() is None,
    {
        if !material.fingerprint().same(&request_fingerprint) {
            return Err(protocol_error("job metadata fingerprint does not match its material"));
        }
        let command_summary = material.command.summary()?;
        let meta = JobMeta {
            protocol_version: PROTOCOL_VERSION,
            job_id: material.job_id,
            client_id: material.client_id,
            worker_name: material.worker_name.clone(),
            project_id: material.project_id.clone(),
            worktree_id: material.worktree_id.clone(),
            manifest_digest: material.manifest_digest.clone(),
            request_fingerprint,
            command_summary,
            relative_working_dir: material.relative_working_dir.clone(),
            timeout_millis: material.timeout_millis,
            resource_class: material.resource_class.clone(),
            created_at_millis: material.created_at_millis,
        };
        meta.validate()?;
        Ok(meta)
    }

    pub fn validate(&self) -> (result: Result<(), WorkerError>)
        ensures
            outcome_of(result, self@.fault()),
    {
        if self.protocol_version != PROTOCOL_VERSION {
            return Err(protocol_error("job metadata has an incompatible protocol version"));
        }
        validate_hex_component(self.project_id.as_str(), "project ID")?;
        validate_hex_component(self.worktree_id.as_str(), "worktree ID")?;
        validate_hex_component(self.manifest_digest.as_str(), "manifest digest")?;
        validate_non_nul(self.worker_name.as_str(), 128, "worker name")?;
        if !is_working_dir(self.relative_working_dir.as_str()) {
            return Err(protocol_error("job metadata relative working directory is invalid"));
        }
        validate_non_nul(self.resource_class.as_str(), 64, "resource class")?;
        self.command_summary.validate()?;
        if self.timeout_millis == 0 || self.timeout_millis > MAX_TIMEOUT_MILLIS {
            return Err(protocol_error("job metadata timeout is outside the supported range"));
        }
        Ok(())
    }

    pub fn job_id(&self) -> (value: JobId)
        ensures
            value == self.job_id,
    {
        self.job_id
    }

    pub fn client_id(&self) -> (value: ClientId)
        ensures
            value == self.client_id,
    {
        self.client_id
    }

    pub fn request_fingerprint(&self) -> (value: &RequestFingerprint)
        ensures
            *value == self.request_fingerprint,
    {
        &self.request_fingerprint
    }

    pub fn command_summary(&self) -> (value: &CommandSummary)
        ensures
            *value == self.command_summary,
    {
        &self.command_summary
    }

    pub fn created_at_millis(&self) -> (value: u64)
        ensures
            value == self.created_at_millis,
    {
        self.created_at_millis
    }

    pub fn worker_name(&self) -> (value: &str)
        ensures
            value@ == self.worker_name@,
    {
        self.worker_name.as_str()
    }

    pub fn project_id(&self) -> (value: &str)
        ensures
            value@ == self.project_id@,
    {
        self.project_id.as_str()
    }

    pub fn worktree_id(&self) -> (value: &str)
        ensures
            value@ == self.worktree_id@,
    {
        self.worktree_id.as_str()
    }

    pub fn manifest_digest(&self) -> (value: &str)
        ensures
            value@ == self.manifest_digest@,
    {
        self.manifest_digest.as_str()
    }

    pub fn relative_working_dir(&self) -> (value: &str)
        ensures
            value@ == self.relative_working_dir@,
    {
        self.relative_working_dir.as_str()
    }

    pub fn timeout_millis(&self) -> (value: u64)
        ensures
            value == self.timeout_millis,
    {
        self.timeout_millis
    }

    pub fn resource_class(&self) -> (value: &str)
        ensures
            value@ == self.resource_class@,
    {
        self.resource_class.as_str()
    }

}

/// What a laptop does not know of its job's host.
#[derive(Debug, PartialEq, Eq)]
pub enum RemoteUncertainty {
    Certain,
    UnknownRemote { code: String },
    CleanupPending { code: String },
}

impl RemoteUncertainty {
    pub open spec fn reason(&self) -> Option<Seq<char>> {
        match self {
            RemoteUncertainty::Certain => None,
            RemoteUncertainty::UnknownRemote { code } => Some(code@),
            RemoteUncertainty::CleanupPending { code } => Some(code@),
        }
    }

    pub open spec fn fault(&self) -> Option<Seq<char>> {
        match self.reason() {
            None => None,
            Some(code) => control_code_fault(code, "remote uncertainty code"@),
        }
    }

    pub fn unknown_remote(code: String) -> (result: Result<RemoteUncertainty, WorkerError>)
        ensures
            outcome_of(result, control_code_fault(code@, "remote uncertainty code"@)),
            result matches Ok(made) ==> made == (RemoteUncertainty::UnknownRemote { code }),
    {
        let uncertainty = RemoteUncertainty::UnknownRemote { code };
        uncertainty.validate()?;
        Ok(uncertainty)
    }

    pub fn cleanup_pending(code: String) -> (result: Result<RemoteUncertainty, WorkerError>)
        ensures
            outcome_of(result, control_code_fault(code@, "remote uncertainty code"@)),
            result matches Ok(made) ==> made == (RemoteUncertainty::CleanupPending { code }),
    {
        let uncertainty = RemoteUncertainty::CleanupPending { code };
        uncertainty.validate()?;
        Ok(uncertainty)
    }

    pub fn validate(&self) -> (result: Result<(), WorkerError>)
        ensures
            outcome_of(result, self.fault()),
    {
        match self {
            RemoteUncertainty::Certain => Ok(()),
            RemoteUncertainty::UnknownRemote { code } => validate_control_code(
                code.as_str(),
                "remote uncertainty code",
            ),
            RemoteUncertainty::CleanupPending { code } => validate_control_code(
                code.as_str(),
                "remote uncertainty code",
            ),
        }
    }

    pub fn code(&self) -> (code: Option<&str>)
        ensures
            (match code {
                Some(text) => Some(text@),
                None => None,
            }) == self.reason(),
    {
        match self {
            RemoteUncertainty::Certain => None,
            RemoteUncertainty::UnknownRemote { code } => Some(code.as_str()),
            RemoteUncertainty::CleanupPending { code } => Some(code.as_str()),
        }
    }
}

/// A laptop's record of a job that it submitted.
#[derive(PartialEq, Eq)]
pub struct LocalJobRecord {
    pub meta: JobMeta,
    pub lease_token: LeaseToken,
    pub last_status: Option<JobStatus>,
    pub remote_uncertainty: RemoteUncertainty,
}

impl LocalJobRecord {
    pub open spec fn fault(&self) -> Option<Seq<char>> {
        earliest(
            self.meta@.fault(),
            earliest(
                match self.last_status {
                    Some(status) => status@.fault(),
                    None => None,
                },
                self.remote_uncertainty.fault(),
            ),
        )
    }

    pub fn new(
        meta: JobMeta,
        lease_token: LeaseToken,
        last_status: Option<JobStatus>,
        remote_uncertainty: RemoteUncertainty,
    ) -> (result: Result<LocalJobRecord, WorkerError>)
        ensures
            ({
                let record = LocalJobRecord { meta, lease_token, last_status, remote_uncertainty };
                &&& outcome_of(result, record.fault())
                &&& result matches Ok(made) ==> made == record
            }),
    {
        let record = LocalJobRecord { meta, lease_token, last_status, remote_uncertainty };
        record.validate()?;
        Ok(record)
    }

    pub fn validate(&self) -> (result: Result<(), WorkerError>)
        ensures
            outcome_of(result, self.fault()),
    {
        self.meta.validate()?;
        if let Some(status) = &self.last_status {
            status.validate()?;
        }
        self.remote_uncertainty.validate()
    }

    pub fn meta(&self) -> (value: &JobMeta)
        ensures
            *value == self.meta,
    {
        &self.meta
    }

    pub fn lease_token(&self) -> (value: LeaseToken)
        ensures
            value == self.lease_token,
    {
        self.lease_token
    }

    pub fn last_status(&self) -> (value: Option<&JobStatus>)
        ensures
            (match value { Some(held) => Some(*held), None => None::<JobStatus> }) == self.last_status,
    {
        self.last_status.as_ref()
    }

    pub fn remote_uncertainty(&self) -> (value: &RemoteUncertainty)
        ensures
            *value == self.remote_uncertainty,
    {
        &self.remote_uncertainty
    }

}

/// A slot that a host holds for one request until it expires or is released.
#[derive(PartialEq, Eq)]
pub struct LeaseRecord {
    pub job_id: JobId,
    pub client_id: ClientId,
    pub lease_token: LeaseToken,
    pub request_fingerprint: RequestFingerprint,
    pub worker_name: String,
    pub project_id: String,
    pub worktree_id: String,
    pub manifest_digest: String,
    pub timeout_millis: u64,
    pub resource_class: String,
    pub command_summary: CommandSummary,
    pub created_at_millis: u64,
    pub expires_at_millis: u64,
}

/// What a [`LeaseRecord`] says.
pub struct LeaseModel {
    pub job_id: JobId,
    pub client_id: ClientId,
    pub lease_token: LeaseToken,
    pub request_fingerprint: Seq<char>,
    pub worker_name: Seq<char>,
    pub project_id: Seq<char>,
    pub worktree_id: Seq<char>,
    pub manifest_digest: Seq<char>,
    pub timeout_millis: u64,
    pub resource_class: Seq<char>,
    pub command_summary: CommandSummary,
    pub created_at_millis: u64,
    pub expires_at_millis: u64,
}

impl View for LeaseRecord {
    type V = LeaseModel;

    open spec fn view(&self) -> LeaseModel {
        LeaseModel {
            job_id: self.job_id,
            client_id: self.client_id,
            lease_token: self.lease_token,
            request_fingerprint: self.request_fingerprint.text@,
            worker_name: self.worker_name@,
            project_id: self.project_id@,
            worktree_id: self.worktree_id@,
            manifest_digest: self.manifest_digest@,
            timeout_millis: self.timeout_millis,
            resource_class: self.resource_class@,
            command_summary: self.command_summary,
            created_at_millis: self.created_at_millis,
            expires_at_millis: self.expires_at_millis,
        }
    }
}

impl Clone for LeaseRecord {
    fn clone(&self) -> (copy: LeaseRecord)
        ensures
            copy == *self,
    {
        LeaseRecord {
            job_id: self.job_id,
            client_id: self.client_id,
            lease_token: self.lease_token,
            request_fingerprint: self.request_fingerprint.clone(),
            worker_name: self.worker_name.clone(),
            project_id: self.project_id.clone(),
            worktree_id: self.worktree_id.clone(),
            manifest_digest: self.manifest_digest.clone(),
            timeout_millis: self.timeout_millis,
            resource_class: self.resource_class.clone(),
            command_summary: self.command_summary,
            created_at_millis: self.created_at_millis,
            expires_at_millis: self.expires_at_millis,
        }
    }
}

impl LeaseRecord {
    /// Whether two records say the same.
    pub fn same(&self, other: &LeaseRecord) -> (same: bool)
        ensures
            same == (self@ == other@),
    {
        self.job_id == other.job_id
            && self.client_id == other.client_id
            && self.lease_token == other.lease_token
            && self.request_fingerprint.same(&other.request_fingerprint)
            && text_eq(self.worker_name.as_str(), other.worker_name.as_str())
            && text_eq(self.project_id.as_str(), other.project_id.as_str())
            && text_eq(self.worktree_id.as_str(), other.worktree_id.as_str())
            && text_eq(self.manifest_digest.as_str(), other.manifest_digest.as_str())
            && self.timeout_millis == other.timeout_millis
            && text_eq(self.resource_class.as_str(), other.resource_class.as_str())
            && self.command_summary == other.command_summary
            && self.created_at_millis == other.created_at_millis
            && self.expires_at_millis == other.expires_at_millis
    }
}

impl LeaseModel {
    pub open spec fn fault(self) -> Option<Seq<char>> {
        earliest(
            hex_fault(self.project_id, "project ID"@),
            earliest(
                hex_fault(self.worktree_id, "worktree ID"@),
                earliest(
                    hex_fault(self.manifest_digest, "manifest digest"@),
                    earliest(
                        non_nul_fault(self.worker_name, 128, "worker name"@),
                        earliest(
                            non_nul_fault(self.resource_class, 64, "resource class"@),
                            earliest(
                                self.command_summary.fault(),
                                fault_if(
                                    !timeout_ok(self.timeout_millis) || self.expires_at_millis
                                        < self.created_at_millis,
                                    "lease record timestamps or timeout are invalid"@,
                                ),
                            ),
                        ),
                    ),
                ),
            ),
        )
    }
}

impl LeaseRecord {
    pub fn new(
        material: &RequestFingerprintMaterial,
        request_fingerprint: RequestFingerprint,
        created_at_millis: u64,
        expires_at_millis: u64,
    ) -> (result: Result<LeaseRecord, WorkerError>)
        requires
            material@.valid(),
        ensures
            outcome_of(
                result,
                earliest(
                    fault_if(
                        material@.digest() != request_fingerprint.text@,
                        "lease fingerprint does not match its material"@,
                    ),
                    fault_if(
                        expires_at_millis < created_at_millis,
                        "lease record timestamps or timeout are invalid"@,
                    ),
                ),
            ),
            result matches Ok(lease) ==> lease@ == material@.lease(
                request_fingerprint.text@,
                created_at_millis,
                expires_at_millis,
            ) && lease@.fault() is None,
    {
        if !material.fingerprint().same(&request_fingerprint) {
            return Err(protocol_error("lease fingerprint does not match its material"));
        }
        let command_summary = material.command.summary()?;
        let lease = LeaseRecord {
            job_id: material.job_id,
            client_id: material.client_id,
            lease_token: material.lease_token,
            request_fingerprint,
            worker_name: material.worker_name.clone(),
            project_id: material.project_id.clone(),
            worktree_id: material.worktree_id.clone(),
            manifest_digest: material.manifest_digest.clone(),
            timeout_millis: material.timeout_millis,
            resource_class: material.resource_class.clone(),
            command_summary,
            created_at_millis,
            expires_at_millis,
        };
        lease.validate()?;
        Ok(lease)
    }

    pub fn validate(&self) -> (result: Result<(), WorkerError>)
        ensures
            outcome_of(result, self@.fault()),
    {
        validate_hex_component(self.project_id.as_str(), "project ID")?;
        validate_hex_component(self.worktree_id.as_str(), "worktree ID")?;
        validate_hex_component(self.manifest_digest.as_str(), "manifest digest")?;
        validate_non_nul(self.worker_name.as_str(), 128, "worker name")?;
        validate_non_nul(self.resource_class.as_str(), 64, "resource class")?;
        self.command_summary.validate()?;
        if self.timeout_millis == 0 || self.timeout_millis > MAX_TIMEOUT_MILLIS
            || self.expires_at_millis < self.created_at_millis {
            return Err(protocol_error("lease record timestamps or timeout are invalid"));
        }
        Ok(())
    }

    pub fn job_id(&self) -> (value: JobId)
        ensures
            value == self.job_id,
    {
        self.job_id
    }

    pub fn client_id(&self) -> (value: ClientId)
        ensures
            value == self.client_id,
    {
        self.client_id
    }

    pub fn lease_token(&self) -> (value: LeaseToken)
        ensures
            value == self.lease_token,
    {
        self.lease_token
    }

    pub fn request_fingerprint(&self) -> (value: &RequestFingerprint)
        ensures
            *value == self.request_fingerprint,
    {
        &self.request_fingerprint
    }

    pub fn worker_name(&self) -> (value: &str)
        ensures
            value@ == self.worker_name@,
    {
        self.worker_name.as_str()
    }

    pub fn project_id(&self) -> (value: &str)
        ensures
            value@ == self.project_id@,
    {
        self.project_id.as_str()
    }

    pub fn worktree_id(&self) -> (value: &str)
        ensures
            value@ == self.worktree_id@,
    {
        self.worktree_id.as_str()
    }

    pub fn manifest_digest(&self) -> (value: &str)
        ensures
            value@ == self.manifest_digest@,
    {
        self.manifest_digest.as_str()
    }

    pub fn timeout_millis(&self) -> (value: u64)
        ensures
            value == self.timeout_millis,
    {
        self.timeout_millis
    }

    pub fn resource_class(&self) -> (value: &str)
        ensures
            value@ == self.resource_class@,
    {
        self.resource_class.as_str()
    }

    pub fn command_summary(&self) -> (value: &CommandSummary)
        ensures
            *value == self.command_summary,
    {
        &self.command_summary
    }

    pub fn created_at_millis(&self) -> (value: u64)
        ensures
            value == self.created_at_millis,
    {
        self.created_at_millis
    }

    pub fn expires_at_millis(&self) -> (value: u64)
        ensures
            value == self.expires_at_millis,
    {
        self.expires_at_millis
    }

}

/// A host's answer to a request for a slot.
#[derive(PartialEq, Eq)]
pub enum LeaseAcquireResponse {
    Acquired { lease: LeaseRecord },
    ExistingAccepted { status: JobStatus },
}

impl LeaseAcquireResponse {
    pub open spec fn fault(&self) -> Option<Seq<char>> {
        match self {
            LeaseAcquireResponse::Acquired { lease } => lease@.fault(),
            LeaseAcquireResponse::ExistingAccepted { status } => status@.fault(),
        }
    }

    pub fn validate(&self) -> (result: Result<(), WorkerError>)
        ensures
            outcome_of(result, self.fault()),
    {
        match self {
            LeaseAcquireResponse::Acquired { lease } => lease.validate(),
            LeaseAcquireResponse::ExistingAccepted { status } => status.validate(),
        }
    }
}

} // verus!
