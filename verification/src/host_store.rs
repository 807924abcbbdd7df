//! What a host's store has decided about a job identity.
use vstd::prelude::*;
use crate::job::ids::{ClientId, JobId, RequestFingerprint};
use crate::job::request::{BoundRequestModel, RequestFingerprintMaterial};
use crate::job::status::JobStatus;
use crate::text::text_eq;

verus! {

/// The request that a job identity was first used for.
#[derive(Debug, PartialEq, Eq)]
pub struct IndexedIdentity {
    pub job_id: JobId,
    pub client_id: ClientId,
    pub project_id: String,
    pub worktree_id: String,
    pub request_fingerprint: RequestFingerprint,
}

/// What a [`IndexedIdentity`] says.
pub struct IndexedModel {
    pub job_id: JobId,
    pub client_id: ClientId,
    pub project_id: Seq<char>,
    pub worktree_id: Seq<char>,
    pub request_fingerprint: Seq<char>,
}

impl View for IndexedIdentity {
    type V = IndexedModel;

    open spec fn view(&self) -> IndexedModel {
        IndexedModel {
            job_id: self.job_id,
            client_id: self.client_id,
            project_id: self.project_id@,
            worktree_id: self.worktree_id@,
            request_fingerprint: self.request_fingerprint.text@,
        }
    }
}

impl Clone for IndexedIdentity {
    fn clone(&self) -> (copy: IndexedIdentity)
        ensures
            copy == *self,
    {
        IndexedIdentity {
            job_id: self.job_id,
            client_id: self.client_id,
            project_id: self.project_id.clone(),
            worktree_id: self.worktree_id.clone(),
            request_fingerprint: self.request_fingerprint.clone(),
        }
    }
}

impl IndexedIdentity {
    /// Whether two records say the same.
    pub fn same(&self, other: &IndexedIdentity) -> (same: bool)
        ensures
            same == (self@ == other@),
    {
        self.job_id == other.job_id
            && self.client_id == other.client_id
            && text_eq(self.project_id.as_str(), other.project_id.as_str())
            && text_eq(self.worktree_id.as_str(), other.worktree_id.as_str())
            && self.request_fingerprint.same(&other.request_fingerprint)
    }
}

impl IndexedModel {
    /// The identity was recorded for this client's request.
    pub open spec fn belongs_to(self, request: BoundRequestModel) -> bool {
        &&& self.client_id == request.material.client_id
        &&& self.project_id == request.material.project_id
        &&& self.worktree_id == request.material.worktree_id
        &&& self.request_fingerprint == request.request_fingerprint
    }

    /// The identity is used for exactly this request.
    pub open spec fn is_for(self, request: BoundRequestModel) -> bool {
        self.job_id == request.material.job_id && self.belongs_to(request)
    }
}

impl IndexedIdentity {
    pub fn belongs_to_request(
        &self,
        material: &RequestFingerprintMaterial,
        fingerprint: &RequestFingerprint,
    ) -> (matched: bool)
        ensures
            matched == self@.belongs_to(
                BoundRequestModel { material: material@, request_fingerprint: fingerprint.text@ },
            ),
    {
        self.client_id == material.client_id && text_eq(
            self.project_id.as_str(),
            material.project_id.as_str(),
        ) && text_eq(self.worktree_id.as_str(), material.worktree_id.as_str())
            && self.request_fingerprint.same(fingerprint)
    }

    pub fn is_for_request(
        &self,
        material: &RequestFingerprintMaterial,
        fingerprint: &RequestFingerprint,
    ) -> (matched: bool)
        ensures
            matched == self@.is_for(
                BoundRequestModel { material: material@, request_fingerprint: fingerprint.text@ },
            ),
    {
        self.job_id == material.job_id && self.belongs_to_request(material, fingerprint)
    }
}

/// Whether a job was accepted, with its first status, or given up for good.
#[derive(Debug, PartialEq, Eq)]
pub enum JobDisposition {
    Accepted { identity: IndexedIdentity, status: JobStatus },
    Abandoned { identity: IndexedIdentity },
}

} // verus!
