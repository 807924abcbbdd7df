//! Requests and records: which are accepted, and that they say everything.
use vstd::prelude::*;
use crate::host_store::IndexedIdentity;
use crate::job::command::{CommandModel, CommandSummary, CommandSummaryMode};
use crate::job::record::{
    JobMeta, LeaseModel, LeaseRecord, LocalJobRecord, MetaModel, RemoteUncertainty,
};
use crate::job::request::{
    BoundRequestModel, LeaseAcquireRequest, MaterialModel, RequestFingerprintMaterial,
    ResolutionModel, ResolveOrAbandonRequest, SubmitRequest,
};
use crate::laws::names::{
    bounded_text, capital_letter, code_bytes, codes_are_accepted, commands_are_accepted,
    free_of_nul, hashed_names_are_accepted, hex_bytes, made_of, plain_texts_are_accepted,
};
use crate::laws::status::{coherent, coherent_statuses_are_accepted};
use crate::text::utf8;

verus! {

/// Sixty-four lowercase hexadecimal digits.
pub open spec fn hashed(text: Seq<char>) -> bool {
    utf8(text).len() == 64 && made_of(text, hex_bytes())
}

/// Who works for what: the worker, the project and its worktree, the snapshot,
/// the class of the work and how long it may take.
pub open spec fn names_work(
    worker: Seq<char>,
    project: Seq<char>,
    worktree: Seq<char>,
    snapshot: Seq<char>,
    class: Seq<char>,
    timeout_millis: u64,
) -> bool {
    &&& bounded_text(worker, 128) && free_of_nul(worker)
    &&& hashed(project)
    &&& hashed(worktree)
    &&& hashed(snapshot)
    &&& bounded_text(class, 64) && free_of_nul(class)
    &&& 1 <= timeout_millis <= 86400000
}

/// A directory to start in; it may be the workspace itself.
pub open spec fn startable(dir: Seq<char>) -> bool {
    utf8(dir).len() <= 131072 && free_of_nul(dir)
}

/// A summary of 1 to 256 arguments, or of a shell line.
pub open spec fn summarizes(summary: CommandSummary) -> bool {
    match summary.mode {
        CommandSummaryMode::Argv => summary.arg_count matches Some(count) && 1 <= count <= 256,
        CommandSummaryMode::Shell => summary.arg_count is None,
    }
}

/// A job's facts are accepted exactly where they name the work, in this version
/// of the protocol, with a summary of the command.
pub proof fn job_facts_are_accepted(meta: MetaModel)
    ensures
        meta.fault() is None <==> {
            &&& meta.protocol_version == 1
            &&& names_work(
                meta.worker_name,
                meta.project_id,
                meta.worktree_id,
                meta.manifest_digest,
                meta.resource_class,
                meta.timeout_millis,
            )
            &&& startable(meta.relative_working_dir)
            &&& summarizes(meta.command_summary)
        },
{
    hashed_names_are_accepted(meta.project_id, "project ID"@);
    hashed_names_are_accepted(meta.worktree_id, "worktree ID"@);
    hashed_names_are_accepted(meta.manifest_digest, "manifest digest"@);
    plain_texts_are_accepted(meta.worker_name, 128, "worker name"@);
    plain_texts_are_accepted(meta.resource_class, 64, "resource class"@);
}

/// A lease is accepted exactly where it names the work and does not end before
/// it begins.
pub proof fn leases_are_accepted(lease: LeaseModel)
    ensures
        lease.fault() is None <==> {
            &&& names_work(
                lease.worker_name,
                lease.project_id,
                lease.worktree_id,
                lease.manifest_digest,
                lease.resource_class,
                lease.timeout_millis,
            )
            &&& summarizes(lease.command_summary)
            &&& lease.created_at_millis <= lease.expires_at_millis
        },
{
    hashed_names_are_accepted(lease.project_id, "project ID"@);
    hashed_names_are_accepted(lease.worktree_id, "worktree ID"@);
    hashed_names_are_accepted(lease.manifest_digest, "manifest digest"@);
    plain_texts_are_accepted(lease.worker_name, 128, "worker name"@);
    plain_texts_are_accepted(lease.resource_class, 64, "resource class"@);
}

/// The material of a request is accepted exactly where it names the work, in
/// this version of the protocol, with a command that can be run.
pub proof fn materials_are_accepted(material: MaterialModel)
    ensures
        material.fault() is None <==> {
            &&& material.protocol_version == 1
            &&& names_work(
                material.worker_name,
                material.project_id,
                material.worktree_id,
                material.manifest_digest,
                material.resource_class,
                material.timeout_millis,
            )
            &&& startable(material.relative_working_dir)
            &&& material.command.fault() is None
        },
        material.valid() <==> material.fault() is None,
{
    hashed_names_are_accepted(material.project_id, "project ID"@);
    hashed_names_are_accepted(material.worktree_id, "worktree ID"@);
    hashed_names_are_accepted(material.manifest_digest, "manifest digest"@);
    plain_texts_are_accepted(material.worker_name, 128, "worker name"@);
    plain_texts_are_accepted(material.resource_class, 64, "resource class"@);
}

/// A request to settle a job is accepted exactly where it names the work.
pub proof fn resolutions_are_accepted(request: ResolutionModel)
    ensures
        request.fault() is None <==> {
            &&& request.protocol_version == 1
            &&& names_work(
                request.worker_name,
                request.project_id,
                request.worktree_id,
                request.manifest_digest,
                request.resource_class,
                request.timeout_millis,
            )
            &&& startable(request.relative_working_dir)
            &&& summarizes(request.command_summary)
        },
{
    hashed_names_are_accepted(request.project_id, "project ID"@);
    hashed_names_are_accepted(request.worktree_id, "worktree ID"@);
    hashed_names_are_accepted(request.manifest_digest, "manifest digest"@);
    plain_texts_are_accepted(request.worker_name, 128, "worker name"@);
    plain_texts_are_accepted(request.resource_class, 64, "resource class"@);
}

/// A request binds its material where it carries the digest of it.
pub proof fn bound_requests_carry_their_digest(request: BoundRequestModel)
    ensures
        request.fault() is None <==> request.material.fault() is None
            && request.request_fingerprint == request.material.digest(),
{
}

/// The facts of a job, its lease and the request to settle it repeat what the
/// material says, field by field.
pub proof fn records_repeat_the_request(
    request: BoundRequestModel,
    created: u64,
    expires: u64,
)
    requires
        request.fault() is None,
    ensures
        ({
            let material = request.material;
            let meta = material.meta(request.request_fingerprint);
            let lease = material.lease(request.request_fingerprint, created, expires);
            let settled = request.resolution();
            &&& meta.protocol_version == 1
            &&& meta.job_id == material.job_id
            &&& meta.client_id == material.client_id
            &&& meta.worker_name == material.worker_name
            &&& meta.project_id == material.project_id
            &&& meta.worktree_id == material.worktree_id
            &&& meta.manifest_digest == material.manifest_digest
            &&& meta.request_fingerprint == request.request_fingerprint
            &&& meta.relative_working_dir == material.relative_working_dir
            &&& meta.timeout_millis == material.timeout_millis
            &&& meta.resource_class == material.resource_class
            &&& meta.created_at_millis == material.created_at_millis
            &&& lease.job_id == material.job_id
            &&& lease.client_id == material.client_id
            &&& lease.lease_token == material.lease_token
            &&& lease.worker_name == material.worker_name
            &&& lease.project_id == material.project_id
            &&& lease.worktree_id == material.worktree_id
            &&& lease.manifest_digest == material.manifest_digest
            &&& lease.request_fingerprint == request.request_fingerprint
            &&& lease.timeout_millis == material.timeout_millis
            &&& lease.resource_class == material.resource_class
            &&& lease.created_at_millis == created
            &&& lease.expires_at_millis == expires
            &&& settled.protocol_version == 1
            &&& settled.job_id == material.job_id
            &&& settled.client_id == material.client_id
            &&& settled.lease_token == material.lease_token
            &&& settled.created_at_millis == material.created_at_millis
            &&& settled.request_fingerprint == request.request_fingerprint
            &&& settled.worker_name == material.worker_name
            &&& settled.project_id == material.project_id
            &&& settled.worktree_id == material.worktree_id
            &&& settled.manifest_digest == material.manifest_digest
            &&& settled.relative_working_dir == material.relative_working_dir
            &&& settled.timeout_millis == material.timeout_millis
            &&& settled.resource_class == material.resource_class
            &&& meta.command_summary == lease.command_summary
            &&& meta.command_summary == settled.command_summary
            &&& summarizes(meta.command_summary)
            &&& match material.command {
                CommandModel::Argv { argv } => meta.command_summary.mode
                    == CommandSummaryMode::Argv && meta.command_summary.arg_count == Some(
                    argv.len() as usize,
                ),
                CommandModel::Shell { .. } => meta.command_summary.mode
                    == CommandSummaryMode::Shell,
            }
            &&& meta.fault() is None
            &&& settled.fault() is None
            &&& lease.fault() is None <==> created <= expires
        }),
{
    materials_are_accepted(request.material);
    job_facts_are_accepted(request.material.meta(request.request_fingerprint));
    leases_are_accepted(request.material.lease(request.request_fingerprint, created, expires));
    resolutions_are_accepted(request.resolution());
    commands_are_accepted(request.material.command);
    crate::laws::names::argument_bytes_add_up(Seq::empty(), Seq::empty());
}

/// A laptop's record is accepted exactly where its facts are, its status is
/// coherent, and a doubt about the host has a stable code.
pub proof fn local_records_are_accepted(record: LocalJobRecord)
    ensures
        record.fault() is None <==> {
            &&& record.meta@.fault() is None
            &&& record.last_status matches Some(status) ==> coherent(status@)
            &&& match record.remote_uncertainty {
                RemoteUncertainty::Certain => true,
                RemoteUncertainty::UnknownRemote { code }
                | RemoteUncertainty::CleanupPending { code } => bounded_text(code@, 128)
                    && made_of(code@, code_bytes()) && capital_letter(utf8(code@)[0]),
            }
        },
        record.remote_uncertainty.reason() is None <==> record.remote_uncertainty is Certain,
{
    if let Some(status) = record.last_status {
        coherent_statuses_are_accepted(status@);
    }
    if let Some(code) = record.remote_uncertainty.reason() {
        codes_are_accepted(code, "remote uncertainty code"@);
    }
}

/// What a job's facts say tells each of them.
pub proof fn job_facts_say_everything(left: JobMeta, right: JobMeta)
    requires
        left@ == right@,
    ensures
        left.protocol_version == right.protocol_version,
        left.job_id == right.job_id,
        left.client_id == right.client_id,
        left.worker_name@ == right.worker_name@,
        left.project_id@ == right.project_id@,
        left.worktree_id@ == right.worktree_id@,
        left.manifest_digest@ == right.manifest_digest@,
        left.request_fingerprint.text@ == right.request_fingerprint.text@,
        left.command_summary == right.command_summary,
        left.relative_working_dir@ == right.relative_working_dir@,
        left.timeout_millis == right.timeout_millis,
        left.resource_class@ == right.resource_class@,
        left.created_at_millis == right.created_at_millis,
{
}

/// What a lease says tells each of its fields.
pub proof fn leases_say_everything(left: LeaseRecord, right: LeaseRecord)
    requires
        left@ == right@,
    ensures
        left.job_id == right.job_id,
        left.client_id == right.client_id,
        left.lease_token == right.lease_token,
        left.request_fingerprint.text@ == right.request_fingerprint.text@,
        left.worker_name@ == right.worker_name@,
        left.project_id@ == right.project_id@,
        left.worktree_id@ == right.worktree_id@,
        left.manifest_digest@ == right.manifest_digest@,
        left.timeout_millis == right.timeout_millis,
        left.resource_class@ == right.resource_class@,
        left.command_summary == right.command_summary,
        left.created_at_millis == right.created_at_millis,
        left.expires_at_millis == right.expires_at_millis,
{
}

/// What the material of a request says tells each of its fields.
pub proof fn materials_say_everything(
    left: RequestFingerprintMaterial,
    right: RequestFingerprintMaterial,
)
    requires
        left@ == right@,
    ensures
        left.protocol_version == right.protocol_version,
        left.job_id == right.job_id,
        left.client_id == right.client_id,
        left.lease_token == right.lease_token,
        left.created_at_millis == right.created_at_millis,
        left.worker_name@ == right.worker_name@,
        left.project_id@ == right.project_id@,
        left.worktree_id@ == right.worktree_id@,
        left.manifest_digest@ == right.manifest_digest@,
        left.relative_working_dir@ == right.relative_working_dir@,
        left.timeout_millis == right.timeout_millis,
        left.resource_class@ == right.resource_class@,
        left.command@ == right.command@,
{
}

/// What the requests that bind a material say tells the material and the
/// digest.
pub proof fn requests_say_everything(
    left: LeaseAcquireRequest,
    right: LeaseAcquireRequest,
    submitted: SubmitRequest,
    repeated: SubmitRequest,
)
    requires
        left@ == right@,
        submitted@ == repeated@,
    ensures
        left.material@ == right.material@,
        left.request_fingerprint.text@ == right.request_fingerprint.text@,
        submitted.material@ == repeated.material@,
        submitted.request_fingerprint.text@ == repeated.request_fingerprint.text@,
        submitted@.bound().material == submitted.material@,
        submitted@.bound().request_fingerprint == submitted.request_fingerprint.text@,
{
}

/// What a request to settle a job says tells each of its fields.
pub proof fn resolutions_say_everything(
    left: ResolveOrAbandonRequest,
    right: ResolveOrAbandonRequest,
)
    requires
        left@ == right@,
    ensures
        left.protocol_version == right.protocol_version,
        left.job_id == right.job_id,
        left.client_id == right.client_id,
        left.lease_token == right.lease_token,
        left.created_at_millis == right.created_at_millis,
        left.request_fingerprint.text@ == right.request_fingerprint.text@,
        left.worker_name@ == right.worker_name@,
        left.project_id@ == right.project_id@,
        left.worktree_id@ == right.worktree_id@,
        left.manifest_digest@ == right.manifest_digest@,
        left.relative_working_dir@ == right.relative_working_dir@,
        left.timeout_millis == right.timeout_millis,
        left.resource_class@ == right.resource_class@,
        left.command_summary == right.command_summary,
{
}

/// An index entry is for a request exactly where all five names agree.
pub proof fn index_entries_name_their_request(
    entry: IndexedIdentity,
    material: RequestFingerprintMaterial,
    fingerprint: Seq<char>,
)
    ensures
        entry@.is_for(BoundRequestModel { material: material@, request_fingerprint: fingerprint })
            <==> {
            &&& entry.job_id == material.job_id
            &&& entry.client_id == material.client_id
            &&& entry.project_id@ == material.project_id@
            &&& entry.worktree_id@ == material.worktree_id@
            &&& entry.request_fingerprint.text@ == fingerprint
        },
{
}

} // verus!
