//! Why the remains of a job are not taken for what they seem to be.
use vstd::prelude::*;
use vstd::string::*;
use crate::job::record::{LeaseModel, MetaModel};
use crate::job::request::{ResolutionModel, SubmitModel};
use crate::job::status::{bare_status, JobState, StatusModel};
use crate::job_service::evidence::{
    all_utf8, ended_logs_fault, final_fault, has_layout, job_entries, known_entries, lists,
    lists_only, private_directory_fault, turn_entries, turn_job_fault, FinalDirectory,
    FinalEvidence, LogEvidence, PrelaunchEvidence, PrivateDirectory,
};
use crate::job_service::identity::resolution_meta_fault;
use crate::job_service::payload::{
    recorded_material, section_view, PayloadModel, TurnSection, TurnSectionModel,
};
use crate::laws::refusals::told;
use crate::outside::sha256_digest;
use crate::text::hex_text;

verus! {

/// What is told of a payload that is not the request's, the job's or the
/// resolution's; a broken request, lease or record is told first.
pub proof fn strange_payloads_are_told(
    payload: PayloadModel,
    request: SubmitModel,
    section: TurnSectionModel,
    lease: LeaseModel,
    meta: MetaModel,
    identity: ResolutionModel,
)
    ensures
        ({
            let broken = request.bound().fault();
            let code = "JOB_ID_CONFLICT"@;
            &&& broken is Some ==> payload.request_fault(request) == broken && payload.turn_fault(
                request,
                section,
            ) == broken
            &&& broken is None && (!payload.bound_to(request) || payload.turn is Some) ==> told(
                payload.request_fault(request),
                code,
                "execution payload does not match the immutable request"@,
            )
            &&& broken is None && !payload.bound_to(request) ==> told(
                payload.turn_fault(request, section),
                code,
                "execution payload does not match the immutable request"@,
            )
            &&& broken is None && payload.bound_to(request) && (payload.turn != Some(section)
                || section.digest != request.material.manifest_digest) ==> told(
                payload.turn_fault(request, section),
                code,
                "execution payload turn does not match the immutable request"@,
            )
        }),
        ({
            let material = recorded_material(payload, meta.resolution(payload.lease_token));
            let sound = lease.fault() is None && meta.fault() is None && material.fault() is None;
            let fault = payload.durable_fault(lease, meta);
            &&& lease.fault() is Some ==> fault == lease.fault()
            &&& lease.fault() is None && meta.fault() is Some ==> fault == meta.fault()
            &&& lease.fault() is None && meta.fault() is None && material.fault() is Some ==> fault
                == material.fault()
            &&& sound && !payload.is_of_job(lease, meta) ==> told(
                fault,
                "JOB_ID_CONFLICT"@,
                "execution payload does not match durable job identity"@,
            )
            &&& (sound && payload.is_of_job(lease, meta) && (payload.turn matches Some(turn) && (
            turn.project_id != meta.project_id || turn.digest != meta.manifest_digest))) ==> told(
                fault,
                "JOB_ID_CONFLICT"@,
                "execution payload turn does not match durable job metadata"@,
            )
        }),
        recorded_material(payload, identity).fault() is Some ==> payload.resolution_fault(identity)
            == recorded_material(payload, identity).fault(),
        recorded_material(payload, identity).fault() is None && !payload.is_of_resolution(identity)
            ==> told(
            payload.resolution_fault(identity),
            "JOB_ID_CONFLICT"@,
            "incomplete execution payload belongs to another immutable request"@,
        ),
{
}

/// A payload is the job's, and the resolution's, where it repeats every fact of
/// them and its request has the recorded fingerprint.
pub proof fn payloads_repeat_the_facts(
    payload: PayloadModel,
    lease: LeaseModel,
    meta: MetaModel,
    identity: ResolutionModel,
)
    ensures
        payload.is_of_job(lease, meta) <==> {
            &&& payload.version == 2
            &&& payload.job_id == lease.job_id && lease.job_id == meta.job_id
            &&& payload.client_id == lease.client_id && lease.client_id == meta.client_id
            &&& payload.lease_token == lease.lease_token
            &&& payload.request_fingerprint == lease.request_fingerprint
            &&& lease.request_fingerprint == meta.request_fingerprint
            &&& recorded_material(payload, meta.resolution(payload.lease_token)).digest()
                == meta.request_fingerprint
            &&& payload.command.summarized() == meta.command_summary
            &&& meta.command_summary == lease.command_summary
        },
        payload.is_of_resolution(identity) <==> {
            &&& payload.version == 2
            &&& payload.job_id == identity.job_id
            &&& payload.client_id == identity.client_id
            &&& payload.lease_token == identity.lease_token
            &&& payload.request_fingerprint == identity.request_fingerprint
            &&& recorded_material(payload, identity).digest() == identity.request_fingerprint
            &&& payload.command.summarized() == identity.command_summary
            &&& payload.turn is Some ==> payload.turn->0.project_id == identity.project_id
                && payload.turn->0.digest == identity.manifest_digest
        },
        section_view(None) is None,
{
}

/// Remains are looked at in this order: whether they can be opened and listed,
/// whether their names are known, their facts, and then their payload.
pub proof fn strange_remains_are_told(
    identity: ResolutionModel,
    evidence: FinalEvidence,
    canonical: Seq<u8>,
)
    ensures
        final_fault(identity, FinalDirectory::Missing, canonical) is None,
        told(
            final_fault(identity, FinalDirectory::Unsafe, canonical),
            "JOB_ID_CONFLICT"@,
            "final job evidence is unsafe"@,
        ),
        final_fault(identity, (FinalDirectory::Open { evidence }), canonical) == evidence.fault(
            identity,
            canonical,
        ),
        evidence.names is None ==> told(
            evidence.fault(identity, canonical),
            "JOB_ID_CONFLICT"@,
            "final job layout is unsafe"@,
        ),
        (evidence.names matches Some(names) && !all_utf8(names@)) ==> told(
            evidence.fault(identity, canonical),
            "JOB_ID_CONFLICT"@,
            "final job has a non-UTF-8 entry"@,
        ),
        (evidence.names matches Some(names) && all_utf8(names@) && !lists_only(
            names@,
            known_entries(),
        )) ==> told(
            evidence.fault(identity, canonical),
            "JOB_ID_CONFLICT"@,
            "final job contains unrelated evidence"@,
        ),
        (evidence.names matches Some(names) && all_utf8(names@) && lists_only(
            names@,
            known_entries(),
        ) && lists(names@, "meta.json"@) && evidence.meta is None) ==> told(
            evidence.fault(identity, canonical),
            "JOB_ID_CONFLICT"@,
            "incomplete final metadata is invalid"@,
        ),
        (evidence.names matches Some(names) && all_utf8(names@) && lists_only(
            names@,
            known_entries(),
        ) && lists(names@, "meta.json"@) && (evidence.meta matches Some(meta)
            && resolution_meta_fault(identity, meta@) is Some)) ==> evidence.fault(
            identity,
            canonical,
        ) == resolution_meta_fault(identity, evidence.meta->0@),
        (evidence.names matches Some(names) && all_utf8(names@) && lists_only(
            names@,
            known_entries(),
        ) && !lists(names@, "meta.json"@) && lists(names@, "execution.json"@) && evidence.payload
            is None) ==> told(
            evidence.fault(identity, canonical),
            "JOB_ID_CONFLICT"@,
            "incomplete execution payload is invalid"@,
        ),
{
}

/// The files of a turn are checked one by one: the prompt, the schema, the tail.
pub proof fn strange_turn_files_are_told(
    evidence: FinalEvidence,
    identity: ResolutionModel,
    section: TurnSection,
    canonical: Seq<u8>,
)
    requires
        evidence.names is Some,
        lists(evidence.names->0@, "execution.json"@),
        evidence.payload is Some,
        evidence.payload->0@.resolution_fault(identity) is None,
        evidence.payload->0.turn == Some(section),
    ensures
        ({
            let names = evidence.names->0@;
            let fault = evidence.payload_fault(identity, canonical);
            let code = "JOB_ID_CONFLICT"@;
            let prompted = !lists(names, "prompt.md"@) || (evidence.prompt is Some && hex_text(
                sha256_digest(evidence.prompt->0@),
            ) == section.prompt_sha256@);
            let formed = !lists(names, "result.schema.json"@) || (evidence.schema is Some
                && evidence.schema->0@ == canonical);
            &&& lists(names, "prompt.md"@) && evidence.prompt is None ==> told(
                fault,
                code,
                "incomplete turn prompt is unsafe"@,
            )
            &&& lists(names, "prompt.md"@) && evidence.prompt is Some && !prompted ==> told(
                fault,
                code,
                "incomplete turn prompt does not match its digest"@,
            )
            &&& prompted && lists(names, "result.schema.json"@) && evidence.schema is None ==> told(
                fault,
                code,
                "incomplete turn schema is unsafe"@,
            )
            &&& prompted && lists(names, "result.schema.json"@) && evidence.schema is Some
                && !formed ==> told(fault, code, "incomplete turn schema is not canonical"@)
            &&& prompted && formed && lists(names, "tail.log"@) && evidence.tail is Unsafe ==> told(
                fault,
                code,
                "incomplete turn tail is unsafe"@,
            )
            &&& prompted && formed && lists(names, "tail.log"@) && evidence.tail is Unbound
                ==> told(fault, code, "incomplete turn tail binding is unsafe"@)
            &&& (prompted && formed && lists(names, "tail.log"@) && (
            evidence.tail matches LogEvidence::Length { bytes } && bytes > 0)) ==> told(
                fault,
                code,
                "nonempty unindexed turn tail is possible launch evidence"@,
            )
            &&& prompted && formed && (!lists(names, "tail.log"@) || evidence.tail == (
            LogEvidence::Length { bytes: 0 })) ==> fault is None
        }),
{
}

/// A status among the remains counts only beside the facts, and only where the
/// job was not started; logs that hold something may come from a launch.
pub proof fn started_remains_are_told(evidence: FinalEvidence)
    requires
        evidence.names is Some,
    ensures
        ({
            let names = evidence.names->0@;
            let code = "JOB_ID_CONFLICT"@;
            &&& !lists(names, "status.json"@) ==> evidence.status_fault() is None
            &&& lists(names, "status.json"@) && evidence.status is None ==> told(
                evidence.status_fault(),
                code,
                "incomplete final status is invalid"@,
            )
            &&& lists(names, "status.json"@) && evidence.status is Some && !lists(
                names,
                "meta.json"@,
            ) ==> told(
                evidence.status_fault(),
                code,
                "status without exact metadata cannot prove final ownership"@,
            )
            &&& lists(names, "status.json"@) && evidence.status is Some && lists(
                names,
                "meta.json"@,
            ) && evidence.status->0@ != bare_status(
                JobState::Accepted,
                evidence.meta->0.created_at_millis,
            ) ==> told(
                evidence.status_fault(),
                code,
                "started or terminal final evidence cannot be abandoned"@,
            )
            &&& (lists(names, "home"@) && !evidence.home_safe) || (lists(names, "tmp"@)
                && !evidence.tmp_safe) || (lists(names, "workspace"@) && !evidence.workspace_safe)
                ==> told(evidence.mutable_fault(), code, "final mutable directory is unsafe"@)
            &&& told(
                evidence.log_fault(true, LogEvidence::Unsafe),
                code,
                "final log is unsafe"@,
            )
            &&& told(
                evidence.log_fault(true, LogEvidence::Unbound),
                code,
                "final log binding is unsafe"@,
            )
            &&& evidence.log_fault(true, (LogEvidence::Length { bytes: 0 })) is None
            &&& evidence.log_fault(false, LogEvidence::Unsafe) is None
        }),
{
}

/// Remains without facts and without a payload belong to nobody, and a turn's
/// files belong only to a turn's payload.
pub proof fn unowned_remains_are_told(
    evidence: FinalEvidence,
    identity: ResolutionModel,
    canonical: Seq<u8>,
)
    requires
        evidence.names is Some,
        all_utf8(evidence.names->0@),
        lists_only(evidence.names->0@, known_entries()),
        !lists(evidence.names->0@, "meta.json"@),
        !lists(evidence.names->0@, "execution.json"@),
    ensures
        ({
            let names = evidence.names->0@;
            let stray = lists(names, "last.md"@) || lists(names, "prompt.md"@) || lists(
                names,
                "result.schema.json"@,
            ) || lists(names, "tail.log"@);
            &&& stray ==> told(
                evidence.fault(identity, canonical),
                "JOB_ID_CONFLICT"@,
                "turn evidence belongs to a non-turn execution payload"@,
            )
            &&& !stray && !lists(names, "status.json"@) ==> told(
                evidence.fault(identity, canonical),
                "JOB_ID_CONFLICT"@,
                "final job has no positive immutable ownership proof"@,
            )
        }),
{
}

/// A log that holds something is told as evidence of a launch.
pub proof fn filled_logs_are_told(evidence: FinalEvidence, bytes: u64)
    requires
        bytes > 0,
    ensures
        told(
            evidence.log_fault(true, (LogEvidence::Length { bytes })),
            "JOB_ID_CONFLICT"@,
            "nonempty unindexed logs are possible launch evidence"@,
        ),
        evidence.log_fault(false, (LogEvidence::Length { bytes })) is None,
{
}

/// A job that is about to be launched has exactly its files, with empty logs;
/// what is wrong is told in this order.
pub proof fn unready_jobs_are_told(evidence: PrelaunchEvidence, request: SubmitModel, limit: u64)
    requires
        evidence.payload@.request_fault(request) is None,
    ensures
        ({
            let fault = evidence.job_fault(request, limit);
            let named = all_utf8(evidence.names@);
            let laid = has_layout(evidence.names@, job_entries());
            let quiet = evidence.stdout_bytes == 0 && evidence.stderr_bytes == 0;
            &&& !named ==> fault == Some("final job has a non-UTF-8 entry"@)
            &&& named && !laid ==> fault == Some(
                "indexed prelaunch job has an unsafe top-level layout"@,
            )
            &&& named && laid && !quiet ==> fault == Some("indexed prelaunch job log is not empty"@)
            &&& (named && laid && quiet && (evidence.supervisor_log_bytes matches Some(bytes)
                && bytes > limit)) ==> fault == Some(
                "indexed prelaunch supervisor log exceeds its bound"@,
            )
        }),
{
}

/// So has a turn, with its own prompt and the canonical form of its result.
pub proof fn unready_turns_are_told(
    evidence: PrelaunchEvidence,
    request: SubmitModel,
    section: TurnSection,
    prompt: Seq<u8>,
    schema: Seq<u8>,
    canonical: Seq<u8>,
    tail_bytes: u64,
    limit: u64,
)
    requires
        evidence.payload@.turn_fault(request, section@) is None,
    ensures
        ({
            let fault = turn_job_fault(
                evidence,
                request,
                section,
                prompt,
                schema,
                canonical,
                tail_bytes,
                limit,
            );
            let named = all_utf8(evidence.names@);
            let laid = has_layout(evidence.names@, turn_entries());
            let prompted = hex_text(sha256_digest(prompt)) == section.prompt_sha256@;
            let quiet = evidence.stdout_bytes == 0 && evidence.stderr_bytes == 0 && tail_bytes == 0;
            &&& !named ==> fault == Some("final turn has a non-UTF-8 entry"@)
            &&& named && !laid ==> fault == Some(
                "indexed prelaunch turn has an unsafe top-level layout"@,
            )
            &&& named && laid && !prompted ==> fault == Some(
                "indexed prelaunch turn prompt does not match its digest"@,
            )
            &&& named && laid && prompted && schema != canonical ==> fault == Some(
                "indexed prelaunch turn result schema is not canonical"@,
            )
            &&& named && laid && prompted && schema == canonical && !quiet ==> fault == Some(
                "indexed prelaunch turn log is not empty"@,
            )
            &&& (named && laid && prompted && schema == canonical && quiet && (
            evidence.supervisor_log_bytes matches Some(bytes) && bytes > limit)) ==> fault == Some(
                "indexed prelaunch supervisor log exceeds its bound"@,
            )
        }),
{
}

/// What is told of the logs of a job that has ended, its output first.
pub proof fn lost_logs_are_told(status: StatusModel, stderr: LogEvidence, bytes: u64)
    ensures
        told(
            ended_logs_fault(status, LogEvidence::Unsafe, stderr),
            "JOB_STATE_INVALID"@,
            "terminal log is absent or unsafe"@,
        ),
        told(
            ended_logs_fault(status, LogEvidence::Unbound, stderr),
            "JOB_STATE_INVALID"@,
            "terminal log binding is invalid"@,
        ),
        status.final_stdout_bytes != Some(bytes) ==> told(
            ended_logs_fault(status, (LogEvidence::Length { bytes }), stderr),
            "JOB_STATE_INVALID"@,
            "terminal log length does not match durable status"@,
        ),
        status.final_stdout_bytes == Some(bytes) ==> told(
            ended_logs_fault(status, (LogEvidence::Length { bytes }), LogEvidence::Unsafe),
            "JOB_STATE_INVALID"@,
            "terminal log is absent or unsafe"@,
        ),
{
}

/// A private directory that is not there, cannot be listed or holds something is
/// told apart.
pub proof fn used_directories_are_told(directory: PrivateDirectory)
    ensures
        told(
            private_directory_fault(PrivateDirectory::Unopened),
            "JOB_STATE_INVALID"@,
            "prelaunch private directory is absent or unsafe"@,
        ),
        told(
            private_directory_fault(PrivateDirectory::Unlisted),
            "JOB_STATE_INVALID"@,
            "prelaunch private directory is unsafe"@,
        ),
        (directory matches PrivateDirectory::Listed { entries } && entries > 0) ==> told(
            private_directory_fault(directory),
            "JOB_STATE_INVALID"@,
            "prelaunch private directory is not empty"@,
        ),
{
}

} // verus!
