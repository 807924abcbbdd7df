//! Payloads, what is left of a job, and how a job is settled.
use vstd::prelude::*;
use crate::host_store::{IndexedIdentity, JobDisposition};
use crate::job::record::{JobMeta, LeaseRecord};
use crate::job::request::{ResolveOrAbandonRequest, SubmitRequest};
use crate::job::status::{bare_status, JobState, JobStatus};
use crate::job_service::evidence::{
    ended_logs_fault, has_layout, job_entries, known_entries, lists, lists_exactly, lists_only,
    private_directory_fault, repairable, turn_entries, turn_job_fault, FinalDirectory,
    FinalEvidence, LogEvidence, PrelaunchEvidence, PrivateDirectory, RepairEvidence,
    ResolutionFinal,
};
use crate::job_service::identity::{
    exact_meta_fault, indexed_for, leased_for, resolution_meta_fault,
};
use crate::job_service::payload::{recorded_material, ExecutionPayload, TurnSection};
use crate::job_service::resolve::{
    resolution_fault, resolution_step, ResolutionEvidence, ResolutionStep,
};
use crate::laws::status::{
    coherent, coherent_statuses_are_accepted, statuses_name_their_processes,
};
use crate::outside::sha256_digest;
use crate::text::hex_text;

verus! {

/// A payload belongs to a request exactly where it repeats it, in the second
/// version of payloads; and it is of a turn exactly where it carries the turn's
/// section and the snapshot is the turn's.
pub proof fn payloads_repeat_the_request(
    payload: ExecutionPayload,
    request: SubmitRequest,
    section: TurnSection,
)
    ensures
        payload@.bound_to(request@) <==> {
            &&& payload.version == 2
            &&& payload.job_id == request.material.job_id
            &&& payload.client_id == request.material.client_id
            &&& payload.request_fingerprint.text@ == request.request_fingerprint.text@
            &&& payload.lease_token == request.material.lease_token
            &&& payload.command@ == request.material.command@
        },
        payload@.request_fault(request@) is None <==> request@.bound().fault() is None
            && payload@.bound_to(request@) && payload.turn is None,
        payload@.turn_fault(request@, section@) is None <==> {
            &&& request@.bound().fault() is None
            &&& payload@.bound_to(request@)
            &&& payload.turn matches Some(held) && held.task_id == section.task_id
                && held.project_id@ == section.project_id@ && held.digest@ == section.digest@
                && held.prompt_sha256@ == section.prompt_sha256@ && held.turn@ == section.turn@
                && held.canonical@ == section.canonical@
            &&& section.digest@ == request.material.manifest_digest@
        },
{
}

/// A payload is a durable job's exactly where it names the job, carries the
/// lease's token, and what it runs gives the recorded digest.
pub proof fn payloads_are_of_their_job(
    payload: ExecutionPayload,
    lease: LeaseRecord,
    meta: JobMeta,
)
    ensures
        payload@.durable_fault(lease@, meta@) is None <==> {
            let material = recorded_material(payload@, meta@.resolution(payload.lease_token));
            &&& lease@.fault() is None
            &&& meta@.fault() is None
            &&& material.fault() is None
            &&& payload.version == 2
            &&& payload.job_id == lease.job_id && payload.job_id == meta.job_id
            &&& payload.client_id == lease.client_id && payload.client_id == meta.client_id
            &&& payload.lease_token == lease.lease_token
            &&& payload.request_fingerprint.text@ == lease.request_fingerprint.text@
            &&& payload.request_fingerprint.text@ == meta.request_fingerprint.text@
            &&& material.digest() == payload.request_fingerprint.text@
            &&& payload.command@.summarized() == meta.command_summary
            &&& payload.command@.summarized() == lease.command_summary
            &&& payload.turn matches Some(turn) ==> turn.project_id@ == meta.project_id@
                && turn.digest@ == meta.manifest_digest@
        },
        ({
            let material = recorded_material(payload@, meta@.resolution(payload.lease_token));
            &&& material.protocol_version == 1
            &&& material.job_id == payload.job_id
            &&& material.client_id == payload.client_id
            &&& material.lease_token == payload.lease_token
            &&& material.created_at_millis == meta.created_at_millis
            &&& material.worker_name == meta.worker_name@
            &&& material.project_id == meta.project_id@
            &&& material.worktree_id == meta.worktree_id@
            &&& material.manifest_digest == meta.manifest_digest@
            &&& material.relative_working_dir == meta.relative_working_dir@
            &&& material.timeout_millis == meta.timeout_millis
            &&& material.resource_class == meta.resource_class@
            &&& material.command == payload.command@
        }),
{
}

/// A payload is that of a request to be settled exactly where it names the
/// request and what it runs gives the request's digest.
pub proof fn payloads_are_of_their_resolution(
    payload: ExecutionPayload,
    identity: ResolveOrAbandonRequest,
)
    ensures
        payload@.resolution_fault(identity@) is None <==> {
            let material = recorded_material(payload@, identity@);
            &&& material.fault() is None
            &&& payload.version == 2
            &&& payload.job_id == identity.job_id
            &&& payload.client_id == identity.client_id
            &&& payload.lease_token == identity.lease_token
            &&& payload.request_fingerprint.text@ == identity.request_fingerprint.text@
            &&& material.digest() == payload.request_fingerprint.text@
            &&& payload.command@.summarized() == identity.command_summary
            &&& payload.turn matches Some(turn) ==> turn.project_id@ == identity.project_id@
                && turn.digest@ == identity.manifest_digest@
        },
{
}

/// A name stands in a listing.
pub open spec fn listed(names: Seq<Option<String>>, name: Seq<char>) -> bool {
    exists|i: int|
        0 <= i < names.len() && ((#[trigger] names[i]) matches Some(text) && text@ == name)
}

/// A directory holds what a job has before it is launched: its eight entries,
/// and at most the diagnostics of a supervisor beside them.
pub proof fn unlaunched_jobs_have_eight_entries(names: Seq<Option<String>>)
    ensures
        has_layout(names, job_entries()) <==> {
            &&& forall|i: int|
                0 <= i < names.len() ==> ((#[trigger] names[i]) matches Some(text) ==> text@
                    == "execution.json"@ || text@ == "home"@ || text@ == "meta.json"@ || text@
                    == "status.json"@ || text@ == "stderr.log"@ || text@ == "stdout.log"@ || text@
                    == "tmp"@ || text@ == "workspace"@ || text@ == "supervisor.log"@)
            &&& listed(names, "execution.json"@)
            &&& listed(names, "home"@)
            &&& listed(names, "meta.json"@)
            &&& listed(names, "status.json"@)
            &&& listed(names, "stderr.log"@)
            &&& listed(names, "stdout.log"@)
            &&& listed(names, "tmp"@)
            &&& listed(names, "workspace"@)
        },
{
    let e = job_entries();
    layouts_allow_diagnostics(names, e);
    assert(e[0] == "execution.json"@ && e[1] == "home"@ && e[2] == "meta.json"@ && e[3]
        == "status.json"@ && e[4] == "stderr.log"@ && e[5] == "stdout.log"@ && e[6] == "tmp"@
        && e[7] == "workspace"@ && e.len() == 8);
    assert forall|text: Seq<char>| #[trigger] e.contains(text) <==> text == "execution.json"@ || text
        == "home"@ || text == "meta.json"@ || text == "status.json"@ || text == "stderr.log"@
        || text == "stdout.log"@ || text == "tmp"@ || text == "workspace"@ by {
        if text == "execution.json"@ {
            assert(e[0] == text);
        } else if text == "home"@ {
            assert(e[1] == text);
        } else if text == "meta.json"@ {
            assert(e[2] == text);
        } else if text == "status.json"@ {
            assert(e[3] == text);
        } else if text == "stderr.log"@ {
            assert(e[4] == text);
        } else if text == "stdout.log"@ {
            assert(e[5] == text);
        } else if text == "tmp"@ {
            assert(e[6] == text);
        } else if text == "workspace"@ {
            assert(e[7] == text);
        }
    }
}

/// The same of a turn, which has ten.
pub proof fn unlaunched_turns_have_ten_entries(names: Seq<Option<String>>)
    ensures
        has_layout(names, turn_entries()) <==> {
            &&& forall|i: int|
                0 <= i < names.len() ==> ((#[trigger] names[i]) matches Some(text) ==> text@
                    == ".mac-worker-rooted-fs"@ || text@ == "execution.json"@ || text@
                    == "meta.json"@ || text@ == "prompt.md"@ || text@ == "result.schema.json"@
                    || text@ == "status.json"@ || text@ == "stderr.log"@ || text@ == "stdout.log"@
                    || text@ == "tail.log"@ || text@ == "tmp"@ || text@ == "supervisor.log"@)
            &&& listed(names, ".mac-worker-rooted-fs"@)
            &&& listed(names, "execution.json"@)
            &&& listed(names, "meta.json"@)
            &&& listed(names, "prompt.md"@)
            &&& listed(names, "result.schema.json"@)
            &&& listed(names, "status.json"@)
            &&& listed(names, "stderr.log"@)
            &&& listed(names, "stdout.log"@)
            &&& listed(names, "tail.log"@)
            &&& listed(names, "tmp"@)
        },
{
    let e = turn_entries();
    layouts_allow_diagnostics(names, e);
    assert(e[0] == ".mac-worker-rooted-fs"@ && e[1] == "execution.json"@ && e[2] == "meta.json"@
        && e[3] == "prompt.md"@ && e[4] == "result.schema.json"@ && e[5] == "status.json"@ && e[6]
        == "stderr.log"@ && e[7] == "stdout.log"@ && e[8] == "tail.log"@ && e[9] == "tmp"@
        && e.len() == 10);
    assert forall|text: Seq<char>| #[trigger] e.contains(text) <==> text
        == ".mac-worker-rooted-fs"@ || text == "execution.json"@ || text == "meta.json"@ || text
        == "prompt.md"@ || text == "result.schema.json"@ || text == "status.json"@ || text
        == "stderr.log"@ || text == "stdout.log"@ || text == "tail.log"@ || text == "tmp"@ by {
        if text == ".mac-worker-rooted-fs"@ {
            assert(e[0] == text);
        } else if text == "execution.json"@ {
            assert(e[1] == text);
        } else if text == "meta.json"@ {
            assert(e[2] == text);
        } else if text == "prompt.md"@ {
            assert(e[3] == text);
        } else if text == "result.schema.json"@ {
            assert(e[4] == text);
        } else if text == "status.json"@ {
            assert(e[5] == text);
        } else if text == "stderr.log"@ {
            assert(e[6] == text);
        } else if text == "stdout.log"@ {
            assert(e[7] == text);
        } else if text == "tail.log"@ {
            assert(e[8] == text);
        } else if text == "tmp"@ {
            assert(e[9] == text);
        }
    }
}

/// A layout is met where every expected entry is listed and nothing else but a
/// supervisor's diagnostics is.
proof fn layouts_allow_diagnostics(names: Seq<Option<String>>, expected: Seq<Seq<char>>)
    ensures
        has_layout(names, expected) <==> {
            &&& forall|i: int|
                0 <= i < names.len() ==> ((#[trigger] names[i]) matches Some(text)
                    ==> expected.contains(text@) || text@ == "supervisor.log"@)
            &&& forall|k: int| 0 <= k < expected.len() ==> listed(names, #[trigger] expected[k])
        },
{
    let more = expected.push("supervisor.log"@);
    assert(more[expected.len() as int] == "supervisor.log"@);
    assert forall|k: int| 0 <= k < expected.len() implies more[k] == #[trigger] expected[k] by {}
    assert forall|text: Seq<char>| #[trigger] more.contains(text) <==> expected.contains(text)
        || text == "supervisor.log"@ by {
        if expected.contains(text) {
            let k = choose|k: int| 0 <= k < expected.len() && expected[k] == text;
            assert(more[k] == text);
        }
        if more.contains(text) {
            let k = choose|k: int| 0 <= k < more.len() && more[k] == text;
            if k < expected.len() {
                assert(expected[k] == text);
            }
        }
    }
    if has_layout(names, expected) {
        if lists_exactly(names, more) {
            assert forall|k: int| 0 <= k < expected.len() implies listed(
                names,
                #[trigger] expected[k],
            ) by {
                assert(lists(names, more[k]));
            }
        }
    }
    if (forall|i: int|
        0 <= i < names.len() ==> ((#[trigger] names[i]) matches Some(text) ==> expected.contains(
            text@,
        ) || text@ == "supervisor.log"@)) && (forall|k: int|
        0 <= k < expected.len() ==> listed(names, #[trigger] expected[k])) {
        if listed(names, "supervisor.log"@) {
            assert forall|k: int| 0 <= k < more.len() implies lists(names, #[trigger] more[k]) by {
                if k < expected.len() {
                    assert(listed(names, expected[k]));
                }
            }
            assert(lists_exactly(names, more));
        } else {
            assert forall|i: int| 0 <= i < names.len() implies ((#[trigger] names[i]) matches Some(
                text,
            ) ==> expected.contains(text@)) by {
                if let Some(text) = names[i] {
                    if text@ == "supervisor.log"@ {
                        assert(listed(names, "supervisor.log"@));
                    }
                }
            }
            assert forall|k: int| 0 <= k < expected.len() implies lists(
                names,
                #[trigger] expected[k],
            ) by {
                assert(listed(names, expected[k]));
            }
            assert(lists_exactly(names, expected));
        }
    }
}

/// The ended job's logs are accepted exactly where both are there and as long as
/// recorded.
pub proof fn ended_logs_have_their_length(
    status: JobStatus,
    stdout: LogEvidence,
    stderr: LogEvidence,
)
    ensures
        ended_logs_fault(status@, stdout, stderr) is None <==> {
            &&& stdout matches LogEvidence::Length { bytes } && status.final_stdout_bytes == Some(
                bytes,
            )
            &&& stderr matches LogEvidence::Length { bytes } && status.final_stderr_bytes == Some(
                bytes,
            )
        },
{
}

/// A private directory of a job that was never launched is there and empty.
pub proof fn private_directories_are_empty(directory: PrivateDirectory)
    ensures
        private_directory_fault(directory) is None <==> directory == (PrivateDirectory::Listed {
            entries: 0,
        }),
{
}

/// A job that was never launched is complete where its payload is the
/// request's, its directory holds its entries, its logs are empty and the
/// diagnostics are short enough.
pub proof fn unlaunched_jobs_are_complete(
    evidence: PrelaunchEvidence,
    request: SubmitRequest,
    limit: u64,
)
    ensures
        evidence.job_fault(request@, limit) is None <==> {
            &&& evidence.payload@.request_fault(request@) is None
            &&& forall|i: int| 0 <= i < evidence.names@.len() ==> (#[trigger] evidence.names@[i]) is Some
            &&& has_layout(evidence.names@, job_entries())
            &&& evidence.stdout_bytes == 0
            &&& evidence.stderr_bytes == 0
            &&& evidence.supervisor_log_bytes matches Some(bytes) ==> bytes <= limit
        },
{
}

/// A turn that was never launched is complete where so much is true of it, and
/// its prompt has the recorded digest and its schema is the canonical one.
pub proof fn unlaunched_turns_are_complete(
    evidence: PrelaunchEvidence,
    request: SubmitRequest,
    section: TurnSection,
    prompt: Seq<u8>,
    schema: Seq<u8>,
    canonical: Seq<u8>,
    tail_bytes: u64,
    limit: u64,
)
    ensures
        turn_job_fault(
            evidence,
            request@,
            section,
            prompt,
            schema,
            canonical,
            tail_bytes,
            limit,
        ) is None <==> {
            &&& evidence.payload@.turn_fault(request@, section@) is None
            &&& forall|i: int| 0 <= i < evidence.names@.len() ==> (#[trigger] evidence.names@[i]) is Some
            &&& has_layout(evidence.names@, turn_entries())
            &&& hex_text(sha256_digest(prompt)) == section.prompt_sha256@
            &&& schema == canonical
            &&& evidence.stdout_bytes == 0
            &&& evidence.stderr_bytes == 0
            &&& tail_bytes == 0
            &&& evidence.supervisor_log_bytes matches Some(bytes) ==> bytes <= limit
        },
{
}

/// A final job may still be indexed exactly where its facts are the request's,
/// it was never launched, it is complete and its workspace is the snapshot.
pub proof fn unindexed_jobs_are_repaired(
    evidence: RepairEvidence,
    request: SubmitRequest,
    lease: LeaseRecord,
    limit: u64,
)
    ensures
        repairable(evidence, request@, lease@, limit) <==> {
            &&& exact_meta_fault(evidence.meta@, request@, lease@) is None
            &&& coherent(evidence.status@)
            &&& evidence.status.state == JobState::Accepted
            &&& evidence.status.supervisor_pid is None
            &&& evidence.status.child_pid is None
            &&& evidence.prelaunch.job_fault(request@, limit) is None
            &&& evidence.workspace_matches
        },
{
    coherent_statuses_are_accepted(evidence.status@);
    if coherent(evidence.status@) {
        statuses_name_their_processes(evidence.status@);
    }
}

/// Nothing in a log that may be evidence of a launch.
pub open spec fn silent(names: Seq<Option<String>>, name: Seq<char>, log: LogEvidence) -> bool {
    listed(names, name) ==> log == (LogEvidence::Length { bytes: 0 })
}

/// What is left of a job can be settled for a request exactly where it holds
/// nothing but a job's files, what it holds of them is the request's own, and
/// nothing of it may come from a launch.
#[verifier::rlimit(40)]
pub proof fn remains_can_be_settled(
    evidence: FinalEvidence,
    identity: ResolveOrAbandonRequest,
    canonical: Seq<u8>,
)
    requires
        evidence.names is Some,
    ensures
        evidence.fault(identity@, canonical) is None <==> {
            let names = evidence.names->0@;
            let turn = listed(names, "execution.json"@) && (evidence.payload matches Some(payload)
                && payload.turn is Some);
            &&& forall|i: int| 0 <= i < names.len() ==> (#[trigger] names[i]) is Some
            &&& lists_only(names, known_entries())
            &&& listed(names, "meta.json"@) ==> (evidence.meta matches Some(meta)
                && resolution_meta_fault(identity@, meta@) is None)
            &&& listed(names, "execution.json"@) ==> (evidence.payload matches Some(payload)
                && payload@.resolution_fault(identity@) is None)
            &&& turn ==> {
                let section = evidence.payload->0.turn->0;
                &&& listed(names, "prompt.md"@) ==> (evidence.prompt matches Some(prompt)
                    && hex_text(sha256_digest(prompt@)) == section.prompt_sha256@)
                &&& listed(names, "result.schema.json"@) ==> (evidence.schema matches Some(schema)
                    && schema@ == canonical)
                &&& silent(names, "tail.log"@, evidence.tail)
            }
            &&& !turn ==> !listed(names, "last.md"@) && !listed(names, "prompt.md"@) && !listed(
                names,
                "result.schema.json"@,
            ) && !listed(names, "tail.log"@)
            &&& listed(names, "status.json"@) ==> (listed(names, "meta.json"@)
                && evidence.status is Some && evidence.status->0@ == bare_status(
                JobState::Accepted,
                evidence.meta->0.created_at_millis,
            ))
            &&& listed(names, "meta.json"@) || listed(names, "execution.json"@)
            &&& listed(names, "home"@) ==> evidence.home_safe
            &&& listed(names, "tmp"@) ==> evidence.tmp_safe
            &&& listed(names, "workspace"@) ==> evidence.workspace_safe
            &&& silent(names, "stdout.log"@, evidence.stdout)
            &&& silent(names, "stderr.log"@, evidence.stderr)
            &&& silent(names, "supervisor.log"@, evidence.supervisor)
        },
        evidence.completeness() == ResolutionFinal::Complete <==> has_layout(
            evidence.names->0@,
            job_entries(),
        ) && !(listed(evidence.names->0@, "execution.json"@) && (evidence.payload matches Some(
            payload,
        ) && payload.turn is Some)),
{
    let names = evidence.names->0@;
    assert forall|name: Seq<char>| #[trigger] evidence.has(name) == listed(names, name) by {}
}

/// Fourteen names may stand in a job's directory.
pub proof fn only_fourteen_names_are_known(name: Seq<char>)
    ensures
        known_entries().contains(name) <==> name == ".mac-worker-rooted-fs"@ || name
            == "execution.json"@ || name == "home"@ || name == "meta.json"@ || name == "last.md"@
            || name == "prompt.md"@ || name == "result.schema.json"@ || name == "status.json"@
            || name == "stderr.log"@ || name == "supervisor.log"@ || name == "stdout.log"@ || name
            == "tail.log"@ || name == "tmp"@ || name == "workspace"@,
{
    let e = known_entries();
    assert(e[0] == ".mac-worker-rooted-fs"@ && e[1] == "execution.json"@ && e[2] == "home"@ && e[3]
        == "meta.json"@ && e[4] == "last.md"@ && e[5] == "prompt.md"@ && e[6]
        == "result.schema.json"@ && e[7] == "status.json"@ && e[8] == "stderr.log"@ && e[9]
        == "supervisor.log"@ && e[10] == "stdout.log"@ && e[11] == "tail.log"@ && e[12] == "tmp"@
        && e[13] == "workspace"@ && e.len() == 14);
}

/// A job that its index knows as accepted for this request is reported, at
/// either look.
pub proof fn accepted_jobs_are_settled(
    identity: ResolveOrAbandonRequest,
    evidence: ResolutionEvidence,
    before: Option<LeaseRecord>,
    canonical: Seq<u8>,
    entry: IndexedIdentity,
    initial: JobStatus,
    meta: JobMeta,
    locked: bool,
    step: ResolutionStep,
)
    requires
        evidence.disposition == Some(JobDisposition::Accepted { identity: entry, status: initial }),
        indexed_for(identity@, entry@),
        evidence.accepted_meta == Some(Some(meta)),
        resolution_meta_fault(identity@, meta@) is None,
    ensures
        resolution_fault(identity@, evidence, before, canonical) is None,
        resolution_step(step, identity@, evidence, locked) ==> step is ReportAccepted,
{
}

/// The lease of the job, where one is held.
pub open spec fn lease_for(identity: ResolveOrAbandonRequest, live: Option<LeaseRecord>) -> Option<
    LeaseRecord,
> {
    if live is Some && live->0.job_id == identity.job_id {
        live
    } else {
        None
    }
}

/// A job of which nothing was accepted is abandoned at the second look, under the
/// transfer lock, with the lease that it holds and what is left of it; the
/// abandonment is written down unless it was before. At the first look only the
/// lock is asked for.
pub proof fn unaccepted_jobs_are_abandoned(
    identity: ResolveOrAbandonRequest,
    evidence: ResolutionEvidence,
    before: Option<LeaseRecord>,
    canonical: Seq<u8>,
    locked: bool,
    step: ResolutionStep,
)
    requires
        evidence.disposition matches Some(disposition) ==> (
        disposition matches JobDisposition::Abandoned { identity: entry } && indexed_for(
            identity@,
            entry@,
        )),
        lease_for(identity, evidence.live) matches Some(lease) ==> leased_for(identity@, lease@),
        before matches Some(earlier) ==> (lease_for(identity, evidence.live) matches Some(later)
            && later@ == earlier@),
        match evidence.directory {
            FinalDirectory::Missing => true,
            FinalDirectory::Unsafe => false,
            FinalDirectory::Open { evidence: files } => files.fault(identity@, canonical) is None
                && files.completeness() == ResolutionFinal::Incomplete,
        },
        resolution_step(step, identity@, evidence, locked),
    ensures
        resolution_fault(identity@, evidence, before, canonical) is None,
        !locked ==> (step matches ResolutionStep::TakeTransferLock { live } && (live is Some)
            == (lease_for(identity, evidence.live) is Some) && (live matches Some(held) ==> held@
            == lease_for(identity, evidence.live)->0@)),
        locked ==> (step matches ResolutionStep::Abandon { live, remains, record } && (live is Some)
            == (lease_for(identity, evidence.live) is Some) && (live matches Some(held) ==> held@
            == lease_for(identity, evidence.live)->0@) && record == (evidence.disposition is None)
            && remains == if evidence.directory is Missing {
            None
        } else {
            Some(ResolutionFinal::Incomplete)
        }),
{
}

/// A complete job that its index does not know is reported under its lease, and
/// never abandoned; without its lease, or after it was given up, it is a
/// contradiction.
pub proof fn complete_jobs_are_not_abandoned(
    identity: ResolveOrAbandonRequest,
    evidence: ResolutionEvidence,
    before: Option<LeaseRecord>,
    canonical: Seq<u8>,
    locked: bool,
    step: ResolutionStep,
)
    requires
        evidence.directory matches FinalDirectory::Open { evidence: files } && files.fault(
            identity@,
            canonical,
        ) is None && files.completeness() == ResolutionFinal::Complete,
        !(evidence.disposition matches Some(JobDisposition::Accepted { .. })),
    ensures
        resolution_step(step, identity@, evidence, locked) ==> step is ReportUnindexed,
        (evidence.disposition is None && before is None && (lease_for(identity, evidence.live)
            matches Some(lease) && leased_for(identity@, lease@))) ==> resolution_fault(
            identity@,
            evidence,
            before,
            canonical,
        ) is None,
        (evidence.disposition is Some || lease_for(identity, evidence.live) is None)
            ==> resolution_fault(identity@, evidence, before, canonical) is Some,
{
}

} // verus!
