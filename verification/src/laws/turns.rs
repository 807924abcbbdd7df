//! Turns of a task: when one is published, and when an accepted one is answered.
use vstd::prelude::*;
use crate::host_store::{IndexedIdentity, JobDisposition};
use crate::job::control::SubmitResponse;
use crate::job::record::LeaseRecord;
use crate::job::request::SubmitRequest;
use crate::job::status::{bare_status, JobState, JobStatus};
use crate::job_service::cancel::cancel_task_fault;
use crate::job_service::evidence::turn_job_fault;
use crate::job_service::identity::exact_meta_fault;
use crate::job_service::query::terminal_publication_fault;
use crate::job_service::payload::TurnSection;
use crate::job_service::turn::{
    origin_fault, submit_turn_fault, submit_turn_step, turn_repairable, TurnEvidence, TurnFacts,
    TurnRepairEvidence, TurnStep, TurnTerms,
};
use crate::laws::status::{
    coherent, coherent_statuses_are_accepted, has_ended, statuses_name_their_processes,
};
use crate::laws::submit::granted;
use crate::job::ids::JobId;
use crate::task::{AgentKind, TaskProgress, TaskState};
use crate::text::opt_text;

verus! {

/// A turn pushes exactly where its task does, and then to the pinned address.
pub proof fn turns_push_where_pinned(
    pinned: Option<Seq<char>>,
    pushes: bool,
    origin: Option<Seq<char>>,
)
    ensures
        origin_fault(pinned, pushes, origin) is None <==> if pushes {
            origin is Some && pinned == origin
        } else {
            origin is None
        },
{
}

/// Two turns are under the same terms where all five terms agree.
pub proof fn terms_agree_in_all(left: TurnTerms, right: TurnTerms)
    ensures
        left.agrees(&right) <==> {
            &&& left.agent == right.agent
            &&& opt_text(left.model) == opt_text(right.model)
            &&& left.policy@ == right.policy@
            &&& left.limits@ == right.limits@
            &&& opt_text(left.env_profile) == opt_text(right.env_profile)
        },
{
}

/// The task waits for this turn, or was made ready for it, and the turn goes on
/// from what the task has reached, under the task's terms.
pub open spec fn awaited(evidence: TurnEvidence, request: SubmitRequest, turn: TurnFacts) -> bool {
    let progress = evidence.progress;
    &&& progress.last_turn is Some
    &&& evidence.resumed || (progress.state == TaskState::Active && progress.last_turn->0.turn_id
        == request.material.job_id && progress.last_turn->0.terminal is None)
    &&& request.material.worktree_id@ == evidence.task.worktree_id@
    &&& turn.turn_number == progress.last_turn->0.turn_number
    &&& turn.terms.agrees(&evidence.task.terms)
    &&& progress.head_oid is Some ==> turn.base_oid@ == progress.head_oid->0@
    &&& progress.head_oid is None ==> turn.base_oid@ == evidence.task.base_oid@
    &&& turn.resume ==> evidence.session_bound
    &&& evidence.task.pushes == (turn.origin_url is Some)
    &&& turn.origin_url is Some ==> opt_text(turn.origin_url) == opt_text(
        evidence.task.push_origin_url,
    )
}

/// A new turn is published exactly where its task waits for it and its lease is
/// one on the worker that the task has selected. The agent that knows its session
/// from the start has it bound with its first turn.
pub proof fn awaited_turns_are_published(
    evidence: TurnEvidence,
    request: SubmitRequest,
    turn: TurnFacts,
    lease: LeaseRecord,
    step: TurnStep,
)
    requires
        request@.bound().fault() is None,
        evidence.disposition is None,
        evidence.lease == Some(lease),
        granted(lease, request),
        submit_turn_step(step, evidence, request@, turn),
    ensures
        (awaited(evidence, request, turn) && opt_text(evidence.progress.worker) == Some(
            lease.worker_name@,
        )) ==> submit_turn_fault(evidence, request@, turn) is None && (
        step matches TurnStep::Publish { bind_session } && bind_session == (turn.terms.agent
            == AgentKind::Claude && !turn.resume)),
        (submit_turn_fault(evidence, request@, turn) is None && step is Publish) ==> awaited(
            evidence,
            request,
            turn,
        ) && opt_text(evidence.progress.worker) == Some(lease.worker_name@),
        (turn.resume && evidence.progress.state == TaskState::Open && !evidence.resumed)
            ==> submit_turn_fault(evidence, request@, turn) is None && step is PrepareResume,
        (!evidence.resumed && evidence.progress.state != TaskState::Open
            && evidence.progress.state != TaskState::Active) ==> submit_turn_fault(
            evidence,
            request@,
            turn,
        ) is Some,
{
}

/// A turn that was accepted before is answered from its job: by asking for its
/// status where no lease of it is left or it has ended, by launching it where it
/// never was, and with its status otherwise.
pub proof fn accepted_turns_are_answered(
    evidence: TurnEvidence,
    request: SubmitRequest,
    turn: TurnFacts,
    identity: IndexedIdentity,
    initial: JobStatus,
    step: TurnStep,
)
    requires
        request@.bound().fault() is None,
        evidence.disposition == Some(JobDisposition::Accepted { identity, status: initial }),
        identity.job_id == request.material.job_id,
        identity.client_id == request.material.client_id,
        identity.project_id@ == request.material.project_id@,
        identity.worktree_id@ == request.material.worktree_id@,
        identity.request_fingerprint.text@ == request.request_fingerprint.text@,
        coherent(initial@),
        evidence.task.pushes == (turn.origin_url is Some),
        turn.origin_url is Some ==> opt_text(turn.origin_url) == opt_text(
            evidence.task.push_origin_url,
        ),
        submit_turn_step(step, evidence, request@, turn),
    ensures
        (evidence.lease is None || evidence.lease->0.job_id != request.material.job_id)
            ==> submit_turn_fault(evidence, request@, turn) is None && step is QueryStatus,
        (evidence.lease is Some && granted(evidence.lease->0, request) && evidence.job is None)
            ==> submit_turn_fault(evidence, request@, turn) is None && step is ReadJob,
        (evidence.lease is Some && granted(evidence.lease->0, request) && (evidence.job matches Some(
            job,
        ) && exact_meta_fault(job.meta@, request@, evidence.lease->0@) is None && coherent(
            job.status@,
        ))) ==> {
            let status = evidence.job->0.status;
            &&& has_ended(status.state) ==> submit_turn_fault(evidence, request@, turn) is None
                && step is QueryStatus
            &&& (!has_ended(status.state) && (status.state != JobState::Accepted
                || status.supervisor_pid is Some)) ==> submit_turn_fault(evidence, request@, turn)
                is None && (step matches TurnStep::Answer { response } && (
            response matches SubmitResponse::Existing { status: told } && told == status))
            &&& (status.state == JobState::Accepted && status.supervisor_pid is None) ==> {
                &&& evidence.payload is None ==> submit_turn_fault(evidence, request@, turn) is None
                    && step is ReadPayload
                &&& evidence.payload is Some ==> step is ElectSupervisor
                &&& (evidence.payload matches Some(payload) && (payload.turn matches Some(section)
                    && payload@.turn_fault(request@, section@) is None && section.turn@
                    == turn.canonical@)) ==> submit_turn_fault(evidence, request@, turn) is None
                &&& (evidence.payload matches Some(payload) && (payload.turn is None
                    || payload.turn->0.turn@ != turn.canonical@)) ==> submit_turn_fault(
                    evidence,
                    request@,
                    turn,
                ) is Some
            }
        },
{
    coherent_statuses_are_accepted(initial@);
    if let Some(job) = evidence.job {
        coherent_statuses_are_accepted(job.status@);
        if coherent(job.status@) {
            statuses_name_their_processes(job.status@);
        }
    }
}

/// A final turn may still be indexed exactly where its facts are the request's,
/// its status is the first one and it is complete.
pub proof fn unindexed_turns_are_repaired(
    evidence: TurnRepairEvidence,
    request: SubmitRequest,
    lease: LeaseRecord,
    section: TurnSection,
    canonical: Seq<u8>,
    limit: u64,
)
    ensures
        turn_repairable(evidence, request@, lease@, section, canonical, limit) <==> {
            let status = evidence.job.status;
            &&& exact_meta_fault(evidence.job.meta@, request@, lease@) is None
            &&& status.state == JobState::Accepted
            &&& status.updated_at_millis == evidence.job.meta.created_at_millis
            &&& status.supervisor_pid is None && status.supervisor_start_identity is None
            &&& status.child_pid is None && status.child_start_identity is None
            &&& status.exit_code is None && status.terminating_signal is None
            &&& status.final_stdout_bytes is None && status.final_stderr_bytes is None
            &&& status.error_code is None && status.cleanup_error_code is None
            &&& turn_job_fault(
                evidence.prelaunch,
                request@,
                section,
                evidence.prompt@,
                evidence.schema@,
                canonical,
                evidence.tail_bytes,
                limit,
            ) is None
        },
{
    let status = evidence.job.status;
    if status.state == JobState::Accepted && status.updated_at_millis
        == evidence.job.meta.created_at_millis && status.supervisor_pid is None
        && status.supervisor_start_identity is None && status.child_pid is None
        && status.child_start_identity is None && status.exit_code is None
        && status.terminating_signal is None && status.final_stdout_bytes is None
        && status.final_stderr_bytes is None && status.error_code is None
        && status.cleanup_error_code is None {
        assert(status@ == bare_status(
            JobState::Accepted,
            evidence.job.meta.created_at_millis,
        ));
    }
}

/// A task's turn can be cancelled exactly where the task waits for it and its
/// own lease is held, or has finished it already.
pub proof fn awaited_turns_can_be_cancelled(
    task: TaskProgress,
    turn_id: JobId,
    lease: Option<LeaseRecord>,
    project: Seq<char>,
    worktree: Seq<char>,
)
    ensures
        cancel_task_fault(task, turn_id, lease, project, worktree) is None <==> {
            ||| task.state == TaskState::Open && (task.last_turn matches Some(turn)
                && turn.turn_id == turn_id && turn.terminal is Some)
            ||| task.state == TaskState::Active && (task.last_turn matches Some(turn)
                && turn.turn_id == turn_id && turn.terminal is None) && (lease matches Some(held)
                && held.job_id == turn_id && held.project_id@ == project && held.worktree_id@
                == worktree)
        },
{
}

/// A task that goes on is told of its own ended turn, and only of that.
pub proof fn tasks_are_told_of_their_own_turn(
    section: TurnSection,
    task: TaskProgress,
    job_id: JobId,
    status: JobStatus,
)
    requires
        coherent(status@),
        has_ended(status.state),
    ensures
        task.state != TaskState::Active ==> terminal_publication_fault(
            Some(section),
            task,
            job_id,
            status@,
        ) is None,
        terminal_publication_fault(None, task, job_id, status@) is None,
        task.state == TaskState::Active ==> (terminal_publication_fault(
            Some(section),
            task,
            job_id,
            status@,
        ) is None <==> (task.last_turn matches Some(turn) && turn.turn_id == job_id
            && turn.terminal is None)),
{
    crate::laws::submit::endings_are_told(status@);
}

} // verus!
