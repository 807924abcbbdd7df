//! A job's life: which statuses there are, and which may follow which.
use vstd::prelude::*;
use crate::job::status::{
    bare_status, JobState, JobStatus, ProcessIdentity, StatusModel,
};
use crate::laws::names::{bounded_text, free_of_nul, plain_texts_are_accepted};
use crate::text::opt_text;

verus! {

/// A state that a job never leaves.
pub open spec fn has_ended(state: JobState) -> bool {
    match state {
        JobState::Uploading | JobState::Verified | JobState::Accepted | JobState::Running => false,
        _ => true,
    }
}

/// A process is named by two numbers, neither of them zero, or not at all.
pub open spec fn names_process(pid: Option<u32>, start: Option<u64>) -> bool {
    match (pid, start) {
        (None, None) => true,
        (Some(number), Some(moment)) => number > 0 && moment > 0,
        _ => false,
    }
}

/// A short code, where there is one.
pub open spec fn names_code(code: Option<Seq<char>>) -> bool {
    match code {
        Some(text) => bounded_text(text, 128) && free_of_nul(text),
        None => true,
    }
}

/// The exit code and the signal that a state comes with.
pub open spec fn outcome_fits(state: JobState, exit_code: Option<u8>, signal: Option<u32>) -> bool {
    match state {
        JobState::Succeeded => exit_code == Some(0u8) && signal is None,
        JobState::Failed => match (exit_code, signal) {
            (Some(code), None) => code > 0,
            (None, Some(number)) => number > 0,
            _ => false,
        },
        _ => exit_code is None && signal is None,
    }
}

/// A status that makes sense.
pub open spec fn coherent(status: StatusModel) -> bool {
    &&& names_process(status.supervisor_pid, status.supervisor_start_identity)
    &&& names_process(status.child_pid, status.child_start_identity)
    &&& status.child_pid is Some ==> status.supervisor_pid is Some
    &&& status.state == JobState::Running ==> status.child_pid is Some
    &&& has_ended(status.state) == (status.final_stdout_bytes is Some)
    &&& has_ended(status.state) == (status.final_stderr_bytes is Some)
    &&& outcome_fits(status.state, status.exit_code, status.terminating_signal)
    &&& names_code(status.error_code)
    &&& names_code(status.cleanup_error_code)
    &&& status.cleanup_error_code is Some ==> has_ended(status.state)
}

/// A status is accepted exactly where it makes sense.
pub proof fn coherent_statuses_are_accepted(status: StatusModel)
    ensures
        status.fault() is None <==> coherent(status),
        status.state.terminal() <==> has_ended(status.state),
{
    if let Some(code) = status.error_code {
        plain_texts_are_accepted(code, 128, "status error code"@);
    }
    if let Some(code) = status.cleanup_error_code {
        plain_texts_are_accepted(code, 128, "cleanup error code"@);
    }
}

/// A status names the supervisor and the child that it records.
pub proof fn statuses_name_their_processes(status: StatusModel)
    requires
        status.fault() is None,
    ensures
        status.supervisor() is Some <==> status.supervisor_pid is Some,
        status.child() is Some <==> status.child_pid is Some,
        status.supervisor() matches Some(process) ==> Some(process.pid) == status.supervisor_pid
            && Some(process.start_time_micros) == status.supervisor_start_identity,
        status.child() matches Some(process) ==> Some(process.pid) == status.child_pid && Some(
            process.start_time_micros,
        ) == status.child_start_identity,
{
}

/// What a status says tells each of its fields.
pub proof fn statuses_say_everything(left: JobStatus, right: JobStatus)
    requires
        left@ == right@,
    ensures
        left.state == right.state,
        left.updated_at_millis == right.updated_at_millis,
        left.supervisor_pid == right.supervisor_pid,
        left.supervisor_start_identity == right.supervisor_start_identity,
        left.child_pid == right.child_pid,
        left.child_start_identity == right.child_start_identity,
        left.exit_code == right.exit_code,
        left.terminating_signal == right.terminating_signal,
        left.final_stdout_bytes == right.final_stdout_bytes,
        left.final_stderr_bytes == right.final_stderr_bytes,
        opt_text(left.error_code) == opt_text(right.error_code),
        opt_text(left.cleanup_error_code) == opt_text(right.cleanup_error_code),
{
}

/// The order of a job's states: it is uploaded, verified, accepted and run, and
/// ends. It can be lost at any time before it ends; an accepted job can fail or
/// be cancelled before it runs; and only a running one can succeed or time out.
pub proof fn states_come_in_order(state: JobState, next: JobState)
    ensures
        has_ended(state) ==> !state.may_become(next),
        state == JobState::Uploading ==> (state.may_become(next) <==> next == JobState::Verified
            || next == JobState::Lost),
        state == JobState::Verified ==> (state.may_become(next) <==> next == JobState::Accepted
            || next == JobState::Lost),
        state == JobState::Accepted ==> (state.may_become(next) <==> next == JobState::Running
            || next == JobState::Failed || next == JobState::Cancelled || next == JobState::Lost),
        state == JobState::Running ==> (state.may_become(next) <==> has_ended(next)),
{
}

/// The processes of a status are those of another.
pub open spec fn same_processes(left: StatusModel, right: StatusModel) -> bool {
    &&& left.supervisor_pid == right.supervisor_pid
    &&& left.supervisor_start_identity == right.supervisor_start_identity
    &&& left.child_pid == right.child_pid
    &&& left.child_start_identity == right.child_start_identity
}

/// Every coherent status may be followed by a later one in a state that may come
/// next, with the same processes.
pub proof fn later_states_may_follow(status: StatusModel, next: StatusModel)
    requires
        coherent(status),
        coherent(next),
        same_processes(status, next),
        status.updated_at_millis <= next.updated_at_millis,
        status.state.may_become(next.state),
    ensures
        status.transition_fault(next) is None,
        status.proposal_fault(next) is None,
{
    coherent_statuses_are_accepted(status);
    coherent_statuses_are_accepted(next);
}

/// An accepted job may gain its supervisor, and then its child, one at a time;
/// and an ended one may gain a cleanup error, once.
pub proof fn statuses_may_be_enriched(status: StatusModel, identity: ProcessIdentity, at: u64, code: Seq<char>)
    requires
        coherent(status),
        identity.pid > 0,
        identity.start_time_micros > 0,
        status.updated_at_millis <= at,
        bounded_text(code, 128),
        free_of_nul(code),
    ensures
        status.state == JobState::Accepted && status.supervisor_pid is None
            ==> status.proposal_fault(status.supervised(identity, at)) is None,
        status.state == JobState::Accepted && status.supervisor_pid is Some && status.child_pid
            is None ==> status.proposal_fault(status.with_child_process(identity, at)) is None,
        has_ended(status.state) && status.cleanup_error_code is None ==> status.proposal_fault(
            status.uncleaned(code, at),
        ) is None,
{
    coherent_statuses_are_accepted(status);
    coherent_statuses_are_accepted(status.supervised(identity, at));
    coherent_statuses_are_accepted(status.with_child_process(identity, at));
    coherent_statuses_are_accepted(status.uncleaned(code, at));
}

/// A change is allowed only forward in time, keeps every process, and goes to a
/// state that may come next, adds one process to an accepted job, or notes one
/// cleanup error on an ended one.
pub proof fn changes_are_of_three_kinds(status: StatusModel, next: StatusModel)
    requires
        status.transition_fault(next) is None,
    ensures
        coherent(status),
        coherent(next),
        status.updated_at_millis <= next.updated_at_millis,
        status.supervisor_pid is Some ==> next.supervisor_pid == status.supervisor_pid
            && next.supervisor_start_identity == status.supervisor_start_identity,
        status.child_pid is Some ==> next.child_pid == status.child_pid
            && next.child_start_identity == status.child_start_identity,
        ({
            ||| same_processes(status, next) && status.state.may_become(next.state)
            ||| status.state == JobState::Accepted && next.state == JobState::Accepted && ((
            status.supervisor_pid is None && next.supervisor_pid is Some) != (status.child_pid
                is None && next.child_pid is Some))
            ||| has_ended(status.state) && next.state == status.state && same_processes(
                status,
                next,
            ) && status.cleanup_error_code is None && next.cleanup_error_code is Some
                && next.exit_code == status.exit_code && next.terminating_signal
                == status.terminating_signal && next.final_stdout_bytes
                == status.final_stdout_bytes && next.final_stderr_bytes
                == status.final_stderr_bytes && next.error_code == status.error_code
        }),
{
    coherent_statuses_are_accepted(status);
    coherent_statuses_are_accepted(next);
    statuses_name_their_processes(status);
    statuses_name_their_processes(next);
}

/// A running job can always be ended: by its exit, by a signal, or by the host;
/// and what it ended with is kept.
pub proof fn running_jobs_can_end(
    status: StatusModel,
    state: JobState,
    at: u64,
    exit_code: Option<u8>,
    signal: Option<u32>,
    stdout: u64,
    stderr: u64,
    error_code: Option<Seq<char>>,
)
    requires
        coherent(status),
        status.state == JobState::Running,
        status.updated_at_millis <= at,
        has_ended(state),
        outcome_fits(state, exit_code, signal),
        names_code(error_code),
    ensures
        ({
            let next = status.ended(state, at, exit_code, signal, stdout, stderr, error_code);
            &&& status.proposal_fault(next) is None
            &&& next.state == state
            &&& next.updated_at_millis == at
            &&& next.exit_code == exit_code
            &&& next.terminating_signal == signal
            &&& next.final_stdout_bytes == Some(stdout)
            &&& next.final_stderr_bytes == Some(stderr)
            &&& next.error_code == error_code
            &&& next.cleanup_error_code is None
            &&& same_processes(status, next)
        }),
{
    let next = status.ended(state, at, exit_code, signal, stdout, stderr, error_code);
    coherent_statuses_are_accepted(status);
    coherent_statuses_are_accepted(next);
}

/// An accepted job can be started once both its processes are recorded, and can
/// fail, be cancelled or be lost before.
pub proof fn accepted_jobs_can_go_on(
    status: StatusModel,
    state: JobState,
    at: u64,
    exit_code: Option<u8>,
    signal: Option<u32>,
    stdout: u64,
    stderr: u64,
    error_code: Option<Seq<char>>,
)
    requires
        coherent(status),
        status.state == JobState::Accepted,
        status.updated_at_millis <= at,
        state == JobState::Failed || state == JobState::Cancelled || state == JobState::Lost,
        outcome_fits(state, exit_code, signal),
        names_code(error_code),
    ensures
        status.child_pid is Some ==> status.proposal_fault(status.started(at)) is None,
        status.started(at).state == JobState::Running && same_processes(status, status.started(at)),
        status.proposal_fault(
            status.ended(state, at, exit_code, signal, stdout, stderr, error_code),
        ) is None,
{
    coherent_statuses_are_accepted(status);
    coherent_statuses_are_accepted(status.started(at));
    coherent_statuses_are_accepted(
        status.ended(state, at, exit_code, signal, stdout, stderr, error_code),
    );
}

/// A new job's status is coherent, names no process and has no outcome.
pub proof fn new_jobs_are_coherent(at: u64)
    ensures
        ({
            let status = bare_status(JobState::Accepted, at);
            &&& status.fault() is None
            &&& status.state == JobState::Accepted
            &&& status.updated_at_millis == at
            &&& status.supervisor_pid is None && status.supervisor_start_identity is None
            &&& status.child_pid is None && status.child_start_identity is None
            &&& status.exit_code is None && status.terminating_signal is None
            &&& status.final_stdout_bytes is None && status.final_stderr_bytes is None
            &&& status.error_code is None && status.cleanup_error_code is None
        }),
{
}

} // verus!
