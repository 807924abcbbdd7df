//! The life of one job, as its status records it.
use vstd::prelude::*;
use crate::error::{earliest, fault_if, labelled_error, outcome_of, protocol_error, WorkerError};
use crate::job::checks::{non_nul_fault, validate_non_nul};
use crate::text::{clone_opt, opt_text, opt_text_eq};

verus! {

#[derive(Debug, Clone, Copy, PartialEq, Eq, Structural)]
pub enum JobState {
    Uploading,
    Verified,
    Accepted,
    Running,
    Succeeded,
    Failed,
    Cancelled,
    TimedOut,
    Lost,
}

impl JobState {
    /// The states that may follow directly.
    pub open spec fn may_become(self, next: JobState) -> bool {
        match self {
            JobState::Uploading => next == JobState::Verified || next == JobState::Lost,
            JobState::Verified => next == JobState::Accepted || next == JobState::Lost,
            JobState::Accepted => next == JobState::Running || next == JobState::Failed || next
                == JobState::Cancelled || next == JobState::Lost,
            JobState::Running => next.terminal(),
            _ => false,
        }
    }

    /// The states that a job ends in.
    pub open spec fn terminal(self) -> bool {
        self == JobState::Succeeded || self == JobState::Failed || self == JobState::Cancelled
            || self == JobState::TimedOut || self == JobState::Lost
    }

    pub fn can_transition_to(self, next: JobState) -> (allowed: bool)
        ensures
            allowed == self.may_become(next),
    {
        match self {
            JobState::Uploading => next == JobState::Verified || next == JobState::Lost,
            JobState::Verified => next == JobState::Accepted || next == JobState::Lost,
            JobState::Accepted => next == JobState::Running || next == JobState::Failed || next
                == JobState::Cancelled || next == JobState::Lost,
            JobState::Running => next.is_terminal(),
            _ => false,
        }
    }

    pub fn is_terminal(self) -> (terminal: bool)
        ensures
            terminal == self.terminal(),
    {
        match self {
            JobState::Succeeded
            | JobState::Failed
            | JobState::Cancelled
            | JobState::TimedOut
            | JobState::Lost => true,
            _ => false,
        }
    }
}

/// A process that cannot be mistaken for a later one with the same number.
#[derive(Debug, Clone, Copy, PartialEq, Eq, Structural)]
pub struct ProcessIdentity {
    pub pid: u32,
    pub start_time_micros: u64,
}

impl ProcessIdentity {
    pub open spec fn fault(self) -> Option<Seq<char>> {
        fault_if(self.pid == 0 || self.start_time_micros == 0, "process identity is invalid"@)
    }

    pub fn new(pid: u32, start_time_micros: u64) -> (result: Result<ProcessIdentity, WorkerError>)
        ensures
            outcome_of(result, (ProcessIdentity { pid, start_time_micros }).fault()),
            result matches Ok(identity) ==> identity == (ProcessIdentity { pid, start_time_micros }),
    {
        if pid == 0 || start_time_micros == 0 {
            return Err(protocol_error("process identity is invalid"));
        }
        Ok(ProcessIdentity { pid, start_time_micros })
    }

    pub fn pid(self) -> (pid: u32)
        ensures
            pid == self.pid,
    {
        self.pid
    }

    pub fn start_time_micros(self) -> (start: u64)
        ensures
            start == self.start_time_micros,
    {
        self.start_time_micros
    }

    pub fn validate(self) -> (result: Result<(), WorkerError>)
        ensures
            outcome_of(result, self.fault()),
    {
        match ProcessIdentity::new(self.pid, self.start_time_micros) {
            Ok(_) => Ok(()),
            Err(error) => Err(error),
        }
    }
}

pub open spec fn identity_pair_fault(pid: Option<u32>, start: Option<u64>, label: Seq<char>) -> Option<
    Seq<char>,
> {
    fault_if(
        (pid is Some) != (start is Some) || pid == Some(0u32) || start == Some(0u64),
        label + " process identity is incomplete"@,
    )
}

fn validate_identity_pair(pid: Option<u32>, start: Option<u64>, label: &str) -> (result: Result<
    (),
    WorkerError,
>)
    ensures
        outcome_of(result, identity_pair_fault(pid, start, label@)),
{
    let complete = match (pid, start) {
        (Some(number), Some(moment)) => number != 0 && moment != 0,
        (None, None) => true,
        _ => false,
    };
    if !complete {
        return Err(labelled_error(label, " process identity is incomplete"));
    }
    Ok(())
}

/// The process that a pair of optional numbers names.
pub open spec fn paired(pid: Option<u32>, start: Option<u64>) -> Option<ProcessIdentity> {
    match (pid, start) {
        (Some(pid), Some(start_time_micros)) => if pid != 0 && start_time_micros != 0 {
            Some(ProcessIdentity { pid, start_time_micros })
        } else {
            None
        },
        _ => None,
    }
}

fn pair_identity(pid: Option<u32>, start: Option<u64>) -> (identity: Option<ProcessIdentity>)
    ensures
        identity == paired(pid, start),
{
    match (pid, start) {
        (Some(number), Some(moment)) => match ProcessIdentity::new(number, moment) {
            Ok(identity) => Some(identity),
            Err(_) => None,
        },
        _ => None,
    }
}

pub open spec fn sticky_fault(
    previous: Option<ProcessIdentity>,
    next: Option<ProcessIdentity>,
    label: Seq<char>,
) -> Option<Seq<char>> {
    fault_if(
        previous is Some && next != previous,
        label + " process identity is not sticky"@,
    )
}

fn require_sticky_identity(
    previous: Option<ProcessIdentity>,
    next: Option<ProcessIdentity>,
    label: &str,
) -> (result: Result<(), WorkerError>)
    ensures
        outcome_of(result, sticky_fault(previous, next, label@)),
{
    if previous.is_some() && next != previous {
        return Err(labelled_error(label, " process identity is not sticky"));
    }
    Ok(())
}

/// Where a job stands, who runs it, and how it ended.
#[derive(Debug, PartialEq, Eq)]
pub struct JobStatus {
    pub state: JobState,
    pub updated_at_millis: u64,
    pub supervisor_pid: Option<u32>,
    pub supervisor_start_identity: Option<u64>,
    pub child_pid: Option<u32>,
    pub child_start_identity: Option<u64>,
    pub exit_code: Option<u8>,
    pub terminating_signal: Option<u32>,
    pub final_stdout_bytes: Option<u64>,
    pub final_stderr_bytes: Option<u64>,
    pub error_code: Option<String>,
    pub cleanup_error_code: Option<String>,
}

/// What a [`JobStatus`] says.
pub struct StatusModel {
    pub state: JobState,
    pub updated_at_millis: u64,
    pub supervisor_pid: Option<u32>,
    pub supervisor_start_identity: Option<u64>,
    pub child_pid: Option<u32>,
    pub child_start_identity: Option<u64>,
    pub exit_code: Option<u8>,
    pub terminating_signal: Option<u32>,
    pub final_stdout_bytes: Option<u64>,
    pub final_stderr_bytes: Option<u64>,
    pub error_code: Option<Seq<char>>,
    pub cleanup_error_code: Option<Seq<char>>,
}

impl View for JobStatus {
    type V = StatusModel;

    open spec fn view(&self) -> StatusModel {
        StatusModel {
            state: self.state,
            updated_at_millis: self.updated_at_millis,
            supervisor_pid: self.supervisor_pid,
            supervisor_start_identity: self.supervisor_start_identity,
            child_pid: self.child_pid,
            child_start_identity: self.child_start_identity,
            exit_code: self.exit_code,
            terminating_signal: self.terminating_signal,
            final_stdout_bytes: self.final_stdout_bytes,
            final_stderr_bytes: self.final_stderr_bytes,
            error_code: opt_text(self.error_code),
            cleanup_error_code: opt_text(self.cleanup_error_code),
        }
    }
}

impl Clone for JobStatus {
    fn clone(&self) -> (copy: JobStatus)
        ensures
            copy == *self,
    {
        JobStatus {
            state: self.state,
            updated_at_millis: self.updated_at_millis,
            supervisor_pid: self.supervisor_pid,
            supervisor_start_identity: self.supervisor_start_identity,
            child_pid: self.child_pid,
            child_start_identity: self.child_start_identity,
            exit_code: self.exit_code,
            terminating_signal: self.terminating_signal,
            final_stdout_bytes: self.final_stdout_bytes,
            final_stderr_bytes: self.final_stderr_bytes,
            error_code: clone_opt(&self.error_code),
            cleanup_error_code: clone_opt(&self.cleanup_error_code),
        }
    }
}

impl JobStatus {
    /// Whether two records say the same.
    pub fn same(&self, other: &JobStatus) -> (same: bool)
        ensures
            same == (self@ == other@),
    {
        self.state == other.state
            && self.updated_at_millis == other.updated_at_millis
            && self.supervisor_pid == other.supervisor_pid
            && self.supervisor_start_identity == other.supervisor_start_identity
            && self.child_pid == other.child_pid
            && self.child_start_identity == other.child_start_identity
            && self.exit_code == other.exit_code
            && self.terminating_signal == other.terminating_signal
            && self.final_stdout_bytes == other.final_stdout_bytes
            && self.final_stderr_bytes == other.final_stderr_bytes
            && opt_text_eq(&self.error_code, &other.error_code)
            && opt_text_eq(&self.cleanup_error_code, &other.cleanup_error_code)
    }
}

impl StatusModel {
    /// A state that carries the outcome it must carry, and no other: exit code
    /// zero for success, one nonzero exit code or signal for failure.
    pub open spec fn outcome_fault(self) -> Option<Seq<char>> {
        match self.state {
            JobState::Succeeded => fault_if(
                self.exit_code != Some(0u8) || self.terminating_signal is Some,
                "succeeded status requires exit code zero"@,
            ),
            JobState::Failed => fault_if(
                !(match (self.exit_code, self.terminating_signal) {
                    (Some(code), None) => code != 0,
                    (None, Some(signal)) => signal != 0,
                    _ => false,
                }),
                "failed status requires exactly one nonzero command outcome"@,
            ),
            _ => fault_if(
                self.exit_code is Some || self.terminating_signal is Some,
                "only command outcomes may include an exit code or signal"@,
            ),
        }
    }

    pub open spec fn codes_fault(self) -> Option<Seq<char>> {
        earliest(
            match self.error_code {
                Some(code) => non_nul_fault(code, 128, "status error code"@),
                None => None,
            },
            match self.cleanup_error_code {
                Some(code) => earliest(
                    fault_if(!self.state.terminal(), "cleanup error requires a terminal status"@),
                    non_nul_fault(code, 128, "cleanup error code"@),
                ),
                None => None,
            },
        )
    }

    /// The first rule that the status breaks.
    pub open spec fn fault(self) -> Option<Seq<char>> {
        earliest(
            identity_pair_fault(
                self.supervisor_pid,
                self.supervisor_start_identity,
                "supervisor"@,
            ),
            earliest(
                identity_pair_fault(self.child_pid, self.child_start_identity, "child"@),
                earliest(
                    fault_if(
                        self.child_pid is Some && self.supervisor_pid is None,
                        "child identity requires a supervisor identity"@,
                    ),
                    earliest(
                        fault_if(
                            self.state == JobState::Running && (self.supervisor_pid is None
                                || self.child_pid is None),
                            "running status requires supervisor and child identities"@,
                        ),
                        earliest(
                            fault_if(
                                (self.final_stdout_bytes is Some) != (self.final_stderr_bytes is Some),
                                "final log lengths must be present together"@,
                            ),
                            earliest(
                                fault_if(
                                    self.state.terminal() != (self.final_stdout_bytes is Some),
                                    "terminal status must bind both final log lengths"@,
                                ),
                                earliest(self.outcome_fault(), self.codes_fault()),
                            ),
                        ),
                    ),
                ),
            ),
        )
    }

    pub open spec fn valid(self) -> bool {
        self.fault() is None
    }

    pub open spec fn supervisor(self) -> Option<ProcessIdentity> {
        paired(self.supervisor_pid, self.supervisor_start_identity)
    }

    pub open spec fn child(self) -> Option<ProcessIdentity> {
        paired(self.child_pid, self.child_start_identity)
    }

    /// An accepted status may gain one process identity at a time.
    pub open spec fn enriches_by_one(self, next: StatusModel) -> bool {
        let supervisor_added = self.supervisor_pid is None && next.supervisor_pid is Some;
        let child_added = self.child_pid is None && next.child_pid is Some;
        &&& supervisor_added != child_added
        &&& self.exit_code == next.exit_code
        &&& self.terminating_signal == next.terminating_signal
        &&& self.error_code == next.error_code
        &&& self.cleanup_error_code == next.cleanup_error_code
    }

    /// An ended job may gain a cleanup error once, and nothing else.
    pub open spec fn gains_cleanup_error(self, next: StatusModel) -> bool {
        &&& self.cleanup_error_code is None
        &&& next.cleanup_error_code is Some
        &&& self.exit_code == next.exit_code
        &&& self.terminating_signal == next.terminating_signal
        &&& self.final_stdout_bytes == next.final_stdout_bytes
        &&& self.final_stderr_bytes == next.final_stderr_bytes
        &&& self.error_code == next.error_code
    }

    /// The rule that a step between two valid statuses breaks.
    pub open spec fn step_fault(self, next: StatusModel) -> Option<Seq<char>> {
        if self.state == JobState::Accepted && next.state == JobState::Accepted {
            fault_if(
                !self.enriches_by_one(next),
                "accepted identity enrichment must add exactly one process identity"@,
            )
        } else {
            earliest(
                fault_if(
                    self.supervisor() != next.supervisor() || self.child() != next.child(),
                    "process identities may change only during accepted enrichment"@,
                ),
                if self.state.terminal() && self.state == next.state {
                    fault_if(
                        !self.gains_cleanup_error(next),
                        "terminal status permits only one cleanup-error enrichment"@,
                    )
                } else {
                    fault_if(
                        !self.state.may_become(next.state),
                        "job state transition is not allowed"@,
                    )
                },
            )
        }
    }

    /// The first rule that a change from this status to `next` breaks.
    pub open spec fn transition_fault(self, next: StatusModel) -> Option<Seq<char>> {
        earliest(
            self.fault(),
            earliest(
                next.fault(),
                earliest(
                    fault_if(
                        next.updated_at_millis < self.updated_at_millis,
                        "job status timestamp moved backwards"@,
                    ),
                    earliest(
                        sticky_fault(self.supervisor(), next.supervisor(), "supervisor"@),
                        earliest(
                            sticky_fault(self.child(), next.child(), "child"@),
                            self.step_fault(next),
                        ),
                    ),
                ),
            ),
        )
    }

    /// `next` is a status that may follow this one.
    pub open spec fn may_precede(self, next: StatusModel) -> bool {
        self.transition_fault(next) is None
    }

    /// The first fault of proposing `next` as the following status.
    pub open spec fn proposal_fault(self, next: StatusModel) -> Option<Seq<char>> {
        earliest(next.fault(), self.transition_fault(next))
    }

    pub open spec fn supervised(self, identity: ProcessIdentity, at: u64) -> StatusModel {
        StatusModel {
            updated_at_millis: at,
            supervisor_pid: Some(identity.pid),
            supervisor_start_identity: Some(identity.start_time_micros),
            ..self
        }
    }

    pub open spec fn with_child_process(self, identity: ProcessIdentity, at: u64) -> StatusModel {
        StatusModel {
            updated_at_millis: at,
            child_pid: Some(identity.pid),
            child_start_identity: Some(identity.start_time_micros),
            ..self
        }
    }

    pub open spec fn started(self, at: u64) -> StatusModel {
        StatusModel {
            state: JobState::Running,
            updated_at_millis: at,
            exit_code: None,
            terminating_signal: None,
            final_stdout_bytes: None,
            final_stderr_bytes: None,
            error_code: None,
            cleanup_error_code: None,
            ..self
        }
    }

    /// This job's status once it has ended.
    pub open spec fn ended(
        self,
        state: JobState,
        at: u64,
        exit_code: Option<u8>,
        signal: Option<u32>,
        stdout: u64,
        stderr: u64,
        error_code: Option<Seq<char>>,
    ) -> StatusModel {
        StatusModel {
            state,
            updated_at_millis: at,
            exit_code,
            terminating_signal: signal,
            final_stdout_bytes: Some(stdout),
            final_stderr_bytes: Some(stderr),
            error_code,
            cleanup_error_code: None,
            ..self
        }
    }

    pub open spec fn uncleaned(self, code: Seq<char>, at: u64) -> StatusModel {
        StatusModel { updated_at_millis: at, cleanup_error_code: Some(code), ..self }
    }
}

/// What a constructor of a status gives: the proposed status where it is free
/// of faults.
pub open spec fn status_outcome(
    result: Result<JobStatus, WorkerError>,
    fault: Option<Seq<char>>,
    status: StatusModel,
) -> bool {
    outcome_of(result, fault) && (result matches Ok(made) ==> made@ == status)
}

/// A status with no process, outcome or code.
pub open spec fn bare_status(state: JobState, at: u64) -> StatusModel {
    StatusModel {
        state,
        updated_at_millis: at,
        supervisor_pid: None,
        supervisor_start_identity: None,
        child_pid: None,
        child_start_identity: None,
        exit_code: None,
        terminating_signal: None,
        final_stdout_bytes: None,
        final_stderr_bytes: None,
        error_code: None,
        cleanup_error_code: None,
    }
}

impl JobStatus {
    pub fn accepted(updated_at_millis: u64) -> (result: Result<JobStatus, WorkerError>)
        ensures
            result matches Ok(status) && status@ == bare_status(
                JobState::Accepted,
                updated_at_millis,
            ),
    {
        JobStatus::new(
            JobState::Accepted,
            updated_at_millis,
            None,
            None,
            None,
            None,
            None,
            None,
            None,
            None,
            None,
            None,
        )
    }

    pub fn running(
        updated_at_millis: u64,
        supervisor_pid: u32,
        supervisor_start_identity: u64,
        child_pid: u32,
        child_start_identity: u64,
    ) -> (result: Result<JobStatus, WorkerError>)
        ensures
            ({
                let status = StatusModel {
                    supervisor_pid: Some(supervisor_pid),
                    supervisor_start_identity: Some(supervisor_start_identity),
                    child_pid: Some(child_pid),
                    child_start_identity: Some(child_start_identity),
                    ..bare_status(JobState::Running, updated_at_millis)
                };
                status_outcome(result, status.fault(), status)
            }),
    {
        JobStatus::new(
            JobState::Running,
            updated_at_millis,
            Some(supervisor_pid),
            Some(supervisor_start_identity),
            Some(child_pid),
            Some(child_start_identity),
            None,
            None,
            None,
            None,
            None,
            None,
        )
    }

    pub fn succeeded(updated_at_millis: u64, stdout: u64, stderr: u64) -> (result: Result<
        JobStatus,
        WorkerError,
    >)
        ensures
            result matches Ok(status) && status@ == bare_status(
                JobState::Succeeded,
                updated_at_millis,
            ).ended(
                JobState::Succeeded,
                updated_at_millis,
                Some(0u8),
                None,
                stdout,
                stderr,
                None,
            ),
    {
        JobStatus::new(
            JobState::Succeeded,
            updated_at_millis,
            None,
            None,
            None,
            None,
            Some(0),
            None,
            Some(stdout),
            Some(stderr),
            None,
            None,
        )
    }

    /// A failed exit; the code must not be zero.
    pub fn failed(updated_at_millis: u64, code: u8, stdout: u64, stderr: u64) -> (result: Result<
        JobStatus,
        WorkerError,
    >)
        ensures
            status_outcome(
                result,
                fault_if(
                    code == 0,
                    "failed status requires exactly one nonzero command outcome"@,
                ),
                bare_status(JobState::Failed, updated_at_millis).ended(
                    JobState::Failed,
                    updated_at_millis,
                    Some(code),
                    None,
                    stdout,
                    stderr,
                    None,
                ),
            ),
    {
        JobStatus::new(
            JobState::Failed,
            updated_at_millis,
            None,
            None,
            None,
            None,
            Some(code),
            None,
            Some(stdout),
            Some(stderr),
            None,
            None,
        )
    }

    #[allow(clippy::too_many_arguments)]
    pub fn new(
        state: JobState,
        updated_at_millis: u64,
        supervisor_pid: Option<u32>,
        supervisor_start_identity: Option<u64>,
        child_pid: Option<u32>,
        child_start_identity: Option<u64>,
        exit_code: Option<u8>,
        terminating_signal: Option<u32>,
        final_stdout_bytes: Option<u64>,
        final_stderr_bytes: Option<u64>,
        error_code: Option<String>,
        cleanup_error_code: Option<String>,
    ) -> (result: Result<JobStatus, WorkerError>)
        ensures
            ({
                let status = StatusModel {
                    state,
                    updated_at_millis,
                    supervisor_pid,
                    supervisor_start_identity,
                    child_pid,
                    child_start_identity,
                    exit_code,
                    terminating_signal,
                    final_stdout_bytes,
                    final_stderr_bytes,
                    error_code: opt_text(error_code),
                    cleanup_error_code: opt_text(cleanup_error_code),
                };
                status_outcome(result, status.fault(), status)
            }),
    {
        let status = JobStatus {
            state,
            updated_at_millis,
            supervisor_pid,
            supervisor_start_identity,
            child_pid,
            child_start_identity,
            exit_code,
            terminating_signal,
            final_stdout_bytes,
            final_stderr_bytes,
            error_code,
            cleanup_error_code,
        };
        status.validate()?;
        Ok(status)
    }

    pub fn validate(&self) -> (result: Result<(), WorkerError>)
        ensures
            outcome_of(result, self@.fault()),
    {
        validate_identity_pair(self.supervisor_pid, self.supervisor_start_identity, "supervisor")?;
        validate_identity_pair(self.child_pid, self.child_start_identity, "child")?;
        if self.child_pid.is_some() && self.supervisor_pid.is_none() {
            return Err(protocol_error("child identity requires a supervisor identity"));
        }
        if self.state == JobState::Running && (self.supervisor_pid.is_none()
            || self.child_pid.is_none()) {
            return Err(protocol_error("running status requires supervisor and child identities"));
        }
        if self.final_stdout_bytes.is_some() != self.final_stderr_bytes.is_some() {
            return Err(protocol_error("final log lengths must be present together"));
        }
        if self.state.is_terminal() != self.final_stdout_bytes.is_some() {
            return Err(protocol_error("terminal status must bind both final log lengths"));
        }
        match self.state {
            JobState::Succeeded => {
                if self.exit_code != Some(0u8) || self.terminating_signal.is_some() {
                    return Err(protocol_error("succeeded status requires exit code zero"));
                }
            },
            JobState::Failed => {
                let single = match (self.exit_code, self.terminating_signal) {
                    (Some(code), None) => code != 0,
                    (None, Some(signal)) => signal != 0,
                    _ => false,
                };
                if !single {
                    return Err(
                        protocol_error("failed status requires exactly one nonzero command outcome"),
                    );
                }
            },
            _ => {
                if self.exit_code.is_some() || self.terminating_signal.is_some() {
                    return Err(
                        protocol_error("only command outcomes may include an exit code or signal"),
                    );
                }
            },
        }
        if let Some(code) = &self.error_code {
            validate_non_nul(code.as_str(), 128, "status error code")?;
        }
        if let Some(code) = &self.cleanup_error_code {
            if !self.state.is_terminal() {
                return Err(protocol_error("cleanup error requires a terminal status"));
            }
            validate_non_nul(code.as_str(), 128, "cleanup error code")?;
        }
        Ok(())
    }

    /// Whether `next` may follow this status.
    pub fn transition(&self, next: JobStatus) -> (result: Result<(), WorkerError>)
        ensures
            outcome_of(result, self@.transition_fault(next@)),
    {
        self.validate()?;
        next.validate()?;
        if next.updated_at_millis < self.updated_at_millis {
            return Err(protocol_error("job status timestamp moved backwards"));
        }
        let supervisor = self.supervisor_identity();
        let next_supervisor = next.supervisor_identity();
        let child = self.child_identity();
        let next_child = next.child_identity();
        require_sticky_identity(supervisor, next_supervisor, "supervisor")?;
        require_sticky_identity(child, next_child, "child")?;
        if self.state == JobState::Accepted && next.state == JobState::Accepted {
            let supervisor_added = self.supervisor_pid.is_none() && next.supervisor_pid.is_some();
            let child_added = self.child_pid.is_none() && next.child_pid.is_some();
            if supervisor_added == child_added || self.exit_code != next.exit_code
                || self.terminating_signal != next.terminating_signal || !opt_text_eq(
                &self.error_code,
                &next.error_code,
            ) || !opt_text_eq(&self.cleanup_error_code, &next.cleanup_error_code) {
                return Err(
                    protocol_error(
                        "accepted identity enrichment must add exactly one process identity",
                    ),
                );
            }
            return Ok(());
        }
        if supervisor != next_supervisor || child != next_child {
            return Err(
                protocol_error("process identities may change only during accepted enrichment"),
            );
        }
        if self.state.is_terminal() && self.state == next.state {
            if self.cleanup_error_code.is_none() && next.cleanup_error_code.is_some()
                && self.exit_code == next.exit_code && self.terminating_signal
                == next.terminating_signal && self.final_stdout_bytes == next.final_stdout_bytes
                && self.final_stderr_bytes == next.final_stderr_bytes && opt_text_eq(
                &self.error_code,
                &next.error_code,
            ) {
                return Ok(());
            }
            return Err(
                protocol_error("terminal status permits only one cleanup-error enrichment"),
            );
        }
        if !self.state.can_transition_to(next.state) {
            return Err(protocol_error("job state transition is not allowed"));
        }
        Ok(())
    }

    /// The next status, where it may follow this one.
    fn propose(&self, next: JobStatus) -> (result: Result<JobStatus, WorkerError>)
        ensures
            status_outcome(result, self@.proposal_fault(next@), next@),
    {
        next.validate()?;
        self.transition(next.clone())?;
        Ok(next)
    }

    pub fn with_supervisor(&self, identity: ProcessIdentity, updated_at_millis: u64) -> (result:
        Result<JobStatus, WorkerError>)
        ensures
            ({
                let next = self@.supervised(identity, updated_at_millis);
                status_outcome(
                    result,
                    earliest(
                        identity.fault(),
                        earliest(
                            fault_if(
                                self.state != JobState::Accepted || self.supervisor_pid is Some,
                                "supervisor identity may enrich accepted status once"@,
                            ),
                            self@.proposal_fault(next),
                        ),
                    ),
                    next,
                )
            }),
    {
        identity.validate()?;
        if self.state != JobState::Accepted || self.supervisor_pid.is_some() {
            return Err(protocol_error("supervisor identity may enrich accepted status once"));
        }
        let mut next = self.clone();
        next.updated_at_millis = updated_at_millis;
        next.supervisor_pid = Some(identity.pid);
        next.supervisor_start_identity = Some(identity.start_time_micros);
        self.propose(next)
    }

    pub fn with_child(&self, identity: ProcessIdentity, updated_at_millis: u64) -> (result: Result<
        JobStatus,
        WorkerError,
    >)
        ensures
            ({
                let next = self@.with_child_process(identity, updated_at_millis);
                status_outcome(
                    result,
                    earliest(
                        identity.fault(),
                        earliest(
                            fault_if(
                                self.state != JobState::Accepted || self.supervisor_pid is None
                                    || self.child_pid is Some,
                                "child identity may enrich supervised accepted status once"@,
                            ),
                            self@.proposal_fault(next),
                        ),
                    ),
                    next,
                )
            }),
    {
        identity.validate()?;
        if self.state != JobState::Accepted || self.supervisor_pid.is_none()
            || self.child_pid.is_some() {
            return Err(protocol_error("child identity may enrich supervised accepted status once"));
        }
        let mut next = self.clone();
        next.updated_at_millis = updated_at_millis;
        next.child_pid = Some(identity.pid);
        next.child_start_identity = Some(identity.start_time_micros);
        self.propose(next)
    }

    pub fn into_running(&self, updated_at_millis: u64) -> (result: Result<JobStatus, WorkerError>)
        ensures
            ({
                let next = self@.started(updated_at_millis);
                status_outcome(result, self@.proposal_fault(next), next)
            }),
    {
        let next = JobStatus {
            state: JobState::Running,
            updated_at_millis,
            supervisor_pid: self.supervisor_pid,
            supervisor_start_identity: self.supervisor_start_identity,
            child_pid: self.child_pid,
            child_start_identity: self.child_start_identity,
            exit_code: None,
            terminating_signal: None,
            final_stdout_bytes: None,
            final_stderr_bytes: None,
            error_code: None,
            cleanup_error_code: None,
        };
        self.propose(next)
    }

    pub fn into_succeeded(&self, updated_at_millis: u64, stdout: u64, stderr: u64) -> (result:
        Result<JobStatus, WorkerError>)
        ensures
            ({
                let next = self@.ended(
                    JobState::Succeeded,
                    updated_at_millis,
                    Some(0u8),
                    None,
                    stdout,
                    stderr,
                    None,
                );
                status_outcome(result, self@.proposal_fault(next), next)
            }),
    {
        self.transition_to_terminal(
            JobState::Succeeded,
            updated_at_millis,
            Some(0),
            None,
            stdout,
            stderr,
            None,
        )
    }

    pub fn into_failed_exit(
        &self,
        updated_at_millis: u64,
        exit_code: u8,
        stdout: u64,
        stderr: u64,
    ) -> (result: Result<JobStatus, WorkerError>)
        ensures
            ({
                let next = self@.ended(
                    JobState::Failed,
                    updated_at_millis,
                    Some(exit_code),
                    None,
                    stdout,
                    stderr,
                    None,
                );
                status_outcome(result, self@.proposal_fault(next), next)
            }),
    {
        self.transition_to_terminal(
            JobState::Failed,
            updated_at_millis,
            Some(exit_code),
            None,
            stdout,
            stderr,
            None,
        )
    }

    pub fn into_failed_signal(&self, updated_at_millis: u64, signal: u32, stdout: u64, stderr: u64) -> (
    result: Result<JobStatus, WorkerError>)
        ensures
            ({
                let next = self@.ended(
                    JobState::Failed,
                    updated_at_millis,
                    None,
                    Some(signal),
                    stdout,
                    stderr,
                    None,
                );
                status_outcome(result, self@.proposal_fault(next), next)
            }),
    {
        self.transition_to_terminal(
            JobState::Failed,
            updated_at_millis,
            None,
            Some(signal),
            stdout,
            stderr,
            None,
        )
    }

    /// An end that no command outcome caused.
    pub fn into_infrastructure_terminal(
        &self,
        state: JobState,
        updated_at_millis: u64,
        stdout: u64,
        stderr: u64,
        error_code: String,
    ) -> (result: Result<JobStatus, WorkerError>)
        ensures
            ({
                let next = self@.ended(
                    state,
                    updated_at_millis,
                    None,
                    None,
                    stdout,
                    stderr,
                    Some(error_code@),
                );
                status_outcome(
                    result,
                    earliest(
                        fault_if(
                            !(state == JobState::Cancelled || state == JobState::TimedOut || state
                                == JobState::Lost),
                            "infrastructure terminal constructor requires a non-command terminal state"@,
                        ),
                        self@.proposal_fault(next),
                    ),
                    next,
                )
            }),
    {
        match state {
            JobState::Cancelled | JobState::TimedOut | JobState::Lost => {},
            _ => {
                return Err(
                    protocol_error(
                        "infrastructure terminal constructor requires a non-command terminal state",
                    ),
                );
            },
        }
        self.transition_to_terminal(
            state,
            updated_at_millis,
            None,
            None,
            stdout,
            stderr,
            Some(error_code),
        )
    }

    /// Marks an accepted job whose child was never durably recorded as
    /// cancelled. Query validation recognizes this one ended shape without a
    /// child as the launch fence's outcome.
    pub fn into_prelaunch_cancelled(&self, updated_at_millis: u64, stdout: u64, stderr: u64) -> (
    result: Result<JobStatus, WorkerError>)
        ensures
            ({
                let next = self@.ended(
                    JobState::Cancelled,
                    updated_at_millis,
                    None,
                    None,
                    stdout,
                    stderr,
                    Some("CANCELLED_PRELAUNCH"@),
                );
                status_outcome(
                    result,
                    earliest(
                        fault_if(
                            self.state != JobState::Accepted || self@.child() is Some,
                            "prelaunch cancellation requires accepted status without a child identity"@,
                        ),
                        self@.proposal_fault(next),
                    ),
                    next,
                )
            }),
    {
        if self.state != JobState::Accepted || self.child_identity().is_some() {
            return Err(
                protocol_error(
                    "prelaunch cancellation requires accepted status without a child identity",
                ),
            );
        }
        self.transition_to_terminal(
            JobState::Cancelled,
            updated_at_millis,
            None,
            None,
            stdout,
            stderr,
            Some("CANCELLED_PRELAUNCH".to_owned()),
        )
    }

    #[allow(clippy::too_many_arguments)]
    fn transition_to_terminal(
        &self,
        state: JobState,
        updated_at_millis: u64,
        exit_code: Option<u8>,
        terminating_signal: Option<u32>,
        stdout: u64,
        stderr: u64,
        error_code: Option<String>,
    ) -> (result: Result<JobStatus, WorkerError>)
        ensures
            ({
                let next = self@.ended(
                    state,
                    updated_at_millis,
                    exit_code,
                    terminating_signal,
                    stdout,
                    stderr,
                    opt_text(error_code),
                );
                status_outcome(result, self@.proposal_fault(next), next)
            }),
    {
        let next = JobStatus {
            state,
            updated_at_millis,
            supervisor_pid: self.supervisor_pid,
            supervisor_start_identity: self.supervisor_start_identity,
            child_pid: self.child_pid,
            child_start_identity: self.child_start_identity,
            exit_code,
            terminating_signal,
            final_stdout_bytes: Some(stdout),
            final_stderr_bytes: Some(stderr),
            error_code,
            cleanup_error_code: None,
        };
        self.propose(next)
    }

    pub fn with_cleanup_error(&self, cleanup_error_code: String, updated_at_millis: u64) -> (result:
        Result<JobStatus, WorkerError>)
        ensures
            ({
                let next = self@.uncleaned(cleanup_error_code@, updated_at_millis);
                status_outcome(
                    result,
                    earliest(
                        fault_if(
                            !self.state.terminal() || self.cleanup_error_code is Some,
                            "cleanup error may enrich a terminal status once"@,
                        ),
                        self@.proposal_fault(next),
                    ),
                    next,
                )
            }),
    {
        if !self.state.is_terminal() || self.cleanup_error_code.is_some() {
            return Err(protocol_error("cleanup error may enrich a terminal status once"));
        }
        let mut next = self.clone();
        next.updated_at_millis = updated_at_millis;
        next.cleanup_error_code = Some(cleanup_error_code);
        self.propose(next)
    }

    pub fn supervisor_identity(&self) -> (identity: Option<ProcessIdentity>)
        ensures
            identity == self@.supervisor(),
    {
        pair_identity(self.supervisor_pid, self.supervisor_start_identity)
    }

    pub fn child_identity(&self) -> (identity: Option<ProcessIdentity>)
        ensures
            identity == self@.child(),
    {
        pair_identity(self.child_pid, self.child_start_identity)
    }

    pub fn state(&self) -> (value: JobState)
        ensures
            value == self.state,
    {
        self.state
    }

    pub fn updated_at_millis(&self) -> (value: u64)
        ensures
            value == self.updated_at_millis,
    {
        self.updated_at_millis
    }

    pub fn final_stdout_bytes(&self) -> (value: Option<u64>)
        ensures
            value == self.final_stdout_bytes,
    {
        self.final_stdout_bytes
    }

    pub fn final_stderr_bytes(&self) -> (value: Option<u64>)
        ensures
            value == self.final_stderr_bytes,
    {
        self.final_stderr_bytes
    }

    pub fn exit_code(&self) -> (value: Option<u8>)
        ensures
            value == self.exit_code,
    {
        self.exit_code
    }

    pub fn terminating_signal(&self) -> (value: Option<u32>)
        ensures
            value == self.terminating_signal,
    {
        self.terminating_signal
    }

    pub fn error_code(&self) -> (value: Option<&str>)
        ensures
            (match value { Some(text) => Some(text@), None => None }) == opt_text(self.error_code),
    {
        match &self.error_code {
            Some(text) => Some(text.as_str()),
            None => None,
        }
    }

    pub fn cleanup_error_code(&self) -> (value: Option<&str>)
        ensures
            (match value { Some(text) => Some(text@), None => None }) == opt_text(self.cleanup_error_code),
    {
        match &self.cleanup_error_code {
            Some(text) => Some(text.as_str()),
            None => None,
        }
    }

}

/// A job that has ended never leaves its state again: the only change that may
/// follow is a first cleanup error.
pub proof fn ended_jobs_stay_ended(status: StatusModel, next: StatusModel)
    requires
        status.may_precede(next),
        status.state.terminal(),
    ensures
        next.state == status.state,
        status.gains_cleanup_error(next),
        next.supervisor() == status.supervisor(),
        next.child() == status.child(),
        forall|later: StatusModel| !next.may_precede(later),
{
}

/// Along every allowed change time does not run backwards, and a process
/// identity once recorded is kept.
pub proof fn recorded_identities_are_kept(status: StatusModel, next: StatusModel)
    requires
        status.may_precede(next),
    ensures
        status.valid(),
        next.valid(),
        status.updated_at_millis <= next.updated_at_millis,
        status.supervisor() is Some ==> next.supervisor() == status.supervisor(),
        status.child() is Some ==> next.child() == status.child(),
        next.state == status.state || status.state.may_become(next.state),
{
}

/// The same over a whole history: it ends no earlier than it began, with every
/// process identity of its beginning, and in the state that it began in if
/// that one was terminal.
pub proof fn histories_keep_identities(history: Seq<StatusModel>)
    requires
        history.len() > 0,
        forall|i: int|
            0 <= i < history.len() - 1 ==> (#[trigger] history[i]).may_precede(history[i + 1]),
    ensures
        history[0].updated_at_millis <= history.last().updated_at_millis,
        history[0].supervisor() is Some ==> history.last().supervisor() == history[0].supervisor(),
        history[0].child() is Some ==> history.last().child() == history[0].child(),
        history[0].state.terminal() ==> history.last().state == history[0].state && history.len()
            <= 2,
    decreases history.len(),
{
    if history.len() > 1 {
        let earlier = history.drop_last();
        assert forall|i: int| 0 <= i < earlier.len() - 1 implies (#[trigger] earlier[i]).may_precede(
            earlier[i + 1],
        ) by {
            assert(history[i].may_precede(history[i + 1]));
        }
        histories_keep_identities(earlier);
        let at = history.len() - 2;
        assert(history[at].may_precede(history[at + 1]));
        recorded_identities_are_kept(history[at], history[at + 1]);
        if history[0].state.terminal() {
            ended_jobs_stay_ended(history[at], history[at + 1]);
            if history.len() > 2 {
                assert(history[at - 1].may_precede(history[at]));
                ended_jobs_stay_ended(history[0], history[1]);
            }
        }
    }
}

/// A valid status has ended exactly where it binds both log lengths, runs only
/// under a recorded supervisor with a recorded child, and reports an exit code
/// or a signal only for a command that ended by itself.
pub proof fn valid_statuses_are_complete(status: StatusModel)
    requires
        status.valid(),
    ensures
        status.state.terminal() <==> status.final_stdout_bytes is Some,
        status.state.terminal() <==> status.final_stderr_bytes is Some,
        status.state == JobState::Running ==> status.supervisor() is Some && status.child() is Some,
        status.child() is Some ==> status.supervisor() is Some,
        status.exit_code is Some || status.terminating_signal is Some ==> status.state
            == JobState::Succeeded || status.state == JobState::Failed,
        status.exit_code is None || status.terminating_signal is None,
        status.cleanup_error_code is Some ==> status.state.terminal(),
{
}

} // verus!
