//! What tasks and their turns are.
use vstd::prelude::*;
use crate::job::ids::JobId;

verus! {

#[derive(Debug, Clone, Copy, PartialEq, Eq, Structural)]
pub enum TaskState {
    Queued,
    Active,
    Open,
    Closed,
    Abandoned,
    Lost,
}

/// When a task closes by itself.
#[derive(Debug, Clone, Copy, PartialEq, Eq, Structural)]
pub enum ClosePolicy {
    Done,
    Never,
}

#[derive(Debug, Clone, Copy, PartialEq, Eq, Structural)]
pub enum AgentKind {
    Codex,
    Claude,
    Cursor,
    Opencode,
}

/// How a turn ended.
#[derive(Debug, Clone, Copy, PartialEq, Eq, Structural)]
pub enum TurnTerminal {
    Succeeded,
    Failed,
    Cancelled,
    TimedOut,
    Lost,
}

/// What brought a turn to its end.
#[derive(Debug, Clone, Copy, PartialEq, Eq, Structural)]
pub enum TerminalPath {
    ChildExit { code: i32 },
    HostCancel,
    Timeout,
    LostReconciliation,
}

/// The latest turn of a task: the job that runs it and how it ended, if it has.
#[derive(Debug, Clone, Copy, PartialEq, Eq, Structural)]
pub struct LastTurn {
    pub turn_id: JobId,
    pub turn_number: u32,
    pub terminal: Option<TurnTerminal>,
}

/// Where a task stands, as far as its jobs are concerned.
#[derive(Debug, PartialEq, Eq)]
pub struct TaskProgress {
    pub state: TaskState,
    pub last_turn: Option<LastTurn>,
    pub worker: Option<String>,
    pub head_oid: Option<String>,
}

impl TaskProgress {
    /// The latest turn is this one, and it has not ended.
    pub open spec fn pending(&self, turn_id: JobId) -> bool {
        self.last_turn matches Some(turn) && turn.turn_id == turn_id && turn.terminal is None
    }

    /// The latest turn is this one, and it has ended.
    pub open spec fn finished(&self, turn_id: JobId) -> bool {
        self.last_turn matches Some(turn) && turn.turn_id == turn_id && turn.terminal is Some
    }

    pub fn is_pending(&self, turn_id: JobId) -> (pending: bool)
        ensures
            pending == self.pending(turn_id),
    {
        match self.last_turn {
            Some(turn) => turn.turn_id == turn_id && turn.terminal.is_none(),
            None => false,
        }
    }

    pub fn is_finished(&self, turn_id: JobId) -> (finished: bool)
        ensures
            finished == self.finished(turn_id),
    {
        match self.last_turn {
            Some(turn) => turn.turn_id == turn_id && turn.terminal.is_some(),
            None => false,
        }
    }
}

} // verus!
