//! Errors that the library reports.
use vstd::prelude::*;

verus! {

/// Every way in which a request, a record or a host can be refused.
///
/// `code` is a stable identifier for programs; messages are for people. A
/// capacity message may leave the host only where `public` is set.
#[derive(Debug)]
pub enum WorkerError {
    Config(String),
    Protocol(String),
    Unavailable(String),
    Transport { code: &'static str, message: String },
    Capacity { code: &'static str, message: String, public: bool },
    Snapshot { code: &'static str, message: String },
    Git { code: &'static str, message: String },
    Task { code: &'static str, message: String },
    Agent { code: &'static str, message: String },
    /// A host file operation failed, with the receipt's text for the laptop.
    HostIo { receipt: String },
    Io,
}

/// What a command's exit reports to its caller.
#[derive(Debug, Clone, Copy, PartialEq, Eq, Structural)]
pub enum ExitKind {
    Usage,
    Unavailable,
    Infrastructure,
    Io,
}

impl WorkerError {
    /// An admission refusal whose reason is fixed text that people may see.
    pub fn capacity(code: &'static str, message: &str) -> (error: WorkerError)
        ensures
            capacity_refusal(error, code@, message@),
    {
        WorkerError::Capacity { code, message: message.to_owned(), public: true }
    }

    pub fn task(code: &'static str, message: &str) -> (error: WorkerError)
        ensures
            task_refusal(error, code@, message@),
    {
        WorkerError::Task { code, message: message.to_owned() }
    }
}

/// `error` is a protocol error with exactly this text.
pub open spec fn protocol_refusal(error: WorkerError, message: Seq<char>) -> bool {
    error matches WorkerError::Protocol(text) && text@ == message
}

/// `error` is a configuration error with exactly this text.
pub open spec fn config_refusal(error: WorkerError, message: Seq<char>) -> bool {
    error matches WorkerError::Config(text) && text@ == message
}

/// `error` is a public capacity refusal with exactly this code and reason.
pub open spec fn capacity_refusal(error: WorkerError, code: Seq<char>, message: Seq<char>) -> bool {
    error matches WorkerError::Capacity { code: c, message: m, public } && c@ == code && m@ == message
        && public
}

/// `error` is a task error with exactly this code and text.
pub open spec fn task_refusal(error: WorkerError, code: Seq<char>, message: Seq<char>) -> bool {
    error matches WorkerError::Task { code: c, message: m } && c@ == code && m@ == message
}

/// The text of a protocol error that leads with a stable code.
pub open spec fn coded(code: Seq<char>, message: Seq<char>) -> Seq<char> {
    code + ": "@ + message
}

/// A check's outcome: success where there is no fault, else the protocol error
/// that carries the fault's text.
pub open spec fn outcome_of<T>(result: Result<T, WorkerError>, fault: Option<Seq<char>>) -> bool {
    match fault {
        None => result is Ok,
        Some(message) => result matches Err(error) && protocol_refusal(error, message),
    }
}

/// The first of two faults, in the order in which the checks run.
pub open spec fn earliest(first: Option<Seq<char>>, rest: Option<Seq<char>>) -> Option<Seq<char>> {
    if first is Some {
        first
    } else {
        rest
    }
}

/// The fault of a check that fails exactly where `bad` holds.
pub open spec fn fault_if(bad: bool, message: Seq<char>) -> Option<Seq<char>> {
    if bad {
        Some(message)
    } else {
        None
    }
}

pub fn protocol_error(message: &str) -> (error: WorkerError)
    ensures
        protocol_refusal(error, message@),
{
    WorkerError::Protocol(message.to_owned())
}

/// A protocol error whose text leads with a stable code.
pub fn protocol_code(code: &str, message: &str) -> (error: WorkerError)
    ensures
        protocol_refusal(error, coded(code@, message@)),
{
    WorkerError::Protocol(code.to_owned().concat(": ").concat(message))
}

/// A protocol error about a labelled value.
pub fn labelled_error(label: &str, complaint: &str) -> (error: WorkerError)
    ensures
        protocol_refusal(error, label@ + complaint@),
{
    WorkerError::Protocol(label.to_owned().concat(complaint))
}

} // verus!
