//! What an error is told by, and which of several faults is reported.
use vstd::prelude::*;
use vstd::string::*;
use crate::error::{
    capacity_refusal, coded, config_refusal, earliest, fault_if, outcome_of, protocol_refusal,
    task_refusal, WorkerError,
};

verus! {

/// An error of a kind is told by its text, and where it has one by its code; a
/// capacity refusal may be shown to people.
pub proof fn errors_are_told_by_their_text(error: WorkerError, code: Seq<char>, message: Seq<char>)
    ensures
        protocol_refusal(error, message) <==> error is Protocol && error->Protocol_0@ == message,
        config_refusal(error, message) <==> error is Config && error->Config_0@ == message,
        capacity_refusal(error, code, message) <==> error is Capacity && error->Capacity_code@
            == code && error->Capacity_message@ == message && error->public,
        task_refusal(error, code, message) <==> error is Task && error->Task_code@ == code
            && error->Task_message@ == message,
        coded(code, message) == code + ": "@ + message,
{
}

/// A check succeeds exactly where there is no fault, and otherwise fails with
/// the fault's text; of two faults the first one is reported.
pub proof fn the_first_fault_is_reported<T>(
    result: Result<T, WorkerError>,
    message: Seq<char>,
    first: Option<Seq<char>>,
    second: Option<Seq<char>>,
    bad: bool,
)
    ensures
        outcome_of(result, None) <==> result is Ok,
        outcome_of(result, Some(message)) <==> result is Err && result->Err_0 is Protocol
            && result->Err_0->Protocol_0@ == message,
        earliest(first, second) is None <==> first is None && second is None,
        earliest(Some(message), second) == Some(message),
        earliest(None, second) == second,
        fault_if(bad, message) is Some <==> bad,
        fault_if(true, message) == Some(message),
{
}

} // verus!
