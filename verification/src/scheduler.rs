//! What the scheduler knows of workers.
use vstd::prelude::*;
use crate::error::{fault_if, outcome_of, protocol_error, WorkerError};
use crate::text::text_eq;

verus! {

/// Which worker a queue entry may run on.
#[derive(Debug, PartialEq, Eq)]
pub enum WorkerPreference {
    Automatic,
    Pinned { worker: String },
}

/// Whether a worker had a free slot when it was last seen.
#[derive(Debug, Clone, Copy, PartialEq, Eq, Structural)]
pub enum CandidateSlot {
    Idle,
    Busy,
}

impl CandidateSlot {
    pub open spec fn spelling(self) -> Seq<char> {
        match self {
            CandidateSlot::Idle => "idle"@,
            CandidateSlot::Busy => "busy"@,
        }
    }

    /// The word that stands for the slot where it is written down.
    pub fn name(self) -> (name: &'static str)
        ensures
            name@ == self.spelling(),
    {
        match self {
            CandidateSlot::Idle => "idle",
            CandidateSlot::Busy => "busy",
        }
    }

    /// The slot that a written word stands for.
    pub fn from_text(value: &str) -> (result: Result<CandidateSlot, WorkerError>)
        ensures
            outcome_of(
                result,
                fault_if(
                    value@ != "idle"@ && value@ != "busy"@,
                    "admission observation slot is invalid"@,
                ),
            ),
            result matches Ok(slot) ==> slot.spelling() == value@,
    {
        if text_eq(value, "idle") {
            Ok(CandidateSlot::Idle)
        } else if text_eq(value, "busy") {
            Ok(CandidateSlot::Busy)
        } else {
            Err(protocol_error("admission observation slot is invalid"))
        }
    }
}

/// A written slot reads back: no two slots are written alike.
pub proof fn slots_are_told_apart(left: CandidateSlot, right: CandidateSlot)
    requires
        left.spelling() == right.spelling(),
    ensures
        left == right,
{
    reveal_strlit("idle");
    reveal_strlit("busy");
    assert("idle"@[0] == 'i' && "busy"@[0] == 'b');
}

} // verus!
