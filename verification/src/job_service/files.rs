//! The files of a job: how they are read, and what a new job is given.
use vstd::prelude::*;
use crate::error::{fault_if, outcome_of, protocol_error, WorkerError};
use crate::job_service::evidence::{
    has_layout, job_entries, lists, lists_exactly, lists_only, turn_entries,
};
use crate::text::bytes_eq;

verus! {

/// A JSON file of a job, as it was read.
pub enum JobJson<T> {
    Invalid,
    /// Something follows the value.
    Trailing,
    /// The value cannot be written again.
    Unwritable,
    /// The value, the file's bytes and the value written again.
    Parsed { value: T, bytes: Vec<u8>, rewritten: Vec<u8> },
}

impl<T> JobJson<T> {
    /// A file counts only where it is what would be written for its value.
    pub open spec fn fault(&self) -> Option<Seq<char>> {
        match self {
            JobJson::Invalid => Some("canonical job JSON is invalid"@),
            JobJson::Trailing => Some("canonical job JSON has trailing data"@),
            JobJson::Unwritable => Some("host JSON serialization failed"@),
            JobJson::Parsed { value, bytes, rewritten } => fault_if(
                rewritten@ != bytes@,
                "canonical job JSON has a non-canonical encoding"@,
            ),
        }
    }
}

/// The value of a canonical file.
pub fn read_canonical_json<T>(file: JobJson<T>) -> (result: Result<T, WorkerError>)
    ensures
        outcome_of(result, file.fault()),
        result matches Ok(value) ==> file matches JobJson::Parsed { value: held, .. } && value
            == held,
{
    match file {
        JobJson::Invalid => Err(protocol_error("canonical job JSON is invalid")),
        JobJson::Trailing => Err(protocol_error("canonical job JSON has trailing data")),
        JobJson::Unwritable => Err(protocol_error("host JSON serialization failed")),
        JobJson::Parsed { value, bytes, rewritten } => {
            if !bytes_eq(rewritten.as_slice(), bytes.as_slice()) {
                return Err(protocol_error("canonical job JSON has a non-canonical encoding"));
            }
            Ok(value)
        },
    }
}

/// How often a file that is being replaced is read again.
pub const MUTABLE_READ_ATTEMPTS: u32 = 32;

/// One attempt to read a file that may be replaced meanwhile.
pub enum ReadAttempt<T> {
    /// The file was replaced under the reader.
    Stale,
    Failed { error: WorkerError },
    Read { file: JobJson<T> },
}

/// What a reader does after an attempt.
pub enum MutableRead<T> {
    /// Try again.
    Again,
    Done { result: Result<T, WorkerError> },
}

/// What becomes of one attempt out of [`MUTABLE_READ_ATTEMPTS`]; the first has
/// the number 0.
pub fn read_mutable_canonical_json<T>(number: u32, attempt: ReadAttempt<T>) -> (next: MutableRead<T>)
    ensures
        match attempt {
            ReadAttempt::Stale => if number + 1 < MUTABLE_READ_ATTEMPTS {
                next is Again
            } else {
                next matches MutableRead::Done { result } && result matches Err(WorkerError::Io)
            },
            ReadAttempt::Failed { error } => next matches MutableRead::Done { result } && (
            result matches Err(given) && given == error),
            ReadAttempt::Read { file } => next matches MutableRead::Done { result } && {
                &&& outcome_of(result, file.fault())
                &&& result matches Ok(value) ==> (file matches JobJson::Parsed {
                    value: held,
                    ..
                } && value == held)
            },
        },
{
    match attempt {
        ReadAttempt::Stale => {
            if number < MUTABLE_READ_ATTEMPTS - 1 {
                MutableRead::Again
            } else {
                MutableRead::Done { result: Err(WorkerError::Io) }
            }
        },
        ReadAttempt::Failed { error } => MutableRead::Done { result: Err(error) },
        ReadAttempt::Read { file } => MutableRead::Done { result: read_canonical_json(file) },
    }
}

/// What a new entry of a job's directory holds.
#[derive(Debug, Clone, Copy, PartialEq, Eq, Structural)]
pub enum EntryContent {
    Directory,
    EmptyLog,
    /// The job's identity.
    Meta,
    /// The job's first status.
    Status,
    /// What is to be executed.
    Payload,
    /// The prompt of a turn.
    Prompt,
    /// The form of a turn's result.
    Schema,
}

/// An entry that a new job's directory is given.
#[derive(Debug, Clone, Copy)]
pub struct NewEntry {
    pub name: &'static str,
    pub content: EntryContent,
}

/// The names and contents of a list of entries.
pub open spec fn planned(entries: Seq<NewEntry>) -> Seq<(Seq<char>, EntryContent)> {
    entries.map_values(|entry: NewEntry| (entry.name@, entry.content))
}

/// What a new job's directory is given beside its workspace, in this order.
pub open spec fn job_plan() -> Seq<(Seq<char>, EntryContent)> {
    seq![
        ("home"@, EntryContent::Directory),
        ("tmp"@, EntryContent::Directory),
        ("stdout.log"@, EntryContent::EmptyLog),
        ("stderr.log"@, EntryContent::EmptyLog),
        ("supervisor.log"@, EntryContent::EmptyLog),
        ("meta.json"@, EntryContent::Meta),
        ("status.json"@, EntryContent::Status),
        ("execution.json"@, EntryContent::Payload),
    ]
}

/// What a new turn's directory is given beside the host's marker, in this order.
pub open spec fn turn_plan() -> Seq<(Seq<char>, EntryContent)> {
    seq![
        ("tmp"@, EntryContent::Directory),
        ("stdout.log"@, EntryContent::EmptyLog),
        ("stderr.log"@, EntryContent::EmptyLog),
        ("tail.log"@, EntryContent::EmptyLog),
        ("supervisor.log"@, EntryContent::EmptyLog),
        ("prompt.md"@, EntryContent::Prompt),
        ("result.schema.json"@, EntryContent::Schema),
        ("meta.json"@, EntryContent::Meta),
        ("status.json"@, EntryContent::Status),
        ("execution.json"@, EntryContent::Payload),
    ]
}

pub fn materialize_control_files() -> (entries: Vec<NewEntry>)
    ensures
        planned(entries@) == job_plan(),
{
    let entries = vec![
        NewEntry { name: "home", content: EntryContent::Directory },
        NewEntry { name: "tmp", content: EntryContent::Directory },
        NewEntry { name: "stdout.log", content: EntryContent::EmptyLog },
        NewEntry { name: "stderr.log", content: EntryContent::EmptyLog },
        NewEntry { name: "supervisor.log", content: EntryContent::EmptyLog },
        NewEntry { name: "meta.json", content: EntryContent::Meta },
        NewEntry { name: "status.json", content: EntryContent::Status },
        NewEntry { name: "execution.json", content: EntryContent::Payload },
    ];
    assert(planned(entries@) =~= job_plan());
    entries
}

pub fn materialize_turn_control_files() -> (entries: Vec<NewEntry>)
    ensures
        planned(entries@) == turn_plan(),
{
    let entries = vec![
        NewEntry { name: "tmp", content: EntryContent::Directory },
        NewEntry { name: "stdout.log", content: EntryContent::EmptyLog },
        NewEntry { name: "stderr.log", content: EntryContent::EmptyLog },
        NewEntry { name: "tail.log", content: EntryContent::EmptyLog },
        NewEntry { name: "supervisor.log", content: EntryContent::EmptyLog },
        NewEntry { name: "prompt.md", content: EntryContent::Prompt },
        NewEntry { name: "result.schema.json", content: EntryContent::Schema },
        NewEntry { name: "meta.json", content: EntryContent::Meta },
        NewEntry { name: "status.json", content: EntryContent::Status },
        NewEntry { name: "execution.json", content: EntryContent::Payload },
    ];
    assert(planned(entries@) =~= turn_plan());
    entries
}

/// A directory lists the entries of a plan and one more, and nothing else.
pub open spec fn lists_plan(
    names: Seq<Option<String>>,
    plan: Seq<(Seq<char>, EntryContent)>,
    further: Seq<char>,
) -> bool {
    &&& lists(names, further)
    &&& forall|k: int| 0 <= k < plan.len() ==> lists(names, (#[trigger] plan[k]).0)
    &&& forall|i: int|
        0 <= i < names.len() ==> ((#[trigger] names[i]) matches Some(text) ==> text@ == further
            || exists|k: int| 0 <= k < plan.len() && text@ == (#[trigger] plan[k]).0)
}

/// A directory that lists a plan and one more entry lists exactly the entries
/// that the plan is made of.
proof fn plan_is_listed(
    names: Seq<Option<String>>,
    plan: Seq<(Seq<char>, EntryContent)>,
    further: Seq<char>,
    expected: Seq<Seq<char>>,
)
    requires
        lists_plan(names, plan, further),
        expected.contains(further),
        forall|k: int| 0 <= k < plan.len() ==> expected.contains((#[trigger] plan[k]).0),
        forall|e: int|
            0 <= e < expected.len() ==> (#[trigger] expected[e]) == further || exists|k: int|
                0 <= k < plan.len() && expected[e] == (#[trigger] plan[k]).0,
    ensures
        lists_exactly(names, expected),
{
    assert forall|e: int| 0 <= e < expected.len() implies lists(names, #[trigger] expected[e]) by {
        if expected[e] != further {
            let k = choose|k: int| 0 <= k < plan.len() && expected[e] == (#[trigger] plan[k]).0;
            assert(lists(names, plan[k].0));
        }
    }
    assert(lists_only(names, expected));
}

/// A job that was given everything that a new job is given, and its workspace,
/// has the layout that is asked of a job before it is launched.
pub proof fn new_jobs_can_be_launched(names: Seq<Option<String>>)
    requires
        lists_plan(names, job_plan(), "workspace"@),
    ensures
        has_layout(names, job_entries()),
{
    let expected = job_entries().push("supervisor.log"@);
    let plan = job_plan();
    assert(expected[0] == plan[7].0 && expected[1] == plan[0].0 && expected[2] == plan[5].0);
    assert(expected[3] == plan[6].0 && expected[4] == plan[3].0 && expected[5] == plan[2].0);
    assert(expected[6] == plan[1].0 && expected[7] == "workspace"@ && expected[8] == plan[4].0);
    plan_is_listed(names, plan, "workspace"@, expected);
}

/// So has a turn, with the host's marker.
pub proof fn new_turns_can_be_launched(names: Seq<Option<String>>)
    requires
        lists_plan(names, turn_plan(), ".mac-worker-rooted-fs"@),
    ensures
        has_layout(names, turn_entries()),
{
    let expected = turn_entries().push("supervisor.log"@);
    let plan = turn_plan();
    let marker = ".mac-worker-rooted-fs"@;
    assert(expected[0] == marker && expected[1] == plan[9].0 && expected[2] == plan[7].0);
    assert(expected[3] == plan[5].0 && expected[4] == plan[6].0 && expected[5] == plan[8].0);
    assert(expected[6] == plan[2].0 && expected[7] == plan[1].0 && expected[8] == plan[3].0);
    assert(expected[9] == plan[0].0 && expected[10] == plan[4].0);
    plan_is_listed(names, plan, marker, expected);
}

} // verus!
