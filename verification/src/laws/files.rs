//! Files of a job that are read, and those that a new job is given.
use vstd::prelude::*;
use vstd::string::*;
use crate::job_service::files::{
    job_plan, planned, turn_plan, EntryContent, JobJson, NewEntry, MUTABLE_READ_ATTEMPTS,
};

verus! {

/// A file counts exactly where it could be read and is byte for byte what would
/// be written for its value; every other file is refused with its own reason.
pub proof fn canonical_files_count<T>(value: T, bytes: Vec<u8>, rewritten: Vec<u8>, file: JobJson<T>)
    ensures
        file.fault() is None <==> (file matches JobJson::Parsed {
            bytes: held,
            rewritten: again,
            ..
        } && held@ == again@),
        (JobJson::Parsed { value, bytes, rewritten }).fault() == if bytes@ == rewritten@ {
            None
        } else {
            Some("canonical job JSON has a non-canonical encoding"@)
        },
        JobJson::<T>::Invalid.fault() == Some("canonical job JSON is invalid"@),
        JobJson::<T>::Trailing.fault() == Some("canonical job JSON has trailing data"@),
        JobJson::<T>::Unwritable.fault() == Some("host JSON serialization failed"@),
        MUTABLE_READ_ATTEMPTS == 32,
{
}

/// A list of entries plans each entry's name and content in its place.
pub proof fn entries_are_planned(entries: Seq<NewEntry>, at: int)
    requires
        0 <= at < entries.len(),
    ensures
        planned(entries).len() == entries.len(),
        planned(entries)[at] == (entries[at].name@, entries[at].content),
{
}

/// A new job gets a home and a place for temporary files, its three empty logs,
/// and then its records, the order to execute last.
pub proof fn new_jobs_get_their_files()
    ensures
        job_plan().len() == 8,
        job_plan()[0] == ("home"@, EntryContent::Directory),
        job_plan()[1] == ("tmp"@, EntryContent::Directory),
        job_plan()[2] == ("stdout.log"@, EntryContent::EmptyLog),
        job_plan()[3] == ("stderr.log"@, EntryContent::EmptyLog),
        job_plan()[4] == ("supervisor.log"@, EntryContent::EmptyLog),
        job_plan()[5] == ("meta.json"@, EntryContent::Meta),
        job_plan()[6] == ("status.json"@, EntryContent::Status),
        job_plan()[7] == ("execution.json"@, EntryContent::Payload),
{
}

/// A new turn gets a place for temporary files, its four empty logs, its prompt
/// and the form of its result, and then its records, the order to execute last.
pub proof fn new_turns_get_their_files()
    ensures
        turn_plan().len() == 10,
        turn_plan()[0] == ("tmp"@, EntryContent::Directory),
        turn_plan()[1] == ("stdout.log"@, EntryContent::EmptyLog),
        turn_plan()[2] == ("stderr.log"@, EntryContent::EmptyLog),
        turn_plan()[3] == ("tail.log"@, EntryContent::EmptyLog),
        turn_plan()[4] == ("supervisor.log"@, EntryContent::EmptyLog),
        turn_plan()[5] == ("prompt.md"@, EntryContent::Prompt),
        turn_plan()[6] == ("result.schema.json"@, EntryContent::Schema),
        turn_plan()[7] == ("meta.json"@, EntryContent::Meta),
        turn_plan()[8] == ("status.json"@, EntryContent::Status),
        turn_plan()[9] == ("execution.json"@, EntryContent::Payload),
{
}

} // verus!
