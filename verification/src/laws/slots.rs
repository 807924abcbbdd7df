//! Why a host's slots are not given, and what their files come to.
use vstd::prelude::*;
use vstd::string::*;
use crate::job::record::LeaseRecord;
use crate::laws::refusals::told;
use crate::lease::{
    admission_refused, capacity_fault, first_foreign, lease_file_fault, slot_name_fault, slot_named,
    AdmissionFacts, CapacityFile, HostJson, MemoryPressure, SlotContent, SlotDirectory,
    SlotFiles, MAX_SWAP_BYTES, MIN_FREE_DISK_BYTES, ROOT_MARKER,
};
use crate::text::{decimal, starts_with, unsigned_number};

verus! {

/// A host that is short of disk is told so first, then one whose memory is
/// under pressure, then one that swaps too much.
pub proof fn short_hosts_are_told(facts: AdmissionFacts)
    ensures
        ({
            let wide = facts.free_disk_bytes >= 50 * 1024 * 1024 * 1024 && facts.free_disk_bytes
                >= facts.total_disk_bytes / 5;
            let calm = facts.memory_pressure != MemoryPressure::Critical;
            &&& !wide ==> admission_refused(facts) == Some(
                (
                    "INSUFFICIENT_DISK"@,
                    "worker data filesystem is below its free-space threshold"@,
                ),
            )
            &&& wide && !calm ==> admission_refused(facts) == Some(
                ("MEMORY_PRESSURE"@, "worker memory pressure is critical"@),
            )
            &&& (wide && calm && (facts.swap_used_bytes matches Some(bytes) && bytes > 2 * 1024
                * 1024 * 1024)) ==> admission_refused(facts) == Some(
                ("SWAP_LIMIT"@, "worker swap usage exceeds 2 GiB"@),
            )
        }),
        MIN_FREE_DISK_BYTES == 50 * 1024 * 1024 * 1024,
        MAX_SWAP_BYTES == 2 * 1024 * 1024 * 1024,
        ROOT_MARKER@ == ".mac-worker-rooted-fs"@,
{
}

/// What is told of a file that is not what would be written for its value.
pub proof fn broken_files_are_told<T>(detail: String, value: T, bytes: Vec<u8>, rewritten: Vec<u8>)
    ensures
        (HostJson::<T>::Invalid { detail }).fault() == Some("invalid host JSON: "@ + detail@),
        (HostJson::<T>::Trailing { detail }).fault() == Some("trailing host JSON data: "@ + detail@),
        (HostJson::<T>::Unwritable { detail }).fault() == Some(detail@),
        (HostJson::Parsed { value, bytes, rewritten }).fault() == if rewritten@ == bytes@ {
            None
        } else {
            Some("host JSON is not canonical"@)
        },
{
}

/// What is told of a host's capacity.
pub proof fn broken_capacities_are_told(detail: String, slot_count: u8)
    ensures
        told(
            capacity_fault(CapacityFile::Missing),
            "HOST_SLOT_CAPACITY_INVALID"@,
            "leases/capacity.json is missing"@,
        ),
        told(
            capacity_fault((CapacityFile::Invalid { detail })),
            "HOST_SLOT_CAPACITY_INVALID"@,
            "leases/capacity.json is invalid: "@ + detail@,
        ),
        told(
            capacity_fault((CapacityFile::Trailing { detail })),
            "HOST_SLOT_CAPACITY_INVALID"@,
            "leases/capacity.json has trailing data: "@ + detail@,
        ),
        capacity_fault((CapacityFile::Recorded { slot_count })) is Some ==> told(
            capacity_fault((CapacityFile::Recorded { slot_count })),
            "HOST_SLOT_CAPACITY_INVALID"@,
            "leases/capacity.json slot_count is out of range"@,
        ),
{
}

/// What is told of a slot's name: that it is no number, that it is not written
/// as one would write it, or that it is beyond the host's bound.
pub proof fn broken_slot_names_are_told(name: Seq<char>)
    ensures
        unsigned_number(name, 255) is None ==> told(
            slot_name_fault(name),
            "HOST_SLOT_ID_INVALID"@,
            "slot directory name is not a slot id"@,
        ),
        (unsigned_number(name, 255) matches Some(id) && name != decimal(id)) ==> told(
            slot_name_fault(name),
            "HOST_SLOT_ID_INVALID"@,
            "slot directory name is not canonical"@,
        ),
        (unsigned_number(name, 255) matches Some(id) && name == decimal(id)) && slot_name_fault(
            name,
        ) is Some ==> told(
            slot_name_fault(name),
            "HOST_SLOT_ID_INVALID"@,
            "slot directory name exceeds the host slot bound"@,
        ),
{
}

/// What is told of a slot's directory: its name comes first, then what is in it;
/// a slot beyond the capacity is told before what its lease says.
pub proof fn broken_slots_are_told(directory: SlotDirectory, slot_count: u8)
    ensures
        directory.name is None ==> directory.fault(slot_count) == Some(
            "slot directory name is not UTF-8"@,
        ),
        (directory.name matches Some(name) && starts_with(name@, "."@)) ==> directory.fault(
            slot_count,
        ) is None,
        (directory.name matches Some(name) && !starts_with(name@, "."@) && slot_name_fault(name@)
            is Some) ==> directory.fault(slot_count) == slot_name_fault(directory.name->0@),
        (directory.name matches Some(name) && !starts_with(name@, "."@) && slot_name_fault(name@)
            is None) ==> {
            let beyond = slot_named(directory.name->0@) >= slot_count;
            match directory.content {
                SlotContent::Idle => directory.fault(slot_count) is None,
                SlotContent::Foreign => directory.fault(slot_count) == Some(
                    "slot directory is missing a canonical lease record"@,
                ),
                SlotContent::Unnamed => directory.fault(slot_count) == Some(
                    "slot entry name is not UTF-8"@,
                ),
                SlotContent::Unreadable { detail } => if beyond {
                    told(
                        directory.fault(slot_count),
                        "HOST_SLOT_ID_INVALID"@,
                        "a live lease occupies a slot outside stored capacity"@,
                    )
                } else {
                    directory.fault(slot_count) == Some(detail@)
                },
                SlotContent::Live { .. } => if beyond {
                    told(
                        directory.fault(slot_count),
                        "HOST_SLOT_ID_INVALID"@,
                        "a live lease occupies a slot outside stored capacity"@,
                    )
                } else {
                    directory.fault(slot_count) is None
                },
            }
        },
{
}

proof fn first_strangers_are_found(entries: Seq<Option<String>>, from: int, at: int)
    requires
        0 <= from <= at < entries.len(),
        forall|i: int|
            from <= i < at ==> ((#[trigger] entries[i]) matches Some(name) && name@
                == ".mac-worker-rooted-fs"@),
        !(entries[at] matches Some(name) && name@ == ".mac-worker-rooted-fs"@),
    ensures
        first_foreign(entries, from) == Some(entries[at]),
    decreases at - from,
{
    if from < at {
        first_strangers_are_found(entries, from + 1, at);
    }
}

/// A slot without a lease is judged by the first entry beside the host's marker:
/// whether it has a name. A slot whose files cannot be read says why, the lease
/// before the scope.
pub proof fn broken_slot_files_are_told(files: SlotFiles, content: SlotContent, at: int)
    requires
        files.amounts_to(content),
    ensures
        files.lease is None && 0 <= at < files.entries@.len() && (forall|i: int|
            0 <= i < at ==> ((#[trigger] files.entries@[i]) matches Some(name) && name@
                == ".mac-worker-rooted-fs"@)) && !(files.entries@[at] matches Some(name) && name@
            == ".mac-worker-rooted-fs"@) ==> if files.entries@[at] is None {
            content is Unnamed
        } else {
            content is Foreign
        },
        (files.lease matches Some(file) && lease_file_fault(file) is Some) ==> (
        content matches SlotContent::Unreadable { detail } && Some(detail@) == lease_file_fault(
            files.lease->0,
        )),
        (files.lease matches Some(file) && lease_file_fault(file) is None && files.scope.fault()
            is Some) ==> (content matches SlotContent::Unreadable { detail } && Some(detail@)
            == files.scope.fault()),
{
    let entries = files.entries@;
    if 0 <= at < entries.len() && (forall|i: int|
        0 <= i < at ==> ((#[trigger] entries[i]) matches Some(name) && name@
            == ".mac-worker-rooted-fs"@)) && !(entries[at] matches Some(name) && name@
        == ".mac-worker-rooted-fs"@) {
        first_strangers_are_found(entries, 0, at);
    }
}

/// A lease's file is read before the lease in it is judged.
pub proof fn lease_files_are_read_first(file: HostJson<LeaseRecord>)
    ensures
        file.fault() is Some ==> lease_file_fault(file) == file.fault(),
        (file matches HostJson::Parsed { value, .. } && file.fault() is None) ==> lease_file_fault(
            file,
        ) == file->value@.fault(),
{
}

} // verus!
