//! Slots and leases: what is admitted, what is read, and who holds what.
use vstd::prelude::*;
use crate::job::ids::{JobId, TaskId};
use crate::job::record::LeaseRecord;
use crate::job::request::LeaseAcquireRequest;
use crate::json_laws::decimals_spell_their_number;
use crate::lease::{
    admission_refused, all_slots_held, capacity_fault, first_foreign, free_slot, lease_file_fault,
    lease_is_for, lease_of, occupancy_is, scopes_clash, slot_count_valid, slot_held,
    slot_name_fault, slot_named, workspace_held, AdmissionFacts, CapacityFile, ExecutionScope,
    HostJson, LeaseOccupancy, LeaseService, MemoryPressure, OccupiedSlot, SlotContent,
    SlotDirectory, SlotFiles, SlotState,
};
use crate::lease_laws::{faults_by_directory, live_by_directory, single_digit};
use crate::text::{decimal, hex_char, starts_with, unsigned_number};

verus! {

/// A job is admitted exactly where 50 GiB and a fifth of the disk are free, memory
/// pressure is not critical, and no more than 2 GiB of swap are known to be used.
pub proof fn healthy_hosts_admit(facts: AdmissionFacts)
    ensures
        admission_refused(facts) is None <==> {
            &&& facts.free_disk_bytes >= 53687091200
            &&& facts.free_disk_bytes >= facts.total_disk_bytes / 5
            &&& facts.memory_pressure != MemoryPressure::Critical
            &&& facts.swap_used_bytes is None || facts.swap_used_bytes->0 <= 2147483648
        },
        (facts.free_disk_bytes < 53687091200 || facts.free_disk_bytes < facts.total_disk_bytes / 5)
            <==> (admission_refused(facts) matches Some(refusal) && refusal.0
            == "INSUFFICIENT_DISK"@),
{
    reveal_strlit("INSUFFICIENT_DISK");
    reveal_strlit("MEMORY_PRESSURE");
    reveal_strlit("SWAP_LIMIT");
    assert("INSUFFICIENT_DISK"@.len() == 17 && "MEMORY_PRESSURE"@.len() == 15
        && "SWAP_LIMIT"@.len() == 10);
}

/// Two scopes share a workspace exactly where both are the same task of the same
/// project.
pub proof fn tasks_share_their_workspace(
    left_project: Seq<char>,
    left: ExecutionScope,
    right_project: Seq<char>,
    right: ExecutionScope,
)
    ensures
        scopes_clash(left_project, left, right_project, right) <==> (
        left matches ExecutionScope::Task { task_id: a } && (right matches ExecutionScope::Task {
            task_id: b,
        } && a == b && left_project == right_project)),
{
}

/// A workspace is held exactly where a live lease runs the same task of the same
/// project.
pub proof fn held_workspaces_have_a_lease(
    occupied: Seq<OccupiedSlot>,
    project: Seq<char>,
    scope: ExecutionScope,
)
    ensures
        workspace_held(occupied, project, scope) <==> scope is Task && exists|i: int|
            0 <= i < occupied.len() && (#[trigger] occupied[i]).execution_scope == scope
                && occupied[i].lease.project_id@ == project,
        scope is Job ==> !workspace_held(occupied, project, scope),
{
    if scope is Task && exists|i: int|
        0 <= i < occupied.len() && (#[trigger] occupied[i]).execution_scope == scope
            && occupied[i].lease.project_id@ == project {
        let i = choose|i: int|
            0 <= i < occupied.len() && (#[trigger] occupied[i]).execution_scope == scope
                && occupied[i].lease.project_id@ == project;
        assert(scopes_clash(
            project,
            scope,
            occupied[i].lease.project_id@,
            occupied[i].execution_scope,
        ));
    }
}

/// A slot is a task's exactly where its lease is of the project and its scope is
/// the task.
pub proof fn slots_belong_to_tasks(slot: OccupiedSlot, project: Seq<char>, task_id: TaskId)
    ensures
        slot.owned_by_task(project, task_id) <==> slot.lease.project_id@ == project
            && slot.execution_scope == (ExecutionScope::Task { task_id }),
{
}

/// A host has one to eight slots, and says so in a readable record.
pub proof fn capacities_are_accepted(file: CapacityFile, count: u8)
    ensures
        slot_count_valid(count) <==> 1 <= count <= 8,
        capacity_fault(file) is None <==> (file matches CapacityFile::Recorded { slot_count } && 1
            <= slot_count <= 8),
{
}

/// The names of slot directories are the digits 0 to 7.
pub proof fn slots_are_named_by_digits(name: Seq<char>)
    ensures
        slot_name_fault(name) is None <==> name.len() == 1 && '0' <= name[0] <= '7',
        slot_name_fault(name) is None ==> slot_named(name) == name[0] as int - 48,
{
    if name.len() == 1 && '0' <= name[0] <= '7' {
        let slot = (name[0] as int - 48) as u8;
        single_digit(slot);
        assert(name =~= seq![hex_char(slot as int)]);
        assert(decimal(slot as nat) == name);
    }
    if slot_name_fault(name) is None {
        let id = unsigned_number(name, 255)->0;
        assert(id < 8);
        single_digit(id as u8);
        assert(name == seq![hex_char(id as int)]);
    }
}

/// A directory is accepted exactly where it is a leftover, or is named for a slot
/// and either idle or the place of a readable lease within the capacity.
pub proof fn slot_directories_are_accepted(directory: SlotDirectory, slot_count: u8)
    ensures
        directory.fault(slot_count) is None <==> (directory.name matches Some(name) && (
        starts_with(name@, "."@) || (name@.len() == 1 && '0' <= name@[0] <= '7' && (
        directory.content is Idle || (directory.content is Live && name@[0] as int - 48
            < slot_count))))),
        directory.fault(slot_count) is None ==> (directory.occupied() matches Some(slot) ==> (
        directory.content matches SlotContent::Live { lease, execution_scope } && slot.lease
            == lease && slot.execution_scope == execution_scope && slot.slot_id
            == directory.name->0@[0] as int - 48)),
        directory.fault(slot_count) is None ==> (directory.occupied() is None <==> starts_with(
            directory.name->0@,
            "."@,
        ) || directory.content is Idle || !(directory.content is Live)),
{
    if let Some(name) = directory.name {
        slots_are_named_by_digits(name@);
    }
}

/// The lease of a slot is live exactly where a directory that is named for the
/// slot, and no leftover, holds it.
pub proof fn live_leases_are_in_their_directory(service: LeaseService, slot: OccupiedSlot)
    requires
        service.fault() is None,
    ensures
        service.live().contains(slot) <==> exists|k: int|
            0 <= k < service.directories@.len() && {
                let directory = #[trigger] service.directories@[k];
                &&& directory.name matches Some(name) && !starts_with(name@, "."@) && name@
                    == decimal(slot.slot_id as nat)
                &&& directory.content == (SlotContent::Live {
                    lease: slot.lease,
                    execution_scope: slot.execution_scope,
                })
            },
        service.live().contains(slot) ==> slot.slot_id < service.configured()
            && service.configured() <= 8,
{
    let directories = service.directories@;
    live_by_directory(service, slot);
    faults_by_directory(directories, service.configured(), 0);
    if service.live().contains(slot) {
        let k = choose|k: int|
            0 <= k < directories.len() && (#[trigger] directories[k]).occupied() == Some(slot);
        let name = directories[k].name->0@;
        assert(directories[k].fault(service.configured()) is None);
        slots_are_named_by_digits(name);
        single_digit(slot.slot_id);
        assert(name =~= seq![hex_char(slot.slot_id as int)]);
    }
    if exists|k: int|
        0 <= k < directories.len() && {
            let directory = #[trigger] directories[k];
            &&& directory.name matches Some(name) && !starts_with(name@, "."@) && name@ == decimal(
                slot.slot_id as nat,
            )
            &&& directory.content == (SlotContent::Live {
                lease: slot.lease,
                execution_scope: slot.execution_scope,
            })
        } {
        let k = choose|k: int|
            0 <= k < directories.len() && {
                let directory = #[trigger] directories[k];
                &&& directory.name matches Some(name) && !starts_with(name@, "."@) && name@
                    == decimal(slot.slot_id as nat)
                &&& directory.content == (SlotContent::Live {
                    lease: slot.lease,
                    execution_scope: slot.execution_scope,
                })
            };
        let directory = directories[k];
        let name = directory.name->0@;
        assert(directory.fault(service.configured()) is None);
        slots_are_named_by_digits(name);
        let read = slot_named(name) as u8;
        assert(0 <= slot_named(name) < 8);
        single_digit(read);
        assert(name =~= seq![hex_char(read as int)]);
        decimals_spell_their_number(slot.slot_id as nat);
        decimals_spell_their_number(read as nat);
        assert(decimal(slot.slot_id as nat) == decimal(read as nat));
        assert(slot.slot_id == read);
        assert(directory.occupied() == Some(slot));
    }
}

/// A store can be trusted exactly where its capacity is recorded and every
/// directory is accepted.
pub proof fn stores_are_trusted(service: LeaseService)
    ensures
        service.fault() is None <==> (service.capacity matches CapacityFile::Recorded { slot_count }
            && 1 <= slot_count <= 8 && forall|k: int|
            0 <= k < service.directories@.len() ==> (#[trigger] service.directories@[k]).fault(
                slot_count,
            ) is None),
        service.capacity matches CapacityFile::Recorded { slot_count } ==> service.configured()
            == slot_count,
{
    faults_by_directory(service.directories@, service.configured(), 0);
}

/// The slot that is given is one that no lease holds, and a lease holds every
/// lower one.
pub proof fn lowest_slots_are_given(
    occupied: Seq<OccupiedSlot>,
    slot_count: u8,
    slot: u8,
    lower: u8,
)
    ensures
        slot_held(occupied, slot) <==> exists|i: int|
            0 <= i < occupied.len() && (#[trigger] occupied[i]).slot_id == slot,
        free_slot(occupied, slot_count, slot) ==> slot < slot_count && !slot_held(occupied, slot)
            && (lower < slot ==> slot_held(occupied, lower)),
        free_slot(occupied, slot_count, slot) && free_slot(occupied, slot_count, lower) ==> slot
            == lower,
        all_slots_held(occupied, slot_count) && slot < slot_count ==> slot_held(occupied, slot),
        all_slots_held(occupied, slot_count) ==> !free_slot(occupied, slot_count, slot),
{
    if free_slot(occupied, slot_count, slot) && free_slot(occupied, slot_count, lower) {
        assert(slot < lower ==> slot_held(occupied, slot));
        assert(lower < slot ==> slot_held(occupied, lower));
    }
}

/// Where not every slot is held, one can be given.
pub proof fn some_slot_is_given(occupied: Seq<OccupiedSlot>, slot_count: u8, slot: u8)
    requires
        slot < slot_count,
        !slot_held(occupied, slot),
    ensures
        exists|free: u8| #[trigger] free_slot(occupied, slot_count, free),
    decreases slot,
{
    if forall|lower: u8| lower < slot ==> #[trigger] slot_held(occupied, lower) {
        assert(free_slot(occupied, slot_count, slot));
    } else {
        let lower = choose|lower: u8| lower < slot && !(#[trigger] slot_held(occupied, lower));
        some_slot_is_given(occupied, slot_count, lower);
    }
}

/// A lease is for a request exactly where it repeats it.
pub proof fn granted_leases_repeat_the_request(lease: LeaseRecord, request: LeaseAcquireRequest)
    ensures
        lease_is_for(lease@, request@) <==> {
            let material = request.material;
            &&& lease.job_id == material.job_id
            &&& lease.client_id == material.client_id
            &&& lease.lease_token == material.lease_token
            &&& lease.request_fingerprint.text@ == request.request_fingerprint.text@
            &&& lease.worker_name@ == material.worker_name@
            &&& lease.project_id@ == material.project_id@
            &&& lease.worktree_id@ == material.worktree_id@
            &&& lease.manifest_digest@ == material.manifest_digest@
            &&& lease.timeout_millis == material.timeout_millis
            &&& lease.resource_class@ == material.resource_class@
            &&& lease.command_summary == material.command@.summarized()
        },
{
}

/// A job's lease is the first one that names the job.
pub proof fn leases_are_found_by_job(occupied: Seq<OccupiedSlot>, job: JobId, from: int)
    requires
        0 <= from <= occupied.len(),
    ensures
        lease_of(occupied, job, from) is None <==> forall|i: int|
            from <= i < occupied.len() ==> (#[trigger] occupied[i]).lease.job_id != job,
        lease_of(occupied, job, from) matches Some(slot) ==> slot.lease.job_id == job && exists|
            i: int,
        |
            from <= i < occupied.len() && #[trigger] occupied[i] == slot && forall|j: int|
                from <= j < i ==> (#[trigger] occupied[j]).lease.job_id != job,
    decreases occupied.len() - from,
{
    if from < occupied.len() {
        leases_are_found_by_job(occupied, job, from + 1);
        if occupied[from].lease.job_id != job {
            if let Some(slot) = lease_of(occupied, job, from + 1) {
                let i = choose|i: int|
                    from + 1 <= i < occupied.len() && #[trigger] occupied[i] == slot && forall|
                        j: int,
                    |
                        from + 1 <= j < i ==> (#[trigger] occupied[j]).lease.job_id != job;
                assert forall|j: int| from <= j < i implies (#[trigger] occupied[j]).lease.job_id
                    != job by {}
                assert(occupied[i] == slot);
            }
        } else {
            assert(occupied[from] == occupied[from]);
        }
    }
}

/// A host file is read exactly where it is what the host would write; a lease
/// has to be accepted besides.
pub proof fn canonical_files_are_read(file: HostJson<LeaseRecord>, scope: HostJson<ExecutionScope>)
    ensures
        lease_file_fault(file) is None <==> (file matches HostJson::Parsed {
            value,
            bytes,
            rewritten,
        } && rewritten@ == bytes@ && value@.fault() is None),
        scope.fault() is None <==> (scope matches HostJson::Parsed { value, bytes, rewritten }
            && rewritten@ == bytes@),
{
}

/// A slot's directory is idle where it holds no lease and nothing but the host's
/// marker; it is live where both its files can be read.
pub proof fn slot_files_come_to_something(
    files: SlotFiles,
    content: SlotContent,
    at: int,
)
    requires
        files.amounts_to(content),
    ensures
        content is Idle <==> files.lease is None && forall|i: int|
            0 <= i < files.entries@.len() ==> ((#[trigger] files.entries@[i]) matches Some(name)
                && name@ == ".mac-worker-rooted-fs"@),
        content is Live <==> (files.lease matches Some(file) && lease_file_fault(file) is None
            && files.scope.fault() is None),
        content matches SlotContent::Live { lease, execution_scope } ==> (
        files.lease matches Some(HostJson::Parsed { value, .. }) && value == lease) && (
        files.scope matches HostJson::Parsed { value: scope, .. } && scope == execution_scope),
        content is Unreadable <==> (files.lease matches Some(file) && (lease_file_fault(file)
            is Some || files.scope.fault() is Some)),
{
    foreign_entries_are_found(files.entries@, 0);
}

proof fn foreign_entries_are_found(entries: Seq<Option<String>>, from: int)
    requires
        0 <= from <= entries.len(),
    ensures
        first_foreign(entries, from) is None <==> forall|i: int|
            from <= i < entries.len() ==> ((#[trigger] entries[i]) matches Some(name) && name@
                == ".mac-worker-rooted-fs"@),
    decreases entries.len() - from,
{
    if from < entries.len() {
        foreign_entries_are_found(entries, from + 1);
    }
}

/// A host is busy exactly where its leases fill its slots, and shows the first of
/// them.
pub proof fn occupancies_count_the_leases(
    occupancy: LeaseOccupancy,
    configured: u8,
    leases: Seq<LeaseRecord>,
)
    requires
        occupancy_is(occupancy, configured, leases),
    ensures
        occupancy.configured_slots == configured,
        occupancy.busy_slots == leases.len(),
        occupancy.slot_state == SlotState::Busy <==> leases.len() >= configured,
        occupancy.active_lease is None <==> leases.len() == 0,
        occupancy.active_lease matches Some(summary) ==> summary.job_id == leases[0].job_id
            && summary.project_id@ == leases[0].project_id@ && summary.worktree_id@
            == leases[0].worktree_id@ && summary.created_at_millis == leases[0].created_at_millis,
{
}

} // verus!
