//! Execution slots of a host, and the leases that hold them.
use vstd::prelude::*;
use vstd::string::*;
use crate::error::{
    capacity_refusal, coded, earliest, fault_if, labelled_error, outcome_of, protocol_code,
    protocol_error, protocol_refusal, WorkerError,
};
use crate::host_store::JobDisposition;
use crate::job::ids::{JobId, TaskId};
use crate::job::record::{LeaseAcquireResponse, LeaseModel, LeaseRecord};
use crate::job::request::{BoundRequestModel, LeaseAcquireRequest};
use crate::text::{
    bytes_eq, decimal, decimal_text, has_prefix, parse_unsigned, starts_with, text_eq,
    unsigned_number,
};

verus! {

/// The most slots that a host or the inventory may give a worker.
pub const MAX_HOST_SLOTS: u8 = 8;

/// 50 GiB: what must stay free on the smallest disk.
pub const MIN_FREE_DISK_BYTES: u64 = 53687091200;

/// 2 GiB: how much swap a worker may use.
pub const MAX_SWAP_BYTES: u64 = 2147483648;

/// The workspace that a job runs in.
#[derive(Debug, Clone, Copy, PartialEq, Eq, Structural)]
pub enum ExecutionScope {
    Job,
    Task { task_id: TaskId },
}

#[derive(Debug, Clone, Copy, PartialEq, Eq, Structural)]
pub enum MemoryPressure {
    Normal,
    Warning,
    Critical,
}

/// A slot that a lease holds.
#[derive(PartialEq, Eq)]
pub struct OccupiedSlot {
    pub slot_id: u8,
    pub lease: LeaseRecord,
    pub execution_scope: ExecutionScope,
}

impl Clone for OccupiedSlot {
    fn clone(&self) -> (copy: OccupiedSlot)
        ensures
            copy == *self,
    {
        OccupiedSlot {
            slot_id: self.slot_id,
            lease: self.lease.clone(),
            execution_scope: self.execution_scope,
        }
    }
}

impl OccupiedSlot {
    pub open spec fn owned_by_task(&self, project_id: Seq<char>, task_id: TaskId) -> bool {
        self.lease.project_id@ == project_id && self.execution_scope == (ExecutionScope::Task {
            task_id,
        })
    }

    pub fn owns_task(&self, project_id: &str, task_id: TaskId) -> (owns: bool)
        ensures
            owns == self.owned_by_task(project_id@, task_id),
    {
        text_eq(self.lease.project_id.as_str(), project_id) && self.execution_scope
            == (ExecutionScope::Task { task_id })
    }
}

/// What a host measures before it admits a job.
#[derive(Debug, Clone, Copy, PartialEq, Eq, Structural)]
pub struct AdmissionFacts {
    pub free_disk_bytes: u64,
    pub total_disk_bytes: u64,
    pub memory_pressure: MemoryPressure,
    pub swap_used_bytes: Option<u64>,
}

/// An admission refusal's code and reason.
pub open spec fn admission_refused(facts: AdmissionFacts) -> Option<(Seq<char>, Seq<char>)> {
    let fifth = facts.total_disk_bytes / 5;
    let minimum = if fifth > MIN_FREE_DISK_BYTES {
        fifth
    } else {
        MIN_FREE_DISK_BYTES
    };
    if facts.free_disk_bytes < minimum {
        Some(
            (
                "INSUFFICIENT_DISK"@,
                "worker data filesystem is below its free-space threshold"@,
            ),
        )
    } else if facts.memory_pressure == MemoryPressure::Critical {
        Some(("MEMORY_PRESSURE"@, "worker memory pressure is critical"@))
    } else if facts.swap_used_bytes matches Some(bytes) && bytes > MAX_SWAP_BYTES {
        Some(("SWAP_LIMIT"@, "worker swap usage exceeds 2 GiB"@))
    } else {
        None
    }
}

/// A fifth of the disk, and never less than 50 GiB, stays free; memory pressure
/// is not critical; swap stays within 2 GiB.
pub fn validate_admission(facts: &AdmissionFacts) -> (result: Result<(), WorkerError>)
    ensures
        match admission_refused(*facts) {
            None => result is Ok,
            Some((code, reason)) => result matches Err(error) && capacity_refusal(
                error,
                code,
                reason,
            ),
        },
{
    let fifth: u64 = facts.total_disk_bytes / 5;
    let minimum: u64 = if fifth > MIN_FREE_DISK_BYTES {
        fifth
    } else {
        MIN_FREE_DISK_BYTES
    };
    if facts.free_disk_bytes < minimum {
        return Err(
            WorkerError::capacity(
                "INSUFFICIENT_DISK",
                "worker data filesystem is below its free-space threshold",
            ),
        );
    }
    if facts.memory_pressure == MemoryPressure::Critical {
        return Err(
            WorkerError::capacity("MEMORY_PRESSURE", "worker memory pressure is critical"),
        );
    }
    if let Some(bytes) = facts.swap_used_bytes {
        if bytes > MAX_SWAP_BYTES {
            return Err(WorkerError::capacity("SWAP_LIMIT", "worker swap usage exceeds 2 GiB"));
        }
    }
    Ok(())
}

/// Two scopes that would run in one workspace.
pub open spec fn scopes_clash(
    left_project: Seq<char>,
    left: ExecutionScope,
    right_project: Seq<char>,
    right: ExecutionScope,
) -> bool {
    left is Task && left == right && left_project == right_project
}

pub fn scopes_conflict(
    left_project: &str,
    left: &ExecutionScope,
    right_project: &str,
    right: &ExecutionScope,
) -> (conflict: bool)
    ensures
        conflict == scopes_clash(left_project@, *left, right_project@, *right),
{
    match (left, right) {
        (
            ExecutionScope::Task { task_id: left_task },
            ExecutionScope::Task { task_id: right_task },
        ) => *left_task == *right_task && text_eq(left_project, right_project),
        _ => false,
    }
}

#[derive(Debug, Clone, Copy, PartialEq, Eq, Structural)]
pub enum SlotState {
    Idle,
    Busy,
}

/// What may be told of a lease.
#[derive(Debug, PartialEq, Eq)]
pub struct LeaseSummary {
    pub job_id: JobId,
    pub project_id: String,
    pub worktree_id: String,
    pub created_at_millis: u64,
}

/// What a [`LeaseSummary`] says.
pub struct LeaseSummaryModel {
    pub job_id: JobId,
    pub project_id: Seq<char>,
    pub worktree_id: Seq<char>,
    pub created_at_millis: u64,
}

impl View for LeaseSummary {
    type V = LeaseSummaryModel;

    open spec fn view(&self) -> LeaseSummaryModel {
        LeaseSummaryModel {
            job_id: self.job_id,
            project_id: self.project_id@,
            worktree_id: self.worktree_id@,
            created_at_millis: self.created_at_millis,
        }
    }
}

impl Clone for LeaseSummary {
    fn clone(&self) -> (copy: LeaseSummary)
        ensures
            copy == *self,
    {
        LeaseSummary {
            job_id: self.job_id,
            project_id: self.project_id.clone(),
            worktree_id: self.worktree_id.clone(),
            created_at_millis: self.created_at_millis,
        }
    }
}

impl LeaseSummary {
    /// Whether two records say the same.
    pub fn same(&self, other: &LeaseSummary) -> (same: bool)
        ensures
            same == (self@ == other@),
    {
        self.job_id == other.job_id
            && text_eq(self.project_id.as_str(), other.project_id.as_str())
            && text_eq(self.worktree_id.as_str(), other.worktree_id.as_str())
            && self.created_at_millis == other.created_at_millis
    }
}

/// How full a host is.
#[derive(Debug, PartialEq, Eq)]
pub struct LeaseOccupancy {
    pub slot_state: SlotState,
    pub active_lease: Option<LeaseSummary>,
    pub configured_slots: u8,
    pub busy_slots: u8,
}

/// The host's record of how many slots it has, as it was found.
#[derive(Debug, PartialEq, Eq)]
pub enum CapacityFile {
    Missing,
    Invalid { detail: String },
    Trailing { detail: String },
    Recorded { slot_count: u8 },
}

/// A JSON file of the host as it was read, with the reader's complaint where
/// there is one.
#[derive(PartialEq, Eq)]
pub enum HostJson<T> {
    Invalid { detail: String },
    /// Something follows the value.
    Trailing { detail: String },
    /// The value cannot be written again.
    Unwritable { detail: String },
    /// The value, the file's bytes and the value written again.
    Parsed { value: T, bytes: Vec<u8>, rewritten: Vec<u8> },
}

impl<T> HostJson<T> {
    /// Only the file that the host itself would write is trusted.
    pub open spec fn fault(&self) -> Option<Seq<char>> {
        match self {
            HostJson::Invalid { detail } => Some("invalid host JSON: "@ + detail@),
            HostJson::Trailing { detail } => Some("trailing host JSON data: "@ + detail@),
            HostJson::Unwritable { detail } => Some(detail@),
            HostJson::Parsed { value, bytes, rewritten } => fault_if(
                rewritten@ != bytes@,
                "host JSON is not canonical"@,
            ),
        }
    }

    pub open spec fn value(&self) -> T {
        self->value
    }

    pub fn read(self) -> (result: Result<T, WorkerError>)
        ensures
            outcome_of(result, self.fault()),
            result matches Ok(value) ==> value == self.value(),
    {
        match self {
            HostJson::Invalid { detail } => Err(labelled_error("invalid host JSON: ", &detail)),
            HostJson::Trailing { detail } => Err(
                labelled_error("trailing host JSON data: ", &detail),
            ),
            HostJson::Unwritable { detail } => Err(protocol_error(detail.as_str())),
            HostJson::Parsed { value, bytes, rewritten } => {
                if !bytes_eq(rewritten.as_slice(), bytes.as_slice()) {
                    return Err(protocol_error("host JSON is not canonical"));
                }
                Ok(value)
            },
        }
    }
}

pub open spec fn lease_file_fault(file: HostJson<LeaseRecord>) -> Option<Seq<char>> {
    earliest(
        file.fault(),
        if file is Parsed {
            file.value()@.fault()
        } else {
            None
        },
    )
}

pub fn read_lease(file: HostJson<LeaseRecord>) -> (result: Result<LeaseRecord, WorkerError>)
    ensures
        outcome_of(result, lease_file_fault(file)),
        result matches Ok(lease) ==> lease == file.value(),
{
    let lease = file.read()?;
    lease.validate()?;
    Ok(lease)
}

pub fn read_scope(file: HostJson<ExecutionScope>) -> (result: Result<ExecutionScope, WorkerError>)
    ensures
        outcome_of(result, file.fault()),
        result matches Ok(scope) ==> scope == file.value(),
{
    file.read()
}

/// The entry that marks a directory as the host's own.
pub const ROOT_MARKER: &'static str = ".mac-worker-rooted-fs";

/// The first entry that is not the marker, from `at` on; an entry whose name is
/// not text counts.
pub open spec fn first_foreign(entries: Seq<Option<String>>, at: int) -> Option<Option<String>>
    decreases entries.len() - at,
{
    if at >= entries.len() {
        None
    } else if entries[at] matches Some(name) && name@ == ROOT_MARKER@ {
        first_foreign(entries, at + 1)
    } else {
        Some(entries[at])
    }
}

/// A slot's directory is idle where it holds nothing but the marker.
pub fn slot_directory_is_idle(entries: &Vec<Option<String>>) -> (result: Result<bool, WorkerError>)
    ensures
        outcome_of(
            result,
            fault_if(
                first_foreign(entries@, 0) == Some(None::<String>),
                "slot entry name is not UTF-8"@,
            ),
        ),
        result matches Ok(idle) ==> idle == (first_foreign(entries@, 0) is None),
{
    let mut i: usize = 0;
    while i < entries.len()
        invariant
            i <= entries.len(),
            first_foreign(entries@, 0) == first_foreign(entries@, i as int),
        decreases entries.len() - i,
    {
        match &entries[i] {
            None => {
                return Err(protocol_error("slot entry name is not UTF-8"));
            },
            Some(name) => {
                if !text_eq(name.as_str(), ROOT_MARKER) {
                    return Ok(false);
                }
            },
        }
        i += 1;
    }
    Ok(true)
}

/// The files of a slot's directory. `lease` is absent where there is no lease
/// file; `entries` are the names of all entries, absent where they are not text.
#[derive(PartialEq, Eq)]
pub struct SlotFiles {
    pub lease: Option<HostJson<LeaseRecord>>,
    pub scope: HostJson<ExecutionScope>,
    pub entries: Vec<Option<String>>,
}

impl SlotFiles {
    /// What the files come to.
    pub open spec fn amounts_to(&self, content: SlotContent) -> bool {
        match self.lease {
            None => match first_foreign(self.entries@, 0) {
                None => content is Idle,
                Some(None) => content is Unnamed,
                Some(Some(_)) => content is Foreign,
            },
            Some(file) => match earliest(lease_file_fault(file), self.scope.fault()) {
                Some(complaint) => content matches SlotContent::Unreadable { detail } && detail@
                    == complaint,
                None => content == (SlotContent::Live {
                    lease: file.value(),
                    execution_scope: self.scope.value(),
                }),
            },
        }
    }

    pub fn content(self) -> (content: SlotContent)
        ensures
            self.amounts_to(content),
    {
        match self.lease {
            None => match slot_directory_is_idle(&self.entries) {
                Ok(true) => SlotContent::Idle,
                Ok(false) => SlotContent::Foreign,
                Err(_) => SlotContent::Unnamed,
            },
            Some(file) => match read_lease(file) {
                Err(error) => SlotContent::Unreadable { detail: protocol_text(error) },
                Ok(lease) => match read_scope(self.scope) {
                    Err(error) => SlotContent::Unreadable { detail: protocol_text(error) },
                    Ok(execution_scope) => SlotContent::Live { lease, execution_scope },
                },
            },
        }
    }
}

/// The text of a protocol error.
fn protocol_text(error: WorkerError) -> (text: String)
    requires
        error is Protocol,
    ensures
        protocol_refusal(error, text@),
{
    match error {
        WorkerError::Protocol(text) => text,
        _ => String::new(),
    }
}

/// What a slot's directory holds.
#[derive(PartialEq, Eq)]
pub enum SlotContent {
    Idle,
    /// Something other than a lease.
    Foreign,
    /// No lease, and an entry whose name is not text.
    Unnamed,
    /// A lease that could not be read, with the reader's complaint.
    Unreadable { detail: String },
    Live { lease: LeaseRecord, execution_scope: ExecutionScope },
}

/// A directory of the slot store; `name` is absent where it is not text.
#[derive(PartialEq, Eq)]
pub struct SlotDirectory {
    pub name: Option<String>,
    pub content: SlotContent,
}

pub open spec fn slot_count_valid(slot_count: u8) -> bool {
    1 <= slot_count <= MAX_HOST_SLOTS
}

pub fn validate_slot_count(slot_count: u8) -> (result: Result<(), WorkerError>)
    ensures
        outcome_of(
            result,
            fault_if(!slot_count_valid(slot_count), "slot_count must be between 1 and 8"@),
        ),
{
    if slot_count == 0 || slot_count > MAX_HOST_SLOTS {
        return Err(protocol_error("slot_count must be between 1 and 8"));
    }
    Ok(())
}

pub open spec fn capacity_fault(file: CapacityFile) -> Option<Seq<char>> {
    match file {
        CapacityFile::Missing => Some(
            coded("HOST_SLOT_CAPACITY_INVALID"@, "leases/capacity.json is missing"@),
        ),
        CapacityFile::Invalid { detail } => Some(
            coded(
                "HOST_SLOT_CAPACITY_INVALID"@,
                "leases/capacity.json is invalid: "@ + detail@,
            ),
        ),
        CapacityFile::Trailing { detail } => Some(
            coded(
                "HOST_SLOT_CAPACITY_INVALID"@,
                "leases/capacity.json has trailing data: "@ + detail@,
            ),
        ),
        CapacityFile::Recorded { slot_count } => fault_if(
            !slot_count_valid(slot_count),
            coded(
                "HOST_SLOT_CAPACITY_INVALID"@,
                "leases/capacity.json slot_count is out of range"@,
            ),
        ),
    }
}

fn read_slot_count(file: &CapacityFile) -> (result: Result<u8, WorkerError>)
    ensures
        outcome_of(result, capacity_fault(*file)),
        result matches Ok(count) ==> *file == (CapacityFile::Recorded { slot_count: count })
            && slot_count_valid(count),
{
    match file {
        CapacityFile::Missing => Err(
            protocol_code("HOST_SLOT_CAPACITY_INVALID", "leases/capacity.json is missing"),
        ),
        CapacityFile::Invalid { detail } => Err(
            protocol_code(
                "HOST_SLOT_CAPACITY_INVALID",
                "leases/capacity.json is invalid: ".to_owned().concat(detail.as_str()).as_str(),
            ),
        ),
        CapacityFile::Trailing { detail } => Err(
            protocol_code(
                "HOST_SLOT_CAPACITY_INVALID",
                "leases/capacity.json has trailing data: ".to_owned().concat(
                    detail.as_str(),
                ).as_str(),
            ),
        ),
        CapacityFile::Recorded { slot_count } => {
            if *slot_count == 0 || *slot_count > MAX_HOST_SLOTS {
                return Err(
                    protocol_code(
                        "HOST_SLOT_CAPACITY_INVALID",
                        "leases/capacity.json slot_count is out of range",
                    ),
                );
            }
            Ok(*slot_count)
        },
    }
}

/// Why a directory name names no slot.
pub open spec fn slot_name_fault(name: Seq<char>) -> Option<Seq<char>> {
    match unsigned_number(name, 255) {
        None => Some(
            coded("HOST_SLOT_ID_INVALID"@, "slot directory name is not a slot id"@),
        ),
        Some(id) => earliest(
            fault_if(
                name != decimal(id),
                coded("HOST_SLOT_ID_INVALID"@, "slot directory name is not canonical"@),
            ),
            fault_if(
                id >= MAX_HOST_SLOTS,
                coded(
                    "HOST_SLOT_ID_INVALID"@,
                    "slot directory name exceeds the host slot bound"@,
                ),
            ),
        ),
    }
}

/// The slot that a canonical directory name names.
pub open spec fn slot_named(name: Seq<char>) -> int {
    unsigned_number(name, 255)->0 as int
}

pub fn parse_canonical_slot_id(name: &str) -> (result: Result<u8, WorkerError>)
    ensures
        outcome_of(result, slot_name_fault(name@)),
        result matches Ok(id) ==> id == slot_named(name@) && name@ == decimal(id as nat) && id
            < MAX_HOST_SLOTS,
{
    match parse_unsigned(name, 255) {
        None => Err(protocol_code("HOST_SLOT_ID_INVALID", "slot directory name is not a slot id")),
        Some(id) => {
            if !text_eq(name, decimal_text(id).as_str()) {
                return Err(
                    protocol_code("HOST_SLOT_ID_INVALID", "slot directory name is not canonical"),
                );
            }
            if id >= 8 {
                return Err(
                    protocol_code(
                        "HOST_SLOT_ID_INVALID",
                        "slot directory name exceeds the host slot bound",
                    ),
                );
            }
            Ok(id as u8)
        },
    }
}

impl SlotDirectory {
    /// Directories that a half-done operation left behind.
    pub open spec fn hidden(&self) -> bool {
        self.name matches Some(name) && starts_with(name@, "."@)
    }

    pub open spec fn fault(&self, slot_count: u8) -> Option<Seq<char>> {
        match self.name {
            None => Some("slot directory name is not UTF-8"@),
            Some(name) => if self.hidden() {
                None
            } else {
                earliest(
                    slot_name_fault(name@),
                    match self.content {
                        SlotContent::Idle => None,
                        SlotContent::Foreign => Some(
                            "slot directory is missing a canonical lease record"@,
                        ),
                        SlotContent::Unnamed => Some("slot entry name is not UTF-8"@),
                        SlotContent::Unreadable { detail } => earliest(
                            fault_if(
                                slot_named(name@) >= slot_count,
                                coded(
                                    "HOST_SLOT_ID_INVALID"@,
                                    "a live lease occupies a slot outside stored capacity"@,
                                ),
                            ),
                            Some(detail@),
                        ),
                        SlotContent::Live { .. } => fault_if(
                            slot_named(name@) >= slot_count,
                            coded(
                                "HOST_SLOT_ID_INVALID"@,
                                "a live lease occupies a slot outside stored capacity"@,
                            ),
                        ),
                    },
                )
            },
        }
    }

    /// The lease that the directory holds for a slot.
    pub open spec fn occupied(&self) -> Option<OccupiedSlot> {
        match (self.name, self.content) {
            (Some(name), SlotContent::Live { lease, execution_scope }) => if self.hidden() {
                None
            } else {
                Some(
                    OccupiedSlot { slot_id: slot_named(name@) as u8, lease, execution_scope },
                )
            },
            _ => None,
        }
    }
}

/// The first fault of the directories from `at` on.
pub open spec fn directory_faults(
    directories: Seq<SlotDirectory>,
    slot_count: u8,
    at: int,
) -> Option<Seq<char>>
    decreases directories.len() - at,
{
    if at >= directories.len() {
        None
    } else {
        earliest(
            directories[at].fault(slot_count),
            directory_faults(directories, slot_count, at + 1),
        )
    }
}

/// The leases that the first `count` directories hold.
pub open spec fn found_leases(directories: Seq<SlotDirectory>, count: int) -> Seq<OccupiedSlot>
    decreases count,
{
    if count <= 0 {
        seq![]
    } else {
        match directories[count - 1].occupied() {
            Some(slot) => found_leases(directories, count - 1).push(slot),
            None => found_leases(directories, count - 1),
        }
    }
}

/// Those of the first `count` leases that hold one slot.
pub open spec fn with_slot(found: Seq<OccupiedSlot>, slot: int, count: int) -> Seq<OccupiedSlot>
    decreases count,
{
    if count <= 0 {
        seq![]
    } else if found[count - 1].slot_id == slot {
        with_slot(found, slot, count - 1).push(found[count - 1])
    } else {
        with_slot(found, slot, count - 1)
    }
}

/// The leases of the slots below a bound, in the order of their slots.
pub open spec fn in_slot_order(found: Seq<OccupiedSlot>, below: int) -> Seq<OccupiedSlot>
    decreases below,
{
    if below <= 0 {
        seq![]
    } else {
        in_slot_order(found, below - 1) + with_slot(found, below - 1, found.len() as int)
    }
}

/// What a request for a slot leads to.
#[derive(PartialEq, Eq)]
pub enum LeaseDecision {
    /// Answer without touching the store.
    Answer(LeaseAcquireResponse),
    /// Publish the lease in this slot, then answer that it was acquired.
    Publish { slot_id: u8, lease: LeaseRecord },
}

/// A lease holds this slot.
pub open spec fn slot_held(occupied: Seq<OccupiedSlot>, slot: u8) -> bool {
    exists|i: int| 0 <= i < occupied.len() && (#[trigger] occupied[i]).slot_id == slot
}

/// The slot that a request is given: the lowest that no lease holds.
pub open spec fn free_slot(occupied: Seq<OccupiedSlot>, slot_count: u8, slot: u8) -> bool {
    &&& slot < slot_count
    &&& !slot_held(occupied, slot)
    &&& forall|lower: u8| lower < slot ==> #[trigger] slot_held(occupied, lower)
}

/// Every slot is held.
pub open spec fn all_slots_held(occupied: Seq<OccupiedSlot>, slot_count: u8) -> bool {
    forall|slot: u8| slot < slot_count ==> #[trigger] slot_held(occupied, slot)
}

/// A lease was granted for exactly this request.
pub open spec fn lease_is_for(lease: LeaseModel, request: BoundRequestModel) -> bool {
    lease == request.material.lease(
        request.request_fingerprint,
        lease.created_at_millis,
        lease.expires_at_millis,
    )
}

fn lease_matches_request(lease: &LeaseRecord, request: &LeaseAcquireRequest) -> (result: Result<
    bool,
    WorkerError,
>)
    requires
        request@.fault() is None,
    ensures
        result == Ok::<bool, WorkerError>(lease_is_for(lease@, request@)),
{
    let material = &request.material;
    let summary = material.command.summary()?;
    Ok(
        lease.job_id == material.job_id && lease.client_id == material.client_id
            && lease.lease_token == material.lease_token && lease.request_fingerprint.same(
            &request.request_fingerprint,
        ) && text_eq(lease.worker_name.as_str(), material.worker_name.as_str()) && text_eq(
            lease.project_id.as_str(),
            material.project_id.as_str(),
        ) && text_eq(lease.worktree_id.as_str(), material.worktree_id.as_str()) && text_eq(
            lease.manifest_digest.as_str(),
            material.manifest_digest.as_str(),
        ) && lease.timeout_millis == material.timeout_millis && text_eq(
            lease.resource_class.as_str(),
            material.resource_class.as_str(),
        ) && lease.command_summary == summary,
    )
}

/// The first lease of a job.
pub open spec fn lease_of(occupied: Seq<OccupiedSlot>, job: JobId, at: int) -> Option<OccupiedSlot>
    decreases occupied.len() - at,
{
    if at >= occupied.len() {
        None
    } else if occupied[at].lease.job_id == job {
        Some(occupied[at])
    } else {
        lease_of(occupied, job, at + 1)
    }
}

fn find_lease(occupied: &Vec<OccupiedSlot>, job: JobId) -> (found: Option<usize>)
    ensures
        match found {
            Some(at) => at < occupied@.len() && lease_of(occupied@, job, 0) == Some(
                occupied@[at as int],
            ),
            None => lease_of(occupied@, job, 0) is None,
        },
{
    let mut i: usize = 0;
    while i < occupied.len()
        invariant
            i <= occupied.len(),
            lease_of(occupied@, job, 0) == lease_of(occupied@, job, i as int),
        decreases occupied.len() - i,
    {
        if occupied[i].lease.job_id == job {
            return Some(i);
        }
        i += 1;
    }
    None
}

/// Another lease already runs in the workspace that a request asks for.
pub open spec fn workspace_held(
    occupied: Seq<OccupiedSlot>,
    project_id: Seq<char>,
    scope: ExecutionScope,
) -> bool {
    exists|i: int|
        0 <= i < occupied.len() && scopes_clash(
            project_id,
            scope,
            (#[trigger] occupied[i]).lease.project_id@,
            occupied[i].execution_scope,
        )
}

/// The leases that a host's store holds.
#[derive(PartialEq, Eq)]
pub struct LeaseService {
    pub capacity: CapacityFile,
    pub directories: Vec<SlotDirectory>,
}

impl LeaseService {
    /// Why the store's leases cannot be trusted.
    pub open spec fn fault(&self) -> Option<Seq<char>> {
        earliest(
            capacity_fault(self.capacity),
            directory_faults(self.directories@, self.configured(), 0),
        )
    }

    pub open spec fn configured(&self) -> u8 {
        self.capacity->slot_count
    }

    /// The live leases, in the order of their slots.
    pub open spec fn live(&self) -> Seq<OccupiedSlot> {
        in_slot_order(
            found_leases(self.directories@, self.directories@.len() as int),
            MAX_HOST_SLOTS as int,
        )
    }

    pub fn new(capacity: CapacityFile, directories: Vec<SlotDirectory>) -> (service: LeaseService)
        ensures
            service == (LeaseService { capacity, directories }),
    {
        LeaseService { capacity, directories }
    }

    pub fn occupied_slots(&self) -> (result: Result<Vec<OccupiedSlot>, WorkerError>)
        ensures
            outcome_of(result, self.fault()),
            result matches Ok(occupied) ==> occupied@ == self.live(),
    {
        let slot_count: u8 = read_slot_count(&self.capacity)?;
        let mut found: Vec<OccupiedSlot> = Vec::new();
        let mut i: usize = 0;
        while i < self.directories.len()
            invariant
                i <= self.directories.len(),
                slot_count == self.configured(),
                capacity_fault(self.capacity) is None,
                self.fault() == directory_faults(self.directories@, slot_count, i as int),
                found@ == found_leases(self.directories@, i as int),
            decreases self.directories.len() - i,
        {
            let directory = &self.directories[i];
            assert(*directory == self.directories@[i as int]);
            assert(self.fault() == earliest(
                directory.fault(slot_count),
                directory_faults(self.directories@, slot_count, i + 1),
            ));
            let name = match &directory.name {
                None => {
                    return Err(protocol_error("slot directory name is not UTF-8"));
                },
                Some(name) => name.as_str(),
            };
            if !has_prefix(name, ".") {
                let slot_id: u8 = parse_canonical_slot_id(name)?;
                match &directory.content {
                    SlotContent::Idle => {},
                    SlotContent::Foreign => {
                        return Err(
                            protocol_error("slot directory is missing a canonical lease record"),
                        );
                    },
                    SlotContent::Unnamed => {
                        return Err(protocol_error("slot entry name is not UTF-8"));
                    },
                    SlotContent::Unreadable { detail } => {
                        if slot_id >= slot_count {
                            return Err(
                                protocol_code(
                                    "HOST_SLOT_ID_INVALID",
                                    "a live lease occupies a slot outside stored capacity",
                                ),
                            );
                        }
                        return Err(protocol_error(detail.as_str()));
                    },
                    SlotContent::Live { lease, execution_scope } => {
                        if slot_id >= slot_count {
                            return Err(
                                protocol_code(
                                    "HOST_SLOT_ID_INVALID",
                                    "a live lease occupies a slot outside stored capacity",
                                ),
                            );
                        }
                        found.push(
                            OccupiedSlot {
                                slot_id,
                                lease: lease.clone(),
                                execution_scope: *execution_scope,
                            },
                        );
                    },
                }
            }
            i += 1;
        }
        let mut ordered: Vec<OccupiedSlot> = Vec::new();
        let mut slot: u8 = 0;
        while slot < MAX_HOST_SLOTS
            invariant
                slot <= MAX_HOST_SLOTS,
                ordered@ == in_slot_order(found@, slot as int),
            decreases MAX_HOST_SLOTS - slot,
        {
            let ghost before = ordered@;
            let mut j: usize = 0;
            while j < found.len()
                invariant
                    j <= found.len(),
                    ordered@ == before + with_slot(found@, slot as int, j as int),
                decreases found.len() - j,
            {
                if found[j].slot_id == slot {
                    ordered.push(found[j].clone());
                }
                j += 1;
                assert(ordered@ =~= before + with_slot(found@, slot as int, j as int));
            }
            slot += 1;
        }
        Ok(ordered)
    }

    /// Decides a request for a slot.
    ///
    /// `disposition` is what the store has decided about the job before, and
    /// `task_closed` whether the task of the asked scope has ended.
    pub fn acquire(
        &self,
        request: &LeaseAcquireRequest,
        scope: ExecutionScope,
        disposition: &Option<JobDisposition>,
        task_closed: bool,
        facts: &AdmissionFacts,
        now: u64,
    ) -> (result: Result<LeaseDecision, WorkerError>)
        ensures
            ({
                let bound = request@;
                let expires = now + bound.material.timeout_millis;
                if bound.fault() is Some {
                    outcome_of(result, bound.fault())
                } else if bound.material.resource_class != "heavy"@ {
                    result matches Err(error) && protocol_refusal(
                        error,
                        "only the heavy resource class is supported"@,
                    )
                } else if *disposition is Some {
                    match disposition->0 {
                        JobDisposition::Accepted { identity, status } => if identity@.belongs_to(
                            bound,
                        ) {
                            result == Ok::<LeaseDecision, WorkerError>(
                                LeaseDecision::Answer(
                                    LeaseAcquireResponse::ExistingAccepted { status },
                                ),
                            )
                        } else {
                            refused(
                                result,
                                "JOB_ID_CONFLICT"@,
                                "job ID belongs to another immutable request"@,
                            )
                        },
                        JobDisposition::Abandoned { identity } => if identity@.is_for(bound) {
                            refused(
                                result,
                                "JOB_ABANDONED"@,
                                "job ID was permanently abandoned"@,
                            )
                        } else {
                            refused(
                                result,
                                "JOB_ID_CONFLICT"@,
                                "job ID belongs to another immutable request"@,
                            )
                        },
                    }
                } else if self.fault() is Some {
                    outcome_of(result, self.fault())
                } else if lease_of(self.live(), bound.material.job_id, 0) is Some {
                    let existing = lease_of(self.live(), bound.material.job_id, 0)->0;
                    if !lease_is_for(existing.lease@, bound) {
                        refused(
                            result,
                            "JOB_ID_CONFLICT"@,
                            "job ID belongs to another immutable request"@,
                        )
                    } else if existing.execution_scope != scope {
                        refused(
                            result,
                            "EXECUTION_SCOPE_CONFLICT"@,
                            "retry execution scope does not match the live lease binding"@,
                        )
                    } else {
                        result == Ok::<LeaseDecision, WorkerError>(
                            LeaseDecision::Answer(
                                LeaseAcquireResponse::Acquired { lease: existing.lease },
                            ),
                        )
                    }
                } else if scope is Task && task_closed {
                    refused(
                        result,
                        "TASK_CLOSED"@,
                        "closed task cannot acquire an execution slot"@,
                    )
                } else if workspace_held(self.live(), bound.material.project_id, scope) {
                    result matches Err(error) && capacity_refusal(
                        error,
                        "WORKSPACE_BUSY"@,
                        "another live lease already owns this execution workspace"@,
                    )
                } else if all_slots_held(self.live(), self.configured()) {
                    result matches Err(error) && capacity_refusal(
                        error,
                        "CAPACITY_BUSY"@,
                        "all host execution slots are busy"@,
                    )
                } else if admission_refused(*facts) is Some {
                    let refusal = admission_refused(*facts)->0;
                    result matches Err(error) && capacity_refusal(error, refusal.0, refusal.1)
                } else if expires > u64::MAX {
                    result matches Err(error) && protocol_refusal(error, "lease expiry overflow"@)
                } else {
                    result matches Ok(decision) && {
                        &&& decision matches LeaseDecision::Publish { slot_id, lease } && free_slot(
                            self.live(),
                            self.configured(),
                            slot_id,
                        ) && lease@ == bound.material.lease(
                            bound.request_fingerprint,
                            now,
                            expires as u64,
                        )
                    }
                }
            }),
    {
        request.validate()?;
        let material = &request.material;
        if !text_eq(material.resource_class.as_str(), "heavy") {
            return Err(protocol_error("only the heavy resource class is supported"));
        }
        if let Some(decided) = disposition {
            return match decided {
                JobDisposition::Accepted { identity, status } => if identity.belongs_to_request(
                    material,
                    &request.request_fingerprint,
                ) {
                    Ok(
                        LeaseDecision::Answer(
                            LeaseAcquireResponse::ExistingAccepted { status: status.clone() },
                        ),
                    )
                } else {
                    Err(
                        protocol_code(
                            "JOB_ID_CONFLICT",
                            "job ID belongs to another immutable request",
                        ),
                    )
                },
                JobDisposition::Abandoned { identity } => if identity.is_for_request(
                    material,
                    &request.request_fingerprint,
                ) {
                    Err(protocol_code("JOB_ABANDONED", "job ID was permanently abandoned"))
                } else {
                    Err(
                        protocol_code(
                            "JOB_ID_CONFLICT",
                            "job ID belongs to another immutable request",
                        ),
                    )
                },
            };
        }
        let occupied = self.occupied_slots()?;
        if let Some(at) = find_lease(&occupied, material.job_id) {
            let existing = &occupied[at];
            if !lease_matches_request(&existing.lease, request)? {
                return Err(
                    protocol_code("JOB_ID_CONFLICT", "job ID belongs to another immutable request"),
                );
            }
            if existing.execution_scope != scope {
                return Err(
                    protocol_code(
                        "EXECUTION_SCOPE_CONFLICT",
                        "retry execution scope does not match the live lease binding",
                    ),
                );
            }
            return Ok(
                LeaseDecision::Answer(
                    LeaseAcquireResponse::Acquired { lease: existing.lease.clone() },
                ),
            );
        }
        if matches!(scope, ExecutionScope::Task { .. }) && task_closed {
            return Err(
                protocol_code("TASK_CLOSED", "closed task cannot acquire an execution slot"),
            );
        }
        if workspace_busy(&occupied, material.project_id.as_str(), &scope) {
            return Err(
                WorkerError::capacity(
                    "WORKSPACE_BUSY",
                    "another live lease already owns this execution workspace",
                ),
            );
        }
        let slot_count: u8 = read_slot_count(&self.capacity)?;
        let slot_id: u8 = match lowest_free_slot(&occupied, slot_count) {
            Some(slot) => slot,
            None => {
                return Err(
                    WorkerError::capacity("CAPACITY_BUSY", "all host execution slots are busy"),
                );
            },
        };
        validate_admission(facts)?;
        match now.checked_add(material.timeout_millis) {
            None => Err(protocol_error("lease expiry overflow")),
            Some(expires) => {
                let lease = LeaseRecord::new(
                    material,
                    request.request_fingerprint.clone(),
                    now,
                    expires,
                )?;
                Ok(LeaseDecision::Publish { slot_id, lease })
            },
        }
    }

    /// The one live lease of a host that has at most one.
    pub fn load(&self) -> (result: Result<Option<LeaseRecord>, WorkerError>)
        ensures
            outcome_of(
                result,
                earliest(
                    self.fault(),
                    fault_if(
                        self.live().len() > 1,
                        coded(
                            "MULTIPLE_LIVE_LEASES"@,
                            "host has more than one live lease; use load_for_job"@,
                        ),
                    ),
                ),
            ),
            result matches Ok(lease) ==> lease == (if self.live().len() == 0 {
                None
            } else {
                Some(self.live()[0].lease)
            }),
    {
        let occupied = self.occupied_slots()?;
        if occupied.len() == 0 {
            return Ok(None);
        }
        if occupied.len() > 1 {
            return Err(
                protocol_code(
                    "MULTIPLE_LIVE_LEASES",
                    "host has more than one live lease; use load_for_job",
                ),
            );
        }
        Ok(Some(occupied[0].lease.clone()))
    }

    pub fn load_all(&self) -> (result: Result<Vec<(u8, LeaseRecord)>, WorkerError>)
        ensures
            outcome_of(result, self.fault()),
            result matches Ok(leases) ==> leases@ == self.live().map_values(
                |slot: OccupiedSlot| (slot.slot_id, slot.lease),
            ),
    {
        let occupied = self.occupied_slots()?;
        let mut leases: Vec<(u8, LeaseRecord)> = Vec::new();
        let mut i: usize = 0;
        while i < occupied.len()
            invariant
                i <= occupied.len(),
                occupied@ == self.live(),
                leases@.len() == i,
                forall|j: int|
                    0 <= j < i ==> #[trigger] leases@[j] == (
                        occupied@[j].slot_id,
                        occupied@[j].lease,
                    ),
            decreases occupied.len() - i,
        {
            leases.push((occupied[i].slot_id, occupied[i].lease.clone()));
            i += 1;
        }
        assert(leases@ =~= self.live().map_values(
            |slot: OccupiedSlot| (slot.slot_id, slot.lease),
        ));
        Ok(leases)
    }

    pub fn occupied_slot_for_job(&self, job: JobId) -> (result: Result<
        Option<OccupiedSlot>,
        WorkerError,
    >)
        ensures
            outcome_of(result, self.fault()),
            result matches Ok(slot) ==> slot == lease_of(self.live(), job, 0),
    {
        let occupied = self.occupied_slots()?;
        match find_lease(&occupied, job) {
            Some(at) => Ok(Some(occupied[at].clone())),
            None => Ok(None),
        }
    }

    pub fn load_for_job(&self, job: JobId) -> (result: Result<Option<LeaseRecord>, WorkerError>)
        ensures
            outcome_of(result, self.fault()),
            result matches Ok(lease) ==> lease == (match lease_of(self.live(), job, 0) {
                Some(slot) => Some(slot.lease),
                None => None,
            }),
    {
        match self.occupied_slot_for_job(job)? {
            Some(slot) => Ok(Some(slot.lease)),
            None => Ok(None),
        }
    }

    /// Whether a task runs on this host now.
    pub fn task_scope_is_live(&self, project_id: &str, task_id: TaskId) -> (result: Result<
        bool,
        WorkerError,
    >)
        ensures
            outcome_of(result, self.fault()),
            result matches Ok(live) ==> live == (exists|i: int|
                0 <= i < self.live().len() && (#[trigger] self.live()[i]).owned_by_task(
                    project_id@,
                    task_id,
                )),
    {
        let occupied = self.occupied_slots()?;
        let mut i: usize = 0;
        while i < occupied.len()
            invariant
                i <= occupied.len(),
                occupied@ == self.live(),
                self.fault() is None,
                forall|j: int|
                    0 <= j < i ==> !(#[trigger] self.live()[j]).owned_by_task(project_id@, task_id),
            decreases occupied.len() - i,
        {
            if occupied[i].owns_task(project_id, task_id) {
                assert(self.live()[i as int].owned_by_task(project_id@, task_id));
                return Ok(true);
            }
            i += 1;
        }
        Ok(false)
    }

    pub fn slot_count(&self) -> (result: Result<u8, WorkerError>)
        ensures
            outcome_of(result, capacity_fault(self.capacity)),
            result matches Ok(count) ==> count == self.configured() && slot_count_valid(count),
    {
        read_slot_count(&self.capacity)
    }

    /// Changes how many slots the host has. No lease may hold a slot that would
    /// go away.
    pub fn set_slot_count(&mut self, slot_count: u8) -> (result: Result<(), WorkerError>)
        ensures
            final(self).directories == old(self).directories,
            ({
                let refusal = earliest(
                    fault_if(
                        !slot_count_valid(slot_count),
                        "slot_count must be between 1 and 8"@,
                    ),
                    old(self).fault(),
                );
                if refusal is Some {
                    outcome_of(result, refusal) && *final(self) == *old(self)
                } else if exists|i: int|
                    0 <= i < old(self).live().len() && (#[trigger] old(self).live()[i]).slot_id
                        >= slot_count {
                    &&& result matches Err(error) && capacity_refusal(
                        error,
                        "CAPACITY_BUSY"@,
                        "a live lease occupies a slot that shrink would remove"@,
                    )
                    &&& *final(self) == *old(self)
                } else {
                    result is Ok && final(self).capacity == (CapacityFile::Recorded { slot_count })
                }
            }),
    {
        validate_slot_count(slot_count)?;
        let occupied = self.occupied_slots()?;
        let mut i: usize = 0;
        while i < occupied.len()
            invariant
                i <= occupied.len(),
                occupied@ == self.live(),
                *self == *old(self),
                slot_count_valid(slot_count),
                self.fault() is None,
                forall|j: int| 0 <= j < i ==> (#[trigger] self.live()[j]).slot_id < slot_count,
            decreases occupied.len() - i,
        {
            if occupied[i].slot_id >= slot_count {
                assert(self.live()[i as int].slot_id >= slot_count);
                return Err(
                    WorkerError::capacity(
                        "CAPACITY_BUSY",
                        "a live lease occupies a slot that shrink would remove",
                    ),
                );
            }
            i += 1;
        }
        self.capacity = CapacityFile::Recorded { slot_count };
        Ok(())
    }

    /// A host may be upgraded only while no lease is live.
    pub fn promotion_blocked(&self) -> (result: Result<(), WorkerError>)
        ensures
            if self.fault() is Some {
                outcome_of(result, self.fault())
            } else if self.live().len() > 0 {
                result matches Err(error) && error matches WorkerError::Unavailable(text) && text@
                    == coded("HOST_UPGRADE_DRAIN_REQUIRED"@, "a live lease is still present"@)
            } else {
                result is Ok
            },
    {
        let occupied = self.occupied_slots()?;
        if occupied.len() > 0 {
            return Err(
                WorkerError::Unavailable(
                    "HOST_UPGRADE_DRAIN_REQUIRED".to_owned().concat(": ").concat(
                        "a live lease is still present",
                    ),
                ),
            );
        }
        Ok(())
    }

    pub fn occupancy(&self) -> (result: Result<LeaseOccupancy, WorkerError>)
        ensures
            outcome_of(
                result,
                earliest(
                    self.fault(),
                    fault_if(
                        self.live().len() > 255,
                        coded("CAPACITY_BUSY"@, "live lease count exceeds the slot bound"@),
                    ),
                ),
            ),
            result matches Ok(occupancy) ==> occupancy_is(
                occupancy,
                self.configured(),
                self.live().map_values(|slot: OccupiedSlot| slot.lease),
            ),
    {
        let leases = self.load_all()?;
        let configured: u8 = self.slot_count()?;
        assert(leases@.map_values(|held: (u8, LeaseRecord)| held.1) =~= self.live().map_values(
            |slot: OccupiedSlot| slot.lease,
        ));
        occupancy_from_leases(configured, &leases)
    }

    /// The occupancy of a host, which is idle until it has a store.
    pub fn load_if_present(store: Option<&LeaseService>) -> (result: Result<
        LeaseOccupancy,
        WorkerError,
    >)
        ensures
            match store {
                None => result matches Ok(occupancy) && occupancy_is(occupancy, 1, seq![]),
                Some(service) => {
                    &&& outcome_of(
                        result,
                        earliest(
                            service.fault(),
                            fault_if(
                                service.live().len() > 255,
                                coded("CAPACITY_BUSY"@, "live lease count exceeds the slot bound"@),
                            ),
                        ),
                    )
                    &&& result matches Ok(occupancy) ==> occupancy_is(
                        occupancy,
                        service.configured(),
                        service.live().map_values(|slot: OccupiedSlot| slot.lease),
                    )
                },
            },
    {
        match store {
            None => Ok(
                LeaseOccupancy {
                    slot_state: SlotState::Idle,
                    active_lease: None,
                    configured_slots: 1,
                    busy_slots: 0,
                },
            ),
            Some(service) => service.occupancy(),
        }
    }

    /// Records a published lease. What a slot of that name held is gone.
    pub fn publish(&mut self, slot_id: u8, lease: LeaseRecord, execution_scope: ExecutionScope)
        ensures
            final(self).capacity == old(self).capacity,
            final(self).directories@.len() == without_slot(
                old(self).directories@,
                slot_id,
                old(self).directories@.len() as int,
            ).len() + 1,
            final(self).directories@.drop_last() == without_slot(
                old(self).directories@,
                slot_id,
                old(self).directories@.len() as int,
            ),
            final(self).directories@.last().content == (SlotContent::Live {
                lease,
                execution_scope,
            }),
            final(self).directories@.last().name matches Some(name) && name@ == decimal(
                slot_id as nat,
            ),
    {
        self.clear_slot(slot_id);
        self.directories.push(
            SlotDirectory {
                name: Some(decimal_text(slot_id as u64)),
                content: SlotContent::Live { lease, execution_scope },
            },
        );
        assert(self.directories@.drop_last() =~= without_slot(
            old(self).directories@,
            slot_id,
            old(self).directories@.len() as int,
        ));
    }

    fn clear_slot(&mut self, slot_id: u8)
        ensures
            final(self).capacity == old(self).capacity,
            final(self).directories@ == without_slot(
                old(self).directories@,
                slot_id,
                old(self).directories@.len() as int,
            ),
    {
        let mut kept: Vec<SlotDirectory> = Vec::new();
        let mut rest: Vec<SlotDirectory> = Vec::new();
        std::mem::swap(&mut rest, &mut self.directories);
        let ghost all = rest@;
        let ghost total = rest@.len() as int;
        let wanted = decimal_text(slot_id as u64);
        while rest.len() > 0
            invariant
                rest@ == all.take(rest@.len() as int),
                rest@.len() <= all.len() == total,
                all == old(self).directories@,
                self.capacity == old(self).capacity,
                wanted@ == decimal(slot_id as nat),
                without_slot(all, slot_id, total) == without_slot(all, slot_id, rest@.len() as int)
                    + kept@.reverse(),
            decreases rest.len(),
        {
            let ghost count = rest@.len() as int;
            let directory = rest.pop().unwrap();
            assert(directory == all[count - 1]);
            assert(rest@ =~= all.take(count - 1));
            let named = match &directory.name {
                Some(name) => text_eq(name.as_str(), wanted.as_str()),
                None => false,
            };
            let ghost before = kept@.reverse();
            if !named {
                kept.push(directory);
                assert(kept@.reverse() =~= seq![directory] + before);
            }
            assert(without_slot(all, slot_id, total) =~= without_slot(all, slot_id, count - 1)
                + kept@.reverse());
        }
        let mut ordered: Vec<SlotDirectory> = Vec::new();
        let ghost goal = kept@.reverse();
        assert(without_slot(all, slot_id, total) =~= goal);
        while kept.len() > 0
            invariant
                goal =~= ordered@ + kept@.reverse(),
                self.capacity == old(self).capacity,
            decreases kept.len(),
        {
            let ghost left = kept@.reverse();
            let directory = kept.pop().unwrap();
            assert(left =~= seq![directory] + kept@.reverse());
            ordered.push(directory);
        }
        assert(ordered@ =~= goal);
        self.directories = ordered;
    }

    /// Gives up a lease whose job has been cleaned up. `receipt` is whether the
    /// cleanup was proved.
    pub fn release_after_cleanup(
        &mut self,
        expected: &LeaseRecord,
        receipt: Result<(), WorkerError>,
    ) -> (result: Result<(), WorkerError>)
        ensures
            final(self).capacity == old(self).capacity,
            ({
                let held = lease_of(old(self).live(), expected.job_id, 0);
                let refusal = earliest(
                    expected@.fault(),
                    earliest(
                        old(self).fault(),
                        fault_if(
                            held matches Some(slot) && slot.lease@ != expected@,
                            "live lease identity mismatch"@,
                        ),
                    ),
                );
                if refusal is Some {
                    outcome_of(result, refusal) && *final(self) == *old(self)
                } else if receipt is Err || held is None {
                    result == receipt && *final(self) == *old(self)
                } else {
                    result is Ok && final(self).directories@ == without_slot(
                        old(self).directories@,
                        held->0.slot_id,
                        old(self).directories@.len() as int,
                    )
                }
            }),
    {
        expected.validate()?;
        match self.occupied_slot_for_job(expected.job_id)? {
            None => receipt,
            Some(slot) => {
                if !slot.lease.same(expected) {
                    return Err(protocol_error("live lease identity mismatch"));
                }
                match receipt {
                    Err(error) => Err(error),
                    Ok(()) => {
                        self.clear_slot(slot.slot_id);
                        Ok(())
                    },
                }
            },
        }
    }
}

/// A refusal by a stable code.
pub open spec fn refused<T>(
    result: Result<T, WorkerError>,
    code: Seq<char>,
    message: Seq<char>,
) -> bool {
    result matches Err(error) && protocol_refusal(error, coded(code, message))
}

/// The first `count` directories without those named for one slot.
pub open spec fn without_slot(directories: Seq<SlotDirectory>, slot_id: u8, count: int) -> Seq<
    SlotDirectory,
>
    decreases count,
{
    if count <= 0 {
        seq![]
    } else if directories[count - 1].name matches Some(name) && name@ == decimal(slot_id as nat) {
        without_slot(directories, slot_id, count - 1)
    } else {
        without_slot(directories, slot_id, count - 1).push(directories[count - 1])
    }
}

fn workspace_busy(occupied: &Vec<OccupiedSlot>, project_id: &str, scope: &ExecutionScope) -> (busy:
    bool)
    ensures
        busy == workspace_held(occupied@, project_id@, *scope),
{
    let mut i: usize = 0;
    while i < occupied.len()
        invariant
            i <= occupied.len(),
            forall|j: int|
                0 <= j < i ==> !scopes_clash(
                    project_id@,
                    *scope,
                    (#[trigger] occupied@[j]).lease.project_id@,
                    occupied@[j].execution_scope,
                ),
        decreases occupied.len() - i,
    {
        let slot = &occupied[i];
        if scopes_conflict(
            project_id,
            scope,
            slot.lease.project_id.as_str(),
            &slot.execution_scope,
        ) {
            assert(occupied@[i as int] == *slot);
            return true;
        }
        i += 1;
    }
    false
}

fn slot_is_held(occupied: &Vec<OccupiedSlot>, slot: u8) -> (held: bool)
    ensures
        held == slot_held(occupied@, slot),
{
    let mut i: usize = 0;
    while i < occupied.len()
        invariant
            i <= occupied.len(),
            forall|j: int| 0 <= j < i ==> (#[trigger] occupied@[j]).slot_id != slot,
        decreases occupied.len() - i,
    {
        if occupied[i].slot_id == slot {
            return true;
        }
        i += 1;
    }
    false
}

fn lowest_free_slot(occupied: &Vec<OccupiedSlot>, slot_count: u8) -> (slot: Option<u8>)
    ensures
        match slot {
            Some(free) => free_slot(occupied@, slot_count, free),
            None => all_slots_held(occupied@, slot_count),
        },
{
    let mut slot: u8 = 0;
    while slot < slot_count
        invariant
            slot <= slot_count,
            forall|lower: u8| lower < slot ==> #[trigger] slot_held(occupied@, lower),
        decreases slot_count - slot,
    {
        if !slot_is_held(occupied, slot) {
            return Some(slot);
        }
        slot += 1;
    }
    None
}

/// What a host tells of its leases.
pub open spec fn occupancy_is(
    occupancy: LeaseOccupancy,
    configured: u8,
    leases: Seq<LeaseRecord>,
) -> bool {
    &&& occupancy.configured_slots == configured
    &&& occupancy.busy_slots == leases.len()
    &&& occupancy.slot_state == (if leases.len() < configured {
        SlotState::Idle
    } else {
        SlotState::Busy
    })
    &&& match occupancy.active_lease {
        None => leases.len() == 0,
        Some(summary) => leases.len() > 0 && summary@ == (LeaseSummaryModel {
            job_id: leases[0].job_id,
            project_id: leases[0].project_id@,
            worktree_id: leases[0].worktree_id@,
            created_at_millis: leases[0].created_at_millis,
        }),
    }
}

pub fn occupancy_from_leases(configured: u8, occupied: &Vec<(u8, LeaseRecord)>) -> (result: Result<
    LeaseOccupancy,
    WorkerError,
>)
    ensures
        outcome_of(
            result,
            fault_if(
                occupied@.len() > 255,
                coded("CAPACITY_BUSY"@, "live lease count exceeds the slot bound"@),
            ),
        ),
        result matches Ok(occupancy) ==> occupancy_is(
            occupancy,
            configured,
            occupied@.map_values(|held: (u8, LeaseRecord)| held.1),
        ),
{
    if occupied.len() > 255 {
        return Err(protocol_code("CAPACITY_BUSY", "live lease count exceeds the slot bound"));
    }
    let busy: u8 = occupied.len() as u8;
    let active_lease = if occupied.len() == 0 {
        None
    } else {
        let lease = &occupied[0].1;
        Some(
            LeaseSummary {
                job_id: lease.job_id,
                project_id: lease.project_id.clone(),
                worktree_id: lease.worktree_id.clone(),
                created_at_millis: lease.created_at_millis,
            },
        )
    };
    Ok(
        LeaseOccupancy {
            slot_state: if busy < configured {
                SlotState::Idle
            } else {
                SlotState::Busy
            },
            active_lease,
            configured_slots: configured,
            busy_slots: busy,
        },
    )
}

/// The part of a host's store that holds its slots.
#[derive(Debug, PartialEq, Eq)]
pub struct SlotLayout {
    pub slots_present: bool,
    pub capacity: CapacityFile,
}

/// Gives a store its slot directory and, where no capacity is recorded, one
/// slot. What is there already is kept as it is.
pub fn promote_slot_directories(layout: &mut SlotLayout)
    ensures
        final(layout).slots_present,
        final(layout).capacity == (if old(layout).capacity is Missing {
            CapacityFile::Recorded { slot_count: 1 }
        } else {
            old(layout).capacity
        }),
{
    layout.slots_present = true;
    if matches!(layout.capacity, CapacityFile::Missing) {
        layout.capacity = CapacityFile::Recorded { slot_count: 1 };
    }
}

/// Whether two scopes run in one workspace does not depend on their order, and
/// no two scopes of single jobs ever do.
pub proof fn workspace_conflicts_are_mutual(
    left_project: Seq<char>,
    left: ExecutionScope,
    right_project: Seq<char>,
    right: ExecutionScope,
)
    ensures
        scopes_clash(left_project, left, right_project, right) == scopes_clash(
            right_project,
            right,
            left_project,
            left,
        ),
        left is Job ==> !scopes_clash(left_project, left, right_project, right),
{
}

} // verus!
