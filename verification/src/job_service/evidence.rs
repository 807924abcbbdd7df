//! What the directory of a job proves about it.
use vstd::prelude::*;
use crate::error::{earliest, fault_if, outcome_of, protocol_error, WorkerError};
use crate::job::record::{JobMeta, LeaseModel, LeaseRecord};
use crate::job::request::{ResolutionModel, ResolveOrAbandonRequest, SubmitModel, SubmitRequest};
use crate::job::status::{bare_status, JobState, JobStatus, StatusModel};
use crate::job_service::identity::{
    exact_meta_fault, id_conflict, job_id_conflict, job_state_invalid, require_exact_meta,
    require_resolution_meta, resolution_meta_fault, state_invalid,
};
use crate::job_service::payload::{ExecutionPayload, TurnSection};
use crate::outside::{sha256, sha256_digest};
use crate::text::{bytes_eq, hex_of, hex_text, text_eq};

verus! {

/// What could be learned of one log of a job.
#[derive(Debug, Clone, Copy, PartialEq, Eq, Structural)]
pub enum LogEvidence {
    /// It is absent, or not a private regular file.
    Unsafe,
    /// The opened file is not the one that the directory names.
    Unbound,
    Length { bytes: u64 },
}

/// The names that a directory lists; `None` for one that is not UTF-8.
pub open spec fn lists(names: Seq<Option<String>>, name: Seq<char>) -> bool {
    exists|i: int|
        0 <= i < names.len() && ((#[trigger] names[i]) matches Some(text) && text@ == name)
}

pub open spec fn all_utf8(names: Seq<Option<String>>) -> bool {
    forall|i: int| 0 <= i < names.len() ==> (#[trigger] names[i]) is Some
}

/// The directory lists nothing but these names.
pub open spec fn lists_only(names: Seq<Option<String>>, allowed: Seq<Seq<char>>) -> bool {
    forall|i: int|
        0 <= i < names.len() ==> ((#[trigger] names[i]) matches Some(text) ==> allowed.contains(
            text@,
        ))
}

/// The directory lists exactly these names.
pub open spec fn lists_exactly(names: Seq<Option<String>>, expected: Seq<Seq<char>>) -> bool {
    &&& lists_only(names, expected)
    &&& forall|k: int| 0 <= k < expected.len() ==> lists(names, #[trigger] expected[k])
}

/// The texts of a list of literals.
pub open spec fn literals(values: Seq<&'static str>) -> Seq<Seq<char>> {
    values.map_values(|value: &'static str| value@)
}

fn contains_name(names: &Vec<Option<String>>, name: &str) -> (found: bool)
    ensures
        found == lists(names@, name@),
{
    let mut i: usize = 0;
    while i < names.len()
        invariant
            i <= names.len(),
            forall|j: int|
                0 <= j < i ==> !((#[trigger] names@[j]) matches Some(text) && text@ == name@),
        decreases names.len() - i,
    {
        if let Some(text) = &names[i] {
            if text_eq(text.as_str(), name) {
                assert(names@[i as int] matches Some(held) && held@ == name@);
                return true;
            }
        }
        i += 1;
    }
    false
}

fn is_all_utf8(names: &Vec<Option<String>>) -> (holds: bool)
    ensures
        holds == all_utf8(names@),
{
    let mut i: usize = 0;
    while i < names.len()
        invariant
            i <= names.len(),
            forall|j: int| 0 <= j < i ==> (#[trigger] names@[j]) is Some,
        decreases names.len() - i,
    {
        if names[i].is_none() {
            return false;
        }
        i += 1;
    }
    true
}

fn among(value: &str, allowed: &Vec<&'static str>) -> (found: bool)
    ensures
        found == literals(allowed@).contains(value@),
{
    let mut i: usize = 0;
    while i < allowed.len()
        invariant
            i <= allowed.len(),
            forall|j: int| 0 <= j < i ==> (#[trigger] literals(allowed@)[j]) != value@,
        decreases allowed.len() - i,
    {
        if text_eq(allowed[i], value) {
            assert(literals(allowed@)[i as int] == value@);
            return true;
        }
        i += 1;
    }
    false
}

fn names_within(names: &Vec<Option<String>>, allowed: &Vec<&'static str>) -> (holds: bool)
    ensures
        holds == lists_only(names@, literals(allowed@)),
{
    let mut i: usize = 0;
    while i < names.len()
        invariant
            i <= names.len(),
            forall|j: int|
                0 <= j < i ==> ((#[trigger] names@[j]) matches Some(text) ==> literals(
                    allowed@,
                ).contains(text@)),
        decreases names.len() - i,
    {
        if let Some(text) = &names[i] {
            if !among(text.as_str(), allowed) {
                return false;
            }
        }
        i += 1;
    }
    true
}

fn names_are(names: &Vec<Option<String>>, expected: &Vec<&'static str>) -> (holds: bool)
    ensures
        holds == lists_exactly(names@, literals(expected@)),
{
    if !names_within(names, expected) {
        return false;
    }
    let mut k: usize = 0;
    while k < expected.len()
        invariant
            k <= expected.len(),
            forall|j: int| 0 <= j < k ==> lists(names@, #[trigger] literals(expected@)[j]),
        decreases expected.len() - k,
    {
        if !contains_name(names, expected[k]) {
            assert(literals(expected@)[k as int] == expected@[k as int]@);
            return false;
        }
        k += 1;
    }
    true
}

/// Everything that the directory of a job may ever hold.
pub open spec fn known_entries() -> Seq<Seq<char>> {
    seq![
        ".mac-worker-rooted-fs"@,
        "execution.json"@,
        "home"@,
        "meta.json"@,
        "last.md"@,
        "prompt.md"@,
        "result.schema.json"@,
        "status.json"@,
        "stderr.log"@,
        "supervisor.log"@,
        "stdout.log"@,
        "tail.log"@,
        "tmp"@,
        "workspace"@,
    ]
}

fn known_entry_names() -> (names: Vec<&'static str>)
    ensures
        literals(names@) == known_entries(),
{
    let names = vec![
        ".mac-worker-rooted-fs",
        "execution.json",
        "home",
        "meta.json",
        "last.md",
        "prompt.md",
        "result.schema.json",
        "status.json",
        "stderr.log",
        "supervisor.log",
        "stdout.log",
        "tail.log",
        "tmp",
        "workspace",
    ];
    assert(literals(names@) =~= known_entries());
    names
}

/// The directory of a published job that was never launched.
pub open spec fn job_entries() -> Seq<Seq<char>> {
    seq![
        "execution.json"@,
        "home"@,
        "meta.json"@,
        "status.json"@,
        "stderr.log"@,
        "stdout.log"@,
        "tmp"@,
        "workspace"@,
    ]
}

fn job_entry_names() -> (names: Vec<&'static str>)
    ensures
        literals(names@) == job_entries(),
{
    let names = vec![
        "execution.json",
        "home",
        "meta.json",
        "status.json",
        "stderr.log",
        "stdout.log",
        "tmp",
        "workspace",
    ];
    assert(literals(names@) =~= job_entries());
    names
}

/// The directory of a published turn that was never launched.
pub open spec fn turn_entries() -> Seq<Seq<char>> {
    seq![
        ".mac-worker-rooted-fs"@,
        "execution.json"@,
        "meta.json"@,
        "prompt.md"@,
        "result.schema.json"@,
        "status.json"@,
        "stderr.log"@,
        "stdout.log"@,
        "tail.log"@,
        "tmp"@,
    ]
}

fn turn_entry_names() -> (names: Vec<&'static str>)
    ensures
        literals(names@) == turn_entries(),
{
    let names = vec![
        ".mac-worker-rooted-fs",
        "execution.json",
        "meta.json",
        "prompt.md",
        "result.schema.json",
        "status.json",
        "stderr.log",
        "stdout.log",
        "tail.log",
        "tmp",
    ];
    assert(literals(names@) =~= turn_entries());
    names
}

/// The directory has this layout, with or without a supervisor's diagnostics.
pub open spec fn has_layout(names: Seq<Option<String>>, expected: Seq<Seq<char>>) -> bool {
    lists_exactly(names, expected) || lists_exactly(names, expected.push("supervisor.log"@))
}

fn layout_is(names: &Vec<Option<String>>, expected: Vec<&'static str>) -> (holds: bool)
    ensures
        holds == has_layout(names@, literals(expected@)),
{
    if names_are(names, &expected) {
        return true;
    }
    let ghost before = literals(expected@);
    let mut extended = expected;
    extended.push("supervisor.log");
    assert(literals(extended@) =~= before.push("supervisor.log"@));
    names_are(names, &extended)
}

/// What a host finds in the directory of a job that its index does not know.
pub struct FinalEvidence {
    /// The listing, where it could be read.
    pub names: Option<Vec<Option<String>>>,
    /// The records, where they are canonical.
    pub meta: Option<JobMeta>,
    pub payload: Option<ExecutionPayload>,
    pub status: Option<JobStatus>,
    /// The contents, where they could be read safely.
    pub prompt: Option<Vec<u8>>,
    pub schema: Option<Vec<u8>>,
    pub tail: LogEvidence,
    /// Whether the directories could be opened safely.
    pub home_safe: bool,
    pub tmp_safe: bool,
    pub workspace_safe: bool,
    pub stdout: LogEvidence,
    pub stderr: LogEvidence,
    pub supervisor: LogEvidence,
}

/// What a host finds where a job's directory would be.
pub enum FinalDirectory {
    Missing,
    Unsafe,
    Open { evidence: FinalEvidence },
}

/// How much of a job its directory holds.
#[derive(Debug, Clone, Copy, PartialEq, Eq, Structural)]
pub enum ResolutionFinal {
    Complete,
    Incomplete,
}

/// A log that must be empty wherever it exists.
pub open spec fn empty_log_fault(
    present: bool,
    log: LogEvidence,
    unsafe_text: Seq<char>,
    unbound_text: Seq<char>,
    nonempty_text: Seq<char>,
) -> Option<Seq<char>> {
    if !present {
        None
    } else {
        match log {
            LogEvidence::Unsafe => Some(id_conflict(unsafe_text)),
            LogEvidence::Unbound => Some(id_conflict(unbound_text)),
            LogEvidence::Length { bytes } => fault_if(bytes != 0, id_conflict(nonempty_text)),
        }
    }
}

fn require_empty_log(
    present: bool,
    log: LogEvidence,
    unsafe_text: &str,
    unbound_text: &str,
    nonempty_text: &str,
) -> (result: Result<(), WorkerError>)
    ensures
        outcome_of(
            result,
            empty_log_fault(present, log, unsafe_text@, unbound_text@, nonempty_text@),
        ),
{
    if present {
        match log {
            LogEvidence::Unsafe => {
                return Err(job_id_conflict(unsafe_text));
            },
            LogEvidence::Unbound => {
                return Err(job_id_conflict(unbound_text));
            },
            LogEvidence::Length { bytes } => {
                if bytes != 0 {
                    return Err(job_id_conflict(nonempty_text));
                }
            },
        }
    }
    Ok(())
}

impl FinalEvidence {
    pub open spec fn has(&self, name: Seq<char>) -> bool {
        self.names matches Some(names) && lists(names@, name)
    }

    pub open spec fn layout_fault(&self) -> Option<Seq<char>> {
        match self.names {
            None => Some(id_conflict("final job layout is unsafe"@)),
            Some(names) => earliest(
                fault_if(
                    !all_utf8(names@),
                    id_conflict("final job has a non-UTF-8 entry"@),
                ),
                fault_if(
                    !lists_only(names@, known_entries()),
                    id_conflict("final job contains unrelated evidence"@),
                ),
            ),
        }
    }

    pub open spec fn meta_fault(&self, identity: ResolutionModel) -> Option<Seq<char>> {
        if !self.has("meta.json"@) {
            None
        } else {
            match self.meta {
                None => Some(id_conflict("incomplete final metadata is invalid"@)),
                Some(meta) => resolution_meta_fault(identity, meta@),
            }
        }
    }

    /// The payload is one turn of a task.
    pub open spec fn is_turn(&self) -> bool {
        self.has("execution.json"@) && (self.payload matches Some(payload) && payload.turn is Some)
    }

    pub open spec fn prompt_fault(&self, section: TurnSection) -> Option<Seq<char>> {
        if !self.has("prompt.md"@) {
            None
        } else {
            match self.prompt {
                None => Some(id_conflict("incomplete turn prompt is unsafe"@)),
                Some(prompt) => fault_if(
                    hex_text(sha256_digest(prompt@)) != section.prompt_sha256@,
                    id_conflict("incomplete turn prompt does not match its digest"@),
                ),
            }
        }
    }

    pub open spec fn schema_fault(&self, canonical: Seq<u8>) -> Option<Seq<char>> {
        if !self.has("result.schema.json"@) {
            None
        } else {
            match self.schema {
                None => Some(id_conflict("incomplete turn schema is unsafe"@)),
                Some(schema) => fault_if(
                    schema@ != canonical,
                    id_conflict("incomplete turn schema is not canonical"@),
                ),
            }
        }
    }

    pub open spec fn payload_fault(&self, identity: ResolutionModel, canonical: Seq<u8>) -> Option<
        Seq<char>,
    > {
        if !self.has("execution.json"@) {
            None
        } else {
            match self.payload {
                None => Some(id_conflict("incomplete execution payload is invalid"@)),
                Some(payload) => earliest(
                    payload@.resolution_fault(identity),
                    match payload.turn {
                        None => None,
                        Some(section) => earliest(
                            self.prompt_fault(section),
                            earliest(
                                self.schema_fault(canonical),
                                empty_log_fault(
                                    self.has("tail.log"@),
                                    self.tail,
                                    "incomplete turn tail is unsafe"@,
                                    "incomplete turn tail binding is unsafe"@,
                                    "nonempty unindexed turn tail is possible launch evidence"@,
                                ),
                            ),
                        ),
                    },
                ),
            }
        }
    }

    /// Files that only a turn leaves.
    pub open spec fn stray_turn_files(&self) -> bool {
        !self.is_turn() && (self.has("last.md"@) || self.has("prompt.md"@) || self.has(
            "result.schema.json"@,
        ) || self.has("tail.log"@))
    }

    pub open spec fn status_fault(&self) -> Option<Seq<char>> {
        if !self.has("status.json"@) {
            None
        } else {
            match self.status {
                None => Some(id_conflict("incomplete final status is invalid"@)),
                Some(status) => if !self.has("meta.json"@) {
                    Some(
                        id_conflict("status without exact metadata cannot prove final ownership"@),
                    )
                } else {
                    fault_if(
                        status@ != bare_status(
                            JobState::Accepted,
                            self.meta->0.created_at_millis,
                        ),
                        id_conflict("started or terminal final evidence cannot be abandoned"@),
                    )
                },
            }
        }
    }

    pub open spec fn mutable_fault(&self) -> Option<Seq<char>> {
        earliest(
            fault_if(
                (self.has("home"@) && !self.home_safe) || (self.has("tmp"@) && !self.tmp_safe) || (
                self.has("workspace"@) && !self.workspace_safe),
                id_conflict("final mutable directory is unsafe"@),
            ),
            earliest(
                self.log_fault(self.has("stdout.log"@), self.stdout),
                earliest(
                    self.log_fault(self.has("stderr.log"@), self.stderr),
                    self.log_fault(self.has("supervisor.log"@), self.supervisor),
                ),
            ),
        )
    }

    pub open spec fn log_fault(&self, present: bool, log: LogEvidence) -> Option<Seq<char>> {
        empty_log_fault(
            present,
            log,
            "final log is unsafe"@,
            "final log binding is unsafe"@,
            "nonempty unindexed logs are possible launch evidence"@,
        )
    }

    /// The first reason why this directory cannot be settled for the request.
    pub open spec fn fault(&self, identity: ResolutionModel, canonical: Seq<u8>) -> Option<
        Seq<char>,
    > {
        earliest(
            self.layout_fault(),
            earliest(
                self.meta_fault(identity),
                earliest(
                    self.payload_fault(identity, canonical),
                    earliest(
                        fault_if(
                            self.stray_turn_files(),
                            id_conflict("turn evidence belongs to a non-turn execution payload"@),
                        ),
                        earliest(
                            self.status_fault(),
                            earliest(
                                fault_if(
                                    !self.has("meta.json"@) && !self.has("execution.json"@),
                                    id_conflict(
                                        "final job has no positive immutable ownership proof"@,
                                    ),
                                ),
                                self.mutable_fault(),
                            ),
                        ),
                    ),
                ),
            ),
        )
    }

    /// How much of a job the directory holds, once it is free of faults.
    pub open spec fn completeness(&self) -> ResolutionFinal {
        if has_layout(self.names->0@, job_entries()) && !self.is_turn() {
            ResolutionFinal::Complete
        } else {
            ResolutionFinal::Incomplete
        }
    }

    fn check_payload(
        &self,
        identity: &ResolveOrAbandonRequest,
        names: &Vec<Option<String>>,
        canonical_schema: &[u8],
    ) -> (result: Result<bool, WorkerError>)
        requires
            self.names == Some(*names),
        ensures
            outcome_of(result, self.payload_fault(identity@, canonical_schema@)),
            result matches Ok(turn) ==> turn == self.is_turn(),
    {
        if !contains_name(names, "execution.json") {
            return Ok(false);
        }
        let payload = match &self.payload {
            Some(payload) => payload,
            None => {
                return Err(job_id_conflict("incomplete execution payload is invalid"));
            },
        };
        payload.validate_for_resolution(identity)?;
        let section = match &payload.turn {
            Some(section) => section,
            None => {
                return Ok(false);
            },
        };
        if contains_name(names, "prompt.md") {
            match &self.prompt {
                None => {
                    return Err(job_id_conflict("incomplete turn prompt is unsafe"));
                },
                Some(prompt) => {
                    let digest = sha256(prompt.as_slice());
                    if !text_eq(hex_of(digest.as_slice()).as_str(), section.prompt_sha256.as_str()) {
                        return Err(
                            job_id_conflict("incomplete turn prompt does not match its digest"),
                        );
                    }
                },
            }
        }
        if contains_name(names, "result.schema.json") {
            match &self.schema {
                None => {
                    return Err(job_id_conflict("incomplete turn schema is unsafe"));
                },
                Some(schema) => {
                    if !bytes_eq(schema.as_slice(), canonical_schema) {
                        return Err(job_id_conflict("incomplete turn schema is not canonical"));
                    }
                },
            }
        }
        require_empty_log(
            contains_name(names, "tail.log"),
            self.tail,
            "incomplete turn tail is unsafe",
            "incomplete turn tail binding is unsafe",
            "nonempty unindexed turn tail is possible launch evidence",
        )?;
        Ok(true)
    }

    fn check_status(&self, names: &Vec<Option<String>>) -> (result: Result<(), WorkerError>)
        requires
            self.names == Some(*names),
            self.has("meta.json"@) ==> self.meta is Some,
        ensures
            outcome_of(result, self.status_fault()),
    {
        if !contains_name(names, "status.json") {
            return Ok(());
        }
        let status = match &self.status {
            Some(status) => status,
            None => {
                return Err(job_id_conflict("incomplete final status is invalid"));
            },
        };
        if !contains_name(names, "meta.json") {
            return Err(
                job_id_conflict("status without exact metadata cannot prove final ownership"),
            );
        }
        if let Some(meta) = &self.meta {
            let expected = JobStatus::accepted(meta.created_at_millis)?;
            if !status.same(&expected) {
                return Err(
                    job_id_conflict("started or terminal final evidence cannot be abandoned"),
                );
            }
        }
        Ok(())
    }

    fn check_mutable(&self, names: &Vec<Option<String>>) -> (result: Result<(), WorkerError>)
        requires
            self.names == Some(*names),
        ensures
            outcome_of(result, self.mutable_fault()),
    {
        if (contains_name(names, "home") && !self.home_safe) || (contains_name(names, "tmp")
            && !self.tmp_safe) || (contains_name(names, "workspace") && !self.workspace_safe) {
            return Err(job_id_conflict("final mutable directory is unsafe"));
        }
        self.check_log(contains_name(names, "stdout.log"), self.stdout)?;
        self.check_log(contains_name(names, "stderr.log"), self.stderr)?;
        self.check_log(contains_name(names, "supervisor.log"), self.supervisor)
    }

    fn check_log(&self, present: bool, log: LogEvidence) -> (result: Result<(), WorkerError>)
        ensures
            outcome_of(result, self.log_fault(present, log)),
    {
        require_empty_log(
            present,
            log,
            "final log is unsafe",
            "final log binding is unsafe",
            "nonempty unindexed logs are possible launch evidence",
        )
    }

    /// Settles what the directory holds for the request.
    fn classify(&self, identity: &ResolveOrAbandonRequest, canonical_schema: &[u8]) -> (result:
        Result<ResolutionFinal, WorkerError>)
        ensures
            outcome_of(result, self.fault(identity@, canonical_schema@)),
            result matches Ok(kind) ==> kind == self.completeness(),
    {
        let names = match &self.names {
            Some(names) => names,
            None => {
                return Err(job_id_conflict("final job layout is unsafe"));
            },
        };
        if !is_all_utf8(names) {
            return Err(job_id_conflict("final job has a non-UTF-8 entry"));
        }
        if !names_within(names, &known_entry_names()) {
            return Err(job_id_conflict("final job contains unrelated evidence"));
        }
        let has_meta = contains_name(names, "meta.json");
        if has_meta {
            match &self.meta {
                None => {
                    return Err(job_id_conflict("incomplete final metadata is invalid"));
                },
                Some(meta) => require_resolution_meta(identity, meta)?,
            }
        }
        let turn = self.check_payload(identity, names, canonical_schema)?;
        if !turn && (contains_name(names, "last.md") || contains_name(names, "prompt.md")
            || contains_name(names, "result.schema.json") || contains_name(names, "tail.log")) {
            return Err(job_id_conflict("turn evidence belongs to a non-turn execution payload"));
        }
        self.check_status(names)?;
        if !has_meta && !contains_name(names, "execution.json") {
            return Err(job_id_conflict("final job has no positive immutable ownership proof"));
        }
        self.check_mutable(names)?;
        if layout_is(names, job_entry_names()) && !turn {
            Ok(ResolutionFinal::Complete)
        } else {
            Ok(ResolutionFinal::Incomplete)
        }
    }
}

/// The first reason why the final directory cannot be settled for the request.
pub open spec fn final_fault(
    identity: ResolutionModel,
    directory: FinalDirectory,
    canonical_schema: Seq<u8>,
) -> Option<Seq<char>> {
    match directory {
        FinalDirectory::Missing => None,
        FinalDirectory::Unsafe => Some(id_conflict("final job evidence is unsafe"@)),
        FinalDirectory::Open { evidence } => evidence.fault(identity, canonical_schema),
    }
}

pub open spec fn final_kind(directory: FinalDirectory) -> Option<ResolutionFinal> {
    match directory {
        FinalDirectory::Open { evidence } => Some(evidence.completeness()),
        _ => None,
    }
}

/// What is left of a job that its client wants settled: nothing, a complete
/// job that was never launched, or parts of one. Anything that could be
/// another request's, or could have been launched, is refused.
pub fn classify_resolution_final(
    identity: &ResolveOrAbandonRequest,
    directory: &FinalDirectory,
    canonical_schema: &[u8],
) -> (result: Result<Option<ResolutionFinal>, WorkerError>)
    ensures
        outcome_of(result, final_fault(identity@, *directory, canonical_schema@)),
        result matches Ok(kind) ==> kind == final_kind(*directory),
{
    match directory {
        FinalDirectory::Missing => Ok(None),
        FinalDirectory::Unsafe => Err(job_id_conflict("final job evidence is unsafe")),
        FinalDirectory::Open { evidence } => {
            let kind = evidence.classify(identity, canonical_schema)?;
            Ok(Some(kind))
        },
    }
}

/// A published job, or turn, that has not been launched.
pub struct PrelaunchEvidence {
    pub payload: ExecutionPayload,
    pub names: Vec<Option<String>>,
    pub stdout_bytes: u64,
    pub stderr_bytes: u64,
    /// The length of a supervisor's diagnostics, if there are any.
    pub supervisor_log_bytes: Option<u64>,
}

impl PrelaunchEvidence {
    pub open spec fn diagnostics_too_long(&self, limit: u64) -> bool {
        self.supervisor_log_bytes matches Some(bytes) && bytes > limit
    }

    pub open spec fn job_fault(&self, request: SubmitModel, limit: u64) -> Option<Seq<char>> {
        earliest(
            self.payload@.request_fault(request),
            earliest(
                fault_if(!all_utf8(self.names@), "final job has a non-UTF-8 entry"@),
                earliest(
                    fault_if(
                        !has_layout(self.names@, job_entries()),
                        "indexed prelaunch job has an unsafe top-level layout"@,
                    ),
                    earliest(
                        fault_if(
                            self.stdout_bytes != 0 || self.stderr_bytes != 0,
                            "indexed prelaunch job log is not empty"@,
                        ),
                        fault_if(
                            self.diagnostics_too_long(limit),
                            "indexed prelaunch supervisor log exceeds its bound"@,
                        ),
                    ),
                ),
            ),
        )
    }

    pub fn diagnostics_exceed(&self, limit: u64) -> (exceed: bool)
        ensures
            exceed == self.diagnostics_too_long(limit),
    {
        match self.supervisor_log_bytes {
            Some(bytes) => bytes > limit,
            None => false,
        }
    }
}

/// A job that its index knows is complete and was never launched. Diagnostics
/// of an earlier attempt must not stop a retry, so only their bound is checked.
pub fn validate_indexed_prelaunch_job(
    evidence: &PrelaunchEvidence,
    request: &SubmitRequest,
    supervisor_log_limit: u64,
) -> (result: Result<(), WorkerError>)
    ensures
        outcome_of(result, evidence.job_fault(request@, supervisor_log_limit)),
{
    evidence.payload.validate_for(request)?;
    if !is_all_utf8(&evidence.names) {
        return Err(protocol_error("final job has a non-UTF-8 entry"));
    }
    if !layout_is(&evidence.names, job_entry_names()) {
        return Err(protocol_error("indexed prelaunch job has an unsafe top-level layout"));
    }
    if evidence.stdout_bytes != 0 || evidence.stderr_bytes != 0 {
        return Err(protocol_error("indexed prelaunch job log is not empty"));
    }
    if evidence.diagnostics_exceed(supervisor_log_limit) {
        return Err(protocol_error("indexed prelaunch supervisor log exceeds its bound"));
    }
    Ok(())
}

pub open spec fn turn_job_fault(
    evidence: PrelaunchEvidence,
    request: SubmitModel,
    section: TurnSection,
    prompt: Seq<u8>,
    schema: Seq<u8>,
    canonical_schema: Seq<u8>,
    tail_bytes: u64,
    limit: u64,
) -> Option<Seq<char>> {
    earliest(
        evidence.payload@.turn_fault(request, section@),
        earliest(
            fault_if(!all_utf8(evidence.names@), "final turn has a non-UTF-8 entry"@),
            earliest(
                fault_if(
                    !has_layout(evidence.names@, turn_entries()),
                    "indexed prelaunch turn has an unsafe top-level layout"@,
                ),
                earliest(
                    fault_if(
                        hex_text(sha256_digest(prompt)) != section.prompt_sha256@,
                        "indexed prelaunch turn prompt does not match its digest"@,
                    ),
                    earliest(
                        fault_if(
                            schema != canonical_schema,
                            "indexed prelaunch turn result schema is not canonical"@,
                        ),
                        earliest(
                            fault_if(
                                evidence.stdout_bytes != 0 || evidence.stderr_bytes != 0
                                    || tail_bytes != 0,
                                "indexed prelaunch turn log is not empty"@,
                            ),
                            fault_if(
                                evidence.diagnostics_too_long(limit),
                                "indexed prelaunch supervisor log exceeds its bound"@,
                            ),
                        ),
                    ),
                ),
            ),
        ),
    )
}

/// The same of a turn, whose prompt and result schema must be its own.
#[allow(clippy::too_many_arguments)]
pub fn validate_indexed_turn_prelaunch_job(
    evidence: &PrelaunchEvidence,
    request: &SubmitRequest,
    section: &TurnSection,
    prompt: &[u8],
    schema: &[u8],
    canonical_schema: &[u8],
    tail_bytes: u64,
    supervisor_log_limit: u64,
) -> (result: Result<(), WorkerError>)
    ensures
        outcome_of(
            result,
            turn_job_fault(
                *evidence,
                request@,
                *section,
                prompt@,
                schema@,
                canonical_schema@,
                tail_bytes,
                supervisor_log_limit,
            ),
        ),
{
    evidence.payload.validate_for_turn(request, section)?;
    if !is_all_utf8(&evidence.names) {
        return Err(protocol_error("final turn has a non-UTF-8 entry"));
    }
    if !layout_is(&evidence.names, turn_entry_names()) {
        return Err(protocol_error("indexed prelaunch turn has an unsafe top-level layout"));
    }
    let digest = sha256(prompt);
    if !text_eq(hex_of(digest.as_slice()).as_str(), section.prompt_sha256.as_str()) {
        return Err(protocol_error("indexed prelaunch turn prompt does not match its digest"));
    }
    if !bytes_eq(schema, canonical_schema) {
        return Err(protocol_error("indexed prelaunch turn result schema is not canonical"));
    }
    if evidence.stdout_bytes != 0 || evidence.stderr_bytes != 0 || tail_bytes != 0 {
        return Err(protocol_error("indexed prelaunch turn log is not empty"));
    }
    if evidence.diagnostics_exceed(supervisor_log_limit) {
        return Err(protocol_error("indexed prelaunch supervisor log exceeds its bound"));
    }
    Ok(())
}

/// The ended job's logs are as long as its status says.
pub open spec fn ended_logs_fault(
    status: StatusModel,
    stdout: LogEvidence,
    stderr: LogEvidence,
) -> Option<Seq<char>> {
    earliest(
        ended_log_fault(stdout, status.final_stdout_bytes),
        ended_log_fault(stderr, status.final_stderr_bytes),
    )
}

pub open spec fn ended_log_fault(log: LogEvidence, expected: Option<u64>) -> Option<Seq<char>> {
    match log {
        LogEvidence::Unsafe => Some(state_invalid("terminal log is absent or unsafe"@)),
        LogEvidence::Unbound => Some(state_invalid("terminal log binding is invalid"@)),
        LogEvidence::Length { bytes } => fault_if(
            expected != Some(bytes),
            state_invalid("terminal log length does not match durable status"@),
        ),
    }
}

fn check_ended_log(log: LogEvidence, expected: Option<u64>) -> (result: Result<(), WorkerError>)
    ensures
        outcome_of(result, ended_log_fault(log, expected)),
{
    match log {
        LogEvidence::Unsafe => Err(job_state_invalid("terminal log is absent or unsafe")),
        LogEvidence::Unbound => Err(job_state_invalid("terminal log binding is invalid")),
        LogEvidence::Length { bytes } => {
            if expected != Some(bytes) {
                Err(job_state_invalid("terminal log length does not match durable status"))
            } else {
                Ok(())
            }
        },
    }
}

pub fn validate_terminal_log_lengths(
    status: &JobStatus,
    stdout: LogEvidence,
    stderr: LogEvidence,
) -> (result: Result<(), WorkerError>)
    ensures
        outcome_of(result, ended_logs_fault(status@, stdout, stderr)),
{
    check_ended_log(stdout, status.final_stdout_bytes)?;
    check_ended_log(stderr, status.final_stderr_bytes)
}

/// What a host finds in a directory that a job may write to.
#[derive(Debug, Clone, Copy, PartialEq, Eq, Structural)]
pub enum PrivateDirectory {
    /// It is absent, or not a directory of the host's own.
    Unopened,
    Unlisted,
    Listed { entries: usize },
}

pub open spec fn private_directory_fault(directory: PrivateDirectory) -> Option<Seq<char>> {
    match directory {
        PrivateDirectory::Unopened => Some(
            state_invalid("prelaunch private directory is absent or unsafe"@),
        ),
        PrivateDirectory::Unlisted => Some(state_invalid("prelaunch private directory is unsafe"@)),
        PrivateDirectory::Listed { entries } => fault_if(
            entries != 0,
            state_invalid("prelaunch private directory is not empty"@),
        ),
    }
}

fn require_empty_directory(directory: PrivateDirectory) -> (result: Result<(), WorkerError>)
    ensures
        outcome_of(result, private_directory_fault(directory)),
{
    match directory {
        PrivateDirectory::Unopened => Err(
            job_state_invalid("prelaunch private directory is absent or unsafe"),
        ),
        PrivateDirectory::Unlisted => Err(
            job_state_invalid("prelaunch private directory is unsafe"),
        ),
        PrivateDirectory::Listed { entries } => {
            if entries != 0 {
                Err(job_state_invalid("prelaunch private directory is not empty"))
            } else {
                Ok(())
            }
        },
    }
}

/// A job that was never launched has written nothing.
pub fn validate_empty_prelaunch_private_directories(
    home: PrivateDirectory,
    tmp: PrivateDirectory,
) -> (result: Result<(), WorkerError>)
    ensures
        outcome_of(
            result,
            earliest(private_directory_fault(home), private_directory_fault(tmp)),
        ),
{
    require_empty_directory(home)?;
    require_empty_directory(tmp)
}

/// A final job that could be read in full.
pub struct RepairEvidence {
    pub meta: JobMeta,
    pub status: JobStatus,
    pub prelaunch: PrelaunchEvidence,
    /// The workspace is the verified snapshot.
    pub workspace_matches: bool,
}

/// A final job that the index may still be told of.
pub open spec fn repairable(
    evidence: RepairEvidence,
    request: SubmitModel,
    lease: LeaseModel,
    limit: u64,
) -> bool {
    &&& exact_meta_fault(evidence.meta@, request, lease) is None
    &&& evidence.status@.valid()
    &&& evidence.status@.state == JobState::Accepted
    &&& evidence.status@.supervisor() is None
    &&& evidence.status@.child() is None
    &&& evidence.prelaunch.job_fault(request, limit) is None
    &&& evidence.workspace_matches
}

/// What a host finds where an unindexed job's directory would be.
pub enum RepairDirectory {
    Missing,
    Unreadable,
    Read { evidence: RepairEvidence },
}

fn is_repairable(
    evidence: &RepairEvidence,
    request: &SubmitRequest,
    lease: &LeaseRecord,
    limit: u64,
) -> (holds: bool)
    requires
        request@.material.command.fault() is None,
    ensures
        holds == repairable(*evidence, request@, lease@, limit),
{
    if require_exact_meta(&evidence.meta, request, lease).is_err() {
        return false;
    }
    if evidence.status.validate().is_err() {
        return false;
    }
    if evidence.status.state != JobState::Accepted
        || evidence.status.supervisor_identity().is_some()
        || evidence.status.child_identity().is_some() {
        return false;
    }
    if validate_indexed_prelaunch_job(&evidence.prelaunch, request, limit).is_err() {
        return false;
    }
    evidence.workspace_matches
}

/// The records of a final job that the index does not know, where it is
/// complete, exact and was never launched; nothing where there is no such job.
pub fn read_repairable_final(
    directory: RepairDirectory,
    request: &SubmitRequest,
    lease: &LeaseRecord,
    supervisor_log_limit: u64,
) -> (result: Result<Option<(JobMeta, JobStatus)>, WorkerError>)
    requires
        request@.material.command.fault() is None,
    ensures
        (match directory {
            RepairDirectory::Missing => result == Ok::<Option<(JobMeta, JobStatus)>, WorkerError>(
                None,
            ),
            RepairDirectory::Unreadable => outcome_of(
                result,
                Some(
                    id_conflict("unindexed final job evidence is incomplete or conflicting"@),
                ),
            ),
            RepairDirectory::Read { evidence } => {
                &&& outcome_of(
                    result,
                    fault_if(
                        !repairable(evidence, request@, lease@, supervisor_log_limit),
                        id_conflict("unindexed final job evidence is incomplete or conflicting"@),
                    ),
                )
                &&& result matches Ok(found) ==> found == Some((evidence.meta, evidence.status))
            },
        }),
{
    match directory {
        RepairDirectory::Missing => Ok(None),
        RepairDirectory::Unreadable => Err(
            job_id_conflict("unindexed final job evidence is incomplete or conflicting"),
        ),
        RepairDirectory::Read { evidence } => {
            if is_repairable(&evidence, request, lease, supervisor_log_limit) {
                Ok(Some((evidence.meta, evidence.status)))
            } else {
                Err(job_id_conflict("unindexed final job evidence is incomplete or conflicting"))
            }
        },
    }
}

/// A complete final job carries the metadata, the payload and the first status
/// of the request, has empty logs, and is no turn.
pub proof fn complete_jobs_were_never_launched(
    identity: ResolutionModel,
    evidence: FinalEvidence,
    canonical_schema: Seq<u8>,
)
    requires
        evidence.fault(identity, canonical_schema) is None,
        evidence.completeness() == ResolutionFinal::Complete,
    ensures
        evidence.meta matches Some(meta) && resolution_meta_fault(identity, meta@) is None,
        evidence.payload matches Some(payload) && payload@.resolution_fault(identity) is None
            && payload.turn is None,
        evidence.status matches Some(status) && status@ == bare_status(
            JobState::Accepted,
            evidence.meta->0.created_at_millis,
        ),
        evidence.stdout == (LogEvidence::Length { bytes: 0 }),
        evidence.stderr == (LogEvidence::Length { bytes: 0 }),
{
    let names = evidence.names->0@;
    let entries = job_entries();
    let extended = entries.push("supervisor.log"@);
    assert(lists(names, entries[0]) && lists(names, entries[2]) && lists(names, entries[3])
        && lists(names, entries[4]) && lists(names, entries[5])) by {
        if !lists_exactly(names, entries) {
            assert(extended[0] == entries[0] && extended[2] == entries[2] && extended[3]
                == entries[3] && extended[4] == entries[4] && extended[5] == entries[5]);
            assert(lists(names, extended[0]) && lists(names, extended[2]) && lists(
                names,
                extended[3],
            ) && lists(names, extended[4]) && lists(names, extended[5]));
        }
    }
    assert(evidence.has("execution.json"@));
    assert(evidence.has("meta.json"@));
    assert(evidence.has("status.json"@));
    assert(evidence.has("stdout.log"@));
    assert(evidence.has("stderr.log"@));
}

} // verus!
