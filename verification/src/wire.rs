//! What a host takes from the wire, and what it sends back when it refuses.
use vstd::prelude::*;
use vstd::string::*;
use crate::error::{earliest, fault_if, outcome_of, protocol_error, task_refusal, WorkerError};
use crate::job::checks::{
    control_code_fault, control_message_fault, is_control, plain_codes_are_accepted,
    printable_texts_are_accepted, validate_control_code, validate_control_message,
};
use crate::job::control::{
    fleet_faults, host_error, FleetReconcileJobResult, FleetReconcileRequest,
    FleetReconcileResponse, HostControlError, HostErrorModel, StatusResponse,
};
use crate::job::ids::{ClientId, JobId, LeaseToken, RequestFingerprint, TaskId};
use crate::job::MAX_CONTROL_MESSAGE_BYTES;
use crate::outside::{hex_value, uuid_parse, uuid_parsed};
use crate::text::{bytes_eq, has_prefix, lower_hex, starts_with, text_eq, utf8};
use crate::words::{labelled, split_label};

verus! {

/// The code of a Git failure that the origin's authentication caused.
pub const ORIGIN_AUTH_FAILED: &'static str = "ORIGIN_AUTH_FAILED";

/// A code that may stand in a host's refusal.
pub open spec fn code_ok(code: Seq<char>) -> bool {
    control_code_fault(code, "host control error code"@) is None
}

/// A message that may stand in a host's refusal.
pub open spec fn message_ok(message: Seq<char>) -> bool {
    control_message_fault(message, "host control error message"@) is None
}

/// The code and message that stand for an error whose own text stays on the
/// host. `publish_receipt` is what a receipt of a failed publication says.
pub open spec fn category(error: WorkerError, publish_receipt: Seq<char>) -> (Seq<char>, Seq<char>) {
    match error {
        WorkerError::Capacity { code, message, public } => if public {
            (code@, message@)
        } else {
            (code@, "worker admission rejected"@)
        },
        WorkerError::Snapshot { code, .. } => (code@, "snapshot operation failed"@),
        WorkerError::Git { code, .. } => if code@ == ORIGIN_AUTH_FAILED@ {
            (code@, publish_receipt)
        } else {
            (code@, "Git operation failed"@)
        },
        WorkerError::Task { code, .. } => (code@, "task operation failed"@),
        WorkerError::Agent { code, .. } => (code@, "agent operation failed"@),
        WorkerError::HostIo { receipt } => ("HOST_IO"@, receipt@),
        WorkerError::Io => ("HOST_IO"@, "host state operation failed"@),
        _ => ("INVALID_REQUEST"@, "host request was invalid"@),
    }
}

/// The code and message that a protocol error carries in its own text.
pub open spec fn own_terms(error: WorkerError) -> Option<(Seq<char>, Seq<char>)> {
    match error {
        WorkerError::Protocol(text) => match labelled(text@) {
            Some(halves) => if host_error(halves.0, halves.1).fault() is None {
                Some(halves)
            } else {
                None
            },
            None => None,
        },
        _ => None,
    }
}

/// The refusal that a laptop is sent for an error.
pub open spec fn wire_error(error: WorkerError, publish_receipt: Seq<char>) -> HostErrorModel {
    match own_terms(error) {
        Some(terms) => host_error(terms.0, terms.1),
        None => {
            let terms = category(error, publish_receipt);
            host_error(terms.0, terms.1)
        },
    }
}

/// The parts of an error that may leave the host are fit to: its code, and the
/// texts that are passed on as they are.
pub open spec fn sendable(error: WorkerError, publish_receipt: Seq<char>) -> bool {
    match error {
        WorkerError::Capacity { code, message, public } => code_ok(code@) && (public ==> message_ok(
            message@,
        )),
        WorkerError::Snapshot { code, .. } => code_ok(code@),
        WorkerError::Git { code, .. } => code_ok(code@) && (code@ == ORIGIN_AUTH_FAILED@
            ==> message_ok(publish_receipt)),
        WorkerError::Task { code, .. } => code_ok(code@),
        WorkerError::Agent { code, .. } => code_ok(code@),
        WorkerError::HostIo { receipt } => message_ok(receipt@),
        _ => true,
    }
}

proof fn plain_message_is_ok(message: Seq<char>)
    requires
        0 < message.len() <= MAX_CONTROL_MESSAGE_BYTES,
        forall|i: int| 0 <= i < message.len() ==> ' ' <= #[trigger] message[i] <= '~',
    ensures
        message_ok(message),
{
    printable_texts_are_accepted(
        message,
        MAX_CONTROL_MESSAGE_BYTES as nat,
        "host control error message"@,
    );
    assert forall|i: int| 0 <= i < message.len() implies !is_control(#[trigger] message[i]) by {
        assert(' ' <= message[i] <= '~');
    }
}

proof fn fixed_terms_are_ok()
    ensures
        message_ok("worker admission rejected"@),
        message_ok("snapshot operation failed"@),
        message_ok("Git operation failed"@),
        message_ok("task operation failed"@),
        message_ok("agent operation failed"@),
        message_ok("host state operation failed"@),
        message_ok("host request was invalid"@),
        code_ok("HOST_IO"@),
        code_ok("INVALID_REQUEST"@),
{
    reveal_strlit("worker admission rejected");
    reveal_strlit("snapshot operation failed");
    reveal_strlit("Git operation failed");
    reveal_strlit("task operation failed");
    reveal_strlit("agent operation failed");
    reveal_strlit("host state operation failed");
    reveal_strlit("host request was invalid");
    reveal_strlit("HOST_IO");
    reveal_strlit("INVALID_REQUEST");
    plain_message_is_ok("worker admission rejected"@);
    plain_message_is_ok("snapshot operation failed"@);
    plain_message_is_ok("Git operation failed"@);
    plain_message_is_ok("task operation failed"@);
    plain_message_is_ok("agent operation failed"@);
    plain_message_is_ok("host state operation failed"@);
    plain_message_is_ok("host request was invalid"@);
    plain_codes_are_accepted("HOST_IO"@, "host control error code"@);
    plain_codes_are_accepted("INVALID_REQUEST"@, "host control error code"@);
}

/// What is sent for an error is always a well-formed refusal.
pub proof fn refusals_are_well_formed(error: WorkerError, publish_receipt: Seq<char>)
    requires
        sendable(error, publish_receipt),
    ensures
        wire_error(error, publish_receipt).fault() is None,
{
    fixed_terms_are_ok();
}

/// An admission refusal that is not public keeps its reason on the host: what
/// is sent does not depend on it.
pub proof fn private_reasons_stay_on_the_host(
    left: WorkerError,
    right: WorkerError,
    publish_receipt: Seq<char>,
)
    requires
        left matches WorkerError::Capacity { code: a, public, .. } && !public && (
        right matches WorkerError::Capacity { code: b, public, .. } && !public && a == b),
    ensures
        wire_error(left, publish_receipt) == wire_error(right, publish_receipt),
        wire_error(left, publish_receipt).error.message == "worker admission rejected"@,
{
}

/// Snapshot, task and agent failures tell the laptop their code and nothing
/// else.
pub proof fn only_codes_of_failures_are_sent(
    left: WorkerError,
    right: WorkerError,
    publish_receipt: Seq<char>,
)
    requires
        match (left, right) {
            (WorkerError::Snapshot { code: a, .. }, WorkerError::Snapshot { code: b, .. }) => a
                == b,
            (WorkerError::Task { code: a, .. }, WorkerError::Task { code: b, .. }) => a == b,
            (WorkerError::Agent { code: a, .. }, WorkerError::Agent { code: b, .. }) => a == b,
            (WorkerError::Git { code: a, .. }, WorkerError::Git { code: b, .. }) => a == b,
            _ => false,
        },
    ensures
        wire_error(left, publish_receipt) == wire_error(right, publish_receipt),
{
}

/// A public admission reason travels as it is.
pub proof fn public_reasons_travel(error: WorkerError, publish_receipt: Seq<char>)
    requires
        error matches WorkerError::Capacity { public, .. } && public,
    ensures
        error matches WorkerError::Capacity { code, message, .. } && wire_error(
            error,
            publish_receipt,
        ) == host_error(code@, message@),
{
}

/// Whether an error can be sent.
pub fn can_be_sent(error: &WorkerError, publish_receipt: &str) -> (fits: bool)
    ensures
        fits == sendable(*error, publish_receipt@),
{
    match error {
        WorkerError::Capacity { code, message, public } => fits_as_code(*code) && (!*public
            || fits_as_message(message.as_str())),
        WorkerError::Snapshot { code, .. } => fits_as_code(*code),
        WorkerError::Git { code, .. } => fits_as_code(*code) && (!text_eq(*code, ORIGIN_AUTH_FAILED)
            || fits_as_message(publish_receipt)),
        WorkerError::Task { code, .. } => fits_as_code(*code),
        WorkerError::Agent { code, .. } => fits_as_code(*code),
        WorkerError::HostIo { receipt } => fits_as_message(receipt.as_str()),
        _ => true,
    }
}

fn fits_as_code(code: &str) -> (fits: bool)
    ensures
        fits == code_ok(code@),
{
    validate_control_code(code, "host control error code").is_ok()
}

fn fits_as_message(message: &str) -> (fits: bool)
    ensures
        fits == message_ok(message@),
{
    validate_control_message(message, "host control error message").is_ok()
}

/// The refusal that a laptop is sent for an error. A protocol error that leads
/// with a code is sent as it reads; of the others the laptop learns the code
/// and a fixed text, or a text that was made to be seen.
pub fn versioned_host_error(error: &WorkerError, publish_receipt: &str) -> (sent: HostControlError)
    requires
        sendable(*error, publish_receipt@),
    ensures
        sent@ == wire_error(*error, publish_receipt@),
        sent@.fault() is None,
{
    proof {
        fixed_terms_are_ok();
    }
    if let WorkerError::Protocol(text) = error {
        if let Some((code, detail)) = split_label(text.as_str()) {
            if let Ok(sent) = HostControlError::new(code, detail) {
                return sent;
            }
        }
    }
    let (code, message): (&str, &str) = match error {
        WorkerError::Capacity { code, message, public } => {
            if *public {
                (*code, message.as_str())
            } else {
                (*code, "worker admission rejected")
            }
        },
        WorkerError::Snapshot { code, .. } => (*code, "snapshot operation failed"),
        WorkerError::Git { code, .. } => {
            if text_eq(*code, ORIGIN_AUTH_FAILED) {
                (*code, publish_receipt)
            } else {
                (*code, "Git operation failed")
            }
        },
        WorkerError::Task { code, .. } => (*code, "task operation failed"),
        WorkerError::Agent { code, .. } => (*code, "agent operation failed"),
        WorkerError::HostIo { receipt } => ("HOST_IO", receipt.as_str()),
        WorkerError::Io => ("HOST_IO", "host state operation failed"),
        _ => ("INVALID_REQUEST", "host request was invalid"),
    };
    let made = HostControlError::new(code.to_owned(), message.to_owned());
    assert(made is Ok);
    made.unwrap()
}

/// The name under which a Git server shows that it refused.
pub open spec fn git_server_name(error: WorkerError) -> Seq<char> {
    match error {
        WorkerError::Protocol(message) => if starts_with(message@, "INVALID_COMPONENT:"@) {
            "HOST_GIT_INVALID_COMPONENT"@
        } else if starts_with(message@, "LEASE_IDENTITY_MISMATCH:"@) {
            "HOST_GIT_LEASE"@
        } else {
            "HOST_GIT_REJECTED"@
        },
        WorkerError::Task { .. } => "HOST_GIT_TASK"@,
        WorkerError::Git { code, .. } => code@,
        WorkerError::Io | WorkerError::HostIo { .. } => "HOST_GIT_IO"@,
        _ => "HOST_GIT_REJECTED"@,
    }
}

pub fn public_git_server_error(error: &WorkerError) -> (name: &'static str)
    ensures
        name@ == git_server_name(*error),
{
    match error {
        WorkerError::Protocol(message) => {
            if has_prefix(message.as_str(), "INVALID_COMPONENT:") {
                "HOST_GIT_INVALID_COMPONENT"
            } else if has_prefix(message.as_str(), "LEASE_IDENTITY_MISMATCH:") {
                "HOST_GIT_LEASE"
            } else {
                "HOST_GIT_REJECTED"
            }
        },
        WorkerError::Task { .. } => "HOST_GIT_TASK",
        WorkerError::Git { code, .. } => *code,
        WorkerError::Io | WorkerError::HostIo { .. } => "HOST_GIT_IO",
        _ => "HOST_GIT_REJECTED",
    }
}

/// The name under which a transfer receiver shows that it refused.
pub open spec fn rsync_receiver_name(error: WorkerError) -> Seq<char> {
    match error {
        WorkerError::Protocol(message) => if starts_with(message@, "INVALID_RSYNC_SERVER_ARGS:"@) {
            "HOST_RSYNC_INVALID_ARGS"@
        } else if starts_with(message@, "JOB_ABANDONED:"@) || starts_with(
            message@,
            "JOB_ACCEPTED:"@,
        ) || starts_with(message@, "JOB_ID_CONFLICT:"@) {
            "HOST_RSYNC_FENCED"@
        } else if starts_with(message@, "LEASE_IDENTITY_MISMATCH:"@) {
            "HOST_RSYNC_LEASE"@
        } else {
            "HOST_RSYNC_REJECTED"@
        },
        WorkerError::Io | WorkerError::HostIo { .. } => "HOST_RSYNC_IO"@,
        _ => "HOST_RSYNC_REJECTED"@,
    }
}

pub fn public_rsync_receiver_error(error: &WorkerError) -> (name: &'static str)
    ensures
        name@ == rsync_receiver_name(*error),
{
    match error {
        WorkerError::Protocol(message) => {
            let text = message.as_str();
            if has_prefix(text, "INVALID_RSYNC_SERVER_ARGS:") {
                "HOST_RSYNC_INVALID_ARGS"
            } else if has_prefix(text, "JOB_ABANDONED:") || has_prefix(text, "JOB_ACCEPTED:")
                || has_prefix(text, "JOB_ID_CONFLICT:") {
                "HOST_RSYNC_FENCED"
            } else if has_prefix(text, "LEASE_IDENTITY_MISMATCH:") {
                "HOST_RSYNC_LEASE"
            } else {
                "HOST_RSYNC_REJECTED"
            }
        },
        WorkerError::Io | WorkerError::HostIo { .. } => "HOST_RSYNC_IO",
        _ => "HOST_RSYNC_REJECTED",
    }
}

/// Who reads a request from standard input.
#[derive(Debug, Clone, Copy, PartialEq, Eq, Structural)]
pub enum Endpoint {
    Submit,
    Control,
    Task,
    AgentSettings,
    LeaseAcquire,
    SnapshotVerify,
}

impl Endpoint {
    pub open spec fn limit(self) -> int {
        if self == Endpoint::AgentSettings {
            8192
        } else {
            1048576
        }
    }

    /// How many bytes a request may have.
    pub fn max_bytes(self) -> (limit: usize)
        ensures
            limit == self.limit(),
    {
        if self == Endpoint::AgentSettings {
            8192
        } else {
            1048576
        }
    }

    /// A request must be written exactly as it would be written again.
    pub open spec fn canonical_only(self) -> bool {
        self != Endpoint::LeaseAcquire && self != Endpoint::SnapshotVerify
    }

    pub open spec fn too_long(self) -> Seq<char> {
        match self {
            Endpoint::Submit => "submit request exceeded 1 MiB"@,
            Endpoint::Control => "host control request exceeded 1 MiB"@,
            Endpoint::Task => "host task request exceeded 1 MiB"@,
            Endpoint::AgentSettings => "SETTINGS_INVALID: settings request exceeded 8192 bytes"@,
            Endpoint::LeaseAcquire => "lease-acquire request exceeded 1 MiB"@,
            Endpoint::SnapshotVerify => "snapshot-verify request exceeded 1 MiB"@,
        }
    }

    pub open spec fn unreadable(self, reason: Seq<char>) -> Seq<char> {
        match self {
            Endpoint::Submit => "invalid submit request"@,
            Endpoint::Control => "invalid host control request"@,
            Endpoint::Task => "invalid host task request"@,
            Endpoint::AgentSettings => "SETTINGS_INVALID: settings request was invalid"@,
            Endpoint::LeaseAcquire => "invalid lease-acquire request: "@ + reason,
            Endpoint::SnapshotVerify => "invalid snapshot-verify request"@,
        }
    }

    pub open spec fn trailing(self) -> Seq<char> {
        match self {
            Endpoint::Submit => "submit request contained trailing data"@,
            Endpoint::Control => "invalid host control request"@,
            Endpoint::Task => "invalid host task request"@,
            Endpoint::AgentSettings => "SETTINGS_INVALID: settings request was invalid"@,
            Endpoint::LeaseAcquire => "lease-acquire request contained trailing data"@,
            Endpoint::SnapshotVerify => "snapshot-verify request contained trailing data"@,
        }
    }

    pub open spec fn unwritable(self) -> Seq<char> {
        match self {
            Endpoint::Submit => "submit request serialization failed"@,
            Endpoint::Control => "invalid host control request"@,
            Endpoint::Task => "invalid host task request"@,
            _ => "SETTINGS_INVALID: settings request was invalid"@,
        }
    }

    pub open spec fn not_canonical(self) -> Seq<char> {
        match self {
            Endpoint::Submit => "submit request was not canonical JSON"@,
            Endpoint::Control => "host control request was not canonical JSON"@,
            Endpoint::Task => "host task request was not canonical JSON"@,
            _ => "SETTINGS_INVALID: settings request was not canonical JSON"@,
        }
    }

    fn too_long_text(self) -> (text: &'static str)
        ensures
            text@ == self.too_long(),
    {
        match self {
            Endpoint::Submit => "submit request exceeded 1 MiB",
            Endpoint::Control => "host control request exceeded 1 MiB",
            Endpoint::Task => "host task request exceeded 1 MiB",
            Endpoint::AgentSettings => "SETTINGS_INVALID: settings request exceeded 8192 bytes",
            Endpoint::LeaseAcquire => "lease-acquire request exceeded 1 MiB",
            Endpoint::SnapshotVerify => "snapshot-verify request exceeded 1 MiB",
        }
    }

    fn unreadable_text(self, reason: &str) -> (text: String)
        ensures
            text@ == self.unreadable(reason@),
    {
        match self {
            Endpoint::Submit => "invalid submit request".to_owned(),
            Endpoint::Control => "invalid host control request".to_owned(),
            Endpoint::Task => "invalid host task request".to_owned(),
            Endpoint::AgentSettings => "SETTINGS_INVALID: settings request was invalid".to_owned(),
            Endpoint::LeaseAcquire => "invalid lease-acquire request: ".to_owned().concat(reason),
            Endpoint::SnapshotVerify => "invalid snapshot-verify request".to_owned(),
        }
    }

    fn trailing_text(self) -> (text: &'static str)
        ensures
            text@ == self.trailing(),
    {
        match self {
            Endpoint::Submit => "submit request contained trailing data",
            Endpoint::Control => "invalid host control request",
            Endpoint::Task => "invalid host task request",
            Endpoint::AgentSettings => "SETTINGS_INVALID: settings request was invalid",
            Endpoint::LeaseAcquire => "lease-acquire request contained trailing data",
            Endpoint::SnapshotVerify => "snapshot-verify request contained trailing data",
        }
    }

    fn unwritable_text(self) -> (text: &'static str)
        ensures
            text@ == self.unwritable(),
    {
        match self {
            Endpoint::Submit => "submit request serialization failed",
            Endpoint::Control => "invalid host control request",
            Endpoint::Task => "invalid host task request",
            _ => "SETTINGS_INVALID: settings request was invalid",
        }
    }

    fn not_canonical_text(self) -> (text: &'static str)
        ensures
            text@ == self.not_canonical(),
    {
        match self {
            Endpoint::Submit => "submit request was not canonical JSON",
            Endpoint::Control => "host control request was not canonical JSON",
            Endpoint::Task => "host task request was not canonical JSON",
            _ => "SETTINGS_INVALID: settings request was not canonical JSON",
        }
    }
}

/// A request as it was read.
#[derive(Debug)]
pub struct ReceivedRequest {
    pub bytes: Vec<u8>,
    /// Why the bytes do not start with a request, where they do not.
    pub parse_error: Option<String>,
    /// Something follows the request.
    pub trailing: bool,
    /// The request written again; nothing where it cannot be written.
    pub canonical: Option<Vec<u8>>,
}

impl ReceivedRequest {
    pub open spec fn fault(&self, endpoint: Endpoint) -> Option<Seq<char>> {
        earliest(
            fault_if(self.bytes@.len() > endpoint.limit(), endpoint.too_long()),
            earliest(
                match self.parse_error {
                    Some(reason) => Some(endpoint.unreadable(reason@)),
                    None => None,
                },
                earliest(
                    fault_if(self.trailing, endpoint.trailing()),
                    if endpoint.canonical_only() {
                        match self.canonical {
                            None => Some(endpoint.unwritable()),
                            Some(canonical) => fault_if(
                                canonical@ != self.bytes@,
                                endpoint.not_canonical(),
                            ),
                        }
                    } else {
                        None
                    },
                ),
            ),
        )
    }

    /// Whether a request is taken as it came.
    pub fn accept(&self, endpoint: Endpoint) -> (result: Result<(), WorkerError>)
        ensures
            outcome_of(result, self.fault(endpoint)),
    {
        if self.bytes.len() > endpoint.max_bytes() {
            return Err(protocol_error(endpoint.too_long_text()));
        }
        if let Some(reason) = &self.parse_error {
            return Err(WorkerError::Protocol(endpoint.unreadable_text(reason.as_str())));
        }
        if self.trailing {
            return Err(protocol_error(endpoint.trailing_text()));
        }
        if endpoint != Endpoint::LeaseAcquire && endpoint != Endpoint::SnapshotVerify {
            match &self.canonical {
                None => {
                    return Err(protocol_error(endpoint.unwritable_text()));
                },
                Some(canonical) => {
                    if !bytes_eq(canonical.as_slice(), self.bytes.as_slice()) {
                        return Err(protocol_error(endpoint.not_canonical_text()));
                    }
                },
            }
        }
        Ok(())
    }
}

/// A request that must be canonical has one form on the wire: two that are
/// taken and written again alike came as the same bytes.
pub proof fn canonical_requests_have_one_form(
    left: ReceivedRequest,
    right: ReceivedRequest,
    endpoint: Endpoint,
)
    requires
        endpoint.canonical_only(),
        left.fault(endpoint) is None,
        right.fault(endpoint) is None,
        left.canonical->0@ == right.canonical->0@,
    ensures
        left.bytes@ == right.bytes@,
{
}

/// What a reconciliation answers for the job at `at`.
pub open spec fn answers_job(
    answer: FleetReconcileJobResult,
    job_id: JobId,
    outcome: Result<StatusResponse, WorkerError>,
    publish_receipt: Seq<char>,
) -> bool {
    match outcome {
        Ok(status) => answer matches FleetReconcileJobResult::Status { status: sent } && *sent
            == status,
        Err(error) => answer matches FleetReconcileJobResult::Error { job_id: id, error: sent }
            && id == job_id && sent@ == wire_error(error, publish_receipt),
    }
}

/// The job that the outcome at `at` is about.
pub open spec fn answered_job(
    ids: Seq<JobId>,
    outcomes: Seq<Result<StatusResponse, WorkerError>>,
    at: int,
) -> JobId {
    match outcomes[at] {
        Ok(status) => status.meta.job_id,
        Err(_) => ids[at],
    }
}

/// The first fault of the outcomes from `at` on.
pub open spec fn outcome_faults(
    ids: Seq<JobId>,
    outcomes: Seq<Result<StatusResponse, WorkerError>>,
    at: int,
) -> Option<Seq<char>>
    decreases outcomes.len() - at,
{
    if at >= outcomes.len() {
        None
    } else {
        earliest(
            earliest(
                match outcomes[at] {
                    Ok(status) => status@.fault(),
                    Err(_) => None,
                },
                fault_if(
                    exists|j: int|
                        0 <= j < at && #[trigger] answered_job(ids, outcomes, j) == answered_job(
                            ids,
                            outcomes,
                            at,
                        ),
                    "fleet reconciliation response contains duplicate job IDs"@,
                ),
            ),
            outcome_faults(ids, outcomes, at + 1),
        )
    }
}

proof fn answers_share_faults(
    ids: Seq<JobId>,
    outcomes: Seq<Result<StatusResponse, WorkerError>>,
    answers: Seq<FleetReconcileJobResult>,
    publish_receipt: Seq<char>,
    at: int,
)
    requires
        0 <= at <= outcomes.len(),
        ids.len() == outcomes.len(),
        answers.len() == outcomes.len(),
        forall|i: int|
            0 <= i < outcomes.len() ==> answers_job(
                #[trigger] answers[i],
                ids[i],
                outcomes[i],
                publish_receipt,
            ),
        forall|i: int|
            0 <= i < outcomes.len() && outcomes[i] is Err ==> sendable(
                (#[trigger] outcomes[i])->Err_0,
                publish_receipt,
            ),
    ensures
        fleet_faults(answers, at) == outcome_faults(ids, outcomes, at),
    decreases outcomes.len() - at,
{
    if at < outcomes.len() {
        answers_share_faults(ids, outcomes, answers, publish_receipt, at + 1);
        assert forall|j: int| 0 <= j < outcomes.len() implies (#[trigger] answers[j]).job()
            == answered_job(ids, outcomes, j) by {
            assert(answers_job(answers[j], ids[j], outcomes[j], publish_receipt));
        }
        assert(answers_job(answers[at], ids[at], outcomes[at], publish_receipt));
        if outcomes[at] is Err {
            refusals_are_well_formed(outcomes[at]->Err_0, publish_receipt);
        }
        let copies = exists|j: int|
            0 <= j < at && (#[trigger] answers[j]).job() == answers[at].job();
        let repeats = exists|j: int|
            0 <= j < at && #[trigger] answered_job(ids, outcomes, j) == answered_job(
                ids,
                outcomes,
                at,
            );
        if copies {
            let j = choose|j: int|
                0 <= j < at && (#[trigger] answers[j]).job() == answers[at].job();
            assert(answered_job(ids, outcomes, j) == answered_job(ids, outcomes, at));
        }
        if repeats {
            let j = choose|j: int|
                0 <= j < at && #[trigger] answered_job(ids, outcomes, j) == answered_job(
                    ids,
                    outcomes,
                    at,
                );
            assert(answers[j].job() == answers[at].job());
        }
        assert(copies == repeats);
    }
}

/// The answer to a reconciliation request, given what reconciling each of its
/// jobs came to, in order. One job that fails does not keep the others from
/// being answered.
pub fn reconcile_answer(
    request: &FleetReconcileRequest,
    outcomes: Vec<Result<StatusResponse, WorkerError>>,
    publish_receipt: &str,
) -> (result: Result<FleetReconcileResponse, WorkerError>)
    requires
        outcomes@.len() == request.known_job_ids@.len(),
        forall|i: int|
            0 <= i < outcomes@.len() && outcomes@[i] is Err ==> sendable(
                (#[trigger] outcomes@[i])->Err_0,
                publish_receipt@,
            ),
    ensures
        outcome_of(
            result,
            earliest(request.fault(), outcome_faults(request.known_job_ids@, outcomes@, 0)),
        ),
        result matches Ok(response) ==> {
            &&& response.results@.len() == outcomes@.len()
            &&& forall|i: int|
                0 <= i < outcomes@.len() ==> answers_job(
                    #[trigger] response.results@[i],
                    request.known_job_ids@[i],
                    outcomes@[i],
                    publish_receipt@,
                )
        },
{
    request.validate()?;
    let count: usize = request.known_job_ids.len();
    let ghost all = outcomes@;
    let mut rest = outcomes;
    let mut results: Vec<FleetReconcileJobResult> = Vec::new();
    let mut i: usize = 0;
    while rest.len() > 0
        invariant
            i + rest@.len() == count,
            all.len() == count,
            all.len() == request.known_job_ids@.len(),
            rest@ == all.subrange(i as int, all.len() as int),
            results@.len() == i,
            forall|j: int|
                0 <= j < i ==> answers_job(
                    #[trigger] results@[j],
                    request.known_job_ids@[j],
                    all[j],
                    publish_receipt@,
                ),
            forall|j: int|
                0 <= j < all.len() && all[j] is Err ==> sendable(
                    (#[trigger] all[j])->Err_0,
                    publish_receipt@,
                ),
        decreases rest@.len(),
    {
        let job_id = request.known_job_ids[i];
        let outcome = rest.remove(0);
        assert(outcome == all[i as int]);
        let answer = match outcome {
            Ok(status) => FleetReconcileJobResult::Status { status: Box::new(status) },
            Err(error) => FleetReconcileJobResult::Error {
                job_id,
                error: versioned_host_error(&error, publish_receipt),
            },
        };
        results.push(answer);
        i += 1;
        assert(rest@ =~= all.subrange(i as int, all.len() as int));
    }
    proof {
        answers_share_faults(request.known_job_ids@, all, results@, publish_receipt@, 0);
    }
    FleetReconcileResponse::new(results)
}

/// Whom a transfer to a host is for.
#[derive(PartialEq, Eq)]
pub struct TransferIdentity {
    pub job_id: JobId,
    pub client_id: ClientId,
    pub lease_token: LeaseToken,
    pub request_fingerprint: RequestFingerprint,
}

/// Why the components of a transfer name nobody.
pub open spec fn transfer_fault(
    prefix: Seq<char>,
    job_id: Seq<char>,
    client_id: Seq<char>,
    lease_token: Seq<char>,
    request_fingerprint: Seq<char>,
) -> Option<Seq<char>> {
    earliest(
        fault_if(!lower_hex(job_id, 32), prefix + "invalid receiver job identity"@),
        earliest(
            fault_if(!lower_hex(client_id, 32), prefix + "invalid receiver client identity"@),
            earliest(
                fault_if(!lower_hex(lease_token, 32), prefix + "invalid receiver lease identity"@),
                fault_if(
                    !lower_hex(request_fingerprint, 64),
                    prefix + "invalid receiver fingerprint"@,
                ),
            ),
        ),
    )
}

/// `identity` is what the components write.
pub open spec fn identifies(
    identity: TransferIdentity,
    job_id: Seq<char>,
    client_id: Seq<char>,
    lease_token: Seq<char>,
    request_fingerprint: Seq<char>,
) -> bool {
    &&& identity.job_id.value == hex_value(utf8(job_id))
    &&& identity.client_id.value == hex_value(utf8(client_id))
    &&& identity.lease_token.value == hex_value(utf8(lease_token))
    &&& identity.request_fingerprint.text@ == request_fingerprint
}

fn component_error(prefix: &str, complaint: &str) -> (error: WorkerError)
    ensures
        error matches WorkerError::Protocol(text) && text@ == prefix@ + complaint@,
{
    WorkerError::Protocol(prefix.to_owned().concat(complaint))
}

fn transfer_identity(
    prefix: &str,
    job_id: &str,
    client_id: &str,
    lease_token: &str,
    request_fingerprint: &str,
) -> (result: Result<TransferIdentity, WorkerError>)
    ensures
        outcome_of(
            result,
            transfer_fault(prefix@, job_id@, client_id@, lease_token@, request_fingerprint@),
        ),
        result matches Ok(identity) ==> identifies(
            identity,
            job_id@,
            client_id@,
            lease_token@,
            request_fingerprint@,
        ),
{
    let job_id = match JobId::from_text(job_id) {
        Ok(id) => id,
        Err(_) => {
            return Err(component_error(prefix, "invalid receiver job identity"));
        },
    };
    let client_id = match ClientId::from_text(client_id) {
        Ok(id) => id,
        Err(_) => {
            return Err(component_error(prefix, "invalid receiver client identity"));
        },
    };
    let lease_token = match LeaseToken::from_text(lease_token) {
        Ok(token) => token,
        Err(_) => {
            return Err(component_error(prefix, "invalid receiver lease identity"));
        },
    };
    match RequestFingerprint::new(request_fingerprint.to_owned()) {
        Ok(fingerprint) => Ok(
            TransferIdentity { job_id, client_id, lease_token, request_fingerprint: fingerprint },
        ),
        Err(_) => Err(component_error(prefix, "invalid receiver fingerprint")),
    }
}

/// Whom a file transfer is for.
pub fn rsync_receiver_identity(
    job_id: &str,
    client_id: &str,
    lease_token: &str,
    request_fingerprint: &str,
) -> (result: Result<TransferIdentity, WorkerError>)
    ensures
        outcome_of(
            result,
            transfer_fault(""@, job_id@, client_id@, lease_token@, request_fingerprint@),
        ),
        result matches Ok(identity) ==> identifies(
            identity,
            job_id@,
            client_id@,
            lease_token@,
            request_fingerprint@,
        ),
{
    transfer_identity("", job_id, client_id, lease_token, request_fingerprint)
}

/// Whom a push of Git objects is for.
pub fn receive_pack_identity(
    job_id: &str,
    client_id: &str,
    lease_token: &str,
    request_fingerprint: &str,
) -> (result: Result<TransferIdentity, WorkerError>)
    ensures
        outcome_of(
            result,
            transfer_fault(
                "INVALID_COMPONENT: "@,
                job_id@,
                client_id@,
                lease_token@,
                request_fingerprint@,
            ),
        ),
        result matches Ok(identity) ==> identifies(
            identity,
            job_id@,
            client_id@,
            lease_token@,
            request_fingerprint@,
        ),
{
    transfer_identity("INVALID_COMPONENT: ", job_id, client_id, lease_token, request_fingerprint)
}

/// Whom a fetch of Git objects is for.
pub fn upload_pack_identity(task_id: &str, client_id: &str) -> (result: Result<
    (TaskId, ClientId),
    WorkerError,
>)
    ensures
        outcome_of(
            result,
            earliest(
                fault_if(
                    !lower_hex(task_id@, 32),
                    "INVALID_COMPONENT: "@ + "invalid upload task identity"@,
                ),
                fault_if(
                    !lower_hex(client_id@, 32),
                    "INVALID_COMPONENT: "@ + "invalid upload client identity"@,
                ),
            ),
        ),
        result matches Ok(pair) ==> pair.0.value == hex_value(utf8(task_id@)) && pair.1.value
            == hex_value(utf8(client_id@)),
{
    let task_id = match TaskId::from_text(task_id) {
        Ok(id) => id,
        Err(_) => {
            return Err(component_error("INVALID_COMPONENT: ", "invalid upload task identity"));
        },
    };
    match ClientId::from_text(client_id) {
        Ok(id) => Ok((task_id, id)),
        Err(_) => Err(component_error("INVALID_COMPONENT: ", "invalid upload client identity")),
    }
}

/// The job that a supervisor was started for.
pub fn supervisor_job(job_id: &str) -> (result: Result<JobId, WorkerError>)
    ensures
        outcome_of(
            result,
            fault_if(!lower_hex(job_id@, 32), "invalid supervisor job identity"@),
        ),
        result matches Ok(id) ==> id.value == hex_value(utf8(job_id@)),
{
    match JobId::from_text(job_id) {
        Ok(id) => Ok(id),
        Err(_) => Err(protocol_error("invalid supervisor job identity")),
    }
}

/// What a runner of one turn was started for. The slot token is a UUID in any
/// form.
#[derive(PartialEq, Eq)]
pub struct RunnerIdentity {
    pub task_id: TaskId,
    pub turn_id: JobId,
    pub slot_token: Option<u128>,
}

pub fn runner_identity(task_id: &str, turn_id: &str, slot_token: Option<&str>) -> (result: Result<
    RunnerIdentity,
    WorkerError,
>)
    ensures
        outcome_of(
            result,
            earliest(
                fault_if(!lower_hex(task_id@, 32), "invalid runner task ID"@),
                earliest(
                    fault_if(!lower_hex(turn_id@, 32), "invalid runner turn ID"@),
                    fault_if(
                        slot_token is Some && uuid_parsed(slot_token->0@) is None,
                        "invalid runner slot token"@,
                    ),
                ),
            ),
        ),
        result matches Ok(identity) ==> {
            &&& identity.task_id.value == hex_value(utf8(task_id@))
            &&& identity.turn_id.value == hex_value(utf8(turn_id@))
            &&& identity.slot_token == match slot_token {
                Some(token) => uuid_parsed(token@),
                None => None,
            }
        },
{
    let task_id = match TaskId::from_text(task_id) {
        Ok(id) => id,
        Err(_) => {
            return Err(protocol_error("invalid runner task ID"));
        },
    };
    let turn_id = match JobId::from_text(turn_id) {
        Ok(id) => id,
        Err(_) => {
            return Err(protocol_error("invalid runner turn ID"));
        },
    };
    let slot_token = match slot_token {
        None => None,
        Some(text) => match uuid_parse(text) {
            Some(value) => Some(value),
            None => {
                return Err(protocol_error("invalid runner slot token"));
            },
        },
    };
    Ok(RunnerIdentity { task_id, turn_id, slot_token })
}

/// What a host's outbox is asked to do once its agent is written and its watch
/// is enabled.
#[derive(Debug, Clone, Copy, PartialEq, Eq, Structural)]
pub enum OutboxAction {
    Wake,
    Watch,
    Once,
    Nothing,
}

#[derive(Debug, Clone, Copy, PartialEq, Eq, Structural)]
pub struct OutboxOptions {
    pub watch: bool,
    pub once: bool,
    pub enable: bool,
    pub write_agent: bool,
    pub wake: bool,
    /// Whether the given root is an absolute path; `None` where none is given.
    pub root_is_absolute: Option<bool>,
}

impl OutboxOptions {
    pub open spec fn fault(self) -> Option<Seq<char>> {
        earliest(
            fault_if(
                !self.watch && !self.once && !self.enable && !self.write_agent && !self.wake,
                "host outbox requires --watch, --once, --enable, --write-agent, or --wake"@,
            ),
            fault_if(
                self.root_is_absolute == Some(false),
                "outbox host root must be an absolute path"@,
            ),
        )
    }

    /// What is done last: waking wins over watching, and watching over one
    /// round.
    pub fn plan(self) -> (result: Result<OutboxAction, WorkerError>)
        ensures
            outcome_of(result, self.fault()),
            result matches Ok(action) ==> action == if self.wake {
                OutboxAction::Wake
            } else if self.watch {
                OutboxAction::Watch
            } else if self.once {
                OutboxAction::Once
            } else {
                OutboxAction::Nothing
            },
    {
        if !self.watch && !self.once && !self.enable && !self.write_agent && !self.wake {
            return Err(
                protocol_error(
                    "host outbox requires --watch, --once, --enable, --write-agent, or --wake",
                ),
            );
        }
        if let Some(absolute) = self.root_is_absolute {
            if !absolute {
                return Err(protocol_error("outbox host root must be an absolute path"));
            }
        }
        if self.wake {
            Ok(OutboxAction::Wake)
        } else if self.watch {
            Ok(OutboxAction::Watch)
        } else if self.once {
            Ok(OutboxAction::Once)
        } else {
            Ok(OutboxAction::Nothing)
        }
    }
}

/// What a clock shows cannot be used, with these words for a clock before the
/// epoch and for one beyond 64 bits.
pub open spec fn clock_fault(since_epoch: Option<u128>, early: Seq<char>, late: Seq<char>) -> Option<
    Seq<char>,
> {
    match since_epoch {
        None => Some(early),
        Some(millis) => fault_if(millis > u64::MAX, late),
    }
}

/// The laptop's time, in milliseconds since the epoch.
pub fn current_time_millis(since_epoch: Option<u128>) -> (result: Result<u64, WorkerError>)
    ensures
        outcome_of(
            result,
            clock_fault(
                since_epoch,
                "system clock is before the Unix epoch"@,
                "system clock exceeds supported range"@,
            ),
        ),
        result matches Ok(now) ==> since_epoch == Some(now as u128),
{
    match since_epoch {
        None => Err(protocol_error("system clock is before the Unix epoch")),
        Some(millis) => {
            if millis > 0xffff_ffff_ffff_ffff {
                Err(protocol_error("system clock exceeds supported range"))
            } else {
                Ok(millis as u64)
            }
        },
    }
}

/// The time at which a lease is asked for.
pub fn lease_time_millis(since_epoch: Option<u128>) -> (result: Result<u64, WorkerError>)
    ensures
        outcome_of(
            result,
            clock_fault(
                since_epoch,
                "system clock predates Unix epoch"@,
                "system clock overflow"@,
            ),
        ),
        result matches Ok(now) ==> since_epoch == Some(now as u128),
{
    match since_epoch {
        None => Err(protocol_error("system clock predates Unix epoch")),
        Some(millis) => {
            if millis > 0xffff_ffff_ffff_ffff {
                Err(protocol_error("system clock overflow"))
            } else {
                Ok(millis as u64)
            }
        },
    }
}

/// The time of one round of the outbox.
pub fn outbox_time_millis(since_epoch: Option<u128>) -> (result: Result<u64, WorkerError>)
    ensures
        match result {
            Ok(now) => since_epoch == Some(now as u128),
            Err(error) => clock_fault(
                since_epoch,
                "system clock precedes the Unix epoch"@,
                "system clock is outside the range"@,
            ) matches Some(message) && task_refusal(error, "TASK_CLOCK_INVALID"@, message),
        },
{
    match since_epoch {
        None => Err(WorkerError::task("TASK_CLOCK_INVALID", "system clock precedes the Unix epoch")),
        Some(millis) => {
            if millis > 0xffff_ffff_ffff_ffff {
                Err(WorkerError::task("TASK_CLOCK_INVALID", "system clock is outside the range"))
            } else {
                Ok(millis as u64)
            }
        },
    }
}

/// The time that a watch goes by: the epoch where the clock cannot be used.
pub fn watch_time_millis(since_epoch: Option<u128>) -> (now: u64)
    ensures
        now == match since_epoch {
            Some(millis) => if millis <= u64::MAX {
                millis as int
            } else {
                0
            },
            None => 0,
        },
{
    match since_epoch {
        Some(millis) => {
            if millis > 0xffff_ffff_ffff_ffff {
                0
            } else {
                millis as u64
            }
        },
        None => 0,
    }
}

} // verus!
