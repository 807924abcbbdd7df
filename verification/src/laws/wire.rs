//! What is taken from the wire and what is sent back.
use vstd::prelude::*;
use crate::error::WorkerError;
use crate::job::control::{FleetReconcileJobResult, StatusResponse};
use crate::job::ids::JobId;
use crate::laws::control::{names_stable_code, shows_message};
use crate::laws::names::{codes_are_accepted, hex_bytes, made_of, messages_are_accepted};
use crate::outside::hex_value;
use crate::text::{is_hex_digit, lower_hex, starts_with, utf8};
use crate::wire::{
    answered_job, answers_job, clock_fault, git_server_name, identifies, outcome_faults,
    rsync_receiver_name, sendable, transfer_fault, wire_error, Endpoint, OutboxOptions,
    ReceivedRequest, TransferIdentity,
};
use crate::words::labelled;

verus! {

/// A protocol error that leads with a stable code is sent as it reads; any other
/// is only said to be invalid.
pub proof fn coded_errors_are_sent_as_they_read(text: String, receipt: Seq<char>)
    ensures
        ({
            let sent = wire_error(WorkerError::Protocol(text), receipt);
            let parted = labelled(text@)->0;
            &&& sent.protocol_version == 1
            &&& (labelled(text@) matches Some(halves) && names_stable_code(halves.0)
                && shows_message(halves.1)) ==> sent.error.code == parted.0 && sent.error.message
                == parted.1
            &&& !(labelled(text@) matches Some(halves) && names_stable_code(halves.0)
                && shows_message(halves.1)) ==> sent.error.code == "INVALID_REQUEST"@
                && sent.error.message == "host request was invalid"@
        }),
{
    if let Some(halves) = labelled(text@) {
        codes_are_accepted(halves.0, "host control error code"@);
        messages_are_accepted(halves.1, "host control error message"@);
    }
}

/// Every other error is sent under its own code, with a fixed text or one that was
/// made to be seen.
pub proof fn errors_are_sent_under_their_code(error: WorkerError, receipt: Seq<char>)
    requires
        !(error is Protocol),
    ensures
        ({
            let sent = wire_error(error, receipt).error;
            &&& wire_error(error, receipt).protocol_version == 1
            &&& error matches WorkerError::Capacity { code, message, public } ==> sent.code == code@
                && sent.message == if public {
                message@
            } else {
                "worker admission rejected"@
            }
            &&& error matches WorkerError::Snapshot { code, .. } ==> sent.code == code@
                && sent.message == "snapshot operation failed"@
            &&& error matches WorkerError::Git { code, .. } ==> sent.code == code@ && sent.message
                == if code@ == "ORIGIN_AUTH_FAILED"@ {
                receipt
            } else {
                "Git operation failed"@
            }
            &&& error matches WorkerError::Task { code, .. } ==> sent.code == code@ && sent.message
                == "task operation failed"@
            &&& error matches WorkerError::Agent { code, .. } ==> sent.code == code@
                && sent.message == "agent operation failed"@
            &&& error matches WorkerError::HostIo { receipt: told } ==> sent.code == "HOST_IO"@
                && sent.message == told@
            &&& error is Io ==> sent.code == "HOST_IO"@ && sent.message
                == "host state operation failed"@
            &&& (error is Config || error is Unavailable) ==> sent.code == "INVALID_REQUEST"@
                && sent.message == "host request was invalid"@
        }),
{
}

/// An error can be sent exactly where its code is stable and the texts that are
/// passed on are fit for people.
pub proof fn errors_fit_to_be_sent(error: WorkerError, receipt: Seq<char>)
    ensures
        sendable(error, receipt) <==> match error {
            WorkerError::Capacity { code, message, public } => names_stable_code(code@) && (public
                ==> shows_message(message@)),
            WorkerError::Snapshot { code, .. } => names_stable_code(code@),
            WorkerError::Git { code, .. } => names_stable_code(code@) && (code@
                == "ORIGIN_AUTH_FAILED"@ ==> shows_message(receipt)),
            WorkerError::Task { code, .. } => names_stable_code(code@),
            WorkerError::Agent { code, .. } => names_stable_code(code@),
            WorkerError::HostIo { receipt: told } => shows_message(told@),
            _ => true,
        },
{
    messages_are_accepted(receipt, "host control error message"@);
    match error {
        WorkerError::Capacity { code, message, .. } => {
            codes_are_accepted(code@, "host control error code"@);
            messages_are_accepted(message@, "host control error message"@);
        },
        WorkerError::Snapshot { code, .. } => {
            codes_are_accepted(code@, "host control error code"@);
        },
        WorkerError::Git { code, .. } => {
            codes_are_accepted(code@, "host control error code"@);
        },
        WorkerError::Task { code, .. } => {
            codes_are_accepted(code@, "host control error code"@);
        },
        WorkerError::Agent { code, .. } => {
            codes_are_accepted(code@, "host control error code"@);
        },
        WorkerError::HostIo { receipt: told } => {
            messages_are_accepted(told@, "host control error message"@);
        },
        _ => {},
    }
}

/// A Git server and a transfer receiver show why they refused by the head of the
/// error's text, and never the text itself.
pub proof fn servers_show_only_the_kind(text: String, error: WorkerError)
    ensures
        ({
            let git = git_server_name(WorkerError::Protocol(text));
            let rsync = rsync_receiver_name(WorkerError::Protocol(text));
            &&& starts_with(text@, "INVALID_COMPONENT:"@) ==> git == "HOST_GIT_INVALID_COMPONENT"@
            &&& (!starts_with(text@, "INVALID_COMPONENT:"@) && starts_with(
                text@,
                "LEASE_IDENTITY_MISMATCH:"@,
            )) ==> git == "HOST_GIT_LEASE"@
            &&& (!starts_with(text@, "INVALID_COMPONENT:"@) && !starts_with(
                text@,
                "LEASE_IDENTITY_MISMATCH:"@,
            )) ==> git == "HOST_GIT_REJECTED"@
            &&& starts_with(text@, "INVALID_RSYNC_SERVER_ARGS:"@) ==> rsync
                == "HOST_RSYNC_INVALID_ARGS"@
            &&& (!starts_with(text@, "INVALID_RSYNC_SERVER_ARGS:"@) && (starts_with(
                text@,
                "JOB_ABANDONED:"@,
            ) || starts_with(text@, "JOB_ACCEPTED:"@) || starts_with(text@, "JOB_ID_CONFLICT:"@)))
                ==> rsync == "HOST_RSYNC_FENCED"@
            &&& (!starts_with(text@, "INVALID_RSYNC_SERVER_ARGS:"@) && !starts_with(
                text@,
                "JOB_ABANDONED:"@,
            ) && !starts_with(text@, "JOB_ACCEPTED:"@) && !starts_with(text@, "JOB_ID_CONFLICT:"@)
                && starts_with(text@, "LEASE_IDENTITY_MISMATCH:"@)) ==> rsync
                == "HOST_RSYNC_LEASE"@
        }),
        error is Task ==> git_server_name(error) == "HOST_GIT_TASK"@,
        error matches WorkerError::Git { code, .. } ==> git_server_name(error) == code@,
        error is Io || error is HostIo ==> git_server_name(error) == "HOST_GIT_IO"@
            && rsync_receiver_name(error) == "HOST_RSYNC_IO"@,
        error is Config || error is Unavailable || error is Capacity || error is Snapshot
            || error is Agent ==> git_server_name(error) == "HOST_GIT_REJECTED"@
            && rsync_receiver_name(error) == "HOST_RSYNC_REJECTED"@,
        error is Task || error is Git ==> rsync_receiver_name(error) == "HOST_RSYNC_REJECTED"@,
{
}

/// A request is taken exactly where it is short enough, reads as one request with
/// nothing behind it, and is written canonically where that is asked.
pub proof fn well_formed_requests_are_taken(request: ReceivedRequest, endpoint: Endpoint)
    ensures
        request.fault(endpoint) is None <==> {
            &&& request.bytes@.len() <= if endpoint is AgentSettings {
                8192nat
            } else {
                1048576nat
            }
            &&& request.parse_error is None
            &&& !request.trailing
            &&& !(endpoint is LeaseAcquire || endpoint is SnapshotVerify) ==> (
            request.canonical matches Some(written) && written@ == request.bytes@)
        },
{
}

/// What is said of a request that is not taken, by whom it was for.
pub proof fn refused_requests_are_told_why(reason: Seq<char>)
    ensures
        Endpoint::Submit.too_long() == "submit request exceeded 1 MiB"@,
        Endpoint::Control.too_long() == "host control request exceeded 1 MiB"@,
        Endpoint::Task.too_long() == "host task request exceeded 1 MiB"@,
        Endpoint::AgentSettings.too_long()
            == "SETTINGS_INVALID: settings request exceeded 8192 bytes"@,
        Endpoint::LeaseAcquire.too_long() == "lease-acquire request exceeded 1 MiB"@,
        Endpoint::SnapshotVerify.too_long() == "snapshot-verify request exceeded 1 MiB"@,
        Endpoint::Submit.unreadable(reason) == "invalid submit request"@,
        Endpoint::Control.unreadable(reason) == "invalid host control request"@,
        Endpoint::Task.unreadable(reason) == "invalid host task request"@,
        Endpoint::AgentSettings.unreadable(reason)
            == "SETTINGS_INVALID: settings request was invalid"@,
        Endpoint::LeaseAcquire.unreadable(reason) == "invalid lease-acquire request: "@ + reason,
        Endpoint::SnapshotVerify.unreadable(reason) == "invalid snapshot-verify request"@,
        Endpoint::Submit.trailing() == "submit request contained trailing data"@,
        Endpoint::Control.trailing() == "invalid host control request"@,
        Endpoint::Task.trailing() == "invalid host task request"@,
        Endpoint::AgentSettings.trailing() == "SETTINGS_INVALID: settings request was invalid"@,
        Endpoint::LeaseAcquire.trailing() == "lease-acquire request contained trailing data"@,
        Endpoint::SnapshotVerify.trailing() == "snapshot-verify request contained trailing data"@,
        Endpoint::Submit.unwritable() == "submit request serialization failed"@,
        Endpoint::Control.unwritable() == "invalid host control request"@,
        Endpoint::Task.unwritable() == "invalid host task request"@,
        Endpoint::AgentSettings.unwritable() == "SETTINGS_INVALID: settings request was invalid"@,
        Endpoint::Submit.not_canonical() == "submit request was not canonical JSON"@,
        Endpoint::Control.not_canonical() == "host control request was not canonical JSON"@,
        Endpoint::Task.not_canonical() == "host task request was not canonical JSON"@,
        Endpoint::AgentSettings.not_canonical()
            == "SETTINGS_INVALID: settings request was not canonical JSON"@,
{
}

/// The answers that a reconciliation may send: every status is accepted and no
/// job is answered twice.
pub proof fn separate_outcomes_are_answered(
    ids: Seq<JobId>,
    outcomes: Seq<Result<StatusResponse, WorkerError>>,
    from: int,
)
    requires
        0 <= from <= outcomes.len(),
        forall|i: int|
            from <= i < outcomes.len() ==> ((#[trigger] outcomes[i]) matches Ok(status)
                ==> status@.fault() is None),
        forall|i: int, j: int|
            0 <= i < j < outcomes.len() && from <= j ==> (#[trigger] answered_job(ids, outcomes, i))
                != (#[trigger] answered_job(ids, outcomes, j)),
    ensures
        outcome_faults(ids, outcomes, from) is None,
    decreases outcomes.len() - from,
{
    if from < outcomes.len() {
        separate_outcomes_are_answered(ids, outcomes, from + 1);
        assert(outcomes[from] matches Ok(status) ==> status@.fault() is None);
    }
}

/// An outcome is answered with the status itself, or with the job and the refusal
/// that is sent for its error.
pub proof fn outcomes_are_answered_in_kind(
    ids: Seq<JobId>,
    outcomes: Seq<Result<StatusResponse, WorkerError>>,
    at: int,
    answer: FleetReconcileJobResult,
    receipt: Seq<char>,
)
    ensures
        outcomes[at] matches Ok(status) ==> answered_job(ids, outcomes, at) == status.meta.job_id
            && (answers_job(answer, ids[at], outcomes[at], receipt) <==> (
        answer matches FleetReconcileJobResult::Status { status: sent } && *sent == status)),
        outcomes[at] matches Err(error) ==> answered_job(ids, outcomes, at) == ids[at] && (
        answers_job(answer, ids[at], outcomes[at], receipt) <==> (
        answer matches FleetReconcileJobResult::Error { job_id, error: sent } && job_id == ids[at]
            && sent@ == wire_error(error, receipt))),
{
}

proof fn lower_hex_is_hex(text: Seq<char>, length: nat)
    ensures
        lower_hex(text, length) <==> utf8(text).len() == length && made_of(text, hex_bytes()),
{
    if made_of(text, hex_bytes()) {
        assert forall|i: int| 0 <= i < utf8(text).len() implies is_hex_digit(
            #[trigger] utf8(text)[i],
        ) by {
            assert(hex_bytes()(utf8(text)[i]));
        }
    }
    if lower_hex(text, length) {
        assert forall|i: int| 0 <= i < utf8(text).len() implies hex_bytes()(
            #[trigger] utf8(text)[i],
        ) by {
            assert(is_hex_digit(utf8(text)[i]));
        }
    }
}

/// A transfer is for somebody exactly where its components are three identifiers
/// and a fingerprint, and then for the one whom they write.
pub proof fn transfers_name_somebody(
    prefix: Seq<char>,
    job: Seq<char>,
    client: Seq<char>,
    lease: Seq<char>,
    fingerprint: Seq<char>,
    identity: TransferIdentity,
)
    ensures
        transfer_fault(prefix, job, client, lease, fingerprint) is None <==> {
            &&& utf8(job).len() == 32 && made_of(job, hex_bytes())
            &&& utf8(client).len() == 32 && made_of(client, hex_bytes())
            &&& utf8(lease).len() == 32 && made_of(lease, hex_bytes())
            &&& utf8(fingerprint).len() == 64 && made_of(fingerprint, hex_bytes())
        },
        identifies(identity, job, client, lease, fingerprint) <==> {
            &&& identity.job_id.value == hex_value(utf8(job))
            &&& identity.client_id.value == hex_value(utf8(client))
            &&& identity.lease_token.value == hex_value(utf8(lease))
            &&& identity.request_fingerprint.text@ == fingerprint
        },
{
    lower_hex_is_hex(job, 32);
    lower_hex_is_hex(client, 32);
    lower_hex_is_hex(lease, 32);
    lower_hex_is_hex(fingerprint, 64);
}

/// An outbox has something to do, below an absolute root if one is given.
pub proof fn outboxes_have_something_to_do(options: OutboxOptions)
    ensures
        options.fault() is None <==> (options.watch || options.once || options.enable
            || options.write_agent || options.wake) && options.root_is_absolute != Some(false),
{
}

/// A clock can be used from the epoch on and within 64 bits.
pub proof fn clocks_can_be_used(since_epoch: Option<u128>, early: Seq<char>, late: Seq<char>)
    ensures
        clock_fault(since_epoch, early, late) is None <==> (since_epoch matches Some(millis)
            && millis <= 18446744073709551615),
        since_epoch is None ==> clock_fault(since_epoch, early, late) == Some(early),
        since_epoch matches Some(millis) && millis > 18446744073709551615 ==> clock_fault(
            since_epoch,
            early,
            late,
        ) == Some(late),
{
}

} // verus!
