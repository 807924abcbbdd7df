//! Fixed numbers and names, and the small texts that records are made of.
use vstd::prelude::*;
use vstd::string::*;
use crate::controller::{flag_field, opt_field, text_field};
use crate::freeze::{CAPTURE_AUTHOR_EMAIL, CAPTURE_AUTHOR_NAME};
use crate::host_store::IndexedModel;
use crate::job::request::BoundRequestModel;
use crate::job::{
    MAX_ARG_BYTES, MAX_ARG_COUNT, MAX_COMMAND_BYTES, MAX_CONTROL_CODE_BYTES,
    MAX_CONTROL_MESSAGE_BYTES, MAX_FLEET_RECONCILE_IDS, MAX_LOG_CHUNK_BYTES, MAX_TIMEOUT_MILLIS,
    PROTOCOL_VERSION,
};
use crate::job_service::payload::EXECUTION_PAYLOAD_VERSION;
use crate::keychain::{KEYCHAIN_LOCKED_REASON, UNLOCK_OUTPUT_LIMIT, UNLOCK_TIMEOUT_SECONDS};
use crate::laptop::MAX_OUTDATED_NAMED;
use crate::laws::refusals::told;
use crate::outside::{hex_digit_value, hex_value, hyphenated, json_string_text, random_shape};
use crate::wire::{transfer_fault, Endpoint, OutboxOptions};
use crate::text::{hex_char, lower_hex};

verus! {

/// The versions and the limits of the protocol.
pub proof fn the_protocol_has_its_limits()
    ensures
        PROTOCOL_VERSION == 1,
        EXECUTION_PAYLOAD_VERSION == 2,
        MAX_ARG_COUNT == 256,
        MAX_ARG_BYTES == 16 * 1024,
        MAX_COMMAND_BYTES == 128 * 1024,
        MAX_LOG_CHUNK_BYTES == 64 * 1024,
        MAX_TIMEOUT_MILLIS == 24 * 60 * 60 * 1000,
        MAX_CONTROL_CODE_BYTES == 128,
        MAX_CONTROL_MESSAGE_BYTES == 4096,
        MAX_FLEET_RECONCILE_IDS == 100,
        MAX_OUTDATED_NAMED == 8,
        UNLOCK_TIMEOUT_SECONDS == 10,
        UNLOCK_OUTPUT_LIMIT == 4096,
        KEYCHAIN_LOCKED_REASON@ == "keychain locked"@,
        CAPTURE_AUTHOR_NAME@ == "mac-worker"@,
        CAPTURE_AUTHOR_EMAIL@ == "mac-worker@localhost"@,
{
}

/// A hexadecimal digit stands for its value, and digits are read from the most
/// significant one on.
pub proof fn digits_stand_for_their_value(digits: Seq<u8>, byte: u8, digit: int)
    requires
        0 <= digit < 16,
    ensures
        48 <= byte <= 57 ==> hex_digit_value(byte) == byte - 48,
        97 <= byte <= 102 ==> hex_digit_value(byte) == 10 + (byte - 97),
        hex_digit_value(hex_char(digit) as u8) == digit,
        hex_value(Seq::empty()) == 0,
        hex_value(digits.push(byte)) == hex_value(digits) * 16 + hex_digit_value(byte),
{
    assert(digits.push(byte).drop_last() =~= digits);
}

/// An identity with hyphens keeps its thirty-two digits, in groups of eight,
/// four, four, four and twelve.
pub proof fn hyphens_stand_between_groups(digits: Seq<char>, at: int)
    requires
        digits.len() == 32,
        0 <= at < 32,
    ensures
        hyphenated(digits).len() == 36,
        hyphenated(digits)[8] == '-',
        hyphenated(digits)[13] == '-',
        hyphenated(digits)[18] == '-',
        hyphenated(digits)[23] == '-',
        at < 8 ==> hyphenated(digits)[at] == digits[at],
        8 <= at < 12 ==> hyphenated(digits)[at + 1] == digits[at],
        12 <= at < 16 ==> hyphenated(digits)[at + 2] == digits[at],
        16 <= at < 20 ==> hyphenated(digits)[at + 3] == digits[at],
        20 <= at ==> hyphenated(digits)[at + 4] == digits[at],
{
    reveal_strlit("-");
    assert("-"@.len() == 1 && "-"@[0] == '-');
}

/// The fields of a request to a controller.
pub proof fn fields_are_written_by_their_kind(key: Seq<char>, text: String)
    ensures
        flag_field(key, true) == key + "true"@,
        flag_field(key, false) == key + "false"@,
        opt_field(key, Some(text)) == seq![key + json_string_text(text@)],
        opt_field(key, None).len() == 0,
        text_field(key, text@) == key + json_string_text(text@),
{
}

/// An index entry is a request's where it repeats its identities, its project,
/// its worktree and its fingerprint.
pub proof fn entries_belong_to_their_request(entry: IndexedModel, request: BoundRequestModel)
    ensures
        entry.belongs_to(request) <==> {
            &&& entry.client_id == request.material.client_id
            &&& entry.project_id == request.material.project_id
            &&& entry.worktree_id == request.material.worktree_id
            &&& entry.request_fingerprint == request.request_fingerprint
        },
        entry.is_for(request) <==> entry.belongs_to(request) && entry.job_id
            == request.material.job_id,
{
}

/// Requests for a lease and for a check of a snapshot may be written in any way;
/// all others must be as they would be written.
pub proof fn two_endpoints_are_lenient(endpoint: Endpoint)
    ensures
        endpoint.canonical_only() <==> !(endpoint is LeaseAcquire) && !(endpoint is SnapshotVerify),
{
}

/// Why a transfer is refused: the first of its identities that is not well
/// formed is told.
pub proof fn unfit_transfers_are_told(
    prefix: Seq<char>,
    job_id: Seq<char>,
    client_id: Seq<char>,
    lease_token: Seq<char>,
    fingerprint: Seq<char>,
)
    ensures
        ({
            let fault = transfer_fault(prefix, job_id, client_id, lease_token, fingerprint);
            let job = lower_hex(job_id, 32);
            let client = lower_hex(client_id, 32);
            let lease = lower_hex(lease_token, 32);
            &&& !job ==> fault == Some(prefix + "invalid receiver job identity"@)
            &&& job && !client ==> fault == Some(prefix + "invalid receiver client identity"@)
            &&& job && client && !lease ==> fault == Some(
                prefix + "invalid receiver lease identity"@,
            )
            &&& job && client && lease && !lower_hex(fingerprint, 64) ==> fault == Some(
                prefix + "invalid receiver fingerprint"@,
            )
        }),
{
}

/// Why an outbox is not opened.
pub proof fn unfit_outboxes_are_told(options: OutboxOptions)
    ensures
        !options.watch && !options.once && !options.enable && !options.write_agent && !options.wake
            ==> options.fault() == Some(
            "host outbox requires --watch, --once, --enable, --write-agent, or --wake"@,
        ),
        (options.watch || options.once || options.enable || options.write_agent || options.wake)
            && options.root_is_absolute == Some(false) ==> options.fault() == Some(
            "outbox host root must be an absolute path"@,
        ),
{
}

/// A random identity has the version and the variant of one.
pub proof fn random_identities_have_their_shape(value: u128)
    ensures
        random_shape(value) <==> (value as int / 0x1000_0000_0000_0000_0000) % 16 == 4 && (
        value as int / 0x4000_0000_0000_0000) % 4 == 2,
{
}

} // verus!
