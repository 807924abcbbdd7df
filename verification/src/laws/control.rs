//! Answers and events between a laptop and its hosts: which are accepted.
use vstd::prelude::*;
use crate::job::control::{
    fleet_answers_are_unique, fleet_faults, host_error, CancelRequest, CancelResponse,
    FleetReconcileJobResult, FleetReconcileRequest, FleetReconcileResponse, HostControlError,
    HostControlErrorDetail, JsonEvent, PreacceptanceDisposition, ResolveOrAbandonOutcome,
    ResolveOrAbandonResponse, StatusResponse, SubmitResponse,
};
use crate::job::record::LeaseAcquireResponse;
use crate::laws::names::{
    bounded_text, capital_letter, code_bytes, codes_are_accepted, free_of_nul, made_of,
    messages_are_accepted, plain_texts_are_accepted,
};
use crate::laws::status::{coherent, coherent_statuses_are_accepted};
use crate::text::utf8;

verus! {

/// A stable code.
pub open spec fn names_stable_code(text: Seq<char>) -> bool {
    bounded_text(text, 128) && made_of(text, code_bytes()) && capital_letter(utf8(text)[0])
}

/// A message for people.
pub open spec fn shows_message(text: Seq<char>) -> bool {
    &&& bounded_text(text, 4096)
    &&& free_of_nul(text)
    &&& forall|i: int|
        0 <= i < text.len() ==> (#[trigger] text[i]) as int >= 32 && !(127 <= text[i] as int
            <= 159)
}

/// An answer about a job is accepted exactly where it is of this version, its
/// facts are accepted, its status is coherent and not older than the job.
pub proof fn status_answers_are_accepted(response: StatusResponse)
    ensures
        response@.fault() is None <==> {
            &&& response.protocol_version == 1
            &&& response.meta@.fault() is None
            &&& coherent(response.status@)
            &&& response.status.updated_at_millis >= response.meta.created_at_millis
        },
{
    coherent_statuses_are_accepted(response.status@);
}

/// The answers to a submission and to a request for a slot are accepted exactly
/// where what they carry is.
pub proof fn submission_answers_are_accepted(
    submitted: SubmitResponse,
    acquired: LeaseAcquireResponse,
)
    ensures
        submitted.fault() is None <==> match submitted {
            SubmitResponse::Accepted { meta, status } => meta@.fault() is None && coherent(status@),
            SubmitResponse::Existing { status } => coherent(status@),
        },
        submitted matches SubmitResponse::Accepted { status, .. } ==> submitted.reported()
            == status,
        submitted matches SubmitResponse::Existing { status } ==> submitted.reported() == status,
        acquired.fault() is None <==> match acquired {
            LeaseAcquireResponse::Acquired { lease } => lease@.fault() is None,
            LeaseAcquireResponse::ExistingAccepted { status } => coherent(status@),
        },
{
    coherent_statuses_are_accepted(submitted.reported()@);
    if let LeaseAcquireResponse::ExistingAccepted { status } = acquired {
        coherent_statuses_are_accepted(status@);
    }
}

/// A request about known jobs is accepted where it names at most a hundred, none
/// of them twice.
pub proof fn fleet_requests_are_accepted(request: FleetReconcileRequest)
    ensures
        request.fault() is None <==> {
            &&& request.known_job_ids@.len() <= 100
            &&& forall|i: int, j: int|
                0 <= i < j < request.known_job_ids@.len() ==> #[trigger] request.known_job_ids@[i]
                    != #[trigger] request.known_job_ids@[j]
        },
{
}

proof fn distinct_answers_have_no_fault(results: Seq<FleetReconcileJobResult>, from: int)
    requires
        0 <= from <= results.len(),
        forall|i: int| 0 <= i < results.len() ==> (#[trigger] results[i]).fault() is None,
        forall|i: int, j: int|
            0 <= i < j < results.len() ==> (#[trigger] results[i]).job() != (
            #[trigger] results[j]).job(),
    ensures
        fleet_faults(results, from) is None,
    decreases results.len() - from,
{
    if from < results.len() {
        distinct_answers_have_no_fault(results, from + 1);
        assert(results[from].fault() is None);
    }
}

proof fn accepted_answers_have_accepted_results(
    results: Seq<FleetReconcileJobResult>,
    from: int,
    at: int,
)
    requires
        0 <= from <= at < results.len(),
        fleet_faults(results, from) is None,
    ensures
        results[at].fault() is None,
    decreases at - from,
{
    if from < at {
        accepted_answers_have_accepted_results(results, from + 1, at);
    }
}

/// The answer is accepted where it tells of at most a hundred jobs, each once,
/// and every result is accepted.
pub proof fn fleet_answers_are_accepted(response: FleetReconcileResponse)
    ensures
        response.fault() is None <==> {
            let results = response.results@;
            &&& results.len() <= 100
            &&& forall|i: int| 0 <= i < results.len() ==> (#[trigger] results[i]).fault() is None
            &&& forall|i: int, j: int|
                0 <= i < j < results.len() ==> (#[trigger] results[i]).job() != (
                #[trigger] results[j]).job()
        },
{
    let results = response.results@;
    if response.fault() is None {
        assert forall|i: int| 0 <= i < results.len() implies (#[trigger] results[i]).fault()
            is None by {
            accepted_answers_have_accepted_results(results, 0, i);
        }
        assert forall|i: int, j: int| 0 <= i < j < results.len() implies (
        #[trigger] results[i]).job() != (#[trigger] results[j]).job() by {
            fleet_answers_are_unique(response, i, j);
        }
    }
    if (forall|i: int| 0 <= i < results.len() ==> (#[trigger] results[i]).fault() is None) && (
    forall|i: int, j: int|
        0 <= i < j < results.len() ==> (#[trigger] results[i]).job() != (
        #[trigger] results[j]).job()) {
        distinct_answers_have_no_fault(results, 0);
    }
}

/// One result tells of its job what it carries.
pub proof fn fleet_results_name_their_job(found: FleetReconcileJobResult)
    ensures
        found matches FleetReconcileJobResult::Status { status } ==> found.job()
            == status.meta.job_id && found.fault() == status@.fault(),
        found matches FleetReconcileJobResult::Error { job_id, error } ==> found.job() == job_id
            && found.fault() == error@.fault(),
{
}

/// A refusal of a host is accepted where it is of this version and carries a
/// stable code and a message for people.
pub proof fn host_errors_are_accepted(
    error: HostControlError,
    detail: HostControlErrorDetail,
    code: Seq<char>,
    message: Seq<char>,
)
    ensures
        error@.fault() is None <==> error.protocol_version == 1 && names_stable_code(
            error.error.code@,
        ) && shows_message(error.error.message@),
        detail@.fault() is None <==> names_stable_code(detail.code@) && shows_message(
            detail.message@,
        ),
        host_error(code, message).fault() is None <==> names_stable_code(code) && shows_message(
            message,
        ),
        host_error(code, message).protocol_version == 1,
        host_error(code, message).error.code == code,
        host_error(code, message).error.message == message,
{
    codes_are_accepted(error.error.code@, "host control error code"@);
    messages_are_accepted(error.error.message@, "host control error message"@);
    codes_are_accepted(detail.code@, "host control error code"@);
    messages_are_accepted(detail.message@, "host control error message"@);
    codes_are_accepted(code, "host control error code"@);
    messages_are_accepted(message, "host control error message"@);
}

/// The answers to a cancellation and to a settled job are accepted where they are
/// of this version and what they carry is accepted.
pub proof fn settling_answers_are_accepted(
    cancelled: CancelResponse,
    settled: ResolveOrAbandonResponse,
    known: PreacceptanceDisposition,
)
    ensures
        cancelled.fault() is None <==> cancelled.protocol_version == 1 && cancelled.status@.fault()
            is None,
        settled.fault() is None <==> settled.protocol_version == 1 && match settled.outcome {
            ResolveOrAbandonOutcome::Accepted { response } => response@.fault() is None,
            ResolveOrAbandonOutcome::Abandoned => true,
            ResolveOrAbandonOutcome::CleanupPending { code } => names_stable_code(code@),
        },
        known.fault() is None <==> match known {
            PreacceptanceDisposition::Accepted(response) => response@.fault() is None,
            PreacceptanceDisposition::Abandoned => true,
            PreacceptanceDisposition::CleanupPending { code } => names_stable_code(code@),
            PreacceptanceDisposition::UnknownRemote { code } => names_stable_code(code@),
        },
{
    if let ResolveOrAbandonOutcome::CleanupPending { code } = settled.outcome {
        codes_are_accepted(code@, "cleanup-pending code"@);
    }
    if let PreacceptanceDisposition::CleanupPending { code } = known {
        codes_are_accepted(code@, "cleanup-pending code"@);
    }
    if let PreacceptanceDisposition::UnknownRemote { code } = known {
        codes_are_accepted(code@, "unknown-remote code"@);
    }
}

/// An event is accepted exactly where it is of this version and what it carries
/// is accepted.
pub proof fn events_are_accepted(event: JsonEvent)
    ensures
        event.fault() is None <==> match event {
            JsonEvent::Accepted { protocol_version, response } => protocol_version == 1
                && response.fault() is None,
            JsonEvent::Log { protocol_version, chunk } => protocol_version == 1 && chunk.fault()
                is None,
            JsonEvent::Status { protocol_version, response } => protocol_version == 1
                && response@.fault() is None,
            JsonEvent::TaskCreated { protocol_version, title, .. } => protocol_version == 1
                && bounded_text(title@, 120) && free_of_nul(title@),
            JsonEvent::TaskState { protocol_version, status_encodes, .. } => protocol_version == 1
                && status_encodes,
            JsonEvent::TurnAccepted { protocol_version, worker, .. } => protocol_version == 1
                && bounded_text(worker@, 128) && free_of_nul(worker@),
            JsonEvent::TurnTerminal { protocol_version, outcome_encodes, .. } => protocol_version
                == 1 && outcome_encodes,
            JsonEvent::ResultImported { protocol_version, local_ref, .. } => protocol_version == 1
                && bounded_text(local_ref@, 512) && free_of_nul(local_ref@),
            JsonEvent::Error { protocol_version, code, message } => protocol_version == 1
                && bounded_text(code@, 128) && free_of_nul(code@) && bounded_text(message@, 4096)
                && free_of_nul(message@),
        },
{
    match event {
        JsonEvent::TaskCreated { title, .. } => {
            plain_texts_are_accepted(title@, 120, "task title"@);
        },
        JsonEvent::TurnAccepted { worker, .. } => {
            plain_texts_are_accepted(worker@, 128, "worker name"@);
        },
        JsonEvent::ResultImported { local_ref, .. } => {
            plain_texts_are_accepted(local_ref@, 512, "result ref"@);
        },
        JsonEvent::Error { code, message, .. } => {
            plain_texts_are_accepted(code@, 128, "error code"@);
            plain_texts_are_accepted(message@, 4096, "error message"@);
        },
        _ => {},
    }
}

/// What a request to cancel says tells each of its fields, and so do the answers
/// and refusals of a host.
pub proof fn control_records_say_everything(
    left: CancelRequest,
    right: CancelRequest,
    first: StatusResponse,
    second: StatusResponse,
    one: HostControlError,
    other: HostControlError,
)
    requires
        left@ == right@,
        first@ == second@,
        one@ == other@,
    ensures
        left.job_id == right.job_id,
        left.client_id == right.client_id,
        left.lease_token == right.lease_token,
        left.request_fingerprint.text@ == right.request_fingerprint.text@,
        first.protocol_version == second.protocol_version,
        first.meta@ == second.meta@,
        first.status@ == second.status@,
        one.protocol_version == other.protocol_version,
        one.error.code@ == other.error.code@,
        one.error.message@ == other.error.message@,
{
}

} // verus!
