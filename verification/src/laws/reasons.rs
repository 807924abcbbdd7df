//! Why a record, a request or an answer is refused, and which reason comes first.
use vstd::prelude::*;
use vstd::string::*;
use crate::job::checks::{
    argument_fault, capability_name, control_code_fault, control_message_fault, hex_fault,
    non_nul_fault, opaque_fault, requirement_fault_at, requirements_fault, worker_name_fault,
};
use crate::job::command::{argument_bytes, argument_faults, argv_fault, parts_fault, CommandSummary};
use crate::job::control::{
    fleet_fault_at, jobs_distinct, CancelResponse, FleetReconcileJobResult, FleetReconcileRequest,
    FleetReconcileResponse, HostErrorModel, JsonEvent, ResolveOrAbandonResponse,
    StatusResponseModel,
};
use crate::job::ids::reads_as;
use crate::job::observation::AdmissionObservation;
use crate::job::queue::{
    caps_conflict, queue_fault_at, share_worker, ProofModel, QueueEntry, QueueEntryKind, QueueId,
    QueueRunReference, QueueState, RunnerSlotReservation,
};
use crate::job::record::{LeaseModel, MetaModel};
use crate::job::request::{
    timeout_ok, working_dir_ok, BoundRequestModel, MaterialModel, ResolutionModel,
};
use crate::job::status::{
    identity_pair_fault, sticky_fault, JobState, ProcessIdentity, StatusModel,
};
use crate::laws::status::{coherent, coherent_statuses_are_accepted, has_ended, names_process};
use crate::text::texts;

verus! {

/// What is told of a text that cannot be what it is labelled as.
pub proof fn unfit_texts_are_told(value: Seq<char>, max: nat, label: Seq<char>)
    ensures
        non_nul_fault(value, max, label) is Some ==> non_nul_fault(value, max, label) == Some(
            label + " is empty, too long, or contains NUL"@,
        ),
        opaque_fault(value, label) is Some ==> opaque_fault(value, label) == Some(
            label + " is not canonical"@,
        ),
        worker_name_fault(value) is Some ==> worker_name_fault(value) == Some(
            "queue worker name is invalid"@,
        ),
        hex_fault(value, label) is Some ==> hex_fault(value, label) == Some(
            label + " must be 64 lowercase hexadecimal bytes"@,
        ),
        argument_fault(value) is Some ==> argument_fault(value) == Some(
            "argv argument is too long or contains NUL"@,
        ),
        non_nul_fault(value, 128, label) is Some ==> control_code_fault(value, label)
            == non_nul_fault(value, 128, label),
        non_nul_fault(value, 128, label) is None && control_code_fault(value, label) is Some
            ==> control_code_fault(value, label) == Some(
            label + " must be an uppercase ASCII identifier"@,
        ),
        non_nul_fault(value, 4096, label) is Some ==> control_message_fault(value, label)
            == non_nul_fault(value, 4096, label),
        non_nul_fault(value, 4096, label) is None && control_message_fault(value, label) is Some
            ==> control_message_fault(value, label) == Some(
            label + " contains a control character"@,
        ),
{
}

/// What is told of a list of capabilities.
pub proof fn unfit_capabilities_are_told(names: Seq<Seq<char>>, at: int)
    requires
        0 <= at < names.len(),
    ensures
        names.len() > 256 ==> requirements_fault(names) == Some(
            "queue capability count exceeds its limit"@,
        ),
        !capability_name(names[at]) ==> requirement_fault_at(names, at) == Some(
            "queue capability is invalid"@,
        ),
        capability_name(names[at]) && (exists|i: int|
            0 <= i < at && #[trigger] names[i] == names[at]) ==> requirement_fault_at(names, at)
            == Some("queue capabilities contain a duplicate"@),
{
    if exists|i: int| 0 <= i < at && #[trigger] names[i] == names[at] {
        let i = choose|i: int| 0 <= i < at && #[trigger] names[i] == names[at];
        assert(names.take(at)[i] == names[at]);
    }
}

/// What is told of a command: how many arguments it has, then which of them is
/// unfit, then how long they are together.
pub proof fn unfit_commands_are_told(
    arguments: Seq<Seq<char>>,
    mode: Seq<char>,
    shell: Seq<char>,
    summary: CommandSummary,
)
    ensures
        arguments.len() == 0 || arguments.len() > 256 ==> argv_fault(arguments) == Some(
            "argv command has an invalid argument count"@,
        ),
        1 <= arguments.len() <= 256 && argument_faults(arguments, 0) is Some ==> argv_fault(
            arguments,
        ) == argument_faults(arguments, 0),
        1 <= arguments.len() <= 256 && argument_faults(arguments, 0) is None && argument_bytes(
            arguments,
        ) > 131072 ==> argv_fault(arguments) == Some("argv command exceeds its byte limit"@),
        parts_fault(mode, Some(arguments), Some(shell)) == Some(
            "command mode and payload must agree"@,
        ),
        parts_fault(mode, None, None) == Some("command mode and payload must agree"@),
        mode != "argv"@ ==> parts_fault(mode, Some(arguments), None) == Some(
            "command mode and payload must agree"@,
        ),
        mode != "shell"@ ==> parts_fault(mode, None, Some(shell)) == Some(
            "command mode and payload must agree"@,
        ),
        parts_fault("argv"@, Some(arguments), None) == argv_fault(arguments),
        parts_fault("shell"@, None, Some(shell)) == non_nul_fault(
            shell,
            131072,
            "shell command"@,
        ),
        summary.fault() is Some ==> summary.fault() == Some(
            "command summary has an invalid argument count"@,
        ),
{
}

/// What is told of a text that is no identifier.
pub proof fn unfit_identifiers_are_told(result: Result<u128, String>, text: Seq<char>)
    requires
        reads_as(result, text),
    ensures
        result matches Err(message) ==> message@ == "identifier must be a lowercase simple UUID"@,
{
}

/// What is told of a status, in the order in which it is checked.
pub proof fn incoherent_statuses_are_told(status: StatusModel)
    ensures
        ({
            let supervised = names_process(status.supervisor_pid, status.supervisor_start_identity);
            let parented = names_process(status.child_pid, status.child_start_identity);
            let led = !(status.child_pid is Some && status.supervisor_pid is None);
            let runs = status.state != JobState::Running || (status.supervisor_pid is Some
                && status.child_pid is Some);
            let paired = (status.final_stdout_bytes is Some) == (status.final_stderr_bytes is Some);
            let bound = has_ended(status.state) == (status.final_stdout_bytes is Some);
            &&& !supervised ==> status.fault() == Some(
                "supervisor"@ + " process identity is incomplete"@,
            )
            &&& supervised && !parented ==> status.fault() == Some(
                "child"@ + " process identity is incomplete"@,
            )
            &&& supervised && parented && !led ==> status.fault() == Some(
                "child identity requires a supervisor identity"@,
            )
            &&& supervised && parented && led && !runs ==> status.fault() == Some(
                "running status requires supervisor and child identities"@,
            )
            &&& supervised && parented && led && runs && !paired ==> status.fault() == Some(
                "final log lengths must be present together"@,
            )
            &&& supervised && parented && led && runs && paired && !bound ==> status.fault()
                == Some("terminal status must bind both final log lengths"@)
            &&& supervised && parented && led && runs && paired && bound ==> {
                &&& status.state == JobState::Succeeded && (status.exit_code != Some(0u8)
                    || status.terminating_signal is Some) ==> status.fault() == Some(
                    "succeeded status requires exit code zero"@,
                )
                &&& status.state == JobState::Failed && ((status.exit_code is Some)
                    == (status.terminating_signal is Some) || status.exit_code == Some(0u8)
                    || status.terminating_signal == Some(0u32)) ==> status.fault() == Some(
                    "failed status requires exactly one nonzero command outcome"@,
                )
                &&& status.state != JobState::Succeeded && status.state != JobState::Failed && (
                status.exit_code is Some || status.terminating_signal is Some) ==> status.fault()
                    == Some("only command outcomes may include an exit code or signal"@)
                &&& status.state == JobState::Running && status.exit_code is None
                    && status.terminating_signal is None && status.error_code is None
                    && status.cleanup_error_code is Some ==> status.fault() == Some(
                    "cleanup error requires a terminal status"@,
                )
            }
        }),
{
}

/// What is told of a process that is not named, and of one that changed.
pub proof fn changed_processes_are_told(
    identity: ProcessIdentity,
    other: ProcessIdentity,
    label: Seq<char>,
    pid: u32,
    start: u64,
)
    ensures
        identity.pid == 0 || identity.start_time_micros == 0 ==> identity.fault() == Some(
            "process identity is invalid"@,
        ),
        identity_pair_fault(Some(pid), None, label) == Some(
            label + " process identity is incomplete"@,
        ),
        identity_pair_fault(None, Some(start), label) == Some(
            label + " process identity is incomplete"@,
        ),
        identity_pair_fault(None, None, label) is None,
        pid > 0 && start > 0 ==> identity_pair_fault(Some(pid), Some(start), label) is None,
        identity != other ==> sticky_fault(Some(identity), Some(other), label) == Some(
            label + " process identity is not sticky"@,
        ),
        sticky_fault(Some(identity), None, label) == Some(
            label + " process identity is not sticky"@,
        ),
        sticky_fault(Some(identity), Some(identity), label) is None,
        sticky_fault(None, Some(other), label) is None,
{
}

/// What is told of a change of a status: the two statuses are checked first,
/// then their times, then their processes, then the step itself.
pub proof fn wrong_changes_are_told(status: StatusModel, next: StatusModel)
    ensures
        ({
            let fault = status.transition_fault(next);
            let sound = coherent(status) && coherent(next);
            let timely = next.updated_at_millis >= status.updated_at_millis;
            let kept = status.supervisor() is Some ==> next.supervisor() == status.supervisor();
            let held = status.child() is Some ==> next.child() == status.child();
            let alike = status.supervisor() == next.supervisor() && status.child() == next.child();
            let enriching = status.state == JobState::Accepted && next.state == JobState::Accepted;
            &&& !coherent(status) ==> fault == status.fault()
            &&& coherent(status) && !coherent(next) ==> fault == next.fault()
            &&& sound && !timely ==> fault == Some("job status timestamp moved backwards"@)
            &&& sound && timely && !kept ==> fault == Some(
                "supervisor"@ + " process identity is not sticky"@,
            )
            &&& sound && timely && kept && !held ==> fault == Some(
                "child"@ + " process identity is not sticky"@,
            )
            &&& sound && timely && kept && held && enriching && !status.enriches_by_one(next)
                ==> fault == Some(
                "accepted identity enrichment must add exactly one process identity"@,
            )
            &&& sound && timely && kept && held && !enriching && !alike ==> fault == Some(
                "process identities may change only during accepted enrichment"@,
            )
            &&& sound && timely && alike && has_ended(status.state) && status.state == next.state
                && !status.gains_cleanup_error(next) ==> fault == Some(
                "terminal status permits only one cleanup-error enrichment"@,
            )
            &&& sound && timely && alike && !enriching && !(has_ended(status.state) && status.state
                == next.state) && !status.state.may_become(next.state) ==> fault == Some(
                "job state transition is not allowed"@,
            )
            &&& !coherent(next) ==> status.proposal_fault(next) == next.fault()
        }),
{
    coherent_statuses_are_accepted(status);
    coherent_statuses_are_accepted(next);
}

/// What is told of a job's facts, in the order in which they are checked.
pub proof fn unfit_facts_are_told(meta: MetaModel)
    ensures
        ({
            let version = meta.protocol_version == 1;
            let names = hex_fault(meta.project_id, "project ID"@) is None && hex_fault(
                meta.worktree_id,
                "worktree ID"@,
            ) is None && hex_fault(meta.manifest_digest, "manifest digest"@) is None
                && non_nul_fault(meta.worker_name, 128, "worker name"@) is None;
            let place = working_dir_ok(meta.relative_working_dir);
            let class = non_nul_fault(meta.resource_class, 64, "resource class"@);
            &&& !version ==> meta.fault() == Some(
                "job metadata has an incompatible protocol version"@,
            )
            &&& version && hex_fault(meta.project_id, "project ID"@) is Some ==> meta.fault()
                == hex_fault(meta.project_id, "project ID"@)
            &&& version && names && !place ==> meta.fault() == Some(
                "job metadata relative working directory is invalid"@,
            )
            &&& version && names && place && class is Some ==> meta.fault() == class
            &&& version && names && place && class is None && meta.command_summary.fault() is Some
                ==> meta.fault() == meta.command_summary.fault()
            &&& version && names && place && class is None && meta.command_summary.fault() is None
                && !timeout_ok(meta.timeout_millis) ==> meta.fault() == Some(
                "job metadata timeout is outside the supported range"@,
            )
        }),
{
}

/// What is told of a lease's times, once its names are fit.
pub proof fn unfit_leases_are_told(lease: LeaseModel)
    ensures
        hex_fault(lease.project_id, "project ID"@) is Some ==> lease.fault() == hex_fault(
            lease.project_id,
            "project ID"@,
        ),
        hex_fault(lease.project_id, "project ID"@) is None && hex_fault(
            lease.worktree_id,
            "worktree ID"@,
        ) is None && hex_fault(lease.manifest_digest, "manifest digest"@) is None && non_nul_fault(
            lease.worker_name,
            128,
            "worker name"@,
        ) is None && non_nul_fault(lease.resource_class, 64, "resource class"@) is None
            && lease.command_summary.fault() is None && (!timeout_ok(lease.timeout_millis)
            || lease.expires_at_millis < lease.created_at_millis) ==> lease.fault() == Some(
            "lease record timestamps or timeout are invalid"@,
        ),
{
}

/// What is told of a request and of a resolution, in the order in which they are
/// checked.
pub proof fn unfit_requests_are_told(
    material: MaterialModel,
    request: ResolutionModel,
    bound: BoundRequestModel,
)
    ensures
        ({
            let version = material.protocol_version == 1;
            let names = non_nul_fault(material.worker_name, 128, "worker name"@) is None
                && hex_fault(material.project_id, "project ID"@) is None && hex_fault(
                material.worktree_id,
                "worktree ID"@,
            ) is None && hex_fault(material.manifest_digest, "manifest digest"@) is None;
            let place = working_dir_ok(material.relative_working_dir);
            let timed = timeout_ok(material.timeout_millis);
            &&& !version ==> material.fault() == Some(
                "request fingerprint has an incompatible protocol version"@,
            )
            &&& version && non_nul_fault(material.worker_name, 128, "worker name"@) is Some
                ==> material.fault() == non_nul_fault(material.worker_name, 128, "worker name"@)
            &&& version && names && !place ==> material.fault() == Some(
                "relative working directory is invalid"@,
            )
            &&& version && names && place && !timed ==> material.fault() == Some(
                "timeout is outside the supported range"@,
            )
            &&& version && names && place && timed && non_nul_fault(
                material.resource_class,
                64,
                "resource class"@,
            ) is None ==> material.fault() == material.command.fault()
        }),
        ({
            let version = request.protocol_version == 1;
            let names = non_nul_fault(request.worker_name, 128, "worker name"@) is None
                && hex_fault(request.project_id, "project ID"@) is None && hex_fault(
                request.worktree_id,
                "worktree ID"@,
            ) is None && hex_fault(request.manifest_digest, "manifest digest"@) is None;
            let place = working_dir_ok(request.relative_working_dir);
            &&& !version ==> request.fault() == Some(
                "resolve-or-abandon request has an incompatible protocol version"@,
            )
            &&& version && names && !place ==> request.fault() == Some(
                "resolve-or-abandon relative working directory is invalid"@,
            )
            &&& version && names && place && !timeout_ok(request.timeout_millis)
                ==> request.fault() == Some(
                "resolve-or-abandon timeout is outside the supported range"@,
            )
        }),
        bound.material.fault() is Some ==> bound.fault() == bound.material.fault(),
        bound.material.fault() is None && bound.material.digest() != bound.request_fingerprint
            ==> bound.fault() == Some("lease request fingerprint does not match its material"@),
{
}

/// What is told of answers in another version of the protocol, and what comes
/// before it.
pub proof fn unfit_answers_are_told(
    status: StatusResponseModel,
    cancelled: CancelResponse,
    resolved: ResolveOrAbandonResponse,
    refused: HostErrorModel,
    event: JsonEvent,
)
    ensures
        status.protocol_version != 1 ==> status.fault() == Some(
            "status response has an incompatible protocol version"@,
        ),
        status.protocol_version == 1 && status.meta.fault() is Some ==> status.fault()
            == status.meta.fault(),
        status.protocol_version == 1 && status.meta.fault() is None && status.status.fault() is None
            && status.status.updated_at_millis < status.meta.created_at_millis ==> status.fault()
            == Some("status response timestamp predates job acceptance"@),
        cancelled.protocol_version != 1 ==> cancelled.fault() == Some(
            "cancel response has an incompatible protocol version"@,
        ),
        resolved.protocol_version != 1 ==> resolved.fault() == Some(
            "resolve-or-abandon response has an incompatible protocol version"@,
        ),
        refused.protocol_version != 1 ==> refused.fault() == Some(
            "host control error has an incompatible protocol version"@,
        ),
        event.body_fault() is Some ==> event.fault() == event.body_fault(),
        event.body_fault() is None && event.version() != 1 ==> event.fault() == Some(
            "event has an incompatible protocol version"@,
        ),
        (event matches JsonEvent::TaskState { status_encodes, .. } && !status_encodes)
            ==> event.body_fault() == Some("task status event is invalid"@),
        (event matches JsonEvent::TurnTerminal { outcome_encodes, .. } && !outcome_encodes)
            ==> event.body_fault() == Some("turn terminal event is invalid"@),
        (event matches JsonEvent::TaskCreated { title, .. } && non_nul_fault(
            title@,
            120,
            "task title"@,
        ) is None) ==> event.body_fault() is None,
        (event matches JsonEvent::Error { code, .. } && non_nul_fault(code@, 128, "error code"@)
            is Some) ==> event.body_fault() == Some(
            "error code"@ + " is empty, too long, or contains NUL"@,
        ),
{
}

/// What is told of a fleet's questions and answers.
pub proof fn unfit_fleets_are_told(
    request: FleetReconcileRequest,
    response: FleetReconcileResponse,
    results: Seq<FleetReconcileJobResult>,
    at: int,
)
    requires
        0 <= at < results.len(),
    ensures
        request.known_job_ids@.len() > 100 ==> request.fault() == Some(
            "fleet reconciliation request exceeds 100 job IDs"@,
        ),
        request.known_job_ids@.len() <= 100 && !jobs_distinct(request.known_job_ids@)
            ==> request.fault() == Some("fleet reconciliation request contains duplicate job IDs"@),
        response.results@.len() > 100 ==> response.fault() == Some(
            "fleet reconciliation response exceeds 100 job IDs"@,
        ),
        results[at].fault() is Some ==> fleet_fault_at(results, at) == results[at].fault(),
        results[at].fault() is None && (exists|j: int|
            0 <= j < at && (#[trigger] results[j]).job() == results[at].job()) ==> fleet_fault_at(
            results,
            at,
        ) == Some("fleet reconciliation response contains duplicate job IDs"@),
{
}

/// What is told of a queue's identities, reservations, runs and observations.
pub proof fn unfit_places_are_told(
    id: QueueId,
    slot: RunnerSlotReservation,
    run: QueueRunReference,
    state: QueueState,
    enqueued: u64,
    observed: AdmissionObservation,
)
    ensures
        id.value == 0 ==> id.fault() == Some("queue ID must be positive"@),
        slot.reserver.fault() is Some ==> slot.fault() == slot.reserver.fault(),
        slot.reserver.fault() is None && slot.token == 0 ==> slot.fault() == Some(
            "runner slot token must be unique and non-nil"@,
        ),
        opaque_fault(run.run_id.text@, "run ID"@) is Some ==> run.fault() == opaque_fault(
            run.run_id.text@,
            "run ID"@,
        ),
        opaque_fault(run.run_id.text@, "run ID"@) is None && run.max_parallel == 0 ==> run.fault()
            == Some("run maximum parallelism must be positive"@),
        (state matches QueueState::Dispatching {
            dispatch_owner,
            selected_worker,
            claimed_at_millis,
        } && dispatch_owner.fault() is None && worker_name_fault(selected_worker@) is None && (
        claimed_at_millis == 0 || claimed_at_millis < enqueued)) ==> state.fault(enqueued) == Some(
            "queue claim timestamp predates enqueue timestamp"@,
        ),
        worker_name_fault(observed.worker_name@) is None && requirements_fault(
            texts(observed.capabilities@),
        ) is None && observed.observed_at_millis == 0 ==> observed.fault() == Some(
            "admission observation timestamp must be positive"@,
        ),
{
}

/// What is told of a proof that a reservation was given up.
pub proof fn unfit_proofs_are_told(proof_record: ProofModel, entry: QueueEntry)
    ensures
        proof_record.queue_id.fault() is None && worker_name_fault(proof_record.selected_worker)
            is None && hex_fault(proof_record.project_id, "abandonment proof project ID"@) is None
            && hex_fault(proof_record.worktree_id, "abandonment proof worktree ID"@) is None
            && proof_record.command_summary.fault() is None && proof_record.recorded_by.fault()
            is None && proof_record.claimed_at_millis == 0 ==> proof_record.fault() == Some(
            "abandonment proof claim timestamp must be positive"@,
        ),
        proof_record.fault() is Some ==> proof_record.against_fault(&entry)
            == proof_record.fault(),
        proof_record.fault() is None && entry.state !is Dispatching ==> proof_record.against_fault(
            &entry,
        ) == Some("pre-acceptance abandonment proof requires a dispatch reservation"@),
        proof_record.fault() is None && entry.state is Dispatching && !proof_record.matches_entry(
            &entry,
        ) ==> proof_record.against_fault(&entry) == Some(
            "abandonment proof does not match its queue reservation"@,
        ),
        proof_record.fault() is None && entry.state is Dispatching && proof_record.matches_entry(
            &entry,
        ) && entry.kind == QueueEntryKind::Batch && Some(proof_record.recorded_by)
            != entry.state.owned_by() ==> proof_record.against_fault(&entry) == Some(
            "batch abandonment proof must match its immutable owner"@,
        ),
{
}

/// What is told of the times and the owner of a queue's entry.
pub proof fn unfit_entries_are_told(entry: QueueEntry)
    ensures
        ({
            let runs = entry.run is None || entry.run->0.fault() is None;
            let late = entry.cancel_requested_at_millis matches Some(at) && at
                < entry.enqueued_at_millis;
            &&& entry.enqueued_at_millis == 0 ==> entry.late_fault() == Some(
                "queue enqueue timestamp must be positive"@,
            )
            &&& entry.enqueued_at_millis > 0 && !runs ==> entry.late_fault()
                == entry.run->0.fault()
            &&& entry.enqueued_at_millis > 0 && runs && late ==> entry.late_fault() == Some(
                "queue cancellation timestamp predates enqueue timestamp"@,
            )
            &&& entry.enqueued_at_millis > 0 && runs && !late && entry.slot_reservation is None
                && entry.preacceptance_abandonment_proof is None && entry.kind
                == QueueEntryKind::Batch && entry.state.owned_by() != Some(entry.enqueue_owner)
                ==> entry.late_fault() == Some("batch queue ownership is not replaceable"@)
            &&& hex_fault(entry.project_id@, "queue project ID"@) is Some ==> entry.fault()
                == hex_fault(entry.project_id@, "queue project ID"@)
        }),
{
}

/// What is told of a queue, entry by entry: the entry itself, its place, its
/// time, and then what it shares with an earlier one.
pub proof fn unfit_queues_are_told(entries: Seq<QueueEntry>, next_id: QueueId, at: int, before: int)
    requires
        0 <= before,
        before + 1 == at,
        at < entries.len(),
    ensures
        ({
            let entry = entries[at];
            let fault = queue_fault_at(entries, next_id, at);
            let placed = entries[before].queue_id.value < entry.queue_id.value && entry.queue_id.value
                < next_id.value;
            let timely = entries[before].enqueued_at_millis <= entry.enqueued_at_millis;
            let again = exists|j: int| 0 <= j < at && (#[trigger] entries[j]).job_id == entry.job_id;
            let clash = exists|j: int|
                0 <= j < at && #[trigger] caps_conflict(&entries[j], &entry);
            let shared = exists|j: int|
                0 <= j < at && #[trigger] share_worker(&entries[j], &entry);
            &&& entry.fault() is Some ==> fault == entry.fault()
            &&& entry.fault() is None && !placed ==> fault == Some(
                "queue IDs are not strictly increasing below next ID"@,
            )
            &&& entry.fault() is None && placed && !timely ==> fault == Some(
                "queue timestamps are not monotonic"@,
            )
            &&& entry.fault() is None && placed && timely && again ==> fault == Some(
                "queue contains a duplicate job ID"@,
            )
            &&& entry.fault() is None && placed && timely && !again && clash ==> fault == Some(
                "queue contains conflicting maximum parallelism for one run ID"@,
            )
            &&& entry.fault() is None && placed && timely && !again && !clash && shared ==> fault
                == Some("queue contains duplicate dispatch worker reservations"@)
        }),
{
}

} // verus!
