//! The queue: which entries and queues are accepted, and what moves an entry.
use vstd::prelude::*;
use crate::job::queue::{
    abandonment, caps_conflict, preference_fault, queue_faults, resolves_entry, share_worker,
    valid_queues_are_ordered, QueueAbandonmentProof, QueueEntry, QueueEntryKind, QueueId,
    QueueRunReference, QueueSnapshot, QueueState, RunnerSlotReservation,
};
use crate::job::request::ResolveOrAbandonRequest;
use crate::job::status::ProcessIdentity;
use crate::laws::names::{
    bounded_text, capability_lists_are_accepted, figure, hashed_names_are_accepted, made_of,
    names_capability, opaque_bytes, opaque_names_are_accepted, small_letter, worker_bytes,
    worker_names_are_accepted,
};
use crate::laws::records::{hashed, summarizes};
use crate::scheduler::WorkerPreference;
use crate::text::{texts, utf8};

verus! {

/// A process that can be found again: neither number is zero.
pub open spec fn traceable(process: ProcessIdentity) -> bool {
    process.pid > 0 && process.start_time_micros > 0
}

pub open spec fn names_worker(name: Seq<char>) -> bool {
    bounded_text(name, 128) && made_of(name, worker_bytes())
}

/// A spawn permit is accepted where its reserver can be found and its token is
/// not nil.
pub proof fn permits_are_accepted(permit: RunnerSlotReservation, process: ProcessIdentity)
    ensures
        permit.fault() is None <==> traceable(permit.reserver) && permit.token != 0,
        process.fault() is None <==> traceable(process),
{
}

/// A place in the queue is a positive number.
pub proof fn places_are_positive(id: QueueId)
    ensures
        id.fault() is None <==> id.value > 0,
{
}

/// The two kinds are written with these words.
pub proof fn kinds_have_their_words()
    ensures
        QueueEntryKind::Batch.spelling() == "batch"@,
        QueueEntryKind::TaskTurn.spelling() == "task_turn"@,
{
}

/// An entry's run is accepted where its name is an opaque one and something of it
/// may run.
pub proof fn runs_are_accepted(run: QueueRunReference)
    ensures
        run.fault() is None <==> {
            &&& bounded_text(run.run_id.text@, 128)
            &&& made_of(run.run_id.text@, opaque_bytes())
            &&& small_letter(utf8(run.run_id.text@)[0]) || figure(utf8(run.run_id.text@)[0])
            &&& run.max_parallel >= 1
        },
{
    opaque_names_are_accepted(run.run_id.text@, "run ID"@);
}

/// Who answers for an entry is said by its state: nobody while it is parked.
pub proof fn states_name_their_owner(state: QueueState, enqueued: u64)
    ensures
        state matches QueueState::Waiting { owner } ==> state.owned_by() == Some(owner),
        state matches QueueState::Dispatching { dispatch_owner, .. } ==> state.owned_by() == Some(
            dispatch_owner,
        ),
        state is Parked ==> state.owned_by() is None,
        state.fault(enqueued) is None <==> match state {
            QueueState::Waiting { owner } => traceable(owner),
            QueueState::Dispatching { dispatch_owner, selected_worker, claimed_at_millis } =>
                traceable(dispatch_owner) && names_worker(selected_worker@) && claimed_at_millis
                > 0 && claimed_at_millis >= enqueued,
            QueueState::Parked => true,
        },
{
    if let QueueState::Dispatching { selected_worker, .. } = state {
        worker_names_are_accepted(selected_worker@);
    }
}

/// A preference for a worker has to name one.
pub proof fn preferences_name_a_worker(preference: WorkerPreference)
    ensures
        preference_fault(&preference) is None <==> match preference {
            WorkerPreference::Automatic => true,
            WorkerPreference::Pinned { worker } => names_worker(worker@),
        },
{
    if let WorkerPreference::Pinned { worker } = preference {
        worker_names_are_accepted(worker@);
    }
}

/// A proof of abandonment speaks of a dispatched entry exactly where it repeats
/// the entry and its reservation; that of a batch has to be its owner's.
pub proof fn proofs_repeat_the_reservation(held: QueueAbandonmentProof, entry: QueueEntry)
    ensures
        held@.fault() is None <==> {
            &&& held.queue_id.value > 0
            &&& names_worker(held.selected_worker@)
            &&& hashed(held.project_id@)
            &&& hashed(held.worktree_id@)
            &&& summarizes(held.command_summary)
            &&& traceable(held.recorded_by)
            &&& held.claimed_at_millis > 0
        },
        held@.against_fault(&entry) is None <==> {
            &&& held@.fault() is None
            &&& entry.state matches QueueState::Dispatching {
                dispatch_owner,
                selected_worker,
                claimed_at_millis,
            } && held.selected_worker@ == selected_worker@ && held.claimed_at_millis
                == claimed_at_millis && (entry.kind == QueueEntryKind::Batch ==> held.recorded_by
                == dispatch_owner)
            &&& held.queue_id == entry.queue_id
            &&& held.job_id == entry.job_id
            &&& held.client_id == entry.client_id
            &&& held.project_id@ == entry.project_id@
            &&& held.worktree_id@ == entry.worktree_id@
            &&& held.command_summary == entry.command_summary
        },
{
    worker_names_are_accepted(held.selected_worker@);
    hashed_names_are_accepted(held.project_id@, "abandonment proof project ID"@);
    hashed_names_are_accepted(held.worktree_id@, "abandonment proof worktree ID"@);
}

/// A request settles an entry's reservation exactly where it names the same
/// work; and the proof that it leaves repeats the entry, the digest and who
/// recorded it.
pub proof fn resolutions_repeat_the_reservation(
    entry: QueueEntry,
    request: ResolveOrAbandonRequest,
    recorded_by: ProcessIdentity,
    owner: ProcessIdentity,
    worker: String,
    claimed: u64,
)
    requires
        entry.state == (QueueState::Dispatching {
            dispatch_owner: owner,
            selected_worker: worker,
            claimed_at_millis: claimed,
        }),
    ensures
        resolves_entry(request@, &entry) <==> {
            &&& request.job_id == entry.job_id
            &&& request.client_id == entry.client_id
            &&& request.worker_name@ == worker@
            &&& request.project_id@ == entry.project_id@
            &&& request.worktree_id@ == entry.worktree_id@
            &&& request.command_summary == entry.command_summary
        },
        ({
            let left = abandonment(&entry, request@, recorded_by);
            &&& left.queue_id == entry.queue_id
            &&& left.job_id == entry.job_id
            &&& left.client_id == entry.client_id
            &&& left.selected_worker == worker@
            &&& left.project_id == entry.project_id@
            &&& left.worktree_id == entry.worktree_id@
            &&& left.command_summary == entry.command_summary
            &&& left.request_fingerprint == request.request_fingerprint.text@
            &&& left.claimed_at_millis == claimed
            &&& left.recorded_by == recorded_by
        }),
{
}

/// An entry is accepted exactly where its parts are sound, its times do not go
/// back, and a batch is still its first owner's.
pub proof fn entries_are_accepted(entry: QueueEntry)
    ensures
        entry.fault() is None <==> {
            &&& hashed(entry.project_id@)
            &&& hashed(entry.worktree_id@)
            &&& summarizes(entry.command_summary)
            &&& entry.requirements@.len() <= 256
            &&& forall|i: int|
                0 <= i < entry.requirements@.len() ==> names_capability(
                    #[trigger] texts(entry.requirements@)[i],
                )
            &&& forall|i: int, j: int|
                0 <= i < j < entry.requirements@.len() ==> #[trigger] texts(entry.requirements@)[i]
                    != #[trigger] texts(entry.requirements@)[j]
            &&& entry.preference matches WorkerPreference::Pinned { worker } ==> names_worker(
                worker@,
            )
            &&& traceable(entry.enqueue_owner)
            &&& entry.state.fault(entry.enqueued_at_millis) is None
            &&& entry.enqueued_at_millis > 0
            &&& entry.run matches Some(run) ==> run.fault() is None
            &&& entry.cancel_requested_at_millis matches Some(at) ==> at
                >= entry.enqueued_at_millis
            &&& entry.slot_reservation matches Some(permit) ==> traceable(permit.reserver)
                && permit.token != 0
            &&& entry.preacceptance_abandonment_proof matches Some(held) ==> held@.against_fault(
                &entry,
            ) is None
            &&& entry.kind == QueueEntryKind::Batch ==> entry.state.owned_by() == Some(
                entry.enqueue_owner,
            )
        },
        entry.valid() <==> entry.fault() is None,
{
    hashed_names_are_accepted(entry.project_id@, "queue project ID"@);
    hashed_names_are_accepted(entry.worktree_id@, "queue worktree ID"@);
    capability_lists_are_accepted(texts(entry.requirements@));
    preferences_name_a_worker(entry.preference);
    assert(texts(entry.requirements@).len() == entry.requirements@.len());
}

/// What parking, adopting, dispatching and waiting change of an entry, and what
/// they leave.
pub proof fn moves_change_only_the_state(
    entry: QueueEntry,
    owner: ProcessIdentity,
    worker: String,
    claimed: u64,
    permit: Option<RunnerSlotReservation>,
)
    ensures
        entry.parked().state is Parked,
        entry.parked().slot_reservation is None,
        entry.waiting_for(owner).state == (QueueState::Waiting { owner }),
        entry.waiting_for(owner).slot_reservation == entry.slot_reservation,
        entry.dispatched(owner, worker, claimed).state == (QueueState::Dispatching {
            dispatch_owner: owner,
            selected_worker: worker,
            claimed_at_millis: claimed,
        }),
        entry.dispatched(owner, worker, claimed).slot_reservation == entry.slot_reservation,
        entry.reserved(permit).slot_reservation == permit,
        entry.reserved(permit).state == entry.state,
        entry.state is Waiting ==> entry.adopted(owner).state == (QueueState::Waiting { owner }),
        entry.state matches QueueState::Dispatching {
            selected_worker,
            claimed_at_millis,
            ..
        } ==> entry.adopted(owner).state == (QueueState::Dispatching {
            dispatch_owner: owner,
            selected_worker,
            claimed_at_millis,
        }),
        entry.state is Parked ==> entry.adopted(owner).state is Parked,
        same_work(entry, entry.parked()),
        same_work(entry, entry.waiting_for(owner)),
        same_work(entry, entry.dispatched(owner, worker, claimed)),
        same_work(entry, entry.reserved(permit)),
        same_work(entry, entry.adopted(owner)),
        entry.adopted(owner).slot_reservation == entry.slot_reservation,
{
}

/// Two entries are for the same work in the same place.
pub open spec fn same_work(left: QueueEntry, right: QueueEntry) -> bool {
    &&& left.queue_id == right.queue_id
    &&& left.job_id == right.job_id
    &&& left.client_id == right.client_id
    &&& left.project_id == right.project_id
    &&& left.worktree_id == right.worktree_id
    &&& left.command_summary == right.command_summary
    &&& left.requirements == right.requirements
    &&& left.preference == right.preference
    &&& left.kind == right.kind
    &&& left.run == right.run
    &&& left.enqueue_owner == right.enqueue_owner
    &&& left.preacceptance_abandonment_proof == right.preacceptance_abandonment_proof
    &&& left.cancel_requested_at_millis == right.cancel_requested_at_millis
    &&& left.enqueued_at_millis == right.enqueued_at_millis
}

/// A worker may take an entry exactly where it is the pinned one, if one is
/// pinned, and offers everything that is required, if anything is.
pub proof fn workers_take_what_they_can(
    entry: QueueEntry,
    worker: Seq<char>,
    offered: Seq<Seq<char>>,
)
    ensures
        entry.eligible(worker, Some(offered)) <==> {
            &&& entry.preference matches WorkerPreference::Pinned { worker: pinned } ==> pinned@
                == worker
            &&& forall|i: int|
                0 <= i < entry.requirements@.len() ==> offered.contains(
                    #[trigger] texts(entry.requirements@)[i],
                )
        },
        entry.eligible(worker, None) <==> {
            &&& entry.preference matches WorkerPreference::Pinned { worker: pinned } ==> pinned@
                == worker
            &&& entry.requirements@.len() == 0
        },
{
}

/// Two entries conflict where they are of one run with different parallelism, or
/// where both reserve one worker.
pub proof fn conflicts_are_told(left: QueueEntry, right: QueueEntry)
    ensures
        caps_conflict(&left, &right) <==> (left.run matches Some(a) && (right.run matches Some(b)
            && a.run_id.text@ == b.run_id.text@ && a.max_parallel != b.max_parallel)),
        share_worker(&left, &right) <==> (left.state matches QueueState::Dispatching {
            selected_worker: a,
            ..
        } && (right.state matches QueueState::Dispatching { selected_worker: b, .. } && a@ == b@)),
{
}

/// Every entry is accepted, in a place of its own below the next one.
pub open spec fn placed_well(entries: Seq<QueueEntry>, next: u64) -> bool {
    forall|i: int|
        0 <= i < entries.len() ==> (#[trigger] entries[i]).fault() is None
            && entries[i].queue_id.value > 0 && entries[i].queue_id.value < next
}

/// Two entries may stand in one queue, the first of them before the second.
pub open spec fn stand_together(earlier: QueueEntry, later: QueueEntry) -> bool {
    &&& earlier.queue_id.value < later.queue_id.value
    &&& earlier.enqueued_at_millis <= later.enqueued_at_millis
    &&& earlier.job_id != later.job_id
    &&& !(earlier.run matches Some(a) && (later.run matches Some(b) && a.run_id.text@
        == b.run_id.text@ && a.max_parallel != b.max_parallel))
    &&& !(earlier.state matches QueueState::Dispatching { selected_worker: a, .. } && (
    later.state matches QueueState::Dispatching { selected_worker: b, .. } && a@ == b@))
}

proof fn orderly_entries_have_no_fault(snapshot: QueueSnapshot, from: int)
    requires
        0 <= from <= snapshot.entries@.len(),
        placed_well(snapshot.entries@, snapshot.next_id.value),
        forall|i: int, j: int|
            0 <= i < j < snapshot.entries@.len() ==> stand_together(
                #[trigger] snapshot.entries@[i],
                #[trigger] snapshot.entries@[j],
            ),
    ensures
        queue_faults(snapshot.entries@, snapshot.next_id, from) is None,
    decreases snapshot.entries@.len() - from,
{
    let entries = snapshot.entries@;
    if from < entries.len() {
        orderly_entries_have_no_fault(snapshot, from + 1);
        let entry = entries[from];
        if from > 0 {
            assert(stand_together(entries[from - 1], entry));
        }
        assert forall|j: int| 0 <= j < from implies (#[trigger] entries[j]).job_id != entry.job_id by {
            assert(stand_together(entries[j], entries[from]));
        }
        assert forall|j: int| 0 <= j < from implies !(#[trigger] caps_conflict(
            &entries[j],
            &entry,
        )) by {
            assert(stand_together(entries[j], entries[from]));
        }
        assert forall|j: int| 0 <= j < from implies !(#[trigger] share_worker(&entries[j], &entry)) by {
            assert(stand_together(entries[j], entries[from]));
        }
    }
}

proof fn accepted_queues_have_accepted_entries(
    entries: Seq<QueueEntry>,
    next: QueueId,
    from: int,
    at: int,
)
    requires
        0 <= from <= at < entries.len(),
        queue_faults(entries, next, from) is None,
    ensures
        entries[at].fault() is None,
        entries[at].queue_id.value > 0,
        entries[at].queue_id.value < next.value,
    decreases at - from,
{
    if from < at {
        accepted_queues_have_accepted_entries(entries, next, from + 1, at);
    }
}

/// A queue is accepted exactly where every entry is, the places are positive,
/// grow and stay below the next one, the times do not go back, and no two entries
/// share a job or a reserved worker or disagree on their run's parallelism.
pub proof fn queues_are_accepted(snapshot: QueueSnapshot)
    ensures
        snapshot.fault() is None <==> {
            &&& placed_well(snapshot.entries@, snapshot.next_id.value)
            &&& forall|i: int, j: int|
                0 <= i < j < snapshot.entries@.len() ==> stand_together(
                    #[trigger] snapshot.entries@[i],
                    #[trigger] snapshot.entries@[j],
                )
        },
{
    let entries = snapshot.entries@;
    if snapshot.fault() is None {
        assert forall|i: int| 0 <= i < entries.len() implies (#[trigger] entries[i]).fault() is None
            && entries[i].queue_id.value > 0 && entries[i].queue_id.value
            < snapshot.next_id.value by {
            accepted_queues_have_accepted_entries(entries, snapshot.next_id, 0, i);
        }
        assert forall|i: int, j: int| 0 <= i < j < entries.len() implies stand_together(
            #[trigger] entries[i],
            #[trigger] entries[j],
        ) by {
            valid_queues_are_ordered(snapshot, i, j);
        }
    }
    if placed_well(entries, snapshot.next_id.value) && (forall|i: int, j: int|
        0 <= i < j < entries.len() ==> stand_together(
            #[trigger] entries[i],
            #[trigger] entries[j],
        )) {
        orderly_entries_have_no_fault(snapshot, 0);
    }
}

} // verus!
