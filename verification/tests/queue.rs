use mac_worker::config::WorkerEntry;
use mac_worker::error::WorkerError;
use mac_worker::job::command::CommandSpec;
use mac_worker::job::ids::{ClientId, JobId, LeaseToken, RunId};
use mac_worker::job::observation::{AdmissionObservation, CachedAdmissionObservation};
use mac_worker::job::queue::{
    QueueAbandonmentProof, QueueEntry, QueueEntryKind, QueueId, QueueRunReference, QueueSnapshot,
    QueueState, RunnerSlotReservation,
};
use mac_worker::job::request::{
    RequestFingerprintMaterial, ResolveOrAbandonRequest, SubmitRequest,
};
use mac_worker::job::status::ProcessIdentity;
use mac_worker::scheduler::{CandidateSlot, WorkerPreference};

fn process(pid: u32) -> ProcessIdentity {
    ProcessIdentity::new(pid, 1_000).unwrap()
}

fn entry(seed: u128, kind: QueueEntryKind) -> QueueEntry {
    let mut entry = QueueEntry::new(
        JobId::new(seed),
        ClientId::new(2),
        "a".repeat(64),
        "b".repeat(64),
        CommandSpec::shell("true".into()).unwrap().summary().unwrap(),
        vec!["xcode".into()],
        WorkerPreference::Automatic,
        kind,
        None,
        process(5),
        100,
    )
    .unwrap();
    entry.assign_queue_id(QueueId::new(seed as u64).unwrap());
    entry
}

fn refusal<T>(result: Result<T, WorkerError>) -> String {
    match result {
        Err(WorkerError::Protocol(text)) => text,
        Err(other) => panic!("{other:?}"),
        Ok(_) => panic!("the value was expected to be refused"),
    }
}

#[test]
fn queue_ids_count_up() {
    assert_eq!(refusal(QueueId::new(0)), "queue ID must be positive");
    assert_eq!(QueueId::new(1).unwrap().checked_next().unwrap().value(), 2);
    assert_eq!(
        refusal(QueueId::new(u64::MAX).unwrap().checked_next()),
        "queue sequence is exhausted"
    );
    assert!(QueueId::new(1).unwrap() < QueueId::new(2).unwrap());
}

#[test]
fn a_reverted_dispatch_waits_again() {
    let mut waiting = entry(1, QueueEntryKind::TaskTurn);
    waiting.dispatch(process(6), "mini-1".into(), 150).unwrap();
    assert!(matches!(
        waiting.state(),
        QueueState::Dispatching { selected_worker, .. } if selected_worker == "mini-1"
    ));
    assert_eq!(refusal(waiting.revert(process(7))), "queue dispatch owner does not match");
    waiting.revert(process(6)).unwrap();
    assert_eq!(waiting, entry_waiting_for(6));
}

fn entry_waiting_for(pid: u32) -> QueueEntry {
    let mut waiting = entry(1, QueueEntryKind::TaskTurn);
    waiting.state = QueueState::Waiting { owner: process(pid) };
    waiting
}

#[test]
fn only_task_turns_are_parked_and_adopted() {
    let mut batch = entry(1, QueueEntryKind::Batch);
    assert_eq!(refusal(batch.park()), "only a task turn can be parked");
    assert_eq!(refusal(batch.adopt(process(9))), "only a task turn can be adopted");
    let mut turn = entry(1, QueueEntryKind::TaskTurn);
    turn.park().unwrap();
    assert_eq!(turn.owner_opt(), None);
    assert_eq!(refusal(turn.adopt(process(9))), "a parked task turn must be unparked first");
    turn.unpark(process(9)).unwrap();
    assert_eq!(turn.owner_opt(), Some(&process(9)));
    turn.adopt(process(10)).unwrap();
    assert_eq!(turn.owner_opt(), Some(&process(10)));
    assert_eq!(
        refusal(turn.unpark(process(9))),
        "only a parked task turn can be unparked"
    );
}

#[test]
fn cancellations_keep_their_first_time_order() {
    let mut waiting = entry(1, QueueEntryKind::TaskTurn);
    assert!(!waiting.is_cancel_requested());
    assert!(waiting.request_cancel(99).is_err());
    waiting.request_cancel(120).unwrap();
    assert!(waiting.is_cancel_requested());
    assert_eq!(
        refusal(waiting.request_cancel(110)),
        "queue cancellation timestamp moved backwards"
    );
}

#[test]
fn a_worker_must_meet_an_entrys_requirements() {
    let mut waiting = entry(1, QueueEntryKind::TaskTurn);
    let able = vec!["darwin-arm64".to_string(), "xcode".to_string()];
    assert!(waiting.eligible_for("mini-1", Some(&able)));
    assert!(!waiting.eligible_for("mini-1", Some(&Vec::new())));
    waiting.preference = WorkerPreference::Pinned { worker: "mini-2".into() };
    assert!(!waiting.eligible_for("mini-1", Some(&able)));
    assert!(waiting.eligible_for("mini-2", Some(&able)));
}

#[test]
fn snapshots_are_ordered_and_unique() {
    let mut snapshot = QueueSnapshot::empty();
    assert!(snapshot.validate().is_ok());
    snapshot.next_id = QueueId::new(3).unwrap();
    snapshot.entries = vec![
        entry(1, QueueEntryKind::TaskTurn),
        entry(2, QueueEntryKind::TaskTurn),
    ];
    assert!(snapshot.validate().is_ok());
    snapshot.next_id = QueueId::new(2).unwrap();
    assert_eq!(
        refusal(snapshot.validate()),
        "queue IDs are not strictly increasing below next ID"
    );
    snapshot.next_id = QueueId::new(3).unwrap();
    snapshot.entries[1].job_id = JobId::new(1);
    assert_eq!(refusal(snapshot.validate()), "queue contains a duplicate job ID");
    snapshot.entries[1].job_id = JobId::new(2);
    snapshot.entries[1].enqueued_at_millis = 99;
    assert_eq!(refusal(snapshot.validate()), "queue timestamps are not monotonic");
    snapshot.entries[1].coalesce_enqueued_at(100);
    assert_eq!(snapshot.entries[1].enqueued_at_millis(), 100);
    assert!(snapshot.validate().is_ok());
}

#[test]
fn one_run_has_one_parallelism() {
    let run = |parallel| QueueRunReference::new(RunId::new("r1".into()).unwrap(), parallel);
    assert_eq!(refusal(run(0)), "run maximum parallelism must be positive");
    let mut snapshot = QueueSnapshot::empty();
    snapshot.next_id = QueueId::new(3).unwrap();
    snapshot.entries = vec![
        entry(1, QueueEntryKind::TaskTurn),
        entry(2, QueueEntryKind::TaskTurn),
    ];
    snapshot.entries[0].run = Some(run(2).unwrap());
    snapshot.entries[1].run = Some(run(3).unwrap());
    assert_eq!(
        refusal(snapshot.validate()),
        "queue contains conflicting maximum parallelism for one run ID"
    );
    snapshot.entries[1].run = Some(run(2).unwrap());
    assert!(snapshot.validate().is_ok());
}

#[test]
fn reservations_need_a_token_of_their_own() {
    assert_eq!(
        refusal(RunnerSlotReservation::new(process(5), 0)),
        "runner slot token must be unique and non-nil"
    );
    let reservation = RunnerSlotReservation::new(process(5), 9).unwrap();
    let with_child = reservation.with_child(process(6)).unwrap();
    assert_eq!(with_child.child(), Some(process(6)));
    assert_eq!(with_child.token(), 9);
}

#[test]
fn abandonment_is_proved_by_the_dispatching_owner() {
    let material = RequestFingerprintMaterial::new(
        JobId::new(1),
        ClientId::new(2),
        LeaseToken::new(3),
        2,
        "mini-1".into(),
        "a".repeat(64),
        "b".repeat(64),
        "c".repeat(64),
        String::new(),
        60_000,
        "heavy".into(),
        CommandSpec::shell("true".into()).unwrap(),
    )
    .unwrap();
    let resolution =
        match ResolveOrAbandonRequest::from_submit_request(&SubmitRequest::new(material)) {
            Ok(resolution) => resolution,
            Err(error) => panic!("{error:?}"),
        };
    let mut turn = entry(1, QueueEntryKind::TaskTurn);
    assert_eq!(
        refusal(QueueAbandonmentProof::from_resolution(&turn, &resolution, process(6))),
        "pre-acceptance abandonment proof requires a dispatch reservation"
    );
    turn.dispatch(process(6), "mini-1".into(), 150).unwrap();
    assert_eq!(
        refusal(QueueAbandonmentProof::from_resolution(&turn, &resolution, process(7))),
        "queue dispatch owner does not match"
    );
    let proof =
        QueueAbandonmentProof::from_resolution(&turn, &resolution, process(6)).unwrap();
    assert_eq!(proof.selected_worker(), "mini-1");
    assert!(turn.record_preacceptance_abandoned(proof.clone()).unwrap());
    assert!(!turn.record_preacceptance_abandoned(proof).unwrap());
    assert_eq!(
        refusal(turn.revert(process(6))),
        "a proven abandoned queue row cannot be reverted"
    );
}

#[test]
fn observations_are_bound_to_one_worker() {
    let plain = AdmissionObservation::new(
        "mini-1".into(),
        true,
        CandidateSlot::Idle,
        vec!["xcode".into()],
        None,
        10,
        1_000,
    )
    .unwrap();
    assert!(!plain.binding_complete());
    let bound = plain.with_local_binding(
        "me@mini".into(),
        "~/.local/bin/worker".into(),
        vec!["xcode".into()],
        1,
        Some(5),
        900,
    );
    assert!(bound.binding_complete());
    let mut worker = WorkerEntry {
        name: "mini-1".into(),
        ssh: "me@mini".into(),
        slots: 1,
        capabilities: vec!["xcode".into()],
        remote_binary: "~/.local/bin/worker".into(),
    };
    assert!(bound.matches_worker(&worker));
    worker.slots = 2;
    assert!(!bound.matches_worker(&worker));
    let cached = CachedAdmissionObservation::new(bound, 1_500).unwrap();
    assert_eq!(cached.age_millis(), 500);
    let again = AdmissionObservation::new(
        "mini-1".into(),
        true,
        CandidateSlot::Busy,
        Vec::new(),
        None,
        10,
        1_000,
    )
    .unwrap();
    assert_eq!(
        refusal(CachedAdmissionObservation::new(again, 999)),
        "admission observation timestamp is in the future"
    );
}

#[test]
fn words_stand_for_kinds_and_slots() {
    for kind in [QueueEntryKind::Batch, QueueEntryKind::TaskTurn] {
        assert_eq!(QueueEntryKind::from_text(kind.name()).unwrap(), kind);
    }
    assert_eq!(QueueEntryKind::TaskTurn.name(), "task_turn");
    assert_eq!(
        refusal(QueueEntryKind::from_text("turn")),
        "queue entry kind is invalid"
    );
    for slot in [CandidateSlot::Idle, CandidateSlot::Busy] {
        assert_eq!(CandidateSlot::from_text(slot.name()).unwrap(), slot);
    }
    assert_eq!(CandidateSlot::Busy.name(), "busy");
    assert_eq!(
        refusal(CandidateSlot::from_text("full")),
        "admission observation slot is invalid"
    );
}

#[test]
fn only_complete_bindings_are_written() {
    let observed = || {
        AdmissionObservation::new(
            "mini-1".into(),
            true,
            CandidateSlot::Idle,
            vec!["xcode".into()],
            None,
            10,
            1_000,
        )
        .unwrap()
    };
    let mut partly = observed();
    partly.ssh = "me@mini".into();
    let written = partly.written().unwrap();
    assert_eq!(written.ssh, "");
    assert_eq!(written.worker_name, "mini-1");
    assert!(!written.binding_complete());
    let bound = observed().with_local_binding(
        "me@mini".into(),
        "~/.local/bin/worker".into(),
        vec!["xcode".into()],
        1,
        Some(5),
        900,
    );
    let written = bound.written().unwrap();
    assert!(written.binding_complete());
    assert_eq!(written.ssh, "me@mini");
    assert_eq!(written.facts_age_millis, Some(5));
}
