use mac_worker::error::WorkerError;
use mac_worker::job::command::CommandSpec;
use mac_worker::job::ids::{ClientId, JobId, LeaseToken};
use mac_worker::job::queue::{QueueEntry, QueueEntryKind, QueueId, RunnerSlotReservation};
use mac_worker::job::record::LeaseRecord;
use mac_worker::job::request::RequestFingerprintMaterial;
use mac_worker::job::status::{JobState, JobStatus, ProcessIdentity};
use mac_worker::job_service::evidence::{validate_terminal_log_lengths, LogEvidence};
use mac_worker::job_service::identity::terminal_turn_recovery;
use mac_worker::lease::{occupancy_from_leases, ExecutionScope, LeaseService};
use mac_worker::lease::{CapacityFile, SlotContent, SlotDirectory};
use mac_worker::scheduler::WorkerPreference;
use mac_worker::task::{TerminalPath, TurnTerminal};

const STATES: [JobState; 9] = [
    JobState::Uploading,
    JobState::Verified,
    JobState::Accepted,
    JobState::Running,
    JobState::Succeeded,
    JobState::Failed,
    JobState::Cancelled,
    JobState::TimedOut,
    JobState::Lost,
];

fn process(pid: u32) -> ProcessIdentity {
    ProcessIdentity::new(pid, pid as u64 * 10).unwrap()
}

fn refusal<T>(result: Result<T, WorkerError>) -> String {
    match result {
        Err(WorkerError::Protocol(text)) => text,
        Err(other) => panic!("{other:?}"),
        Ok(_) => panic!("the value was expected to be refused"),
    }
}

#[test]
fn states_follow_each_other_as_listed() {
    let mut allowed = Vec::new();
    for (from, before) in STATES.iter().enumerate() {
        for (to, after) in STATES.iter().enumerate() {
            if before.can_transition_to(*after) {
                allowed.push((from, to));
            }
        }
    }
    let expected = vec![
        (0, 1),
        (0, 8),
        (1, 2),
        (1, 8),
        (2, 3),
        (2, 5),
        (2, 6),
        (2, 8),
        (3, 4),
        (3, 5),
        (3, 6),
        (3, 7),
        (3, 8),
    ];
    assert_eq!(allowed, expected);
}

#[test]
fn a_status_follows_another_only_as_a_whole() {
    let accepted = JobStatus::accepted(5).unwrap();
    let supervised = accepted.with_supervisor(process(7), 6).unwrap();
    let both = supervised.with_child(process(8), 7).unwrap();
    assert!(accepted.transition(supervised.clone()).is_ok());
    assert!(supervised.transition(both.clone()).is_ok());
    assert_eq!(
        refusal(supervised.transition(accepted.clone())),
        "job status timestamp moved backwards"
    );
    let mut late = accepted.clone();
    late.updated_at_millis = 9;
    assert_eq!(
        refusal(accepted.transition(late)),
        "accepted identity enrichment must add exactly one process identity"
    );
    let running = both.into_running(8).unwrap();
    assert!(both.transition(running.clone()).is_ok());
    let done = running.into_succeeded(9, 1, 2).unwrap();
    assert!(running.transition(done.clone()).is_ok());
    assert_eq!(
        refusal(done.transition(done.clone())),
        "terminal status permits only one cleanup-error enrichment"
    );
    let noted = done.with_cleanup_error("LEASE_RELEASE_FAILED".into(), 10).unwrap();
    assert!(done.transition(noted).is_ok());
    let foreign = JobStatus::running(8, 17, 170, 8, 80).unwrap();
    assert!(both.transition(foreign).is_err());
}

#[test]
fn a_job_without_a_child_is_cancelled_before_its_launch() {
    let accepted = JobStatus::accepted(5).unwrap();
    let cancelled = accepted.into_prelaunch_cancelled(6, 0, 0).unwrap();
    assert_eq!(cancelled.state(), JobState::Cancelled);
    assert_eq!(cancelled.error_code(), Some("CANCELLED_PRELAUNCH"));
    assert_eq!(
        refusal(JobStatus::running(3, 7, 70, 8, 80).unwrap().into_prelaunch_cancelled(6, 0, 0)),
        "prelaunch cancellation requires accepted status without a child identity"
    );
}

#[test]
fn every_ending_of_a_turn_has_its_path() {
    let running = JobStatus::running(3, 7, 70, 8, 80).unwrap();
    assert!(matches!(
        terminal_turn_recovery(&running.into_failed_exit(4, 9, 0, 0).unwrap()),
        Ok((TurnTerminal::Failed, TerminalPath::ChildExit { code: 9 }, Some(9)))
    ));
    assert!(matches!(
        terminal_turn_recovery(&running.into_failed_signal(4, 15, 0, 0).unwrap()),
        Ok((TurnTerminal::Cancelled, TerminalPath::ChildExit { code: -15 }, None))
    ));
    let lost = running
        .into_infrastructure_terminal(JobState::Lost, 4, 0, 0, "SUPERVISOR_LOST".into())
        .unwrap();
    assert!(matches!(
        terminal_turn_recovery(&lost),
        Ok((TurnTerminal::Lost, TerminalPath::LostReconciliation, None))
    ));
    assert!(refusal(terminal_turn_recovery(&running))
        .ends_with("turn publication recovery requires a terminal job status"));
}

#[test]
fn logs_of_an_ended_job_keep_their_lengths() {
    let done = JobStatus::running(3, 7, 70, 8, 80).unwrap().into_succeeded(4, 1, 2).unwrap();
    let length = |bytes| LogEvidence::Length { bytes };
    assert!(validate_terminal_log_lengths(&done, length(1), length(2)).is_ok());
    assert!(refusal(validate_terminal_log_lengths(&done, length(1), length(1)))
        .ends_with("terminal log length does not match durable status"));
    assert!(refusal(validate_terminal_log_lengths(&done, LogEvidence::Unbound, length(2)))
        .ends_with("terminal log binding is invalid"));
    assert!(refusal(validate_terminal_log_lengths(&done, length(1), LogEvidence::Unsafe))
        .ends_with("terminal log is absent or unsafe"));
}

#[test]
fn a_spawn_permit_is_recorded_and_cleared() {
    let mut entry = QueueEntry::new(
        JobId::new(1),
        ClientId::new(2),
        "a".repeat(64),
        "b".repeat(64),
        CommandSpec::shell("true".into()).unwrap().summary().unwrap(),
        Vec::new(),
        WorkerPreference::Automatic,
        QueueEntryKind::TaskTurn,
        None,
        process(5),
        100,
    )
    .unwrap();
    entry.assign_queue_id(QueueId::new(1).unwrap());
    let permit = RunnerSlotReservation::new(process(5), 77).unwrap();
    assert!(entry.set_slot_reservation(Some(permit)).is_ok());
    assert_eq!(entry.slot_reservation(), Some(permit));
    assert!(entry.set_slot_reservation(None).is_ok());
    assert_eq!(entry.slot_reservation(), None);
}

fn lease(seed: u128) -> LeaseRecord {
    let material = RequestFingerprintMaterial::new(
        JobId::new(seed),
        ClientId::new(2),
        LeaseToken::new(3),
        2,
        "mini-1".into(),
        "a".repeat(64),
        "b".repeat(64),
        "c".repeat(64),
        String::new(),
        60_000,
        "heavy".into(),
        CommandSpec::shell("true".into()).unwrap(),
    )
    .unwrap();
    let fingerprint = material.fingerprint();
    match LeaseRecord::new(&material, fingerprint, 1, 60_001) {
        Ok(lease) => lease,
        Err(error) => panic!("{error:?}"),
    }
}

fn occupied(slot_id: u8, seed: u128) -> SlotDirectory {
    SlotDirectory {
        name: Some(slot_id.to_string()),
        content: SlotContent::Live { lease: lease(seed), execution_scope: ExecutionScope::Job },
    }
}

#[test]
fn the_one_lease_of_a_host_is_loaded() {
    let capacity = || CapacityFile::Recorded { slot_count: 2 };
    let one = LeaseService::new(capacity(), vec![occupied(1, 4)]);
    assert!(matches!(one.load(), Ok(Some(held)) if held.job_id() == JobId::new(4)));
    assert!(matches!(one.load_all(), Ok(all) if all.len() == 1 && all[0].0 == 1));
    assert!(matches!(
        one.occupied_slot_for_job(JobId::new(4)),
        Ok(Some(slot)) if slot.slot_id == 1
    ));
    let none = LeaseService::new(capacity(), Vec::new());
    assert!(matches!(none.load(), Ok(None)));
    let two = LeaseService::new(capacity(), vec![occupied(0, 4), occupied(1, 5)]);
    assert_eq!(
        refusal(two.load()),
        "MULTIPLE_LIVE_LEASES: host has more than one live lease; use load_for_job"
    );
    let held = vec![(0, lease(4)), (1, lease(5))];
    assert!(occupancy_from_leases(2, &held).is_ok());
}
