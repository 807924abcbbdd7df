use mac_worker::error::WorkerError;
use mac_worker::job::status::JobStatus;
use mac_worker::job_service::files::{
    materialize_control_files, materialize_turn_control_files, read_canonical_json,
    read_mutable_canonical_json, EntryContent, JobJson, MutableRead, NewEntry, ReadAttempt,
    MUTABLE_READ_ATTEMPTS,
};
use mac_worker::job_service::query::{after_clearing_note, note_is_cleared};

fn parsed(bytes: &[u8], rewritten: &[u8]) -> JobJson<u8> {
    JobJson::Parsed { value: 7, bytes: bytes.to_vec(), rewritten: rewritten.to_vec() }
}

fn refusal<T>(result: Result<T, WorkerError>) -> String {
    match result {
        Err(WorkerError::Protocol(text)) => text,
        Err(other) => panic!("{other:?}"),
        Ok(_) => panic!("the file was expected to be refused"),
    }
}

fn names(entries: &[NewEntry]) -> Vec<&'static str> {
    entries.iter().map(|entry| entry.name).collect()
}

#[test]
fn only_canonical_files_are_read() {
    assert_eq!(read_canonical_json(parsed(b"7", b"7")).unwrap(), 7);
    assert_eq!(
        refusal(read_canonical_json(parsed(b"7 ", b"7"))),
        "canonical job JSON has a non-canonical encoding"
    );
    assert_eq!(
        refusal(read_canonical_json(JobJson::<u8>::Invalid)),
        "canonical job JSON is invalid"
    );
    assert_eq!(
        refusal(read_canonical_json(JobJson::<u8>::Trailing)),
        "canonical job JSON has trailing data"
    );
    assert_eq!(
        refusal(read_canonical_json(JobJson::<u8>::Unwritable)),
        "host JSON serialization failed"
    );
}

#[test]
fn a_replaced_file_is_read_again_a_few_times() {
    let stale = |number| read_mutable_canonical_json::<u8>(number, ReadAttempt::Stale);
    assert!(matches!(stale(0), MutableRead::Again));
    assert!(matches!(stale(MUTABLE_READ_ATTEMPTS - 2), MutableRead::Again));
    assert!(matches!(
        stale(MUTABLE_READ_ATTEMPTS - 1),
        MutableRead::Done { result: Err(WorkerError::Io) }
    ));
    let file = parsed(b"7", b"7");
    assert!(matches!(
        read_mutable_canonical_json(3, ReadAttempt::Read { file }),
        MutableRead::Done { result: Ok(7) }
    ));
    let error = WorkerError::Protocol("gone".into());
    assert!(matches!(
        read_mutable_canonical_json::<u8>(0, ReadAttempt::Failed { error }),
        MutableRead::Done { result: Err(WorkerError::Protocol(text)) } if text == "gone"
    ));
}

#[test]
fn a_new_job_is_given_its_files_in_order() {
    let entries = materialize_control_files();
    assert_eq!(
        names(&entries),
        [
            "home",
            "tmp",
            "stdout.log",
            "stderr.log",
            "supervisor.log",
            "meta.json",
            "status.json",
            "execution.json"
        ]
    );
    assert_eq!(entries[0].content, EntryContent::Directory);
    assert_eq!(entries[7].content, EntryContent::Payload);
    let turn = materialize_turn_control_files();
    assert_eq!(turn.len(), 10);
    assert_eq!(turn[5].name, "prompt.md");
    assert_eq!(turn[5].content, EntryContent::Prompt);
    assert!(!names(&turn).contains(&"home"));
}

#[test]
fn a_stale_cleanup_note_is_taken_off() {
    let clean = JobStatus::accepted(2).unwrap();
    assert!(!note_is_cleared(&clean, &clean));
    let mut noted = clean.clone();
    noted.cleanup_error_code = Some("LEASE_RELEASE_FAILED".into());
    assert!(note_is_cleared(&noted, &noted));
    assert!(!note_is_cleared(&clean, &noted));
    assert!(after_clearing_note(Ok(())).is_ok());
    assert!(after_clearing_note(Err(WorkerError::Protocol("STATUS_CHANGED: x".into()))).is_ok());
    assert!(matches!(after_clearing_note(Err(WorkerError::Io)), Err(WorkerError::Io)));
}
