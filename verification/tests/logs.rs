use mac_worker::error::WorkerError;
use mac_worker::job::command::CommandSpec;
use mac_worker::job::control::StatusResponse;
use mac_worker::job::ids::{ClientId, JobId, LeaseToken};
use mac_worker::job::logs::{
    LogChunk, LogChunkRequest, LogChunkResponse, LogCursor, LogStream, StatusLogsRequest,
    StatusLogsResponse, TerminalLogDrain,
};
use mac_worker::job::record::JobMeta;
use mac_worker::job::request::RequestFingerprintMaterial;
use mac_worker::job::status::JobStatus;

fn status(ended: bool, stdout: u64, stderr: u64) -> StatusResponse {
    let material = RequestFingerprintMaterial::new(
        JobId::new(1),
        ClientId::new(2),
        LeaseToken::new(3),
        2,
        "mini-1".into(),
        "a".repeat(64),
        "b".repeat(64),
        "c".repeat(64),
        String::new(),
        60_000,
        "heavy".into(),
        CommandSpec::shell("true".into()).unwrap(),
    )
    .unwrap();
    let meta = JobMeta::new(&material, material.fingerprint()).unwrap();
    let running = JobStatus::running(3, 7, 70, 8, 80).unwrap();
    let shown = if ended { running.into_succeeded(4, stdout, stderr).unwrap() } else { running };
    StatusResponse::new(meta, shown).unwrap()
}

fn refusal<T>(result: Result<T, WorkerError>) -> String {
    match result {
        Err(WorkerError::Protocol(text)) => text,
        Err(other) => panic!("{other:?}"),
        Ok(_) => panic!("the value was expected to be refused"),
    }
}

#[test]
fn chunks_carry_their_bytes_as_base64() {
    let chunk = LogChunk::new(LogStream::Stdout, 10, b"hello".to_vec()).unwrap();
    assert_eq!(chunk.data(), "aGVsbG8=");
    assert_eq!(chunk.next_offset(), 15);
    assert_eq!(chunk.decoded_bytes().unwrap(), b"hello".to_vec());
    assert!(chunk.validate().is_ok());
    let mut moved = LogChunk::new(LogStream::Stdout, 10, b"hello".to_vec()).unwrap();
    moved.next_offset = 16;
    assert_eq!(refusal(moved.validate()), "log chunk offsets do not match decoded bytes");
    moved.data = "not base64!".into();
    assert_eq!(refusal(moved.decoded_bytes()), "log chunk data is not base64");
}

#[test]
fn chunks_have_a_greatest_length() {
    assert!(LogChunk::new(LogStream::Stderr, 0, vec![b'x'; 64 * 1024]).is_ok());
    assert_eq!(
        refusal(LogChunk::new(LogStream::Stderr, 0, vec![b'x'; 64 * 1024 + 1])),
        "log chunk exceeds its byte limit"
    );
    assert_eq!(
        refusal(LogChunk::new(LogStream::Stderr, u64::MAX, vec![b'x'])),
        "log offset overflow"
    );
    let mut request = LogChunkRequest::new(JobId::new(1), LogStream::Stdout, 0, 1);
    assert!(request.validate().is_ok());
    request.protocol_version += 1;
    assert_eq!(
        refusal(request.validate()),
        "log chunk request has an incompatible protocol version"
    );
}

#[test]
fn a_cursor_takes_chunks_without_gaps() {
    let mut cursor = LogCursor::new(LogStream::Stdout, 0, 100).unwrap();
    let first = LogChunk::new(LogStream::Stdout, 0, b"abc".to_vec()).unwrap();
    cursor.observe_chunk(&first).unwrap();
    assert_eq!(cursor.next_offset(), 3);
    assert_eq!(refusal(cursor.observe_chunk(&first)), "log chunk offset does not match cursor");
    let other = LogChunk::new(LogStream::Stderr, 3, b"abc".to_vec()).unwrap();
    assert_eq!(refusal(cursor.observe_chunk(&other)), "log chunk stream does not match cursor");
    assert_eq!(cursor.request(JobId::new(9)).offset(), 3);
    cursor.set_terminal_target(4).unwrap();
    let long = LogChunk::new(LogStream::Stdout, 3, b"de".to_vec()).unwrap();
    assert_eq!(refusal(cursor.observe_chunk(&long)), "log chunk crosses terminal byte length");
    assert_eq!(refusal(cursor.set_terminal_target(5)), "terminal log byte length changed");
    let last = LogChunk::new(LogStream::Stdout, 3, b"d".to_vec()).unwrap();
    cursor.observe_chunk(&last).unwrap();
    assert!(!cursor.is_drained());
    let empty = LogChunk::new(LogStream::Stdout, 4, Vec::new()).unwrap();
    cursor.observe_chunk(&empty).unwrap();
    assert!(cursor.is_drained());
}

#[test]
fn a_drain_is_complete_once_both_logs_and_the_status_are() {
    let cursor = |stream| LogCursor::new(stream, 0, 100).unwrap();
    let mut drain =
        TerminalLogDrain::new(cursor(LogStream::Stdout), cursor(LogStream::Stderr)).unwrap();
    assert_eq!(
        refusal(drain.set_terminal_status(&status(false, 0, 0))),
        "log drain status is not terminal"
    );
    drain.set_terminal_status(&status(true, 2, 0)).unwrap();
    assert_eq!(
        refusal(drain.revalidate_terminal_status(&status(true, 2, 0))),
        "terminal logs are not both confirmed at EOF"
    );
    let out = LogChunk::new(LogStream::Stdout, 0, b"ok".to_vec()).unwrap();
    drain.observe_chunk(&out).unwrap();
    drain.observe_chunk(&LogChunk::new(LogStream::Stdout, 2, Vec::new()).unwrap()).unwrap();
    drain.observe_chunk(&LogChunk::new(LogStream::Stderr, 0, Vec::new()).unwrap()).unwrap();
    assert!(!drain.is_complete());
    assert_eq!(
        refusal(drain.revalidate_terminal_status(&status(true, 2, 1))),
        "terminal log status changed"
    );
    drain.revalidate_terminal_status(&status(true, 2, 0)).unwrap();
    assert!(drain.is_complete());
    assert_eq!(drain.cursor(LogStream::Stdout).next_offset(), 2);
}

#[test]
fn log_answers_name_their_streams() {
    let chunk = |stream| LogChunk::new(stream, 0, b"x".to_vec()).unwrap();
    assert!(LogChunkResponse::new(chunk(LogStream::Stdout)).unwrap().validate().is_ok());
    let request = StatusLogsRequest::new(JobId::new(1), 0, 10, 0, 10);
    assert!(request.validate().is_ok());
    assert!(StatusLogsResponse::new(
        status(false, 0, 0),
        chunk(LogStream::Stdout),
        chunk(LogStream::Stderr)
    )
    .is_ok());
    assert_eq!(
        refusal(StatusLogsResponse::new(
            status(false, 0, 0),
            chunk(LogStream::Stderr),
            chunk(LogStream::Stdout)
        )),
        "status-logs chunks do not match stdout and stderr"
    );
}
