use mac_worker::error::WorkerError;
use mac_worker::job::command::{CommandSpec, CommandSummary, CommandSummaryMode};
use mac_worker::job::control::{CancelRequest, StatusResponse, SubmitResponse};
use mac_worker::job::ids::{ClientId, JobId, LeaseToken, RequestFingerprint, RunId};
use mac_worker::job::record::{JobMeta, LeaseRecord, LocalJobRecord, RemoteUncertainty};
use mac_worker::job::request::{
    is_working_dir, LeaseAcquireRequest, RequestFingerprintMaterial, ResolveOrAbandonRequest,
    SubmitRequest,
};
use mac_worker::job::status::{JobState, JobStatus, ProcessIdentity};

fn material(seed: u128) -> RequestFingerprintMaterial {
    RequestFingerprintMaterial::new(
        JobId::new(seed),
        ClientId::new(seed + 10_000),
        LeaseToken::new(seed + 20_000),
        2,
        "mini-1".into(),
        "a".repeat(64),
        "b".repeat(64),
        "c".repeat(64),
        String::new(),
        60_000,
        "heavy".into(),
        CommandSpec::argv(vec!["cargo".into(), "test".into()]).unwrap(),
    )
    .unwrap()
}

fn refusal<T>(result: Result<T, WorkerError>) -> String {
    match result {
        Err(WorkerError::Protocol(text)) => text,
        Err(other) => panic!("{other:?}"),
        Ok(_) => panic!("the value was expected to be refused"),
    }
}

#[test]
fn identifiers_are_written_in_lowercase_hexadecimal() {
    let id = JobId::new(0x0123_4567_89ab_cdef_0011_2233_4455_6677);
    assert_eq!(id.to_text(), "0123456789abcdef0011223344556677");
    assert_eq!(JobId::from_text(&id.to_text()).unwrap(), id);
    for text in ["", "0123", "0123456789ABCDEF0011223344556677", "01234567-89ab-cdef-0011-223344556677"] {
        assert_eq!(
            JobId::from_text(text).unwrap_err(),
            "identifier must be a lowercase simple UUID"
        );
    }
}

#[test]
fn generated_identifiers_are_versioned_and_differ() {
    let one = ClientId::generate();
    let other = ClientId::generate();
    assert_ne!(one, other);
    assert_eq!((one.as_uuid() >> 76) & 0xf, 4);
    assert_eq!((one.as_uuid() >> 62) & 0x3, 2);
}

#[test]
fn fingerprints_and_runs_have_canonical_names() {
    assert!(RequestFingerprint::new("f".repeat(64)).is_ok());
    assert_eq!(
        refusal(RequestFingerprint::new("F".repeat(64))),
        "request fingerprint must be 64 lowercase hexadecimal bytes"
    );
    assert_eq!(RunId::new("run-1".into()).unwrap().as_str(), "run-1");
    assert_eq!(refusal(RunId::new("Run".into())), "run ID is not canonical");
    assert!(RunId::new("r".repeat(128)).is_ok());
    assert!(RunId::new("r".repeat(129)).is_err());
}

#[test]
fn commands_have_bounds() {
    assert_eq!(
        refusal(CommandSpec::argv(Vec::new())),
        "argv command has an invalid argument count"
    );
    assert!(CommandSpec::argv(vec!["x".into(); 256]).is_ok());
    assert!(CommandSpec::argv(vec!["x".into(); 257]).is_err());
    assert_eq!(
        refusal(CommandSpec::argv(vec!["a\0b".into()])),
        "argv argument is too long or contains NUL"
    );
    assert!(CommandSpec::argv(vec!["x".repeat(16 * 1024)]).is_ok());
    assert!(CommandSpec::argv(vec!["x".repeat(16 * 1024 + 1)]).is_err());
    assert_eq!(
        refusal(CommandSpec::argv(vec!["x".repeat(16 * 1024); 9])),
        "argv command exceeds its byte limit"
    );
    assert!(CommandSpec::shell("make test".into()).is_ok());
    assert!(CommandSpec::shell("x".repeat(128 * 1024)).is_ok());
    assert!(CommandSpec::shell("x".repeat(128 * 1024 + 1)).is_err());
}

#[test]
fn summaries_tell_only_how_many_arguments_there_are() {
    let argv = CommandSpec::argv(vec!["cargo".into(), "test".into()]).unwrap();
    assert_eq!(
        argv.summary().unwrap(),
        CommandSummary { mode: CommandSummaryMode::Argv, arg_count: Some(2) }
    );
    let shell = CommandSpec::shell("cargo test".into()).unwrap();
    assert_eq!(
        shell.summary().unwrap(),
        CommandSummary { mode: CommandSummaryMode::Shell, arg_count: None }
    );
    assert!(CommandSummary::argv(0).is_err());
    assert!(CommandSummary { mode: CommandSummaryMode::Shell, arg_count: Some(1) }
        .validate()
        .is_err());
}

#[test]
fn a_request_is_known_by_the_digest_of_its_canonical_text() {
    let one = material(1);
    assert_eq!(
        one.canonical_json(),
        "{\"protocol_version\":1,\"job_id\":\"00000000000000000000000000000001\",\
         \"client_id\":\"00000000000000000000000000002711\",\
         \"lease_token\":\"00000000000000000000000000004e21\",\"created_at_millis\":2,\
         \"worker_name\":\"mini-1\",\
         \"project_id\":\"aaaaaaaaaaaaaaaaaaaaaaaaaaaaaaaaaaaaaaaaaaaaaaaaaaaaaaaaaaaaaaaa\",\
         \"worktree_id\":\"bbbbbbbbbbbbbbbbbbbbbbbbbbbbbbbbbbbbbbbbbbbbbbbbbbbbbbbbbbbbbbbb\",\
         \"manifest_digest\":\"cccccccccccccccccccccccccccccccccccccccccccccccccccccccccccccccc\",\
         \"relative_working_dir\":\"\",\"timeout_millis\":60000,\"resource_class\":\"heavy\",\
         \"command\":{\"mode\":\"argv\",\"argv\":[\"cargo\",\"test\"]}}"
    );
    assert_eq!(
        one.fingerprint().text,
        "0d30e2c17894d72e63bf833d0147a15dc9182dc25f90d086c16e59fd9c5980c2"
    );
    assert!(one.fingerprint().same(&material(1).fingerprint()));
    assert!(!one.fingerprint().same(&material(2).fingerprint()));
}

#[test]
fn canonical_text_escapes_what_json_must() {
    let mut shell = material(1);
    shell.command = CommandSpec::shell("echo \"a\\b\"\n\t\u{1}é".into()).unwrap();
    assert!(shell
        .canonical_json()
        .ends_with("\"command\":{\"mode\":\"shell\",\"shell\":\"echo \\\"a\\\\b\\\"\\n\\t\\u0001é\"}}"));
}

#[test]
fn bound_requests_must_carry_their_own_digest() {
    let submit = SubmitRequest::new(material(1));
    assert!(submit.validate().is_ok());
    let mut forged = SubmitRequest::new(material(1));
    forged.request_fingerprint = material(2).fingerprint();
    assert!(forged.validate().is_err());
    let mut lease = LeaseAcquireRequest::new(material(1));
    assert!(lease.validate().is_ok());
    lease.material.timeout_millis = 61_000;
    assert!(lease.validate().is_err());
}

#[test]
fn working_directories_hold_no_nul_and_have_a_bound() {
    assert!(is_working_dir(""));
    assert!(is_working_dir("a/b-c/d.e"));
    assert!(is_working_dir(&"x".repeat(128 * 1024)));
    assert!(!is_working_dir(&"x".repeat(128 * 1024 + 1)));
    assert!(!is_working_dir("a\0b"));
}

#[test]
fn resolutions_from_a_request_and_its_record_agree() {
    let submit = SubmitRequest::new(material(1));
    let meta = JobMeta::new(&submit.material, submit.request_fingerprint.clone()).unwrap();
    let record = match LocalJobRecord::new(
        meta,
        submit.material.lease_token,
        None,
        RemoteUncertainty::Certain,
    ) {
        Ok(record) => record,
        Err(error) => panic!("{error:?}"),
    };
    let direct = ResolveOrAbandonRequest::from_submit_request(&submit);
    let recorded = ResolveOrAbandonRequest::from_local_record(&record);
    match (direct, recorded) {
        (Ok(direct), Ok(recorded)) => {
            assert!(direct.same(&recorded));
            assert!(direct.validate().is_ok());
        }
        _ => panic!("both identities were expected"),
    }
    assert!(CancelRequest::from_local_record(&record).is_ok());
}

#[test]
fn leases_expire_after_they_begin() {
    let m = material(1);
    assert!(LeaseRecord::new(&m, m.fingerprint(), 5, 60_005).is_ok());
    assert!(LeaseRecord::new(&m, m.fingerprint(), 5, 4).is_err());
}

#[test]
fn uncertainty_carries_a_stable_code() {
    assert_eq!(
        RemoteUncertainty::unknown_remote("SSH_LOST".into()).unwrap().code(),
        Some("SSH_LOST")
    );
    assert_eq!(RemoteUncertainty::Certain.code(), None);
    assert!(RemoteUncertainty::cleanup_pending("lower".into()).is_err());
}

#[test]
fn jobs_go_forward_until_they_end() {
    let accepted = JobStatus::accepted(10).unwrap();
    let supervisor = ProcessIdentity::new(7, 70).unwrap();
    let child = ProcessIdentity::new(8, 80).unwrap();
    let supervised = accepted.with_supervisor(supervisor, 11).unwrap();
    let with_child = supervised.with_child(child, 12).unwrap();
    let running = with_child.into_running(13).unwrap();
    assert_eq!(running.state(), JobState::Running);
    assert_eq!(running.supervisor_identity(), Some(supervisor));
    assert_eq!(running.child_identity(), Some(child));
    let done = running.into_succeeded(14, 100, 0).unwrap();
    assert!(done.state().is_terminal());
    assert_eq!(done.exit_code(), Some(0));
    assert_eq!(done.final_stdout_bytes(), Some(100));
    assert_eq!(done.supervisor_identity(), Some(supervisor));
    assert!(done.into_failed_exit(15, 1, 100, 0).is_err());
    assert!(running.into_succeeded(12, 0, 0).is_err());
    assert!(accepted.into_running(11).is_err());
}

#[test]
fn failed_jobs_carry_an_exit_or_a_signal() {
    let running = JobStatus::running(10, 7, 70, 8, 80).unwrap();
    let failed = running.into_failed_exit(11, 3, 1, 2).unwrap();
    assert_eq!(failed.exit_code(), Some(3));
    assert_eq!(failed.terminating_signal(), None);
    assert!(running.into_failed_exit(11, 0, 1, 2).is_err());
    let killed = running.into_failed_signal(11, 9, 1, 2).unwrap();
    assert_eq!(killed.terminating_signal(), Some(9));
    assert!(running.into_failed_signal(11, 0, 1, 2).is_err());
    let lost = running
        .into_infrastructure_terminal(JobState::Lost, 11, 0, 0, "SUPERVISOR_LOST".into())
        .unwrap();
    assert_eq!(lost.error_code(), Some("SUPERVISOR_LOST"));
    assert!(running
        .into_infrastructure_terminal(JobState::Succeeded, 11, 0, 0, "NO".into())
        .is_err());
}

#[test]
fn a_cleanup_error_is_added_once() {
    let running = JobStatus::running(10, 7, 70, 8, 80).unwrap();
    let done = running.into_succeeded(11, 0, 0).unwrap();
    let noted = done.with_cleanup_error("CLEANUP_FAILED".into(), 12).unwrap();
    assert_eq!(noted.cleanup_error_code(), Some("CLEANUP_FAILED"));
    assert_eq!(noted.state(), JobState::Succeeded);
    assert!(noted.with_cleanup_error("OTHER_FAILED".into(), 13).is_err());
}

#[test]
fn process_identities_come_in_pairs() {
    assert!(ProcessIdentity::new(0, 5).is_err());
    assert!(ProcessIdentity::new(5, 0).is_err());
    let half = JobStatus::new(
        JobState::Accepted,
        1,
        Some(7),
        None,
        None,
        None,
        None,
        None,
        None,
        None,
        None,
        None,
    );
    assert!(half.is_err());
}

#[test]
fn answers_do_not_predate_the_job() {
    let m = material(1);
    let meta = JobMeta::new(&m, m.fingerprint()).unwrap();
    assert_eq!(
        refusal(StatusResponse::new(meta.clone(), JobStatus::accepted(1).unwrap())),
        "status response timestamp predates job acceptance"
    );
    let response = StatusResponse::new(meta.clone(), JobStatus::accepted(2).unwrap()).unwrap();
    assert!(response.validate().is_ok());
    let accepted = SubmitResponse::Accepted {
        meta: Box::new(meta),
        status: JobStatus::accepted(2).unwrap(),
    };
    assert!(accepted.validate().is_ok());
    assert_eq!(accepted.status().state(), JobState::Accepted);
}

#[test]
fn commands_are_read_from_their_parts() {
    let argv = vec!["cargo".to_string(), "test".to_string()];
    let read = CommandSpec::from_parts("argv", Some(argv.clone()), None).unwrap();
    assert!(matches!(read, CommandSpec::Argv { argv: held } if held == argv));
    let read = CommandSpec::from_parts("shell", None, Some("true".into())).unwrap();
    assert!(matches!(read, CommandSpec::Shell { shell } if shell == "true"));
    for (mode, list, line) in [
        ("argv", None, None),
        ("argv", None, Some("true".to_string())),
        ("shell", Some(argv.clone()), None),
        ("shell", Some(argv.clone()), Some("true".to_string())),
        ("other", None, Some("true".to_string())),
    ] {
        assert_eq!(
            refusal(CommandSpec::from_parts(mode, list, line)),
            "command mode and payload must agree"
        );
    }
}

#[test]
fn secrets_are_not_shown() {
    let held = material(1);
    assert_eq!(held.lease_token.debug_text(), "LeaseToken([REDACTED])");
    assert_eq!(held.command.debug_text(), "CommandSpec::Argv { argument_count: 2, .. }");
    assert_eq!(
        CommandSpec::shell("secret".into()).unwrap().debug_text(),
        "CommandSpec::Shell { .. }"
    );
    let project = "a".repeat(64);
    let worktree = "b".repeat(64);
    let manifest = "c".repeat(64);
    assert_eq!(
        held.debug_text(),
        format!(
            "RequestFingerprintMaterial {{ protocol_version: 1, \
             job_id: JobId(00000000-0000-0000-0000-000000000001), \
             client_id: ClientId(00000000-0000-0000-0000-000000002711), created_at_millis: 2, \
             worker_name: \"mini-1\", project_id: {project:?}, worktree_id: {worktree:?}, \
             manifest_digest: {manifest:?}, timeout_millis: 60000, resource_class: \"heavy\", \
             command: CommandSpec::Argv {{ argument_count: 2, .. }}, .. }}"
        )
    );
    let mut other = material(1);
    other.lease_token = LeaseToken::new(99);
    other.command = CommandSpec::argv(vec!["rm".into(), "secret".into()]).unwrap();
    assert_eq!(other.debug_text(), held.debug_text());
}

#[test]
fn requests_show_whom_they_are_for() {
    let request = SubmitRequest::new(material(1));
    let print = request.request_fingerprint.text.clone();
    let shown = format!(
        "job_id: JobId(00000000-0000-0000-0000-000000000001), \
         client_id: ClientId(00000000-0000-0000-0000-000000002711), \
         request_fingerprint: RequestFingerprint({print:?}), .. }}"
    );
    assert_eq!(request.debug_text(), format!("SubmitRequest {{ {shown}"));
    let lease = LeaseAcquireRequest::new(material(1));
    assert_eq!(lease.debug_text(), format!("LeaseAcquireRequest {{ {shown}"));
    let resolution = ResolveOrAbandonRequest::from_submit_request(&request).unwrap();
    let text = resolution.debug_text();
    assert!(text.starts_with("ResolveOrAbandonRequest { protocol_version: 1, job_id: JobId("));
    assert!(text.contains("lease_token: \"[REDACTED]\", created_at_millis: 2, "));
    assert!(text.ends_with(
        "command_summary: CommandSummary { mode: Argv, arg_count: Some(2) } }"
    ));
    assert_eq!(
        CommandSummary::shell().debug_text(),
        "CommandSummary { mode: Shell, arg_count: None }"
    );
    let cancel = CancelRequest {
        job_id: JobId::new(1),
        client_id: ClientId::new(2),
        lease_token: LeaseToken::new(3),
        request_fingerprint: request.request_fingerprint.clone(),
    };
    assert_eq!(
        cancel.debug_text(),
        "CancelRequest { job_id: JobId(00000000-0000-0000-0000-000000000001), \
         client_id: ClientId(00000000-0000-0000-0000-000000000002), \
         lease_token: \"[REDACTED]\", request_fingerprint: \"[REDACTED]\" }"
    );
}
