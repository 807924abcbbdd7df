use mac_worker::error::WorkerError;
use mac_worker::job::command::CommandSpec;
use mac_worker::job::control::{
    FleetReconcileRequest, HostControlError, HostControlErrorDetail, StatusResponse,
};
use mac_worker::job::ids::{ClientId, JobId, LeaseToken};
use mac_worker::job::record::JobMeta;
use mac_worker::job::request::RequestFingerprintMaterial;
use mac_worker::job::status::JobStatus;
use mac_worker::job::PROTOCOL_VERSION;
use mac_worker::wire::{
    can_be_sent, current_time_millis, lease_time_millis, outbox_time_millis,
    public_git_server_error, public_rsync_receiver_error, receive_pack_identity, reconcile_answer,
    rsync_receiver_identity, runner_identity, supervisor_job, upload_pack_identity,
    versioned_host_error, watch_time_millis, Endpoint, OutboxAction, OutboxOptions, ReceivedRequest,
    ORIGIN_AUTH_FAILED,
};

const PUBLISH_RECEIPT: &str = "publish stage failed";

fn sent(error: &WorkerError) -> (String, String) {
    let sent = versioned_host_error(error, PUBLISH_RECEIPT);
    assert_eq!(sent.protocol_version(), PROTOCOL_VERSION);
    assert!(sent.validate().is_ok());
    (sent.error().code().to_string(), sent.error().message().to_string())
}

fn pair(code: &str, message: &str) -> (String, String) {
    (code.to_string(), message.to_string())
}

fn text_of<T>(result: Result<T, WorkerError>) -> String {
    match result {
        Err(WorkerError::Protocol(text)) => text,
        Err(other) => panic!("{other:?}"),
        Ok(_) => panic!("the call was expected to fail"),
    }
}

#[test]
fn agent_errors_keep_their_code_on_the_wire() {
    let error = WorkerError::Agent {
        code: "AGENT_EXITED",
        message: "session prebind command failed".into(),
    };
    assert_eq!(sent(&error), pair("AGENT_EXITED", "agent operation failed"));
}

#[test]
fn host_io_receipts_travel_in_the_existing_message_string() {
    let receipt = "cleanup stage failed; residual lease, cleanup_tree";
    let error = WorkerError::HostIo { receipt: receipt.into() };
    assert_eq!(sent(&error), pair("HOST_IO", receipt));
}

#[test]
fn origin_auth_failures_keep_the_git_code_and_a_publish_receipt() {
    let error = WorkerError::Git {
        code: ORIGIN_AUTH_FAILED,
        message: "origin authentication failed".into(),
    };
    assert_eq!(sent(&error), pair(ORIGIN_AUTH_FAILED, PUBLISH_RECEIPT));
}

#[test]
fn public_capacity_reasons_travel_on_the_wire() {
    let error = WorkerError::capacity(
        "CAPACITY_BUSY",
        "no eligible worker currently has an available heavy slot",
    );
    assert_eq!(
        sent(&error),
        pair("CAPACITY_BUSY", "no eligible worker currently has an available heavy slot")
    );
}

#[test]
fn nonpublic_capacity_messages_stay_redacted_on_the_wire() {
    let error = WorkerError::Capacity {
        code: "CAPACITY_BUSY",
        message: "busy lease at /Users/alice/PLANTED_PATH".into(),
        public: false,
    };
    assert_eq!(sent(&error), pair("CAPACITY_BUSY", "worker admission rejected"));
    assert!(!format!("{:?}", versioned_host_error(&error, PUBLISH_RECEIPT)).contains("PLANTED_PATH"));
}

#[test]
fn other_errors_are_sent_by_category() {
    let snapshot = WorkerError::Snapshot { code: "SNAPSHOT_BAD", message: "secret".into() };
    assert_eq!(sent(&snapshot), pair("SNAPSHOT_BAD", "snapshot operation failed"));
    let git = WorkerError::Git { code: "GIT_BAD", message: "secret".into() };
    assert_eq!(sent(&git), pair("GIT_BAD", "Git operation failed"));
    let task = WorkerError::Task { code: "TASK_BAD", message: "secret".into() };
    assert_eq!(sent(&task), pair("TASK_BAD", "task operation failed"));
    assert_eq!(sent(&WorkerError::Io), pair("HOST_IO", "host state operation failed"));
    assert_eq!(
        sent(&WorkerError::Config("secret".into())),
        pair("INVALID_REQUEST", "host request was invalid")
    );
}

#[test]
fn protocol_errors_that_lead_with_a_code_are_sent_as_they_read() {
    let coded = WorkerError::Protocol("JOB_ID_CONFLICT: accepted by: another client".into());
    assert_eq!(sent(&coded), pair("JOB_ID_CONFLICT", "accepted by: another client"));
    let plain = WorkerError::Protocol("something went wrong".into());
    assert_eq!(sent(&plain), pair("INVALID_REQUEST", "host request was invalid"));
    let lower = WorkerError::Protocol("job: gone".into());
    assert_eq!(sent(&lower), pair("INVALID_REQUEST", "host request was invalid"));
    let control = WorkerError::Protocol("JOB_GONE: a\nb".into());
    assert_eq!(sent(&control), pair("INVALID_REQUEST", "host request was invalid"));
}

#[test]
fn host_control_error_serialization_revalidates_message_content() {
    for message in [
        "unsafe\nmessage",
        "unsafe\rmessage",
        "unsafe\tmessage",
        "unsafe\u{001b}message",
        "unsafe\u{007f}message",
        "unsafe\u{0085}message",
        "unsafe\u{009f}message",
    ] {
        let invalid_detail = HostControlErrorDetail {
            code: "HOST_REQUEST_FAILED".into(),
            message: message.into(),
        };
        assert!(invalid_detail.validate().is_err(), "{message:?}");
        let invalid = HostControlError {
            protocol_version: PROTOCOL_VERSION,
            error: invalid_detail,
        };
        assert!(invalid.validate().is_err(), "{message:?}");
    }
}

#[test]
fn git_servers_show_one_name_per_refusal() {
    let name = |error: WorkerError| public_git_server_error(&error);
    assert_eq!(
        name(WorkerError::Protocol("INVALID_COMPONENT: invalid x".into())),
        "HOST_GIT_INVALID_COMPONENT"
    );
    assert_eq!(
        name(WorkerError::Protocol("LEASE_IDENTITY_MISMATCH: x".into())),
        "HOST_GIT_LEASE"
    );
    assert_eq!(name(WorkerError::Protocol("other".into())), "HOST_GIT_REJECTED");
    assert_eq!(name(WorkerError::Task { code: "T", message: "m".into() }), "HOST_GIT_TASK");
    assert_eq!(name(WorkerError::Git { code: "GIT_X", message: "m".into() }), "GIT_X");
    assert_eq!(name(WorkerError::Io), "HOST_GIT_IO");
    assert_eq!(name(WorkerError::HostIo { receipt: "r".into() }), "HOST_GIT_IO");
    assert_eq!(name(WorkerError::Unavailable("u".into())), "HOST_GIT_REJECTED");
}

#[test]
fn receivers_show_one_name_per_refusal() {
    let name = |error: WorkerError| public_rsync_receiver_error(&error);
    let protocol = |text: &str| WorkerError::Protocol(text.into());
    assert_eq!(name(protocol("INVALID_RSYNC_SERVER_ARGS: x")), "HOST_RSYNC_INVALID_ARGS");
    assert_eq!(name(protocol("JOB_ABANDONED: x")), "HOST_RSYNC_FENCED");
    assert_eq!(name(protocol("JOB_ACCEPTED: x")), "HOST_RSYNC_FENCED");
    assert_eq!(name(protocol("JOB_ID_CONFLICT: x")), "HOST_RSYNC_FENCED");
    assert_eq!(name(protocol("LEASE_IDENTITY_MISMATCH: x")), "HOST_RSYNC_LEASE");
    assert_eq!(name(protocol("JOB_ABANDONED")), "HOST_RSYNC_REJECTED");
    assert_eq!(name(WorkerError::Io), "HOST_RSYNC_IO");
}

fn received(bytes: &[u8]) -> ReceivedRequest {
    ReceivedRequest {
        bytes: bytes.to_vec(),
        parse_error: None,
        trailing: false,
        canonical: Some(bytes.to_vec()),
    }
}

#[test]
fn requests_are_taken_only_in_their_canonical_form() {
    for endpoint in [Endpoint::Submit, Endpoint::Control, Endpoint::Task, Endpoint::AgentSettings] {
        assert!(received(b"{}").accept(endpoint).is_ok());
    }
    let mut spaced = received(b"{ }");
    spaced.canonical = Some(b"{}".to_vec());
    assert_eq!(text_of(spaced.accept(Endpoint::Submit)), "submit request was not canonical JSON");
    assert_eq!(
        text_of(spaced.accept(Endpoint::Control)),
        "host control request was not canonical JSON"
    );
    assert_eq!(text_of(spaced.accept(Endpoint::Task)), "host task request was not canonical JSON");
    assert_eq!(
        text_of(spaced.accept(Endpoint::AgentSettings)),
        "SETTINGS_INVALID: settings request was not canonical JSON"
    );
    assert!(spaced.accept(Endpoint::LeaseAcquire).is_ok());
    assert!(spaced.accept(Endpoint::SnapshotVerify).is_ok());
}

#[test]
fn requests_have_a_greatest_length() {
    let long = received(&vec![b' '; 1024 * 1024 + 1]);
    assert_eq!(text_of(long.accept(Endpoint::Submit)), "submit request exceeded 1 MiB");
    assert_eq!(text_of(long.accept(Endpoint::Control)), "host control request exceeded 1 MiB");
    assert_eq!(text_of(long.accept(Endpoint::Task)), "host task request exceeded 1 MiB");
    assert_eq!(text_of(long.accept(Endpoint::LeaseAcquire)), "lease-acquire request exceeded 1 MiB");
    assert_eq!(
        text_of(long.accept(Endpoint::SnapshotVerify)),
        "snapshot-verify request exceeded 1 MiB"
    );
    assert!(received(&vec![b' '; 1024 * 1024]).accept(Endpoint::Submit).is_ok());
    assert!(received(&vec![b' '; 8192]).accept(Endpoint::AgentSettings).is_ok());
    assert_eq!(
        text_of(received(&vec![b' '; 8193]).accept(Endpoint::AgentSettings)),
        "SETTINGS_INVALID: settings request exceeded 8192 bytes"
    );
}

#[test]
fn unreadable_requests_are_refused() {
    let mut broken = received(b"{");
    broken.parse_error = Some("EOF at line 1".into());
    assert_eq!(text_of(broken.accept(Endpoint::Submit)), "invalid submit request");
    assert_eq!(text_of(broken.accept(Endpoint::Control)), "invalid host control request");
    assert_eq!(text_of(broken.accept(Endpoint::Task)), "invalid host task request");
    assert_eq!(
        text_of(broken.accept(Endpoint::LeaseAcquire)),
        "invalid lease-acquire request: EOF at line 1"
    );
    assert_eq!(text_of(broken.accept(Endpoint::SnapshotVerify)), "invalid snapshot-verify request");
    let mut longer = received(b"{}{}");
    longer.trailing = true;
    assert_eq!(
        text_of(longer.accept(Endpoint::Submit)),
        "submit request contained trailing data"
    );
    assert_eq!(text_of(longer.accept(Endpoint::Task)), "invalid host task request");
    assert_eq!(
        text_of(longer.accept(Endpoint::SnapshotVerify)),
        "snapshot-verify request contained trailing data"
    );
    let mut unwritable = received(b"{}");
    unwritable.canonical = None;
    assert_eq!(
        text_of(unwritable.accept(Endpoint::Submit)),
        "submit request serialization failed"
    );
}

fn status_of(seed: u128) -> StatusResponse {
    let material = RequestFingerprintMaterial::new(
        JobId::new(seed),
        ClientId::new(seed + 10_000),
        LeaseToken::new(seed + 20_000),
        2,
        "mini-1".into(),
        "a".repeat(64),
        "b".repeat(64),
        "c".repeat(64),
        String::new(),
        60_000,
        "heavy".into(),
        CommandSpec::argv(vec!["true".into()]).unwrap(),
    )
    .unwrap();
    let meta = JobMeta::new(&material, material.fingerprint()).unwrap();
    StatusResponse::new(meta, JobStatus::accepted(3).unwrap()).unwrap()
}

#[test]
fn one_failing_job_does_not_hide_the_others() {
    let request = FleetReconcileRequest::new(vec![JobId::new(1), JobId::new(2)]).unwrap();
    let outcomes = vec![
        Err(WorkerError::Protocol("JOB_NOT_FOUND: no such job".into())),
        Ok(status_of(2)),
    ];
    let answer = reconcile_answer(&request, outcomes, PUBLISH_RECEIPT).unwrap();
    assert_eq!(answer.results().len(), 2);
    assert_eq!(answer.results()[0].job_id(), JobId::new(1));
    assert_eq!(answer.results()[0].error().unwrap().error().code(), "JOB_NOT_FOUND");
    assert_eq!(answer.results()[1].status().unwrap().meta().job_id(), JobId::new(2));
}

#[test]
fn an_answer_about_another_job_is_refused() {
    let request = FleetReconcileRequest::new(vec![JobId::new(1), JobId::new(2)]).unwrap();
    let outcomes = vec![Ok(status_of(2)), Ok(status_of(2))];
    assert_eq!(
        text_of(reconcile_answer(&request, outcomes, PUBLISH_RECEIPT)),
        "fleet reconciliation response contains duplicate job IDs"
    );
    let repeated = FleetReconcileRequest { known_job_ids: vec![JobId::new(1), JobId::new(1)] };
    let outcomes = vec![Ok(status_of(1)), Ok(status_of(2))];
    assert_eq!(
        text_of(reconcile_answer(&repeated, outcomes, PUBLISH_RECEIPT)),
        "fleet reconciliation request contains duplicate job IDs"
    );
}

#[test]
fn transfers_name_their_job_client_lease_and_request() {
    let id = "000000000000000000000000000000ff";
    let digest = "e".repeat(64);
    match rsync_receiver_identity(id, id, id, &digest) {
        Ok(identity) => {
            assert_eq!(identity.job_id.value, 255);
            assert_eq!(identity.client_id.value, 255);
            assert_eq!(identity.lease_token.value, 255);
            assert_eq!(identity.request_fingerprint.text, digest);
        }
        Err(error) => panic!("{error:?}"),
    }
    assert_eq!(
        text_of(rsync_receiver_identity("FF", id, id, &digest)),
        "invalid receiver job identity"
    );
    assert_eq!(
        text_of(rsync_receiver_identity(id, "x", id, &digest)),
        "invalid receiver client identity"
    );
    assert_eq!(
        text_of(rsync_receiver_identity(id, id, "", &digest)),
        "invalid receiver lease identity"
    );
    assert_eq!(
        text_of(rsync_receiver_identity(id, id, id, "e")),
        "invalid receiver fingerprint"
    );
    assert_eq!(
        text_of(receive_pack_identity(id, id, id, "e")),
        "INVALID_COMPONENT: invalid receiver fingerprint"
    );
    assert_eq!(
        text_of(upload_pack_identity("x", id)),
        "INVALID_COMPONENT: invalid upload task identity"
    );
    assert_eq!(
        text_of(upload_pack_identity(id, "x")),
        "INVALID_COMPONENT: invalid upload client identity"
    );
    assert_eq!(upload_pack_identity(id, id).unwrap().0.value, 255);
    assert_eq!(supervisor_job(id).unwrap(), JobId::new(255));
    assert_eq!(text_of(supervisor_job("zz")), "invalid supervisor job identity");
}

#[test]
fn runners_take_slot_tokens_in_any_uuid_form() {
    let id = "000000000000000000000000000000ff";
    let runner = match runner_identity(id, id, Some("00000000-0000-0000-0000-0000000000AB")) {
        Ok(runner) => runner,
        Err(error) => panic!("{error:?}"),
    };
    assert_eq!(runner.task_id.value, 255);
    assert_eq!(runner.turn_id.value, 255);
    assert_eq!(runner.slot_token, Some(0xab));
    assert!(matches!(runner_identity(id, id, None), Ok(plain) if plain.slot_token.is_none()));
    assert_eq!(text_of(runner_identity("x", id, None)), "invalid runner task ID");
    assert_eq!(text_of(runner_identity(id, "x", None)), "invalid runner turn ID");
    assert_eq!(text_of(runner_identity(id, id, Some("x"))), "invalid runner slot token");
}

#[test]
fn outboxes_are_woken_before_they_are_watched() {
    let nothing = OutboxOptions {
        watch: false,
        once: false,
        enable: false,
        write_agent: false,
        wake: false,
        root_is_absolute: None,
    };
    assert_eq!(
        text_of(nothing.plan()),
        "host outbox requires --watch, --once, --enable, --write-agent, or --wake"
    );
    let all = OutboxOptions { watch: true, once: true, wake: true, ..nothing };
    assert_eq!(all.plan().unwrap(), OutboxAction::Wake);
    assert_eq!(OutboxOptions { wake: false, ..all }.plan().unwrap(), OutboxAction::Watch);
    assert_eq!(
        OutboxOptions { once: true, ..nothing }.plan().unwrap(),
        OutboxAction::Once
    );
    assert_eq!(
        OutboxOptions { enable: true, ..nothing }.plan().unwrap(),
        OutboxAction::Nothing
    );
    assert_eq!(
        text_of(OutboxOptions { root_is_absolute: Some(false), ..all }.plan()),
        "outbox host root must be an absolute path"
    );
}

#[test]
fn clocks_outside_their_range_are_refused() {
    let late = Some(u64::MAX as u128 + 1);
    assert_eq!(current_time_millis(Some(5)).unwrap(), 5);
    assert_eq!(text_of(current_time_millis(None)), "system clock is before the Unix epoch");
    assert_eq!(text_of(current_time_millis(late)), "system clock exceeds supported range");
    assert_eq!(lease_time_millis(Some(6)).unwrap(), 6);
    assert_eq!(text_of(lease_time_millis(None)), "system clock predates Unix epoch");
    assert_eq!(text_of(lease_time_millis(late)), "system clock overflow");
    assert_eq!(outbox_time_millis(Some(7)).unwrap(), 7);
    assert!(matches!(
        outbox_time_millis(None),
        Err(WorkerError::Task { code: "TASK_CLOCK_INVALID", .. })
    ));
    assert!(matches!(
        outbox_time_millis(late),
        Err(WorkerError::Task { code: "TASK_CLOCK_INVALID", .. })
    ));
    assert_eq!(watch_time_millis(Some(8)), 8);
    assert_eq!(watch_time_millis(None), 0);
    assert_eq!(watch_time_millis(late), 0);
}

#[test]
fn only_fit_terms_can_be_sent() {
    assert!(can_be_sent(
        &WorkerError::capacity("CAPACITY_FULL", "all slots are busy"),
        PUBLISH_RECEIPT
    ));
    assert!(!can_be_sent(&WorkerError::capacity("full", "all slots are busy"), PUBLISH_RECEIPT));
    assert!(!can_be_sent(&WorkerError::capacity("CAPACITY_FULL", "two\nlines"), PUBLISH_RECEIPT));
    let hidden = WorkerError::Capacity {
        code: "CAPACITY_FULL",
        message: "two\nlines".into(),
        public: false,
    };
    assert!(can_be_sent(&hidden, PUBLISH_RECEIPT));
    assert!(!can_be_sent(&WorkerError::HostIo { receipt: String::new() }, PUBLISH_RECEIPT));
    let origin = WorkerError::Git { code: ORIGIN_AUTH_FAILED, message: String::new() };
    assert!(can_be_sent(&origin, PUBLISH_RECEIPT));
    assert!(!can_be_sent(&origin, "two\nlines"));
    assert!(can_be_sent(&WorkerError::Io, ""));
}
