use mac_worker::error::WorkerError;
use mac_worker::host_store::{IndexedIdentity, JobDisposition};
use mac_worker::job::command::CommandSpec;
use mac_worker::job::ids::{ClientId, JobId, LeaseToken, TaskId};
use mac_worker::job::record::{LeaseAcquireResponse, LeaseRecord};
use mac_worker::job::request::{LeaseAcquireRequest, RequestFingerprintMaterial};
use mac_worker::job::status::JobStatus;
use mac_worker::lease::{
    parse_canonical_slot_id, promote_slot_directories, scopes_conflict, slot_directory_is_idle,
    validate_admission, validate_slot_count, AdmissionFacts, CapacityFile, ExecutionScope,
    HostJson, LeaseDecision, LeaseService, MemoryPressure, OccupiedSlot, SlotContent,
    SlotDirectory, SlotFiles, SlotLayout, SlotState, MAX_HOST_SLOTS, ROOT_MARKER,
};

const GIB: u64 = 1024 * 1024 * 1024;

fn request(seed: u128) -> LeaseAcquireRequest {
    let material = RequestFingerprintMaterial::new(
        JobId::new(seed),
        ClientId::new(seed + 10_000),
        LeaseToken::new(seed + 20_000),
        2,
        "mini-1".into(),
        "a".repeat(64),
        "b".repeat(64),
        "c".repeat(64),
        String::new(),
        60_000,
        "heavy".into(),
        CommandSpec::argv(vec!["cargo".into(), "test".into()]).unwrap(),
    )
    .unwrap();
    LeaseAcquireRequest::new(material)
}

fn task(id: u128) -> ExecutionScope {
    ExecutionScope::Task { task_id: TaskId::new(id) }
}

fn healthy() -> AdmissionFacts {
    AdmissionFacts {
        free_disk_bytes: 100 * GIB,
        total_disk_bytes: 250 * GIB,
        memory_pressure: MemoryPressure::Normal,
        swap_used_bytes: Some(0),
    }
}

fn new_host() -> LeaseService {
    let mut layout = SlotLayout { slots_present: false, capacity: CapacityFile::Missing };
    promote_slot_directories(&mut layout);
    assert!(layout.slots_present);
    LeaseService::new(layout.capacity, Vec::new())
}

fn decide(
    service: &LeaseService,
    request: &LeaseAcquireRequest,
    scope: ExecutionScope,
) -> Result<LeaseDecision, WorkerError> {
    service.acquire(request, scope, &None, false, &healthy(), 1)
}

fn acquire_in(
    service: &mut LeaseService,
    request: &LeaseAcquireRequest,
    scope: ExecutionScope,
) -> LeaseRecord {
    match decide(service, request, scope) {
        Ok(LeaseDecision::Publish { slot_id, lease }) => {
            service.publish(slot_id, lease.clone(), scope);
            lease
        }
        Ok(LeaseDecision::Answer(LeaseAcquireResponse::Acquired { lease })) => lease,
        Ok(_) => panic!("no lease was granted"),
        Err(error) => panic!("{error:?}"),
    }
}

fn acquire(service: &mut LeaseService, request: &LeaseAcquireRequest) -> LeaseRecord {
    acquire_in(service, request, ExecutionScope::Job)
}

fn code_of<T>(result: Result<T, WorkerError>) -> String {
    match result {
        Ok(_) => panic!("the call was expected to fail"),
        Err(WorkerError::Capacity { code, .. }) => code.to_string(),
        Err(WorkerError::Protocol(text)) | Err(WorkerError::Unavailable(text)) => {
            text.split(": ").next().unwrap().to_string()
        }
        Err(other) => panic!("{other:?}"),
    }
}

fn slots(service: &LeaseService) -> Vec<OccupiedSlot> {
    match service.occupied_slots() {
        Ok(found) => found,
        Err(error) => panic!("{error:?}"),
    }
}

fn occupy_only_slot_one(service: &mut LeaseService) -> LeaseRecord {
    service.set_slot_count(2).unwrap();
    let first = acquire(service, &request(1));
    acquire(service, &request(2));
    service.release_after_cleanup(&first, Ok(())).unwrap();
    let occupied = slots(service);
    assert_eq!(occupied.len(), 1);
    assert_eq!(occupied[0].slot_id, 1);
    occupied[0].lease.clone()
}

fn holds_no_lease_zero(service: &LeaseService) -> bool {
    !service.directories.iter().any(|directory| {
        directory.name.as_deref() == Some("0")
            && matches!(directory.content, SlotContent::Live { .. })
    })
}

#[test]
fn two_task_scopes_overlap_on_two_slots_and_third_is_capacity_busy() {
    let mut service = new_host();
    service.set_slot_count(2).unwrap();
    let first = acquire_in(&mut service, &request(1), task(1));
    let second = acquire_in(&mut service, &request(2), task(2));
    assert_ne!(first.job_id(), second.job_id());
    assert_eq!(slots(&service).len(), 2);
    assert_eq!(code_of(decide(&service, &request(3), task(3))), "CAPACITY_BUSY");
    assert_eq!(code_of(decide(&service, &request(4), task(1))), "WORKSPACE_BUSY");
}

#[test]
fn two_job_scopes_from_the_same_origin_overlap() {
    let mut service = new_host();
    service.set_slot_count(2).unwrap();
    let first = acquire(&mut service, &request(1));
    let second = acquire(&mut service, &request(2));
    assert_eq!(first.project_id(), second.project_id());
    assert_eq!(first.worktree_id(), second.worktree_id());
    assert_eq!(slots(&service).len(), 2);
}

#[test]
fn shrink_refuses_while_a_high_index_slot_is_live() {
    let mut service = new_host();
    service.set_slot_count(2).unwrap();
    let first = acquire(&mut service, &request(1));
    acquire(&mut service, &request(2));
    service.release_after_cleanup(&first, Ok(())).unwrap();
    let occupied = slots(&service);
    assert_eq!(occupied.len(), 1);
    assert_eq!(occupied[0].slot_id, 1);
    assert_eq!(code_of(service.set_slot_count(1)), "CAPACITY_BUSY");
    service.set_slot_count(2).unwrap();
    service.release_after_cleanup(&occupied[0].lease, Ok(())).unwrap();
    service.set_slot_count(1).unwrap();
    assert_eq!(service.slot_count().unwrap(), 1);
}

#[test]
fn new_host_defaults_to_one_slot() {
    let mut service = new_host();
    assert_eq!(service.slot_count().unwrap(), 1);
    assert!(matches!(service.capacity, CapacityFile::Recorded { slot_count: 1 }));
    acquire(&mut service, &request(1));
    assert_eq!(slots(&service)[0].slot_id, 0);
}

#[test]
fn missing_capacity_on_installed_layout3_refuses_acquire_and_probe() {
    let mut service = new_host();
    occupy_only_slot_one(&mut service);
    service.capacity = CapacityFile::Missing;
    assert_eq!(code_of(service.occupancy()), "HOST_SLOT_CAPACITY_INVALID");
    assert_eq!(code_of(service.slot_count()), "HOST_SLOT_CAPACITY_INVALID");
    assert_eq!(
        code_of(decide(&service, &request(3), ExecutionScope::Job)),
        "HOST_SLOT_CAPACITY_INVALID"
    );
    assert!(holds_no_lease_zero(&service));
}

#[test]
fn corrupt_capacity_on_installed_layout3_refuses_acquire_and_probe() {
    let mut service = new_host();
    occupy_only_slot_one(&mut service);
    service.capacity = CapacityFile::Invalid { detail: "expected a key".into() };
    assert_eq!(code_of(service.occupancy()), "HOST_SLOT_CAPACITY_INVALID");
    assert_eq!(
        code_of(decide(&service, &request(3), ExecutionScope::Job)),
        "HOST_SLOT_CAPACITY_INVALID"
    );
    assert!(holds_no_lease_zero(&service));
}

#[test]
fn live_slot_outside_stored_capacity_is_rejected() {
    let mut service = new_host();
    occupy_only_slot_one(&mut service);
    service.capacity = CapacityFile::Recorded { slot_count: 1 };
    assert_eq!(code_of(service.occupied_slots()), "HOST_SLOT_ID_INVALID");
    assert_eq!(
        code_of(decide(&service, &request(3), ExecutionScope::Job)),
        "HOST_SLOT_ID_INVALID"
    );
    assert!(holds_no_lease_zero(&service));
}

#[test]
fn noncanonical_slot_directory_name_is_rejected() {
    let mut service = new_host();
    acquire(&mut service, &request(1));
    service.directories[0].name = Some("00".into());
    assert_eq!(code_of(service.occupied_slots()), "HOST_SLOT_ID_INVALID");
    assert_eq!(
        code_of(decide(&service, &request(2), ExecutionScope::Job)),
        "HOST_SLOT_ID_INVALID"
    );
    assert!(holds_no_lease_zero(&service));
    assert!(matches!(service.directories[0].content, SlotContent::Live { .. }));
}

#[test]
fn noncanonical_leading_zero_alias_for_high_slot_is_rejected() {
    let mut service = new_host();
    occupy_only_slot_one(&mut service);
    service.directories[0].name = Some("08".into());
    assert_eq!(code_of(service.occupied_slots()), "HOST_SLOT_ID_INVALID");
    assert_eq!(
        code_of(decide(&service, &request(3), ExecutionScope::Job)),
        "HOST_SLOT_ID_INVALID"
    );
    assert!(holds_no_lease_zero(&service));
    assert!(matches!(service.directories[0].content, SlotContent::Live { .. }));
}

#[test]
fn shrink_ignores_idle_leftover_high_slot_directory() {
    let mut service = new_host();
    service.set_slot_count(2).unwrap();
    service.set_slot_count(1).unwrap();
    service
        .directories
        .push(SlotDirectory { name: Some("1".into()), content: SlotContent::Idle });
    acquire(&mut service, &request(1));
    let occupied = slots(&service);
    assert_eq!(occupied.len(), 1);
    assert_eq!(occupied[0].slot_id, 0);
    assert_eq!(service.slot_count().unwrap(), 1);
    let occupancy = service.occupancy().unwrap();
    assert_eq!(occupancy.configured_slots, 1);
    assert_eq!(occupancy.busy_slots, 1);
}

#[test]
fn a_granted_lease_is_given_again_to_the_same_request() {
    let mut service = new_host();
    let lease = acquire(&mut service, &request(1));
    let again = acquire(&mut service, &request(1));
    assert!(lease.same(&again));
    assert_eq!(slots(&service).len(), 1);
    assert_eq!(lease.created_at_millis(), 1);
    assert_eq!(lease.expires_at_millis(), 60_001);
}

#[test]
fn a_released_slot_is_given_to_the_next_request() {
    let mut service = new_host();
    let lease = acquire(&mut service, &request(1));
    assert_eq!(code_of(decide(&service, &request(2), ExecutionScope::Job)), "CAPACITY_BUSY");
    service.release_after_cleanup(&lease, Ok(())).unwrap();
    assert!(slots(&service).is_empty());
    acquire(&mut service, &request(2));
    assert_eq!(slots(&service)[0].slot_id, 0);
}

#[test]
fn a_lease_is_kept_until_its_cleanup_is_proved() {
    let mut service = new_host();
    let lease = acquire(&mut service, &request(1));
    let failed = service.release_after_cleanup(&lease, Err(WorkerError::Io));
    assert!(matches!(failed, Err(WorkerError::Io)));
    assert_eq!(slots(&service).len(), 1);
}

#[test]
fn another_holder_cannot_release_a_lease() {
    let mut service = new_host();
    let mut lease = acquire(&mut service, &request(1));
    lease.client_id = ClientId::new(77);
    match service.release_after_cleanup(&lease, Ok(())) {
        Err(WorkerError::Protocol(text)) => assert_eq!(text, "live lease identity mismatch"),
        _ => panic!("the release was expected to fail"),
    }
    assert_eq!(slots(&service).len(), 1);
}

#[test]
fn only_the_heavy_class_is_admitted() {
    let service = new_host();
    let mut light = request(1).material;
    light.resource_class = "light".into();
    match decide(&service, &LeaseAcquireRequest::new(light), ExecutionScope::Job) {
        Err(WorkerError::Protocol(text)) => {
            assert_eq!(text, "only the heavy resource class is supported")
        }
        _ => panic!("the request was expected to fail"),
    }
}

#[test]
fn an_accepted_job_is_answered_with_its_status() {
    let service = new_host();
    let wanted = request(1);
    let identity = IndexedIdentity {
        job_id: wanted.material.job_id,
        client_id: wanted.material.client_id,
        project_id: wanted.material.project_id.clone(),
        worktree_id: wanted.material.worktree_id.clone(),
        request_fingerprint: wanted.request_fingerprint.clone(),
    };
    let status = JobStatus::accepted(2).unwrap();
    let accepted =
        Some(JobDisposition::Accepted { identity: identity.clone(), status: status.clone() });
    match service.acquire(&wanted, ExecutionScope::Job, &accepted, false, &healthy(), 1) {
        Ok(LeaseDecision::Answer(LeaseAcquireResponse::ExistingAccepted { status: found })) => {
            assert_eq!(found, status)
        }
        _ => panic!("the accepted job was expected"),
    }
    let abandoned = Some(JobDisposition::Abandoned { identity });
    assert!(service
        .acquire(&wanted, ExecutionScope::Job, &abandoned, false, &healthy(), 1)
        .is_err());
}

#[test]
fn admission_needs_disk_memory_and_little_swap() {
    let mut facts = healthy();
    assert!(validate_admission(&facts).is_ok());
    facts.free_disk_bytes = 50 * GIB - 1;
    assert_eq!(code_of(validate_admission(&facts)), "INSUFFICIENT_DISK");
    facts.free_disk_bytes = 50 * GIB;
    assert!(validate_admission(&facts).is_ok());
    facts.total_disk_bytes = 500 * GIB;
    assert_eq!(code_of(validate_admission(&facts)), "INSUFFICIENT_DISK");
    facts = healthy();
    facts.memory_pressure = MemoryPressure::Warning;
    assert!(validate_admission(&facts).is_ok());
    facts.memory_pressure = MemoryPressure::Critical;
    assert_eq!(code_of(validate_admission(&facts)), "MEMORY_PRESSURE");
    facts = healthy();
    facts.swap_used_bytes = Some(2 * GIB);
    assert!(validate_admission(&facts).is_ok());
    facts.swap_used_bytes = Some(2 * GIB + 1);
    assert_eq!(code_of(validate_admission(&facts)), "SWAP_LIMIT");
    facts.swap_used_bytes = None;
    assert!(validate_admission(&facts).is_ok());
}

#[test]
fn slot_names_are_canonical_numbers_below_the_bound() {
    assert_eq!(parse_canonical_slot_id("0").unwrap(), 0);
    assert_eq!(parse_canonical_slot_id("7").unwrap(), 7);
    for name in ["", "00", "08", "8", "+1", "-1", "x", "256"] {
        assert_eq!(code_of(parse_canonical_slot_id(name)), "HOST_SLOT_ID_INVALID", "{name}");
    }
}

#[test]
fn slot_counts_have_bounds() {
    assert!(validate_slot_count(0).is_err());
    assert!(validate_slot_count(1).is_ok());
    assert!(validate_slot_count(MAX_HOST_SLOTS).is_ok());
    assert!(validate_slot_count(MAX_HOST_SLOTS + 1).is_err());
}

#[test]
fn only_one_lease_of_a_task_is_live_in_a_project() {
    assert!(scopes_conflict("p", &task(1), "p", &task(1)));
    assert!(!scopes_conflict("p", &task(1), "q", &task(1)));
    assert!(!scopes_conflict("p", &task(1), "p", &task(2)));
    assert!(!scopes_conflict("p", &ExecutionScope::Job, "p", &ExecutionScope::Job));
    assert_eq!(
        scopes_conflict("p", &task(1), "p", &ExecutionScope::Job),
        scopes_conflict("p", &ExecutionScope::Job, "p", &task(1))
    );
}

#[test]
fn a_host_is_upgraded_only_while_idle() {
    let mut service = new_host();
    assert!(service.promotion_blocked().is_ok());
    acquire(&mut service, &request(1));
    assert_eq!(code_of(service.promotion_blocked()), "HOST_UPGRADE_DRAIN_REQUIRED");
    assert_eq!(service.occupancy().unwrap().slot_state, SlotState::Busy);
    let absent = LeaseService::load_if_present(None).unwrap();
    assert_eq!(absent.slot_state, SlotState::Idle);
    assert_eq!(absent.configured_slots, 1);
    assert_eq!(absent.busy_slots, 0);
}

#[test]
fn a_task_scope_is_live_while_its_lease_is() {
    let mut service = new_host();
    let lease = acquire_in(&mut service, &request(1), task(5));
    let project = "a".repeat(64);
    assert!(service.task_scope_is_live(&project, TaskId::new(5)).unwrap());
    assert!(!service.task_scope_is_live(&project, TaskId::new(6)).unwrap());
    assert!(matches!(service.load_for_job(JobId::new(1)), Ok(Some(_))));
    assert!(matches!(service.load_for_job(JobId::new(9)), Ok(None)));
    service.release_after_cleanup(&lease, Ok(())).unwrap();
    assert!(!service.task_scope_is_live(&project, TaskId::new(5)).unwrap());
}

fn parsed<T>(value: T) -> HostJson<T> {
    HostJson::Parsed { value, bytes: b"{}".to_vec(), rewritten: b"{}".to_vec() }
}

fn complaint(lease: HostJson<LeaseRecord>, scope: HostJson<ExecutionScope>) -> String {
    let files = SlotFiles { lease: Some(lease), scope, entries: Vec::new() };
    match files.content() {
        SlotContent::Unreadable { detail } => detail,
        _ => panic!("the lease was expected to be unreadable"),
    }
}

#[test]
fn a_lease_is_read_only_as_the_host_wrote_it() {
    let mut service = new_host();
    let lease = acquire(&mut service, &request(1));
    let scope = || parsed(ExecutionScope::Job);
    let files = SlotFiles { lease: Some(parsed(lease.clone())), scope: scope(), entries: vec![None] };
    match files.content() {
        SlotContent::Live { lease: found, execution_scope } => {
            assert!(found.same(&lease));
            assert_eq!(execution_scope, ExecutionScope::Job);
        }
        _ => panic!("the lease was expected to be live"),
    }
    assert_eq!(
        complaint(HostJson::Invalid { detail: "no key".into() }, scope()),
        "invalid host JSON: no key"
    );
    assert_eq!(
        complaint(HostJson::Trailing { detail: "more".into() }, scope()),
        "trailing host JSON data: more"
    );
    assert_eq!(complaint(HostJson::Unwritable { detail: "bad".into() }, scope()), "bad");
    let padded = HostJson::Parsed {
        value: lease.clone(),
        bytes: b"{} ".to_vec(),
        rewritten: b"{}".to_vec(),
    };
    assert_eq!(complaint(padded, scope()), "host JSON is not canonical");
    assert_eq!(
        complaint(parsed(lease.clone()), HostJson::Invalid { detail: "no scope".into() }),
        "invalid host JSON: no scope"
    );
    let mut expired = lease;
    expired.expires_at_millis = 0;
    let refusal = match expired.validate() {
        Err(WorkerError::Protocol(text)) => text,
        _ => panic!("the lease was expected to be refused"),
    };
    assert_eq!(complaint(parsed(expired), scope()), refusal);
}

#[test]
fn only_the_marker_stands_in_an_idle_slot() {
    let marker = || Some(ROOT_MARKER.to_string());
    assert!(slot_directory_is_idle(&vec![]).unwrap());
    assert!(slot_directory_is_idle(&vec![marker()]).unwrap());
    assert!(!slot_directory_is_idle(&vec![marker(), Some("scope.json".into()), None]).unwrap());
    assert!(slot_directory_is_idle(&vec![marker(), None]).is_err());
    let content = |entries| {
        SlotFiles { lease: None, scope: parsed(ExecutionScope::Job), entries }.content()
    };
    assert!(matches!(content(vec![marker()]), SlotContent::Idle));
    assert!(matches!(content(vec![Some("x".into())]), SlotContent::Foreign));
    assert!(matches!(content(vec![None]), SlotContent::Unnamed));
    let mut service = new_host();
    service.directories.push(SlotDirectory { name: Some("0".into()), content: content(vec![None]) });
    match service.occupied_slots() {
        Err(WorkerError::Protocol(text)) => assert_eq!(text, "slot entry name is not UTF-8"),
        _ => panic!("the slot was expected to be refused"),
    }
}

#[test]
fn a_promoted_host_keeps_its_capacity() {
    let mut fresh = SlotLayout { slots_present: false, capacity: CapacityFile::Missing };
    promote_slot_directories(&mut fresh);
    assert!(fresh.slots_present);
    assert_eq!(fresh.capacity, CapacityFile::Recorded { slot_count: 1 });
    let mut grown =
        SlotLayout { slots_present: true, capacity: CapacityFile::Recorded { slot_count: 3 } };
    promote_slot_directories(&mut grown);
    assert_eq!(grown.capacity, CapacityFile::Recorded { slot_count: 3 });
}
