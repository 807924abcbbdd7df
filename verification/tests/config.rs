use mac_worker::config::{select_workers, valid_ssh_destination, Config, WorkerEntry};
use mac_worker::error::WorkerError;
use mac_worker::lease::MAX_HOST_SLOTS;

fn worker(name: &str, ssh: &str) -> WorkerEntry {
    WorkerEntry {
        name: name.into(),
        ssh: ssh.into(),
        slots: 1,
        capabilities: vec!["darwin-arm64".into()],
        remote_binary: "~/.local/bin/worker".into(),
    }
}

fn inventory() -> Config {
    Config {
        version: 1,
        workers: vec![worker("mini-1", "yourname@mini.local")],
        controller_enabled: false,
    }
}

fn rejected(config: &Config) -> bool {
    matches!(config.validate(), Err(WorkerError::Config(_)))
}

#[test]
fn duplicate_worker_names_are_rejected() {
    let mut duplicate = inventory();
    duplicate.workers.push(duplicate.workers[0].clone());
    assert!(rejected(&duplicate));
}

#[test]
fn slots_outside_host_bound_are_rejected() {
    let mut config = inventory();
    config.workers[0].slots = 2;
    assert!(config.validate().is_ok());

    config.workers[0].slots = 0;
    assert!(rejected(&config));

    config.workers[0].slots = MAX_HOST_SLOTS + 1;
    assert!(rejected(&config));
}

#[test]
fn invalid_versions_and_empty_inventories_are_rejected() {
    for version in [2, 1] {
        let config = Config { version, workers: Vec::new(), controller_enabled: false };
        assert!(rejected(&config));
    }
}

#[test]
fn invalid_worker_fields_are_rejected() {
    for (name, ssh) in [("", "mac1"), ("mini 1", "mac1"), ("mini-1", "mac;1")] {
        let mut config = inventory();
        config.workers = vec![worker(name, ssh)];
        assert!(rejected(&config));
    }
    let mut config = inventory();
    config.workers = vec![worker("mini-1", "mac1")];
    assert!(config.validate().is_ok());
    config.workers[0].capabilities = vec!["darwin-arm64".into(), "darwin-arm64".into()];
    assert!(rejected(&config));
    config.workers = vec![worker("mini-1", "mac1")];
    config.workers[0].remote_binary = "/tmp/worker".into();
    assert!(rejected(&config));
}

#[test]
fn ssh_destinations_must_start_with_an_ascii_alphanumeric_character() {
    for destination in ["-V", "-Efoo"] {
        let mut config = inventory();
        config.workers = vec![worker("mini-1", destination)];
        assert!(rejected(&config), "destination {destination:?} must be rejected");
        assert!(!valid_ssh_destination(destination));
    }
}

#[test]
fn duplicate_ssh_destinations_are_rejected() {
    let mut config = inventory();
    config.workers = vec![worker("mini-1", "mac1"), worker("mini-2", "mac1")];
    assert!(rejected(&config));
}

#[test]
fn workers_are_found_by_name() {
    let config = inventory();
    assert!(config.validate().is_ok());
    assert_eq!(config.worker("mini-1").unwrap().ssh, "yourname@mini.local");
    assert!(config.worker("not-configured").is_none());
}

#[test]
fn workers_are_selected_in_the_order_asked_for() {
    let mut config = inventory();
    config.workers.push(worker("mini-2", "mac2"));
    let all = select_workers(&config, &Vec::new()).unwrap();
    assert_eq!(all.len(), 2);
    let chosen = select_workers(&config, &vec!["mini-2".into(), "mini-1".into()]).unwrap();
    assert_eq!(chosen[0].name, "mini-2");
    assert_eq!(chosen[1].name, "mini-1");
    match select_workers(&config, &vec!["mini-2".into(), "no\"ne".into()]) {
        Err(WorkerError::Config(text)) => {
            assert_eq!(text, "worker \"no\\\"ne\" is not present in the inventory")
        }
        _ => panic!("an unknown worker was expected to be refused"),
    }
}
