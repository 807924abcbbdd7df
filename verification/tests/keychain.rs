use mac_worker::error::WorkerError;
use mac_worker::keychain::{
    first_output_line, is_reserved_env_name, unlock_failure, unlock_outcome, EnvEntry,
    KeychainUnlockConfig,
};

fn var(name: &str, value: &str) -> EnvEntry {
    EnvEntry { name: name.as_bytes().to_vec(), value: value.as_bytes().to_vec() }
}

#[test]
fn nothing_is_unlocked_without_a_password() {
    let entries = vec![var("MAC_WORKER_KEYCHAIN_PATH", "/k")];
    assert!(KeychainUnlockConfig::from_entries(&entries, b"/Users/me").is_none());
}

#[test]
fn the_login_keychain_is_the_default() {
    let entries = vec![var("PATH", "/bin"), var("MAC_WORKER_KEYCHAIN_PASSWORD", "pw")];
    let config = KeychainUnlockConfig::from_entries(&entries, b"/Users/me").unwrap();
    assert_eq!(config.password(), b"pw");
    assert_eq!(config.path(), b"/Users/me/Library/Keychains/login.keychain-db");
    assert_eq!(config.unlock_input(), b"pw\n".to_vec());
    assert_eq!(
        config.unlock_arguments(),
        vec![
            b"unlock-keychain".to_vec(),
            b"/Users/me/Library/Keychains/login.keychain-db".to_vec(),
        ]
    );
    let slashed = KeychainUnlockConfig::from_entries(&entries, b"/Users/me/").unwrap();
    assert_eq!(slashed.path(), b"/Users/me/Library/Keychains/login.keychain-db");
}

#[test]
fn another_keychain_can_be_named() {
    let entries = vec![
        var("MAC_WORKER_KEYCHAIN_PATH", "/k"),
        var("MAC_WORKER_KEYCHAIN_PASSWORD", "pw"),
    ];
    let config = KeychainUnlockConfig::from_entries(&entries, b"/Users/me").unwrap();
    assert_eq!(config.path(), b"/k");
}

#[test]
fn keychain_variables_are_reserved() {
    assert!(is_reserved_env_name("MAC_WORKER_KEYCHAIN_PASSWORD"));
    assert!(is_reserved_env_name("MAC_WORKER_KEYCHAIN_PATH"));
    assert!(!is_reserved_env_name("PATH"));
}

#[test]
fn the_first_line_of_output_tells_why() {
    assert_eq!(first_output_line(b"bad\nworse\n", b"").as_deref(), Some("bad"));
    assert_eq!(first_output_line(b"", b"said\n").as_deref(), Some("said"));
    assert_eq!(first_output_line(b"", b""), None);
    let failure = unlock_failure(Some("denied"));
    assert!(format!("{failure:?}").contains("denied"));
    assert!(!matches!(unlock_failure(None), WorkerError::Io));
}

#[test]
fn a_keychain_shows_neither_password_nor_path() {
    let entries = vec![var("MAC_WORKER_KEYCHAIN_PASSWORD", "secret")];
    let config = KeychainUnlockConfig::from_entries(&entries, b"/Users/me").unwrap();
    assert_eq!(
        config.debug_text(),
        "KeychainUnlockConfig { password: \"[redacted]\", path: \"[redacted]\" }"
    );
}

#[test]
fn an_unlocking_ends_well_or_tells_why() {
    let told = |ended_well, reason| match unlock_outcome(ended_well, reason) {
        Err(WorkerError::Protocol(text)) => text,
        other => panic!("{other:?}"),
    };
    assert!(unlock_outcome(Some(true), Some("noise")).is_ok());
    assert_eq!(
        told(Some(false), Some("bad password")),
        "KEYCHAIN_UNLOCK_FAILED: keychain unlock failed: bad password"
    );
    assert_eq!(told(Some(false), None), "KEYCHAIN_UNLOCK_FAILED: keychain unlock failed");
    assert_eq!(told(Some(false), Some("")), "KEYCHAIN_UNLOCK_FAILED: keychain unlock failed");
    assert_eq!(told(None, Some("unseen")), "KEYCHAIN_UNLOCK_FAILED: keychain unlock failed");
}
