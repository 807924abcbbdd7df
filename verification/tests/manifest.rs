use mac_worker::manifest::{ManifestEntry, ManifestEntryKind, SnapshotManifest};

fn file(path: &str) -> ManifestEntry {
    ManifestEntry {
        path: path.into(),
        kind: ManifestEntryKind::File,
        mode: 0o644,
        size: 2,
        sha256: "1".repeat(64),
        symlink_target: None,
    }
}

fn link(path: &str, target: &str) -> ManifestEntry {
    ManifestEntry {
        path: path.into(),
        kind: ManifestEntryKind::Symlink,
        mode: 0o777,
        size: 1,
        sha256: "2".repeat(64),
        symlink_target: Some(target.into()),
    }
}

fn manifest(entries: Vec<ManifestEntry>, deletions: Vec<&str>) -> SnapshotManifest {
    SnapshotManifest {
        version: 1,
        project_id: "p".into(),
        worktree_id: "w".into(),
        head: None,
        branch: Some("main".into()),
        dirty: true,
        relative_working_dir: String::new(),
        entries,
        tracked_deletions: deletions.iter().map(|name| name.to_string()).collect(),
    }
}

#[test]
fn manifests_have_one_canonical_text() {
    let shuffled = manifest(vec![link("b", "a"), file("a")], vec!["d\"e", "c"]);
    let expected = format!(
        "{{\"version\":1,\"project_id\":\"p\",\"worktree_id\":\"w\",\"head\":null,\
         \"branch\":\"main\",\"dirty\":true,\"relative_working_dir\":\"\",\"entries\":[\
         {{\"path\":\"a\",\"kind\":\"file\",\"mode\":420,\"size\":2,\"sha256\":\"{}\",\
         \"symlink_target\":null}},{{\"path\":\"b\",\"kind\":\"symlink\",\"mode\":511,\"size\":1,\
         \"sha256\":\"{}\",\"symlink_target\":\"a\"}}],\"tracked_deletions\":[\"c\",\"d\\\"e\"]}}",
        "1".repeat(64),
        "2".repeat(64)
    );
    assert_eq!(shuffled.canonical_json(), expected);
    assert_eq!(shuffled.canonical_bytes(), expected.as_bytes());
}

#[test]
fn digests_are_the_same_for_any_order() {
    let one = manifest(vec![file("a"), link("b", "a")], vec!["c", "d\"e"]);
    let other = manifest(vec![link("b", "a"), file("a")], vec!["d\"e", "c"]);
    assert_eq!(
        one.digest(),
        "bac584a6c708bd746aa015bd4c4c5cd7547f2f0ff64be375ab1764f6ce2fea4e"
    );
    assert_eq!(one.digest(), other.digest());
    let changed = manifest(vec![file("a"), link("b", "c")], vec!["c", "d\"e"]);
    assert_ne!(one.digest(), changed.digest());
}
