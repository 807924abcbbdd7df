//! How a snapshot is written down, and in what order.
use vstd::prelude::*;
use vstd::string::*;
use crate::manifest::{
    canonical_manifests_are_ordered, entries_by_path, entry_models, in_order, json_bool, json_opt,
    paths, paths_differ, place, text_le, EntryModel, ManifestEntry, ManifestEntryKind,
    ManifestModel, SnapshotManifest,
};
use crate::outside::{json_string_text, sha256_digest};
use crate::text::{bytes_le, decimal, hex_char, hex_text, join, le_is_total, opt_text, texts, utf8};

verus! {

/// A bit of a snapshot is written as a JSON literal, an optional text as a
/// string or as null, and the kinds of entries by their names.
pub proof fn small_values_are_written(text: Seq<char>)
    ensures
        json_bool(true) == "true"@,
        json_bool(false) == "false"@,
        json_opt(Some(text)) == json_string_text(text),
        json_opt(None) == "null"@,
        ManifestEntryKind::File.spelling() == "file"@,
        ManifestEntryKind::Symlink.spelling() == "symlink"@,
        ManifestEntryKind::Directory.spelling() == "directory"@,
{
}

/// A byte is written as two hexadecimal digits, the high one first, and bytes
/// one after the other.
pub proof fn bytes_are_written_in_pairs(bytes: Seq<u8>, at: int, digit: int)
    requires
        0 <= at < bytes.len(),
        0 <= digit < 16,
    ensures
        hex_text(bytes).len() == 2 * bytes.len(),
        hex_text(bytes)[2 * at] == hex_char(bytes[at] as int / 16),
        hex_text(bytes)[2 * at + 1] == hex_char(bytes[at] as int % 16),
        digit < 10 ==> hex_char(digit) as int == '0' as int + digit,
        digit >= 10 ==> hex_char(digit) as int == 'a' as int + (digit - 10),
    decreases bytes.len(),
{
    let less = bytes.drop_last();
    if at < bytes.len() - 1 {
        bytes_are_written_in_pairs(less, at, digit);
        assert(less[at] == bytes[at]);
    } else if less.len() > 0 {
        bytes_are_written_in_pairs(less, 0, digit);
    } else {
        assert(hex_text(less) =~= Seq::<char>::empty());
    }
}

/// An entry is written with all its fields, in this order.
pub proof fn entries_are_written_out(entry: ManifestEntry)
    ensures
        entry@.json() == "{"@ + join(
            seq![
                "\"path\":"@ + json_string_text(entry.path@),
                "\"kind\":"@ + json_string_text(entry.kind.spelling()),
                "\"mode\":"@ + decimal(entry.mode as nat),
                "\"size\":"@ + decimal(entry.size as nat),
                "\"sha256\":"@ + json_string_text(entry.sha256@),
                "\"symlink_target\":"@ + match entry.symlink_target {
                    Some(target) => json_string_text(target@),
                    None => "null"@,
                },
            ],
            ","@,
        ) + "}"@,
{
    assert(entry@.json_fields() =~= seq![
        "\"path\":"@ + json_string_text(entry.path@),
        "\"kind\":"@ + json_string_text(entry.kind.spelling()),
        "\"mode\":"@ + decimal(entry.mode as nat),
        "\"size\":"@ + decimal(entry.size as nat),
        "\"sha256\":"@ + json_string_text(entry.sha256@),
        "\"symlink_target\":"@ + match entry.symlink_target {
            Some(target) => json_string_text(target@),
            None => "null"@,
        },
    ]);
}

/// A snapshot is written with all its fields, in this order.
pub proof fn snapshots_are_written_out(manifest: SnapshotManifest)
    ensures
        manifest@.json() == "{"@ + join(
            seq![
                "\"version\":"@ + decimal(manifest.version as nat),
                "\"project_id\":"@ + json_string_text(manifest.project_id@),
                "\"worktree_id\":"@ + json_string_text(manifest.worktree_id@),
                "\"head\":"@ + json_opt(opt_text(manifest.head)),
                "\"branch\":"@ + json_opt(opt_text(manifest.branch)),
                "\"dirty\":"@ + if manifest.dirty {
                    "true"@
                } else {
                    "false"@
                },
                "\"relative_working_dir\":"@ + json_string_text(manifest.relative_working_dir@),
                "\"entries\":["@ + join(
                    Seq::new(manifest.entries@.len(), |i: int| manifest.entries@[i]@.json()),
                    ","@,
                ) + "]"@,
                "\"tracked_deletions\":["@ + join(
                    Seq::new(
                        manifest.tracked_deletions@.len(),
                        |i: int| json_string_text(manifest.tracked_deletions@[i]@),
                    ),
                    ","@,
                ) + "]"@,
            ],
            ","@,
        ) + "}"@,
{
    assert(entry_models(manifest.entries@).map_values(|entry: EntryModel| entry.json())
        =~= Seq::new(manifest.entries@.len(), |i: int| manifest.entries@[i]@.json()));
    assert(texts(manifest.tracked_deletions@).map_values(
        |name: Seq<char>| json_string_text(name),
    ) =~= Seq::new(
        manifest.tracked_deletions@.len(),
        |i: int| json_string_text(manifest.tracked_deletions@[i]@),
    ));
    let model = manifest@;
    assert(model.json_fields() =~= seq![
        "\"version\":"@ + decimal(manifest.version as nat),
        "\"project_id\":"@ + json_string_text(manifest.project_id@),
        "\"worktree_id\":"@ + json_string_text(manifest.worktree_id@),
        "\"head\":"@ + json_opt(opt_text(manifest.head)),
        "\"branch\":"@ + json_opt(opt_text(manifest.branch)),
        "\"dirty\":"@ + if manifest.dirty {
            "true"@
        } else {
            "false"@
        },
        "\"relative_working_dir\":"@ + json_string_text(manifest.relative_working_dir@),
        "\"entries\":["@ + join(
            Seq::new(manifest.entries@.len(), |i: int| manifest.entries@[i]@.json()),
            ","@,
        ) + "]"@,
        "\"tracked_deletions\":["@ + join(
            Seq::new(
                manifest.tracked_deletions@.len(),
                |i: int| json_string_text(manifest.tracked_deletions@[i]@),
            ),
            ","@,
        ) + "]"@,
    ]);
}

/// Only entries and deletions are put in order, each by the bytes of its path
/// or name; nothing else is changed, and nothing is lost or added. The digest
/// is that of the bytes of what is then written.
pub proof fn canonical_snapshots_are_in_byte_order(manifest: ManifestModel, first: int, second: int)
    ensures
        ({
            let canonical = manifest.canonical();
            &&& 0 <= first < second < canonical.entries.len() ==> bytes_le(
                utf8(canonical.entries[first].path),
                utf8(canonical.entries[second].path),
            )
            &&& 0 <= first < second < canonical.tracked_deletions.len() ==> bytes_le(
                utf8(canonical.tracked_deletions[first]),
                utf8(canonical.tracked_deletions[second]),
            )
            &&& canonical.entries.to_multiset() == manifest.entries.to_multiset()
            &&& canonical.tracked_deletions.to_multiset()
                == manifest.tracked_deletions.to_multiset()
            &&& canonical.version == manifest.version
            &&& canonical.project_id == manifest.project_id
            &&& canonical.worktree_id == manifest.worktree_id
            &&& canonical.head == manifest.head
            &&& canonical.branch == manifest.branch
            &&& canonical.dirty == manifest.dirty
            &&& canonical.relative_working_dir == manifest.relative_working_dir
            &&& manifest.digest() == hex_text(sha256_digest(utf8(canonical.json())))
        }),
{
    canonical_manifests_are_ordered(manifest);
    let canonical = manifest.canonical();
    let names = paths(canonical.entries);
    if 0 <= first < second < canonical.entries.len() {
        assert(names[first] == canonical.entries[first].path);
        assert(names[second] == canonical.entries[second].path);
    }
    if 0 <= first < second < canonical.tracked_deletions.len() {
        assert(text_le(canonical.tracked_deletions[first], canonical.tracked_deletions[second]));
    }
}

/// A name goes behind every name that does not come after it, and before the
/// rest of those in front of which it was looked for.
pub proof fn names_go_behind_their_equals(ordered: Seq<Seq<char>>, name: Seq<char>, at: int)
    requires
        0 <= at <= ordered.len(),
    ensures
        0 <= place(ordered, name, at) <= at,
        place(ordered, name, at) > 0 ==> bytes_le(
            utf8(ordered[place(ordered, name, at) - 1]),
            utf8(name),
        ),
        forall|i: int|
            place(ordered, name, at) <= i < at ==> !bytes_le(
                utf8(#[trigger] ordered[i]),
                utf8(name),
            ),
    decreases at,
{
    if at > 0 && !text_le(ordered[at - 1], name) {
        names_go_behind_their_equals(ordered, name, at - 1);
    }
}

/// Entries of one path stay in the order in which they were found: the one that
/// was found last stands behind every other.
pub proof fn later_entries_stand_behind(entries: Seq<EntryModel>, count: int)
    requires
        0 < count <= entries.len(),
    ensures
        ({
            let before = entries_by_path(entries, count - 1);
            let entry = entries[count - 1];
            let at = place(paths(before), entry.path, before.len() as int);
            &&& 0 <= at <= before.len()
            &&& entries_by_path(entries, count) == before.subrange(0, at) + seq![entry]
                + before.subrange(at, before.len() as int)
            &&& forall|i: int|
                at <= i < before.len() ==> (#[trigger] before[i]).path != entry.path
        }),
{
    let before = entries_by_path(entries, count - 1);
    let entry = entries[count - 1];
    let names = paths(before);
    let at = place(names, entry.path, before.len() as int);
    names_go_behind_their_equals(names, entry.path, before.len() as int);
    assert(entries_by_path(entries, count) =~= before.subrange(0, at) + seq![entry]
        + before.subrange(at, before.len() as int));
    assert forall|i: int| at <= i < before.len() implies (#[trigger] before[i]).path
        != entry.path by {
        assert(names[i] == before[i].path);
        le_is_total(utf8(entry.path), utf8(entry.path));
    }
}

/// The orders that snapshots are compared by.
pub proof fn orders_go_by_bytes(
    names: Seq<Seq<char>>,
    entries: Seq<EntryModel>,
    first: int,
    second: int,
)
    ensures
        in_order(names) && 0 <= first < second < names.len() ==> bytes_le(
            utf8(names[first]),
            utf8(names[second]),
        ),
        !in_order(names) ==> exists|i: int, j: int|
            0 <= i < j < names.len() && !bytes_le(
                utf8(#[trigger] names[i]),
                utf8(#[trigger] names[j]),
            ),
        paths_differ(entries) && 0 <= first < entries.len() && 0 <= second < entries.len() && first
            != second ==> entries[first].path != entries[second].path,
        paths(entries).len() == entries.len(),
        0 <= first < entries.len() ==> paths(entries)[first] == entries[first].path,
{
    if in_order(names) && 0 <= first < second < names.len() {
        assert(text_le(names[first], names[second]));
    }
}

} // verus!
