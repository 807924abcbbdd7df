//! The files that a snapshot is made of, and the digest that it is known by.
use vstd::prelude::*;
use vstd::multiset::Multiset;
use vstd::string::*;
use crate::outside::{json_string, json_string_text, sha256, sha256_digest};
use crate::text::{
    bytes_le, clone_opt, decimal, decimal_text, hex_of, hex_text, hex_text_is_lower_hex, is_bytes_le,
    join, joined, le_is_antisymmetric, le_is_total, le_is_transitive, lower_hex, opt_text, opt_text_eq, text_eq, texts, utf8,
    utf8_injective,
};

verus! {

#[derive(Debug, Clone, Copy, PartialEq, Eq, Structural)]
pub enum ManifestEntryKind {
    File,
    Symlink,
    Directory,
}

impl ManifestEntryKind {
    pub open spec fn spelling(self) -> Seq<char> {
        match self {
            ManifestEntryKind::File => "file"@,
            ManifestEntryKind::Symlink => "symlink"@,
            ManifestEntryKind::Directory => "directory"@,
        }
    }

    fn name(self) -> (name: &'static str)
        ensures
            name@ == self.spelling(),
    {
        match self {
            ManifestEntryKind::File => "file",
            ManifestEntryKind::Symlink => "symlink",
            ManifestEntryKind::Directory => "directory",
        }
    }
}

/// One file, link or directory of a snapshot.
#[derive(Debug, PartialEq, Eq)]
pub struct ManifestEntry {
    pub path: String,
    pub kind: ManifestEntryKind,
    pub mode: u32,
    pub size: u64,
    pub sha256: String,
    pub symlink_target: Option<String>,
}

/// What a [`ManifestEntry`] says.
pub struct EntryModel {
    pub path: Seq<char>,
    pub kind: ManifestEntryKind,
    pub mode: u32,
    pub size: u64,
    pub sha256: Seq<char>,
    pub symlink_target: Option<Seq<char>>,
}

impl View for ManifestEntry {
    type V = EntryModel;

    open spec fn view(&self) -> EntryModel {
        EntryModel {
            path: self.path@,
            kind: self.kind,
            mode: self.mode,
            size: self.size,
            sha256: self.sha256@,
            symlink_target: opt_text(self.symlink_target),
        }
    }
}

impl Clone for ManifestEntry {
    fn clone(&self) -> (copy: ManifestEntry)
        ensures
            copy == *self,
    {
        ManifestEntry {
            path: self.path.clone(),
            kind: self.kind,
            mode: self.mode,
            size: self.size,
            sha256: self.sha256.clone(),
            symlink_target: clone_opt(&self.symlink_target),
        }
    }
}

impl ManifestEntry {
    /// Whether two records say the same.
    pub fn same(&self, other: &ManifestEntry) -> (same: bool)
        ensures
            same == (self@ == other@),
    {
        text_eq(self.path.as_str(), other.path.as_str())
            && self.kind == other.kind
            && self.mode == other.mode
            && self.size == other.size
            && text_eq(self.sha256.as_str(), other.sha256.as_str())
            && opt_text_eq(&self.symlink_target, &other.symlink_target)
    }
}

/// A snapshot of a worktree.
#[derive(Debug, PartialEq, Eq)]
pub struct SnapshotManifest {
    pub version: u32,
    pub project_id: String,
    pub worktree_id: String,
    pub head: Option<String>,
    pub branch: Option<String>,
    pub dirty: bool,
    pub relative_working_dir: String,
    pub entries: Vec<ManifestEntry>,
    pub tracked_deletions: Vec<String>,
}

/// What a [`SnapshotManifest`] says.
pub struct ManifestModel {
    pub version: u32,
    pub project_id: Seq<char>,
    pub worktree_id: Seq<char>,
    pub head: Option<Seq<char>>,
    pub branch: Option<Seq<char>>,
    pub dirty: bool,
    pub relative_working_dir: Seq<char>,
    pub entries: Seq<EntryModel>,
    pub tracked_deletions: Seq<Seq<char>>,
}

/// What a list of entries says.
pub open spec fn entry_models(entries: Seq<ManifestEntry>) -> Seq<EntryModel> {
    entries.map_values(|entry: ManifestEntry| entry@)
}

impl View for SnapshotManifest {
    type V = ManifestModel;

    open spec fn view(&self) -> ManifestModel {
        ManifestModel {
            version: self.version,
            project_id: self.project_id@,
            worktree_id: self.worktree_id@,
            head: opt_text(self.head),
            branch: opt_text(self.branch),
            dirty: self.dirty,
            relative_working_dir: self.relative_working_dir@,
            entries: entry_models(self.entries@),
            tracked_deletions: texts(self.tracked_deletions@),
        }
    }
}

/// Texts are ordered by their bytes.
pub open spec fn text_le(left: Seq<char>, right: Seq<char>) -> bool {
    bytes_le(utf8(left), utf8(right))
}

/// The place of a new name among the first `at` of some ordered names: behind
/// every one that does not come after it.
pub open spec fn place(ordered: Seq<Seq<char>>, name: Seq<char>, at: int) -> int
    decreases at,
{
    if at <= 0 {
        0
    } else if text_le(ordered[at - 1], name) {
        at
    } else {
        place(ordered, name, at - 1)
    }
}

/// The paths of some entries.
pub open spec fn paths(entries: Seq<EntryModel>) -> Seq<Seq<char>> {
    entries.map_values(|entry: EntryModel| entry.path)
}

/// The first `count` entries by path; entries of one path keep their order.
pub open spec fn entries_by_path(entries: Seq<EntryModel>, count: int) -> Seq<EntryModel>
    decreases count,
{
    if count <= 0 {
        seq![]
    } else {
        let ordered = entries_by_path(entries, count - 1);
        let entry = entries[count - 1];
        ordered.insert(place(paths(ordered), entry.path, ordered.len() as int), entry)
    }
}

/// The first `count` names in order.
pub open spec fn names_in_order(names: Seq<Seq<char>>, count: int) -> Seq<Seq<char>>
    decreases count,
{
    if count <= 0 {
        seq![]
    } else {
        let ordered = names_in_order(names, count - 1);
        ordered.insert(place(ordered, names[count - 1], ordered.len() as int), names[count - 1])
    }
}

/// An optional text in JSON.
pub open spec fn json_opt(value: Option<Seq<char>>) -> Seq<char> {
    match value {
        Some(text) => json_string_text(text),
        None => "null"@,
    }
}

pub open spec fn json_bool(value: bool) -> Seq<char> {
    if value {
        "true"@
    } else {
        "false"@
    }
}

impl EntryModel {
    pub open spec fn json_fields(self) -> Seq<Seq<char>> {
        seq![
            "\"path\":"@ + json_string_text(self.path),
            "\"kind\":"@ + json_string_text(self.kind.spelling()),
            "\"mode\":"@ + decimal(self.mode as nat),
            "\"size\":"@ + decimal(self.size as nat),
            "\"sha256\":"@ + json_string_text(self.sha256),
            "\"symlink_target\":"@ + json_opt(self.symlink_target),
        ]
    }

    pub open spec fn json(self) -> Seq<char> {
        "{"@ + join(self.json_fields(), ","@) + "}"@
    }
}

impl ManifestModel {
    pub open spec fn json_fields(self) -> Seq<Seq<char>> {
        seq![
            "\"version\":"@ + decimal(self.version as nat),
            "\"project_id\":"@ + json_string_text(self.project_id),
            "\"worktree_id\":"@ + json_string_text(self.worktree_id),
            "\"head\":"@ + json_opt(self.head),
            "\"branch\":"@ + json_opt(self.branch),
            "\"dirty\":"@ + json_bool(self.dirty),
            "\"relative_working_dir\":"@ + json_string_text(self.relative_working_dir),
            "\"entries\":["@ + join(
                self.entries.map_values(|entry: EntryModel| entry.json()),
                ","@,
            ) + "]"@,
            "\"tracked_deletions\":["@ + join(
                self.tracked_deletions.map_values(|name: Seq<char>| json_string_text(name)),
                ","@,
            ) + "]"@,
        ]
    }

    /// The manifest in JSON, as it stands.
    pub open spec fn json(self) -> Seq<char> {
        "{"@ + join(self.json_fields(), ","@) + "}"@
    }

    /// The manifest with its entries and deletions in order.
    pub open spec fn canonical(self) -> ManifestModel {
        ManifestModel {
            entries: entries_by_path(self.entries, self.entries.len() as int),
            tracked_deletions: names_in_order(
                self.tracked_deletions,
                self.tracked_deletions.len() as int,
            ),
            ..self
        }
    }

    /// The SHA-256 digest of the canonical JSON, in lowercase hexadecimal.
    pub open spec fn digest(self) -> Seq<char> {
        hex_text(sha256_digest(utf8(self.canonical().json())))
    }
}

fn field(key: &str, value: String) -> (field: String)
    ensures
        field@ == key@ + value@,
{
    key.to_owned().concat(value.as_str())
}

fn opt_json(value: &Option<String>) -> (json: String)
    ensures
        json@ == json_opt(opt_text(*value)),
{
    match value {
        Some(text) => json_string(text.as_str()),
        None => "null".to_owned(),
    }
}

fn text_is_le(left: &str, right: &str) -> (le: bool)
    ensures
        le == text_le(left@, right@),
{
    is_bytes_le(left.as_bytes(), right.as_bytes())
}

impl ManifestEntry {
    fn json(&self) -> (json: String)
        ensures
            json@ == self@.json(),
    {
        let mut fields: Vec<String> = Vec::new();
        fields.push(field("\"path\":", json_string(self.path.as_str())));
        fields.push(field("\"kind\":", json_string(self.kind.name())));
        fields.push(field("\"mode\":", decimal_text(self.mode as u64)));
        fields.push(field("\"size\":", decimal_text(self.size)));
        fields.push(field("\"sha256\":", json_string(self.sha256.as_str())));
        fields.push(field("\"symlink_target\":", opt_json(&self.symlink_target)));
        assert(texts(fields@) =~= self@.json_fields());
        "{".to_owned().concat(joined(&fields, ",").as_str()).concat("}")
    }
}

/// The entries by path.
fn ordered_entries(entries: &Vec<ManifestEntry>) -> (ordered: Vec<ManifestEntry>)
    ensures
        entry_models(ordered@) == entries_by_path(
            entry_models(entries@),
            entries@.len() as int,
        ),
{
    let mut ordered: Vec<ManifestEntry> = Vec::new();
    let ghost all = entry_models(entries@);
    assert(entry_models(ordered@) =~= entries_by_path(all, 0));
    let mut i: usize = 0;
    while i < entries.len()
        invariant
            i <= entries.len(),
            all == entry_models(entries@),
            entry_models(ordered@) == entries_by_path(all, i as int),
        decreases entries.len() - i,
    {
        let ghost before = entry_models(ordered@);
        let path = entries[i].path.as_str();
        let mut at: usize = ordered.len();
        while at > 0 && !text_is_le(ordered[at - 1].path.as_str(), path)
            invariant
                at <= ordered.len(),
                before == entry_models(ordered@),
                place(paths(before), path@, ordered@.len() as int) == place(
                    paths(before),
                    path@,
                    at as int,
                ),
            decreases at,
        {
            assert(paths(before)[at - 1] == ordered@[at - 1].path@);
            at -= 1;
        }
        proof {
            if at > 0 {
                assert(paths(before)[at - 1] == ordered@[at - 1].path@);
            }
            assert(all[i as int] == entries@[i as int]@);
        }
        ordered.insert(at, entries[i].clone());
        assert(entry_models(ordered@) =~= before.insert(at as int, all[i as int]));
        i += 1;
    }
    ordered
}

/// The names in order.
fn ordered_names(names: &Vec<String>) -> (ordered: Vec<String>)
    ensures
        texts(ordered@) == names_in_order(texts(names@), names@.len() as int),
{
    let mut ordered: Vec<String> = Vec::new();
    let ghost all = texts(names@);
    assert(texts(ordered@) =~= names_in_order(all, 0));
    let mut i: usize = 0;
    while i < names.len()
        invariant
            i <= names.len(),
            all == texts(names@),
            texts(ordered@) == names_in_order(all, i as int),
        decreases names.len() - i,
    {
        let ghost before = texts(ordered@);
        let name = names[i].as_str();
        let mut at: usize = ordered.len();
        while at > 0 && !text_is_le(ordered[at - 1].as_str(), name)
            invariant
                at <= ordered.len(),
                before == texts(ordered@),
                place(before, name@, ordered@.len() as int) == place(before, name@, at as int),
            decreases at,
        {
            assert(before[at - 1] == ordered@[at - 1]@);
            at -= 1;
        }
        proof {
            if at > 0 {
                assert(before[at - 1] == ordered@[at - 1]@);
            }
            assert(all[i as int] == names@[i as int]@);
        }
        ordered.insert(at, names[i].clone());
        assert(texts(ordered@) =~= before.insert(at as int, all[i as int]));
        i += 1;
    }
    ordered
}

impl SnapshotManifest {
    /// The canonical JSON of the snapshot: every field, entries and deletions
    /// in the order of their bytes.
    pub fn canonical_json(&self) -> (json: String)
        ensures
            json@ == self@.canonical().json(),
    {
        let ghost canonical = self@.canonical();
        let entries = ordered_entries(&self.entries);
        let names = ordered_names(&self.tracked_deletions);
        let mut entry_texts: Vec<String> = Vec::new();
        let mut i: usize = 0;
        while i < entries.len()
            invariant
                i <= entries.len(),
                entry_texts@.len() == i,
                forall|j: int| 0 <= j < i ==> #[trigger] entry_texts@[j]@ == entries@[j]@.json(),
            decreases entries.len() - i,
        {
            entry_texts.push(entries[i].json());
            i += 1;
        }
        let mut name_texts: Vec<String> = Vec::new();
        let mut k: usize = 0;
        while k < names.len()
            invariant
                k <= names.len(),
                name_texts@.len() == k,
                forall|j: int|
                    0 <= j < k ==> #[trigger] name_texts@[j]@ == json_string_text(names@[j]@),
            decreases names.len() - k,
        {
            name_texts.push(json_string(names[k].as_str()));
            k += 1;
        }
        proof {
            assert(entry_models(entries@) == canonical.entries);
            assert(texts(names@) == canonical.tracked_deletions);
            assert(texts(entry_texts@) =~= canonical.entries.map_values(
                |entry: EntryModel| entry.json(),
            ));
            assert(texts(name_texts@) =~= canonical.tracked_deletions.map_values(
                |name: Seq<char>| json_string_text(name),
            ));
        }
        let mut fields: Vec<String> = Vec::new();
        fields.push(field("\"version\":", decimal_text(self.version as u64)));
        fields.push(field("\"project_id\":", json_string(self.project_id.as_str())));
        fields.push(field("\"worktree_id\":", json_string(self.worktree_id.as_str())));
        fields.push(field("\"head\":", opt_json(&self.head)));
        fields.push(field("\"branch\":", opt_json(&self.branch)));
        let dirty = if self.dirty {
            "true".to_owned()
        } else {
            "false".to_owned()
        };
        fields.push(field("\"dirty\":", dirty));
        fields.push(
            field("\"relative_working_dir\":", json_string(self.relative_working_dir.as_str())),
        );
        fields.push(field("\"entries\":[", joined(&entry_texts, ",")).concat("]"));
        fields.push(field("\"tracked_deletions\":[", joined(&name_texts, ",")).concat("]"));
        assert(texts(fields@) =~= canonical.json_fields());
        "{".to_owned().concat(joined(&fields, ",").as_str()).concat("}")
    }

    pub fn canonical_bytes(&self) -> (bytes: Vec<u8>)
        ensures
            bytes@ == utf8(self@.canonical().json()),
    {
        let json = self.canonical_json();
        let mut bytes: Vec<u8> = Vec::new();
        bytes.extend_from_slice(json.as_str().as_bytes());
        bytes
    }

    /// The digest of the canonical JSON.
    pub fn digest(&self) -> (digest: String)
        ensures
            digest@ == self@.digest(),
            lower_hex(digest@, 64),
    {
        let bytes = self.canonical_bytes();
        let digest = sha256(bytes.as_slice());
        proof {
            hex_text_is_lower_hex(digest@);
        }
        hex_of(digest.as_slice())
    }
}

/// Some names are in order.
pub open spec fn in_order(names: Seq<Seq<char>>) -> bool {
    forall|i: int, j: int|
        0 <= i < j < names.len() ==> text_le(#[trigger] names[i], #[trigger] names[j])
}

/// No two of some entries share a path.
pub open spec fn paths_differ(entries: Seq<EntryModel>) -> bool {
    forall|i: int, j: int|
        0 <= i < j < entries.len() ==> (#[trigger] entries[i]).path != (#[trigger] entries[j]).path
}

proof fn place_fits(ordered: Seq<Seq<char>>, name: Seq<char>, at: int)
    requires
        in_order(ordered),
        0 <= at <= ordered.len(),
        at == ordered.len() || !text_le(ordered[at], name),
    ensures
        0 <= place(ordered, name, at) <= at,
        in_order(ordered.insert(place(ordered, name, at), name)),
    decreases at,
{
    if at > 0 && !text_le(ordered[at - 1], name) {
        place_fits(ordered, name, at - 1);
    } else {
        let inserted = ordered.insert(at, name);
        assert forall|i: int, j: int| 0 <= i < j < inserted.len() implies text_le(
            #[trigger] inserted[i],
            #[trigger] inserted[j],
        ) by {
            if j == at {
                if i < at - 1 {
                    le_is_transitive(utf8(ordered[i]), utf8(ordered[at - 1]), utf8(name));
                }
            } else if i == at {
                le_is_total(utf8(ordered[at]), utf8(name));
                if j > at + 1 {
                    assert(text_le(ordered[at], ordered[j - 1]));
                    le_is_transitive(utf8(name), utf8(ordered[at]), utf8(ordered[j - 1]));
                }
            } else {
                let left = if i < at {
                    i
                } else {
                    i - 1
                };
                let right = if j < at {
                    j
                } else {
                    j - 1
                };
                assert(text_le(ordered[left], ordered[right]));
            }
        }
    }
}

proof fn inserted_multiset<A>(items: Seq<A>, at: int, item: A)
    requires
        0 <= at <= items.len(),
    ensures
        items.insert(at, item).to_multiset() == items.to_multiset().insert(item),
{
    vstd::seq_lib::to_multiset_insert(items, at, item);
}

proof fn entries_are_ordered(entries: Seq<EntryModel>, count: int)
    requires
        0 <= count <= entries.len(),
    ensures
        in_order(paths(entries_by_path(entries, count))),
        entries_by_path(entries, count).to_multiset() == entries.take(count).to_multiset(),
    decreases count,
{
    if count > 0 {
        entries_are_ordered(entries, count - 1);
        let ordered = entries_by_path(entries, count - 1);
        let entry = entries[count - 1];
        let at = place(paths(ordered), entry.path, ordered.len() as int);
        place_fits(paths(ordered), entry.path, ordered.len() as int);
        assert(paths(ordered.insert(at, entry)) =~= paths(ordered).insert(at, entry.path));
        inserted_multiset(ordered, at, entry);
        let before = entries.take(count - 1);
        assert(entries.take(count) =~= before.push(entry));
        before.to_multiset_ensures();
    } else {
        assert(entries.take(0) =~= Seq::<EntryModel>::empty());
        assert(entries_by_path(entries, 0) =~= Seq::<EntryModel>::empty());
    }
}

proof fn names_are_ordered(names: Seq<Seq<char>>, count: int)
    requires
        0 <= count <= names.len(),
    ensures
        in_order(names_in_order(names, count)),
        names_in_order(names, count).to_multiset() == names.take(count).to_multiset(),
    decreases count,
{
    if count > 0 {
        names_are_ordered(names, count - 1);
        let ordered = names_in_order(names, count - 1);
        let name = names[count - 1];
        place_fits(ordered, name, ordered.len() as int);
        inserted_multiset(ordered, place(ordered, name, ordered.len() as int), name);
        let before = names.take(count - 1);
        assert(names.take(count) =~= before.push(name));
        before.to_multiset_ensures();
    } else {
        assert(names.take(0) =~= Seq::<Seq<char>>::empty());
        assert(names_in_order(names, 0) =~= Seq::<Seq<char>>::empty());
    }
}

/// Some items are in the order of their keys.
pub open spec fn keys_in_order<A>(items: Seq<A>, key: spec_fn(A) -> Seq<char>) -> bool {
    forall|i: int, j: int|
        0 <= i < j < items.len() ==> text_le(key(#[trigger] items[i]), key(#[trigger] items[j]))
}

/// The same items in the order of their keys are the same list, where a key
/// tells which item it is.
proof fn orders_agree<A>(left: Seq<A>, right: Seq<A>, key: spec_fn(A) -> Seq<char>)
    requires
        keys_in_order(left, key),
        keys_in_order(right, key),
        left.to_multiset() == right.to_multiset(),
        forall|i: int, j: int|
            0 <= i < left.len() && 0 <= j < left.len() && key(#[trigger] left[i]) == key(
                #[trigger] left[j],
            ) ==> left[i] == left[j],
    ensures
        left == right,
    decreases left.len(),
{
    left.to_multiset_ensures();
    right.to_multiset_ensures();
    if left.len() > 0 {
        let last = left.len() - 1;
        let a = left[last];
        let b = right[last];
        assert(left.contains(a));
        assert(right.contains(b));
        assert(left.to_multiset().count(a) > 0 && right.to_multiset().count(b) > 0);
        assert(right.contains(a) && left.contains(b));
        let k = choose|k: int| 0 <= k < right.len() && right[k] == a;
        let m = choose|m: int| 0 <= m < left.len() && left[m] == b;
        le_is_total(utf8(key(a)), utf8(key(a)));
        le_is_total(utf8(key(b)), utf8(key(b)));
        assert(text_le(key(a), key(b)));
        assert(text_le(key(b), key(a)));
        le_is_antisymmetric(utf8(key(a)), utf8(key(b)));
        utf8_injective(key(a), key(b));
        assert(a == b);
        let less = left.remove(last);
        let fewer = right.remove(last);
        assert(less.to_multiset() == fewer.to_multiset());
        orders_agree(less, fewer, key);
        assert(left =~= less.push(a));
        assert(right =~= fewer.push(b));
    } else {
        assert(right.len() == 0);
        assert(left =~= right);
    }
}

/// The canonical manifest does not depend on the order in which its entries,
/// each with a path of its own, and its deletions were found; so neither does
/// the digest.
pub proof fn digests_do_not_depend_on_order(left: ManifestModel, right: ManifestModel)
    requires
        paths_differ(left.entries),
        left.entries.to_multiset() == right.entries.to_multiset(),
        left.tracked_deletions.to_multiset() == right.tracked_deletions.to_multiset(),
        left == (ManifestModel {
            entries: left.entries,
            tracked_deletions: left.tracked_deletions,
            ..right
        }),
    ensures
        left.canonical() == right.canonical(),
        left.digest() == right.digest(),
{
    let total = left.entries.len() as int;
    left.entries.to_multiset_ensures();
    right.entries.to_multiset_ensures();
    entries_are_ordered(left.entries, total);
    entries_are_ordered(right.entries, total);
    assert(left.entries.take(total) =~= left.entries);
    assert(right.entries.take(total) =~= right.entries);
    let entries = entries_by_path(left.entries, total);
    let others = entries_by_path(right.entries, total);
    let path = |entry: EntryModel| entry.path;
    assert(keys_in_order(entries, path)) by {
        assert forall|i: int, j: int| 0 <= i < j < entries.len() implies text_le(
            path(#[trigger] entries[i]),
            path(#[trigger] entries[j]),
        ) by {
            assert(text_le(paths(entries)[i], paths(entries)[j]));
        }
    }
    assert(keys_in_order(others, path)) by {
        assert forall|i: int, j: int| 0 <= i < j < others.len() implies text_le(
            path(#[trigger] others[i]),
            path(#[trigger] others[j]),
        ) by {
            assert(text_le(paths(others)[i], paths(others)[j]));
        }
    }
    entries.to_multiset_ensures();
    assert forall|i: int, j: int|
        0 <= i < entries.len() && 0 <= j < entries.len() && path(#[trigger] entries[i]) == path(
            #[trigger] entries[j],
        ) implies entries[i] == entries[j] by {
        assert(entries.contains(entries[i]) && entries.contains(entries[j]));
        assert(entries.to_multiset().count(entries[i]) > 0);
        assert(entries.to_multiset().count(entries[j]) > 0);
        assert(left.entries.contains(entries[i]) && left.entries.contains(entries[j]));
        let k = choose|k: int| 0 <= k < left.entries.len() && left.entries[k] == entries[i];
        let m = choose|m: int| 0 <= m < left.entries.len() && left.entries[m] == entries[j];
        if k < m {
            assert(left.entries[k].path != left.entries[m].path);
        } else if m < k {
            assert(left.entries[m].path != left.entries[k].path);
        }
    }
    orders_agree(entries, others, path);
    let count = left.tracked_deletions.len() as int;
    left.tracked_deletions.to_multiset_ensures();
    right.tracked_deletions.to_multiset_ensures();
    names_are_ordered(left.tracked_deletions, count);
    names_are_ordered(right.tracked_deletions, count);
    assert(left.tracked_deletions.take(count) =~= left.tracked_deletions);
    assert(right.tracked_deletions.take(count) =~= right.tracked_deletions);
    orders_agree(
        names_in_order(left.tracked_deletions, count),
        names_in_order(right.tracked_deletions, count),
        |name: Seq<char>| name,
    );
}

/// The canonical manifest holds the same entries and deletions, in order.
pub proof fn canonical_manifests_are_ordered(manifest: ManifestModel)
    ensures
        in_order(paths(manifest.canonical().entries)),
        in_order(manifest.canonical().tracked_deletions),
        manifest.canonical().entries.to_multiset() == manifest.entries.to_multiset(),
        manifest.canonical().tracked_deletions.to_multiset()
            == manifest.tracked_deletions.to_multiset(),
{
    entries_are_ordered(manifest.entries, manifest.entries.len() as int);
    names_are_ordered(manifest.tracked_deletions, manifest.tracked_deletions.len() as int);
    assert(manifest.entries.take(manifest.entries.len() as int) =~= manifest.entries);
    assert(manifest.tracked_deletions.take(manifest.tracked_deletions.len() as int)
        =~= manifest.tracked_deletions);
}

} // verus!
