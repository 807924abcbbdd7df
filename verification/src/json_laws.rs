//! What JSON texts give back: a text that is written in JSON can be read again,
//! whatever stands behind it.
use vstd::prelude::*;
use crate::manifest::{
    canonical_manifests_are_ordered, entry_models, json_bool, json_opt, EntryModel, ManifestEntry,
    ManifestEntryKind, ManifestModel, SnapshotManifest,
};
use crate::outside::{json_char, json_chars, json_string_text, sha256_digest};
use crate::text::{decimal, hex_char, hex_text, join, opt_text, texts, utf8, utf8_injective};

verus! {

/// What follows the same beginning is the same.
pub proof fn beginnings_cancel(start: Seq<char>, left: Seq<char>, right: Seq<char>)
    requires
        start + left == start + right,
    ensures
        left == right,
{
    let n = start.len() as int;
    assert((start + left).skip(n) =~= left);
    assert((start + right).skip(n) =~= right);
}

proof fn json_chars_from_the_front(text: Seq<char>)
    requires
        text.len() > 0,
    ensures
        json_chars(text) == json_char(text[0]) + json_chars(text.drop_first()),
    decreases text.len(),
{
    if text.len() == 1 {
        assert(text.drop_last() =~= Seq::<char>::empty());
        assert(text.drop_first() =~= Seq::<char>::empty());
        assert(json_chars(text) =~= json_char(text[0]) + json_chars(text.drop_first()));
    } else {
        json_chars_from_the_front(text.drop_last());
        assert(text.drop_last().drop_first() =~= text.drop_first().drop_last());
        assert(text.drop_first().last() == text.last());
        assert(json_chars(text) =~= json_char(text[0]) + json_chars(text.drop_first()));
    }
}

/// The hexadecimal digit of a number below sixteen tells the number.
pub proof fn hex_chars_are_told_apart(left: int, right: int)
    requires
        0 <= left < 16,
        0 <= right < 16,
        hex_char(left) == hex_char(right),
    ensures
        left == right,
{
}

/// One escaped character ends where it ends.
proof fn json_char_reads_back(left: char, right: char, x: Seq<char>, y: Seq<char>)
    requires
        json_char(left) + x == json_char(right) + y,
    ensures
        left == right,
        x == y,
{
    let a = json_char(left) + x;
    let b = json_char(right) + y;
    assert(a[0] == json_char(left)[0] && b[0] == json_char(right)[0]);
    if json_char(left).len() > 1 {
        assert(a[1] == json_char(left)[1]);
    }
    if json_char(right).len() > 1 {
        assert(b[1] == json_char(right)[1]);
    }
    if json_char(left).len() == 6 && json_char(right).len() == 6 {
        assert(a[4] == json_char(left)[4] && b[4] == json_char(right)[4]);
        assert(a[5] == json_char(left)[5] && b[5] == json_char(right)[5]);
        hex_chars_are_told_apart(left as int / 16, right as int / 16);
        hex_chars_are_told_apart(left as int % 16, right as int % 16);
        assert(left as int == right as int);
    }
    assert(left == right);
    beginnings_cancel(json_char(left), x, y);
}

proof fn json_chars_read_back(left: Seq<char>, right: Seq<char>, x: Seq<char>, y: Seq<char>)
    requires
        json_chars(left) + seq!['"'] + x == json_chars(right) + seq!['"'] + y,
    ensures
        left == right,
        x == y,
    decreases left.len(),
{
    let a = json_chars(left) + seq!['"'] + x;
    let b = json_chars(right) + seq!['"'] + y;
    if left.len() > 0 {
        json_chars_from_the_front(left);
    }
    if right.len() > 0 {
        json_chars_from_the_front(right);
    }
    if left.len() == 0 && right.len() == 0 {
        assert(left =~= right);
        assert(json_chars(left) + seq!['"'] =~= seq!['"']);
        assert(json_chars(right) + seq!['"'] =~= seq!['"']);
        beginnings_cancel(seq!['"'], x, y);
    } else if left.len() == 0 {
        assert(a[0] == '"');
        assert(b[0] == json_char(right[0])[0]);
        assert(false);
    } else if right.len() == 0 {
        assert(b[0] == '"');
        assert(a[0] == json_char(left[0])[0]);
        assert(false);
    } else {
        let p = json_chars(left.drop_first()) + seq!['"'] + x;
        let q = json_chars(right.drop_first()) + seq!['"'] + y;
        assert(a =~= json_char(left[0]) + p);
        assert(b =~= json_char(right[0]) + q);
        json_char_reads_back(left[0], right[0], p, q);
        json_chars_read_back(left.drop_first(), right.drop_first(), x, y);
        assert(left =~= seq![left[0]] + left.drop_first());
        assert(right =~= seq![right[0]] + right.drop_first());
    }
}

/// A JSON string holds exactly one text, and ends where it ends.
pub proof fn json_strings_read_back(left: Seq<char>, right: Seq<char>, x: Seq<char>, y: Seq<char>)
    requires
        json_string_text(left) + x == json_string_text(right) + y,
    ensures
        left == right,
        x == y,
{
    assert(json_string_text(left) + x =~= seq!['"'] + (json_chars(left) + seq!['"'] + x));
    assert(json_string_text(right) + y =~= seq!['"'] + (json_chars(right) + seq!['"'] + y));
    beginnings_cancel(
        seq!['"'],
        json_chars(left) + seq!['"'] + x,
        json_chars(right) + seq!['"'] + y,
    );
    json_chars_read_back(left, right, x, y);
}

pub proof fn optional_texts_read_back(
    left: Option<Seq<char>>,
    right: Option<Seq<char>>,
    x: Seq<char>,
    y: Seq<char>,
)
    requires
        json_opt(left) + x == json_opt(right) + y,
    ensures
        left == right,
        x == y,
{
    reveal_strlit("null");
    assert("null"@[0] == 'n');
    match (left, right) {
        (Some(a), Some(b)) => {
            json_strings_read_back(a, b, x, y);
        },
        (None, None) => {
            beginnings_cancel("null"@, x, y);
        },
        (Some(a), None) => {
            assert((json_opt(left) + x)[0] == '"');
            assert((json_opt(right) + y)[0] == 'n');
        },
        (None, Some(b)) => {
            assert((json_opt(left) + x)[0] == 'n');
            assert((json_opt(right) + y)[0] == '"');
        },
    }
}

pub proof fn flags_read_back(left: bool, right: bool, x: Seq<char>, y: Seq<char>)
    requires
        json_bool(left) + x == json_bool(right) + y,
    ensures
        left == right,
        x == y,
{
    reveal_strlit("true");
    reveal_strlit("false");
    assert("true"@[0] == 't' && "false"@[0] == 'f');
    assert((json_bool(left) + x)[0] == json_bool(left)[0]);
    assert((json_bool(right) + y)[0] == json_bool(right)[0]);
    beginnings_cancel(json_bool(left), x, y);
}

pub open spec fn digit_char(c: char) -> bool {
    '0' <= c <= '9'
}

/// Nothing follows, or something that is no digit.
pub open spec fn no_digit_follows(rest: Seq<char>) -> bool {
    rest.len() == 0 || !digit_char(rest[0])
}

/// The number that decimal digits spell.
pub open spec fn spelled(digits: Seq<char>) -> int
    decreases digits.len(),
{
    if digits.len() == 0 {
        0
    } else {
        spelled(digits.drop_last()) * 10 + (digits.last() as int - '0' as int)
    }
}

/// A number is written in decimal digits that spell it, without a leading zero.
pub proof fn decimals_spell_their_number(n: nat)
    ensures
        decimal(n).len() > 0,
        forall|i: int| 0 <= i < decimal(n).len() ==> digit_char(#[trigger] decimal(n)[i]),
        spelled(decimal(n)) == n,
        n > 0 ==> decimal(n)[0] != '0',
    decreases n,
{
    if n < 10 {
        assert(decimal(n).drop_last() =~= Seq::<char>::empty());
        assert(spelled(decimal(n).drop_last()) == 0);
        assert(decimal(n).last() == hex_char(n as int));
    } else {
        decimals_spell_their_number(n / 10);
        assert(decimal(n).drop_last() =~= decimal(n / 10));
        assert(decimal(n).last() == hex_char((n % 10) as int));
        assert(decimal(n)[0] == decimal(n / 10)[0]);
        assert forall|i: int| 0 <= i < decimal(n).len() implies digit_char(
            #[trigger] decimal(n)[i],
        ) by {
            if i < decimal(n / 10).len() {
                assert(decimal(n)[i] == decimal(n / 10)[i]);
            }
        }
    }
}

/// A number ends where its digits end.
pub proof fn decimals_read_back(left: nat, right: nat, x: Seq<char>, y: Seq<char>)
    requires
        decimal(left) + x == decimal(right) + y,
        no_digit_follows(x),
        no_digit_follows(y),
    ensures
        left == right,
        x == y,
{
    decimals_spell_their_number(left);
    decimals_spell_their_number(right);
    let a = decimal(left) + x;
    let b = decimal(right) + y;
    let m = decimal(left).len() as int;
    let n = decimal(right).len() as int;
    if m < n {
        assert(b[m] == decimal(right)[m]);
        assert(digit_char(decimal(right)[m]));
        assert(a[m] == x[0]);
        assert(false);
    }
    if n < m {
        assert(a[n] == decimal(left)[n]);
        assert(digit_char(decimal(left)[n]));
        assert(b[n] == y[0]);
        assert(false);
    }
    assert(a.take(m) =~= decimal(left));
    assert(b.take(m) =~= decimal(right));
    beginnings_cancel(decimal(left), x, y);
}

/// The fields of an object from one of them on, up to the closing text.
pub open spec fn fields_from(fields: Seq<Seq<char>>, at: int, end: Seq<char>) -> Seq<char>
    decreases fields.len() - at,
{
    if at >= fields.len() {
        end
    } else if at <= 0 {
        fields[at] + fields_from(fields, at + 1, end)
    } else {
        ","@ + fields[at] + fields_from(fields, at + 1, end)
    }
}

proof fn join_ends(fields: Seq<Seq<char>>, at: int, end: Seq<char>)
    requires
        0 < at <= fields.len(),
    ensures
        join(fields, ","@) + end == join(fields.take(at), ","@) + fields_from(fields, at, end),
    decreases fields.len() - at,
{
    if at == fields.len() {
        assert(fields.take(at) =~= fields);
    } else {
        join_ends(fields, at + 1, end);
        assert(fields.take(at + 1).drop_last() =~= fields.take(at));
        assert(fields.take(at + 1).last() == fields[at]);
        assert(join(fields.take(at + 1), ","@) == join(fields.take(at), ","@) + ","@ + fields[at]);
        assert(join(fields.take(at + 1), ","@) + fields_from(fields, at + 1, end) =~= join(
            fields.take(at),
            ","@,
        ) + fields_from(fields, at, end));
    }
}

/// Fields with commas between them, one after the other.
pub proof fn fields_follow_each_other(fields: Seq<Seq<char>>, end: Seq<char>)
    ensures
        join(fields, ","@) + end == fields_from(fields, 0, end),
{
    if fields.len() == 0 {
        assert(join(fields, ","@) + end =~= end);
    } else {
        join_ends(fields, 1, end);
        assert(fields.take(1)[0] == fields[0]);
        assert(join(fields.take(1), ","@) == fields[0]);
    }
}

/// What follows a field starts with a comma or with the closing text.
pub proof fn no_digit_follows_a_field(fields: Seq<Seq<char>>, at: int, end: Seq<char>)
    requires
        at > 0,
        no_digit_follows(end),
    ensures
        no_digit_follows(fields_from(fields, at, end)),
{
    reveal_strlit(",");
    assert(","@[0] == ',');
    if at < fields.len() {
        assert(fields_from(fields, at, end)[0] == ',');
    }
}

/// The same field of two objects that agree from it on starts with the same key.
pub proof fn fields_open_alike(
    left: Seq<Seq<char>>,
    right: Seq<Seq<char>>,
    at: int,
    key: Seq<char>,
    a: Seq<char>,
    b: Seq<char>,
    x: Seq<char>,
    y: Seq<char>,
)
    requires
        0 <= at < left.len(),
        at < right.len(),
        fields_from(left, at, x) == fields_from(right, at, y),
        left[at] == key + a,
        right[at] == key + b,
    ensures
        a + fields_from(left, at + 1, x) == b + fields_from(right, at + 1, y),
{
    let p = a + fields_from(left, at + 1, x);
    let q = b + fields_from(right, at + 1, y);
    if at == 0 {
        assert(fields_from(left, at, x) =~= key + p);
        assert(fields_from(right, at, y) =~= key + q);
        beginnings_cancel(key, p, q);
    } else {
        assert(fields_from(left, at, x) =~= (","@ + key) + p);
        assert(fields_from(right, at, y) =~= (","@ + key) + q);
        beginnings_cancel(","@ + key, p, q);
    }
}

/// The kinds of entries are spelled differently.
pub proof fn entry_kinds_are_told_apart(left: ManifestEntryKind, right: ManifestEntryKind)
    requires
        left.spelling() == right.spelling(),
    ensures
        left == right,
{
    reveal_strlit("file");
    reveal_strlit("symlink");
    reveal_strlit("directory");
    assert("file"@.len() == 4 && "symlink"@.len() == 7 && "directory"@.len() == 9);
}

/// An entry's JSON tells every field of the entry, and ends where it ends.
pub proof fn entries_read_back(left: EntryModel, right: EntryModel, x: Seq<char>, y: Seq<char>)
    requires
        left.json() + x == right.json() + y,
    ensures
        left == right,
        x == y,
{
    let f = left.json_fields();
    let g = right.json_fields();
    let p = "}"@ + x;
    let q = "}"@ + y;
    reveal_strlit("}");
    assert("}"@[0] == '}');
    assert(p[0] == '}' && q[0] == '}');
    fields_follow_each_other(f, p);
    fields_follow_each_other(g, q);
    assert(left.json() + x =~= "{"@ + (join(f, ","@) + p));
    assert(right.json() + y =~= "{"@ + (join(g, ","@) + q));
    beginnings_cancel("{"@, join(f, ","@) + p, join(g, ","@) + q);
    let key = "\"path\":"@;
    fields_open_alike(f, g, 0, key, json_string_text(left.path), json_string_text(right.path), p, q);
    json_strings_read_back(left.path, right.path, fields_from(f, 1, p), fields_from(g, 1, q));
    fields_open_alike(
        f,
        g,
        1,
        "\"kind\":"@,
        json_string_text(left.kind.spelling()),
        json_string_text(right.kind.spelling()),
        p,
        q,
    );
    json_strings_read_back(
        left.kind.spelling(),
        right.kind.spelling(),
        fields_from(f, 2, p),
        fields_from(g, 2, q),
    );
    entry_kinds_are_told_apart(left.kind, right.kind);
    fields_open_alike(
        f,
        g,
        2,
        "\"mode\":"@,
        decimal(left.mode as nat),
        decimal(right.mode as nat),
        p,
        q,
    );
    no_digit_follows_a_field(f, 3, p);
    no_digit_follows_a_field(g, 3, q);
    decimals_read_back(
        left.mode as nat,
        right.mode as nat,
        fields_from(f, 3, p),
        fields_from(g, 3, q),
    );
    fields_open_alike(
        f,
        g,
        3,
        "\"size\":"@,
        decimal(left.size as nat),
        decimal(right.size as nat),
        p,
        q,
    );
    no_digit_follows_a_field(f, 4, p);
    no_digit_follows_a_field(g, 4, q);
    decimals_read_back(
        left.size as nat,
        right.size as nat,
        fields_from(f, 4, p),
        fields_from(g, 4, q),
    );
    fields_open_alike(
        f,
        g,
        4,
        "\"sha256\":"@,
        json_string_text(left.sha256),
        json_string_text(right.sha256),
        p,
        q,
    );
    json_strings_read_back(left.sha256, right.sha256, fields_from(f, 5, p), fields_from(g, 5, q));
    fields_open_alike(
        f,
        g,
        5,
        "\"symlink_target\":"@,
        json_opt(left.symlink_target),
        json_opt(right.symlink_target),
        p,
        q,
    );
    optional_texts_read_back(
        left.symlink_target,
        right.symlink_target,
        fields_from(f, 6, p),
        fields_from(g, 6, q),
    );
    beginnings_cancel("}"@, x, y);
}

/// The JSON texts of a list of entries.
pub open spec fn entry_texts(entries: Seq<EntryModel>) -> Seq<Seq<char>> {
    entries.map_values(|entry: EntryModel| entry.json())
}

/// The JSON texts of a list of texts.
pub open spec fn name_texts(names: Seq<Seq<char>>) -> Seq<Seq<char>> {
    names.map_values(|name: Seq<char>| json_string_text(name))
}

proof fn entry_lists_read_back_from(
    left: Seq<EntryModel>,
    right: Seq<EntryModel>,
    at: int,
    x: Seq<char>,
    y: Seq<char>,
)
    requires
        0 <= at <= left.len(),
        at <= right.len(),
        left.take(at) == right.take(at),
        fields_from(entry_texts(left), at, "]"@ + x) == fields_from(entry_texts(right), at, "]"@ + y),
    ensures
        left == right,
        x == y,
    decreases left.len() - at,
{
    let f = entry_texts(left);
    let g = entry_texts(right);
    let p = "]"@ + x;
    let q = "]"@ + y;
    reveal_strlit("]");
    reveal_strlit(",");
    reveal_strlit("{");
    assert("]"@[0] == ']' && ","@[0] == ',' && "{"@[0] == '{');
    if at < left.len() && at < right.len() {
        assert(f[at] == left[at].json() && g[at] == right[at].json());
        if at == 0 {
            entries_read_back(
                left[at],
                right[at],
                fields_from(f, at + 1, p),
                fields_from(g, at + 1, q),
            );
        } else {
            assert(fields_from(f, at, p) =~= ","@ + (left[at].json() + fields_from(f, at + 1, p)));
            assert(fields_from(g, at, q) =~= ","@ + (right[at].json() + fields_from(g, at + 1, q)));
            beginnings_cancel(
                ","@,
                left[at].json() + fields_from(f, at + 1, p),
                right[at].json() + fields_from(g, at + 1, q),
            );
            entries_read_back(
                left[at],
                right[at],
                fields_from(f, at + 1, p),
                fields_from(g, at + 1, q),
            );
        }
        assert(left.take(at + 1) =~= left.take(at).push(left[at]));
        assert(right.take(at + 1) =~= right.take(at).push(right[at]));
        entry_lists_read_back_from(left, right, at + 1, x, y);
    } else if at < left.len() {
        assert(fields_from(g, at, q)[0] == ']');
        assert(f[at][0] == '{');
        assert(fields_from(f, at, p)[0] == ',' || fields_from(f, at, p)[0] == '{');
    } else if at < right.len() {
        assert(fields_from(f, at, p)[0] == ']');
        assert(g[at][0] == '{');
        assert(fields_from(g, at, q)[0] == ',' || fields_from(g, at, q)[0] == '{');
    } else {
        assert(left.take(at) =~= left);
        assert(right.take(at) =~= right);
        beginnings_cancel("]"@, x, y);
    }
}

proof fn name_lists_read_back_from(
    left: Seq<Seq<char>>,
    right: Seq<Seq<char>>,
    at: int,
    x: Seq<char>,
    y: Seq<char>,
)
    requires
        0 <= at <= left.len(),
        at <= right.len(),
        left.take(at) == right.take(at),
        fields_from(name_texts(left), at, "]"@ + x) == fields_from(name_texts(right), at, "]"@ + y),
    ensures
        left == right,
        x == y,
    decreases left.len() - at,
{
    let f = name_texts(left);
    let g = name_texts(right);
    let p = "]"@ + x;
    let q = "]"@ + y;
    reveal_strlit("]");
    reveal_strlit(",");
    assert("]"@[0] == ']' && ","@[0] == ',');
    if at < left.len() && at < right.len() {
        assert(f[at] == json_string_text(left[at]) && g[at] == json_string_text(right[at]));
        if at == 0 {
            json_strings_read_back(
                left[at],
                right[at],
                fields_from(f, at + 1, p),
                fields_from(g, at + 1, q),
            );
        } else {
            assert(fields_from(f, at, p) =~= ","@ + (f[at] + fields_from(f, at + 1, p)));
            assert(fields_from(g, at, q) =~= ","@ + (g[at] + fields_from(g, at + 1, q)));
            beginnings_cancel(
                ","@,
                f[at] + fields_from(f, at + 1, p),
                g[at] + fields_from(g, at + 1, q),
            );
            json_strings_read_back(
                left[at],
                right[at],
                fields_from(f, at + 1, p),
                fields_from(g, at + 1, q),
            );
        }
        assert(left.take(at + 1) =~= left.take(at).push(left[at]));
        assert(right.take(at + 1) =~= right.take(at).push(right[at]));
        name_lists_read_back_from(left, right, at + 1, x, y);
    } else if at < left.len() {
        assert(fields_from(g, at, q)[0] == ']');
        assert(f[at][0] == '"');
        assert(fields_from(f, at, p)[0] == ',' || fields_from(f, at, p)[0] == '"');
    } else if at < right.len() {
        assert(fields_from(f, at, p)[0] == ']');
        assert(g[at][0] == '"');
        assert(fields_from(g, at, q)[0] == ',' || fields_from(g, at, q)[0] == '"');
    } else {
        assert(left.take(at) =~= left);
        assert(right.take(at) =~= right);
        beginnings_cancel("]"@, x, y);
    }
}

/// A JSON list of texts tells the texts, and ends where it ends.
pub proof fn name_lists_read_back(
    left: Seq<Seq<char>>,
    right: Seq<Seq<char>>,
    x: Seq<char>,
    y: Seq<char>,
)
    requires
        join(name_texts(left), ","@) + "]"@ + x == join(name_texts(right), ","@) + "]"@ + y,
    ensures
        left == right,
        x == y,
{
    fields_follow_each_other(name_texts(left), "]"@ + x);
    fields_follow_each_other(name_texts(right), "]"@ + y);
    assert(join(name_texts(left), ","@) + "]"@ + x =~= join(name_texts(left), ","@) + ("]"@ + x));
    assert(join(name_texts(right), ","@) + "]"@ + y =~= join(name_texts(right), ","@) + ("]"@ + y));
    assert(left.take(0) =~= right.take(0));
    name_lists_read_back_from(left, right, 0, x, y);
}

/// A JSON list of entries tells the entries, and ends where it ends.
pub proof fn entry_lists_read_back(
    left: Seq<EntryModel>,
    right: Seq<EntryModel>,
    x: Seq<char>,
    y: Seq<char>,
)
    requires
        join(entry_texts(left), ","@) + "]"@ + x == join(entry_texts(right), ","@) + "]"@ + y,
    ensures
        left == right,
        x == y,
{
    fields_follow_each_other(entry_texts(left), "]"@ + x);
    fields_follow_each_other(entry_texts(right), "]"@ + y);
    assert(join(entry_texts(left), ","@) + "]"@ + x =~= join(entry_texts(left), ","@) + ("]"@ + x));
    assert(join(entry_texts(right), ","@) + "]"@ + y =~= join(entry_texts(right), ","@) + ("]"@
        + y));
    assert(left.take(0) =~= right.take(0));
    entry_lists_read_back_from(left, right, 0, x, y);
}

/// The JSON of a manifest tells everything that the manifest says.
pub proof fn manifests_read_back(left: ManifestModel, right: ManifestModel)
    requires
        left.json() == right.json(),
    ensures
        left.version == right.version,
        left.project_id == right.project_id,
        left.worktree_id == right.worktree_id,
        left.head == right.head,
        left.branch == right.branch,
        left.dirty == right.dirty,
        left.relative_working_dir == right.relative_working_dir,
        left.entries == right.entries,
        left.tracked_deletions == right.tracked_deletions,
{
    let f = left.json_fields();
    let g = right.json_fields();
    let e = "}"@;
    reveal_strlit("}");
    assert(e[0] == '}');
    fields_follow_each_other(f, e);
    fields_follow_each_other(g, e);
    assert(left.json() =~= "{"@ + (join(f, ","@) + e));
    assert(right.json() =~= "{"@ + (join(g, ","@) + e));
    beginnings_cancel("{"@, join(f, ","@) + e, join(g, ","@) + e);
    fields_open_alike(
        f,
        g,
        0,
        "\"version\":"@,
        decimal(left.version as nat),
        decimal(right.version as nat),
        e,
        e,
    );
    no_digit_follows_a_field(f, 1, e);
    no_digit_follows_a_field(g, 1, e);
    decimals_read_back(
        left.version as nat,
        right.version as nat,
        fields_from(f, 1, e),
        fields_from(g, 1, e),
    );
    fields_open_alike(
        f,
        g,
        1,
        "\"project_id\":"@,
        json_string_text(left.project_id),
        json_string_text(right.project_id),
        e,
        e,
    );
    json_strings_read_back(
        left.project_id,
        right.project_id,
        fields_from(f, 2, e),
        fields_from(g, 2, e),
    );
    fields_open_alike(
        f,
        g,
        2,
        "\"worktree_id\":"@,
        json_string_text(left.worktree_id),
        json_string_text(right.worktree_id),
        e,
        e,
    );
    json_strings_read_back(
        left.worktree_id,
        right.worktree_id,
        fields_from(f, 3, e),
        fields_from(g, 3, e),
    );
    fields_open_alike(f, g, 3, "\"head\":"@, json_opt(left.head), json_opt(right.head), e, e);
    optional_texts_read_back(left.head, right.head, fields_from(f, 4, e), fields_from(g, 4, e));
    fields_open_alike(f, g, 4, "\"branch\":"@, json_opt(left.branch), json_opt(right.branch), e, e);
    optional_texts_read_back(left.branch, right.branch, fields_from(f, 5, e), fields_from(g, 5, e));
    manifest_lists_read_back(left, right);
}

/// The second half of a manifest's fields.
proof fn manifest_lists_read_back(left: ManifestModel, right: ManifestModel)
    requires
        fields_from(left.json_fields(), 5, "}"@) == fields_from(right.json_fields(), 5, "}"@),
    ensures
        left.dirty == right.dirty,
        left.relative_working_dir == right.relative_working_dir,
        left.entries == right.entries,
        left.tracked_deletions == right.tracked_deletions,
{
    let f = left.json_fields();
    let g = right.json_fields();
    let e = "}"@;
    fields_open_alike(f, g, 5, "\"dirty\":"@, json_bool(left.dirty), json_bool(right.dirty), e, e);
    flags_read_back(left.dirty, right.dirty, fields_from(f, 6, e), fields_from(g, 6, e));
    fields_open_alike(
        f,
        g,
        6,
        "\"relative_working_dir\":"@,
        json_string_text(left.relative_working_dir),
        json_string_text(right.relative_working_dir),
        e,
        e,
    );
    json_strings_read_back(
        left.relative_working_dir,
        right.relative_working_dir,
        fields_from(f, 7, e),
        fields_from(g, 7, e),
    );
    let a = join(entry_texts(left.entries), ","@) + "]"@;
    let b = join(entry_texts(right.entries), ","@) + "]"@;
    assert(f[7] =~= "\"entries\":["@ + a);
    assert(g[7] =~= "\"entries\":["@ + b);
    fields_open_alike(f, g, 7, "\"entries\":["@, a, b, e, e);
    entry_lists_read_back(
        left.entries,
        right.entries,
        fields_from(f, 8, e),
        fields_from(g, 8, e),
    );
    let c = join(name_texts(left.tracked_deletions), ","@) + "]"@;
    let d = join(name_texts(right.tracked_deletions), ","@) + "]"@;
    assert(f[8] =~= "\"tracked_deletions\":["@ + c);
    assert(g[8] =~= "\"tracked_deletions\":["@ + d);
    fields_open_alike(f, g, 8, "\"tracked_deletions\":["@, c, d, e, e);
    name_lists_read_back(
        left.tracked_deletions,
        right.tracked_deletions,
        fields_from(f, 9, e),
        fields_from(g, 9, e),
    );
}

/// Hexadecimal digits tell the bytes that they write.
pub proof fn hex_texts_read_back(left: Seq<u8>, right: Seq<u8>)
    requires
        hex_text(left) == hex_text(right),
    ensures
        left == right,
    decreases left.len(),
{
    if left.len() > 0 {
        assert(hex_text(left).len() > 0);
        assert(right.len() > 0);
        let a = hex_text(left.drop_last());
        let b = hex_text(right.drop_last());
        let n = hex_text(left).len() as int;
        assert(hex_text(left)[n - 1] == hex_char(left.last() as int % 16));
        assert(hex_text(left)[n - 2] == hex_char(left.last() as int / 16));
        assert(hex_text(right)[n - 1] == hex_char(right.last() as int % 16));
        assert(hex_text(right)[n - 2] == hex_char(right.last() as int / 16));
        hex_chars_are_told_apart(left.last() as int / 16, right.last() as int / 16);
        hex_chars_are_told_apart(left.last() as int % 16, right.last() as int % 16);
        assert(left.last() == right.last());
        assert(hex_text(left).take(n - 2) =~= a);
        assert(hex_text(right).take(n - 2) =~= b);
        hex_texts_read_back(left.drop_last(), right.drop_last());
        assert(left =~= left.drop_last().push(left.last()));
        assert(right =~= right.drop_last().push(right.last()));
    } else if right.len() > 0 {
        assert(hex_text(right).len() > 0);
    } else {
        assert(left =~= right);
    }
}

/// What an entry says tells each of its fields.
pub proof fn entries_say_everything(left: ManifestEntry, right: ManifestEntry)
    requires
        left@ == right@,
    ensures
        left.path@ == right.path@,
        left.kind == right.kind,
        left.mode == right.mode,
        left.size == right.size,
        left.sha256@ == right.sha256@,
        opt_text(left.symlink_target) == opt_text(right.symlink_target),
{
}

/// The canonical JSON determines the snapshot, up to the order in which its
/// entries and deletions were found. Two snapshots that differ in anything else
/// have different canonical bytes; and they share a digest only where SHA-256
/// gives those bytes the same digest.
pub proof fn canonical_manifests_determine_snapshots(left: SnapshotManifest, right: SnapshotManifest)
    ensures
        left@.canonical().json() == right@.canonical().json() ==> {
            &&& left.version == right.version
            &&& left.project_id@ == right.project_id@
            &&& left.worktree_id@ == right.worktree_id@
            &&& opt_text(left.head) == opt_text(right.head)
            &&& opt_text(left.branch) == opt_text(right.branch)
            &&& left.dirty == right.dirty
            &&& left.relative_working_dir@ == right.relative_working_dir@
            &&& entry_models(left.entries@).to_multiset() == entry_models(
                right.entries@,
            ).to_multiset()
            &&& texts(left.tracked_deletions@).to_multiset() == texts(
                right.tracked_deletions@,
            ).to_multiset()
        },
        left@.digest() == right@.digest() ==> sha256_digest(utf8(left@.canonical().json()))
            == sha256_digest(utf8(right@.canonical().json())),
        utf8(left@.canonical().json()) == utf8(right@.canonical().json())
            ==> left@.canonical().json() == right@.canonical().json(),
{
    if left@.canonical().json() == right@.canonical().json() {
        manifests_read_back(left@.canonical(), right@.canonical());
        canonical_manifests_are_ordered(left@);
        canonical_manifests_are_ordered(right@);
    }
    if left@.digest() == right@.digest() {
        hex_texts_read_back(
            sha256_digest(utf8(left@.canonical().json())),
            sha256_digest(utf8(right@.canonical().json())),
        );
    }
    utf8_injective(left@.canonical().json(), right@.canonical().json());
}

} // verus!
