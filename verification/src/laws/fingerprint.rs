//! A request's digest is taken of a text that tells everything of the request.
use vstd::prelude::*;
use crate::job::command::CommandModel;
use crate::job::request::MaterialModel;
use crate::json_laws::{
    beginnings_cancel, decimals_read_back, fields_follow_each_other, fields_from, fields_open_alike,
    hex_chars_are_told_apart, json_strings_read_back, name_lists_read_back, name_texts,
    no_digit_follows_a_field,
};
use crate::outside::{hex_number, json_string_text};
use crate::text::{decimal, hex_char, join};

verus! {

/// A command's JSON tells its kind and every word of it, and ends where it ends.
pub proof fn commands_read_back(left: CommandModel, right: CommandModel, x: Seq<char>, y: Seq<char>)
    requires
        left.json() + x == right.json() + y,
    ensures
        left == right,
        x == y,
{
    reveal_strlit("{\"mode\":\"argv\",\"argv\":");
    reveal_strlit("{\"mode\":\"shell\",\"shell\":");
    reveal_strlit("[");
    reveal_strlit("]");
    reveal_strlit("}");
    let argv_open = "{\"mode\":\"argv\",\"argv\":"@;
    let shell_open = "{\"mode\":\"shell\",\"shell\":"@;
    assert(argv_open[9] == 'a' && shell_open[9] == 's');
    assert((left.json() + x)[9] == left.json()[9]);
    assert((right.json() + y)[9] == right.json()[9]);
    match (left, right) {
        (CommandModel::Argv { argv: a }, CommandModel::Argv { argv: b }) => {
            assert(left.json()[9] == 'a');
            assert(name_texts(a) =~= a.map_values(|item: Seq<char>| json_string_text(item)));
            assert(name_texts(b) =~= b.map_values(|item: Seq<char>| json_string_text(item)));
            let p = join(name_texts(a), ","@) + "]"@ + ("}"@ + x);
            let q = join(name_texts(b), ","@) + "]"@ + ("}"@ + y);
            assert(left.json() + x =~= (argv_open + "["@) + p);
            assert(right.json() + y =~= (argv_open + "["@) + q);
            beginnings_cancel(argv_open + "["@, p, q);
            name_lists_read_back(a, b, "}"@ + x, "}"@ + y);
            beginnings_cancel("}"@, x, y);
        },
        (CommandModel::Shell { shell: a }, CommandModel::Shell { shell: b }) => {
            let p = json_string_text(a) + ("}"@ + x);
            let q = json_string_text(b) + ("}"@ + y);
            assert(left.json() + x =~= shell_open + p);
            assert(right.json() + y =~= shell_open + q);
            beginnings_cancel(shell_open, p, q);
            json_strings_read_back(a, b, "}"@ + x, "}"@ + y);
            beginnings_cancel("}"@, x, y);
        },
        (CommandModel::Argv { .. }, CommandModel::Shell { .. }) => {
            assert(left.json()[9] == 'a' && right.json()[9] == 's');
        },
        (CommandModel::Shell { .. }, CommandModel::Argv { .. }) => {
            assert(left.json()[9] == 's' && right.json()[9] == 'a');
        },
    }
}

/// The numbers below this have their own `width` digits.
pub open spec fn beyond(width: nat) -> int
    decreases width,
{
    if width == 0 {
        1
    } else {
        16 * beyond((width - 1) as nat)
    }
}

/// Different numbers are written in different digits.
pub proof fn hex_numbers_read_back(left: int, right: int, width: nat)
    requires
        0 <= left < beyond(width),
        0 <= right < beyond(width),
        hex_number(left, width) == hex_number(right, width),
    ensures
        left == right,
    decreases width,
{
    if width > 0 {
        let a = hex_number(left / 16, (width - 1) as nat);
        let b = hex_number(right / 16, (width - 1) as nat);
        assert(hex_number(left, width).drop_last() =~= a);
        assert(hex_number(right, width).drop_last() =~= b);
        assert(hex_number(left, width).last() == hex_char(left % 16));
        assert(hex_number(right, width).last() == hex_char(right % 16));
        hex_chars_are_told_apart(left % 16, right % 16);
        hex_numbers_read_back(left / 16, right / 16, (width - 1) as nat);
    }
}

/// Different identifiers are written differently.
pub proof fn identifiers_read_back(left: u128, right: u128)
    requires
        hex_number(left as int, 32) == hex_number(right as int, 32),
    ensures
        left == right,
{
    reveal_with_fuel(beyond, 33);
    assert(beyond(32) == 0x1_0000_0000_0000_0000_0000_0000_0000_0000int);
    hex_numbers_read_back(left as int, right as int, 32);
}

/// The canonical JSON tells every field of the material: two requests with the
/// same text ask for the same.
#[verifier::rlimit(60)]
pub proof fn canonical_requests_determine_materials(left: MaterialModel, right: MaterialModel)
    requires
        left.canonical_json() == right.canonical_json(),
    ensures
        left == right,
{
    let f = left.json_fields();
    let g = right.json_fields();
    let p = "}"@;
    let q = "}"@;
    reveal_strlit("}");
    assert("}"@[0] == '}');
    fields_follow_each_other(f, p);
    fields_follow_each_other(g, q);
    assert(left.canonical_json() =~= "{"@ + (join(f, ","@) + p));
    assert(right.canonical_json() =~= "{"@ + (join(g, ","@) + q));
    beginnings_cancel("{"@, join(f, ","@) + p, join(g, ","@) + q);
    fields_open_alike(
        f,
        g,
        0,
        "\"protocol_version\":"@,
        decimal(left.protocol_version as nat),
        decimal(right.protocol_version as nat),
        p,
        q,
    );
    no_digit_follows_a_field(f, 1, p);
    no_digit_follows_a_field(g, 1, q);
    decimals_read_back(
        left.protocol_version as nat,
        right.protocol_version as nat,
        fields_from(f, 1, p),
        fields_from(g, 1, q),
    );
    fields_open_alike(
        f,
        g,
        1,
        "\"job_id\":"@,
        json_string_text(hex_number(left.job_id.value as int, 32)),
        json_string_text(hex_number(right.job_id.value as int, 32)),
        p,
        q,
    );
    json_strings_read_back(
        hex_number(left.job_id.value as int, 32),
        hex_number(right.job_id.value as int, 32),
        fields_from(f, 2, p),
        fields_from(g, 2, q),
    );
    identifiers_read_back(left.job_id.value, right.job_id.value);
    fields_open_alike(
        f,
        g,
        2,
        "\"client_id\":"@,
        json_string_text(hex_number(left.client_id.value as int, 32)),
        json_string_text(hex_number(right.client_id.value as int, 32)),
        p,
        q,
    );
    json_strings_read_back(
        hex_number(left.client_id.value as int, 32),
        hex_number(right.client_id.value as int, 32),
        fields_from(f, 3, p),
        fields_from(g, 3, q),
    );
    identifiers_read_back(left.client_id.value, right.client_id.value);
    fields_open_alike(
        f,
        g,
        3,
        "\"lease_token\":"@,
        json_string_text(hex_number(left.lease_token.value as int, 32)),
        json_string_text(hex_number(right.lease_token.value as int, 32)),
        p,
        q,
    );
    json_strings_read_back(
        hex_number(left.lease_token.value as int, 32),
        hex_number(right.lease_token.value as int, 32),
        fields_from(f, 4, p),
        fields_from(g, 4, q),
    );
    identifiers_read_back(left.lease_token.value, right.lease_token.value);
    fields_open_alike(
        f,
        g,
        4,
        "\"created_at_millis\":"@,
        decimal(left.created_at_millis as nat),
        decimal(right.created_at_millis as nat),
        p,
        q,
    );
    no_digit_follows_a_field(f, 5, p);
    no_digit_follows_a_field(g, 5, q);
    decimals_read_back(
        left.created_at_millis as nat,
        right.created_at_millis as nat,
        fields_from(f, 5, p),
        fields_from(g, 5, q),
    );
    fields_open_alike(
        f,
        g,
        5,
        "\"worker_name\":"@,
        json_string_text(left.worker_name),
        json_string_text(right.worker_name),
        p,
        q,
    );
    json_strings_read_back(
        left.worker_name,
        right.worker_name,
        fields_from(f, 6, p),
        fields_from(g, 6, q),
    );
    fields_open_alike(
        f,
        g,
        6,
        "\"project_id\":"@,
        json_string_text(left.project_id),
        json_string_text(right.project_id),
        p,
        q,
    );
    json_strings_read_back(
        left.project_id,
        right.project_id,
        fields_from(f, 7, p),
        fields_from(g, 7, q),
    );
    fields_open_alike(
        f,
        g,
        7,
        "\"worktree_id\":"@,
        json_string_text(left.worktree_id),
        json_string_text(right.worktree_id),
        p,
        q,
    );
    json_strings_read_back(
        left.worktree_id,
        right.worktree_id,
        fields_from(f, 8, p),
        fields_from(g, 8, q),
    );
    fields_open_alike(
        f,
        g,
        8,
        "\"manifest_digest\":"@,
        json_string_text(left.manifest_digest),
        json_string_text(right.manifest_digest),
        p,
        q,
    );
    json_strings_read_back(
        left.manifest_digest,
        right.manifest_digest,
        fields_from(f, 9, p),
        fields_from(g, 9, q),
    );
    fields_open_alike(
        f,
        g,
        9,
        "\"relative_working_dir\":"@,
        json_string_text(left.relative_working_dir),
        json_string_text(right.relative_working_dir),
        p,
        q,
    );
    json_strings_read_back(
        left.relative_working_dir,
        right.relative_working_dir,
        fields_from(f, 10, p),
        fields_from(g, 10, q),
    );
    fields_open_alike(
        f,
        g,
        10,
        "\"timeout_millis\":"@,
        decimal(left.timeout_millis as nat),
        decimal(right.timeout_millis as nat),
        p,
        q,
    );
    no_digit_follows_a_field(f, 11, p);
    no_digit_follows_a_field(g, 11, q);
    decimals_read_back(
        left.timeout_millis as nat,
        right.timeout_millis as nat,
        fields_from(f, 11, p),
        fields_from(g, 11, q),
    );
    fields_open_alike(
        f,
        g,
        11,
        "\"resource_class\":"@,
        json_string_text(left.resource_class),
        json_string_text(right.resource_class),
        p,
        q,
    );
    json_strings_read_back(
        left.resource_class,
        right.resource_class,
        fields_from(f, 12, p),
        fields_from(g, 12, q),
    );
    fields_open_alike(
        f,
        g,
        12,
        "\"command\":"@,
        left.command.json(),
        right.command.json(),
        p,
        q,
    );
    commands_read_back(left.command, right.command, fields_from(f, 13, p), fields_from(g, 13, q));
}

} // verus!
