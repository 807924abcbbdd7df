//! Names, codes, arguments and commands: which texts they may be.
use vstd::prelude::*;
use crate::job::checks::{
    all_bytes, argument_fault, capability_name, control_code_fault, control_message_fault,
    hex_fault, non_nul_fault, opaque_fault, requirement_faults, requirements_fault,
    worker_name_fault, ByteClass,
};
use crate::job::command::{
    argument_bytes, argument_faults, argv_fault, parts_fault, CommandModel, CommandSpec,
    CommandSummaryMode,
};
use crate::job::ids::reads_as;
use crate::outside::hex_value;
use crate::text::{texts, utf8};

verus! {

pub open spec fn small_letter(byte: u8) -> bool {
    97 <= byte <= 122
}

pub open spec fn capital_letter(byte: u8) -> bool {
    65 <= byte <= 90
}

pub open spec fn figure(byte: u8) -> bool {
    48 <= byte <= 57
}

/// A dot, an underscore or a hyphen.
pub open spec fn joint(byte: u8) -> bool {
    byte == 46 || byte == 95 || byte == 45
}

/// The bytes of a text, as long as it is allowed to be.
pub open spec fn bounded_text(text: Seq<char>, max: nat) -> bool {
    1 <= utf8(text).len() <= max
}

pub open spec fn free_of_nul(text: Seq<char>) -> bool {
    forall|i: int| 0 <= i < utf8(text).len() ==> #[trigger] utf8(text)[i] != 0
}

/// Every byte of a text is one of some.
pub open spec fn made_of(text: Seq<char>, allowed: spec_fn(u8) -> bool) -> bool {
    forall|i: int| 0 <= i < utf8(text).len() ==> allowed(#[trigger] utf8(text)[i])
}

/// Lowercase letters, digits, and the marks of an opaque name.
pub open spec fn opaque_bytes() -> spec_fn(u8) -> bool {
    |byte: u8| small_letter(byte) || figure(byte) || joint(byte) || byte == 58 || byte == 64
}

pub open spec fn worker_bytes() -> spec_fn(u8) -> bool {
    |byte: u8|
        small_letter(byte) || capital_letter(byte) || figure(byte) || joint(byte) || byte == 64
}

pub open spec fn code_bytes() -> spec_fn(u8) -> bool {
    |byte: u8| capital_letter(byte) || figure(byte) || byte == 95
}

pub open spec fn hex_bytes() -> spec_fn(u8) -> bool {
    |byte: u8| figure(byte) || 97 <= byte <= 102
}

proof fn empty_texts_have_no_bytes(text: Seq<char>)
    ensures
        text.len() == 0 <==> utf8(text).len() == 0,
{
    let none = Seq::<char>::empty();
    vstd::utf8::is_ascii_chars_encode_utf8(none);
    if text.len() == 0 {
        assert(text =~= none);
    }
    if utf8(text).len() == 0 {
        assert(utf8(text) =~= utf8(none));
        crate::text::utf8_injective(text, none);
    }
}

/// The classes of bytes are these.
pub proof fn byte_classes_hold_their_bytes(byte: u8)
    ensures
        ByteClass::Opaque.holds(byte) <==> opaque_bytes()(byte),
        ByteClass::Worker.holds(byte) <==> worker_bytes()(byte),
        ByteClass::Code.holds(byte) <==> code_bytes()(byte),
        ByteClass::Profile.holds(byte) <==> small_letter(byte) || capital_letter(byte) || figure(
            byte,
        ) || joint(byte),
{
}

/// A text is accepted exactly where it is there, is short enough and holds no
/// NUL.
pub proof fn plain_texts_are_accepted(text: Seq<char>, max: nat, label: Seq<char>)
    ensures
        non_nul_fault(text, max, label) is None <==> bounded_text(text, max) && free_of_nul(text),
{
    empty_texts_have_no_bytes(text);
}

/// An opaque name has at most 128 bytes of its kind, and a letter or digit
/// first.
pub proof fn opaque_names_are_accepted(text: Seq<char>, label: Seq<char>)
    ensures
        opaque_fault(text, label) is None <==> bounded_text(text, 128) && made_of(
            text,
            opaque_bytes(),
        ) && (small_letter(utf8(text)[0]) || figure(utf8(text)[0])),
{
    if all_bytes(text, ByteClass::Opaque) {
        assert forall|i: int| 0 <= i < utf8(text).len() implies opaque_bytes()(
            #[trigger] utf8(text)[i],
        ) by {
            assert(ByteClass::Opaque.holds(utf8(text)[i]));
        }
    }
    if made_of(text, opaque_bytes()) {
        assert forall|i: int| 0 <= i < utf8(text).len() implies ByteClass::Opaque.holds(
            #[trigger] utf8(text)[i],
        ) by {
            assert(opaque_bytes()(utf8(text)[i]));
        }
    }
}

/// A worker's name in the queue has at most 128 bytes of its kind.
pub proof fn worker_names_are_accepted(text: Seq<char>)
    ensures
        worker_name_fault(text) is None <==> bounded_text(text, 128) && made_of(
            text,
            worker_bytes(),
        ),
{
    if all_bytes(text, ByteClass::Worker) {
        assert forall|i: int| 0 <= i < utf8(text).len() implies worker_bytes()(
            #[trigger] utf8(text)[i],
        ) by {
            assert(ByteClass::Worker.holds(utf8(text)[i]));
        }
    }
    if made_of(text, worker_bytes()) {
        assert forall|i: int| 0 <= i < utf8(text).len() implies ByteClass::Worker.holds(
            #[trigger] utf8(text)[i],
        ) by {
            assert(worker_bytes()(utf8(text)[i]));
        }
    }
}

/// A capability's name has at most 128 bytes of an opaque name.
pub open spec fn names_capability(text: Seq<char>) -> bool {
    bounded_text(text, 128) && made_of(text, opaque_bytes())
}

proof fn capability_names_agree(text: Seq<char>)
    ensures
        capability_name(text) <==> names_capability(text),
{
    if all_bytes(text, ByteClass::Opaque) {
        assert forall|i: int| 0 <= i < utf8(text).len() implies opaque_bytes()(
            #[trigger] utf8(text)[i],
        ) by {
            assert(ByteClass::Opaque.holds(utf8(text)[i]));
        }
    }
    if made_of(text, opaque_bytes()) {
        assert forall|i: int| 0 <= i < utf8(text).len() implies ByteClass::Opaque.holds(
            #[trigger] utf8(text)[i],
        ) by {
            assert(opaque_bytes()(utf8(text)[i]));
        }
    }
}

pub open spec fn capabilities_from(names: Seq<Seq<char>>, at: int) -> bool {
    &&& forall|i: int| at <= i < names.len() ==> names_capability(#[trigger] names[i])
    &&& forall|i: int, j: int|
        0 <= i < j < names.len() && at <= j ==> #[trigger] names[i] != #[trigger] names[j]
}

proof fn capabilities_are_accepted_from(names: Seq<Seq<char>>, at: int)
    requires
        0 <= at <= names.len(),
    ensures
        requirement_faults(names, at) is None <==> capabilities_from(names, at),
    decreases names.len() - at,
{
    if at < names.len() {
        capabilities_are_accepted_from(names, at + 1);
        capability_names_agree(names[at]);
        if names.take(at).contains(names[at]) {
            let i = choose|i: int| 0 <= i < at && names.take(at)[i] == names[at];
            assert(names[i] == names[at]);
        }
        if requirement_faults(names, at) is None {
            assert forall|i: int, j: int| 0 <= i < j < names.len() && at <= j implies #[trigger] names[i]
                != #[trigger] names[j] by {
                if j == at {
                    assert(names.take(at)[i] == names[i]);
                    assert(names.take(at).contains(names[i]));
                }
            }
        }
    }
}

/// A list of capabilities is accepted exactly where there are at most 256, each
/// has a capability's name, and none stands twice.
pub proof fn capability_lists_are_accepted(names: Seq<Seq<char>>)
    ensures
        requirements_fault(names) is None <==> {
            &&& names.len() <= 256
            &&& forall|i: int| 0 <= i < names.len() ==> names_capability(#[trigger] names[i])
            &&& forall|i: int, j: int|
                0 <= i < j < names.len() ==> #[trigger] names[i] != #[trigger] names[j]
        },
{
    capabilities_are_accepted_from(names, 0);
}

/// A stable code is at most 128 capitals, digits and underscores, a capital
/// first.
pub proof fn codes_are_accepted(text: Seq<char>, label: Seq<char>)
    ensures
        control_code_fault(text, label) is None <==> bounded_text(text, 128) && made_of(
            text,
            code_bytes(),
        ) && capital_letter(utf8(text)[0]),
{
    empty_texts_have_no_bytes(text);
    if all_bytes(text, ByteClass::Code) {
        assert forall|i: int| 0 <= i < utf8(text).len() implies code_bytes()(
            #[trigger] utf8(text)[i],
        ) by {
            assert(ByteClass::Code.holds(utf8(text)[i]));
        }
    }
    if made_of(text, code_bytes()) {
        assert forall|i: int| 0 <= i < utf8(text).len() implies ByteClass::Code.holds(
            #[trigger] utf8(text)[i],
        ) && utf8(text)[i] != 0 by {
            assert(code_bytes()(utf8(text)[i]));
        }
    }
}

/// A message is at most 4096 bytes without a control character.
pub proof fn messages_are_accepted(text: Seq<char>, label: Seq<char>)
    ensures
        control_message_fault(text, label) is None <==> {
            &&& bounded_text(text, 4096)
            &&& free_of_nul(text)
            &&& forall|i: int|
                0 <= i < text.len() ==> (#[trigger] text[i]) as int >= 32 && !(127
                    <= text[i] as int <= 159)
        },
{
    empty_texts_have_no_bytes(text);
    if control_message_fault(text, label) is None {
        assert forall|i: int| 0 <= i < text.len() implies (#[trigger] text[i]) as int >= 32 && !(127
            <= text[i] as int <= 159) by {
            assert(!crate::job::checks::is_control(text[i]));
        }
    }
}

/// A digest or a hashed name is 64 lowercase hexadecimal digits.
pub proof fn hashed_names_are_accepted(text: Seq<char>, label: Seq<char>)
    ensures
        hex_fault(text, label) is None <==> utf8(text).len() == 64 && made_of(text, hex_bytes()),
{
    if made_of(text, hex_bytes()) {
        assert forall|i: int| 0 <= i < utf8(text).len() implies crate::text::is_hex_digit(
            #[trigger] utf8(text)[i],
        ) by {
            assert(hex_bytes()(utf8(text)[i]));
        }
    }
    if crate::text::lower_hex(text, 64) {
        assert forall|i: int| 0 <= i < utf8(text).len() implies hex_bytes()(
            #[trigger] utf8(text)[i],
        ) by {
            assert(crate::text::is_hex_digit(utf8(text)[i]));
        }
    }
}

/// An argument holds at most 16384 bytes and no NUL; it may be empty.
pub open spec fn runnable_argument(text: Seq<char>) -> bool {
    utf8(text).len() <= 16384 && free_of_nul(text)
}

proof fn arguments_are_accepted_from(arguments: Seq<Seq<char>>, at: int)
    requires
        0 <= at <= arguments.len(),
    ensures
        argument_faults(arguments, at) is None <==> forall|i: int|
            at <= i < arguments.len() ==> runnable_argument(#[trigger] arguments[i]),
    decreases arguments.len() - at,
{
    if at < arguments.len() {
        arguments_are_accepted_from(arguments, at + 1);
        assert(argument_fault(arguments[at]) is None <==> runnable_argument(arguments[at]));
    }
}

/// A program is run with 1 to 256 arguments, each of at most 16384 bytes without
/// NUL, and 131072 bytes in all.
pub proof fn programs_are_accepted(arguments: Seq<Seq<char>>)
    ensures
        argv_fault(arguments) is None <==> {
            &&& 1 <= arguments.len() <= 256
            &&& forall|i: int|
                0 <= i < arguments.len() ==> runnable_argument(#[trigger] arguments[i])
            &&& argument_bytes(arguments) <= 131072
        },
{
    arguments_are_accepted_from(arguments, 0);
}

/// The bytes of a list of arguments grow by those of each argument.
pub proof fn argument_bytes_add_up(arguments: Seq<Seq<char>>, more: Seq<char>)
    ensures
        argument_bytes(Seq::empty()) == 0,
        argument_bytes(arguments.push(more)) == argument_bytes(arguments) + utf8(more).len(),
{
    assert(arguments.push(more).drop_last() =~= arguments);
}

/// A command is accepted as a program with its arguments, or as a line of at
/// most 131072 bytes for the shell; written in parts, it is accepted where the
/// parts are those of its kind.
pub proof fn commands_are_accepted(command: CommandModel)
    ensures
        command.fault() is None <==> match command {
            CommandModel::Argv { argv } => argv_fault(argv) is None,
            CommandModel::Shell { shell } => bounded_text(shell, 131072) && free_of_nul(shell),
        },
        command matches CommandModel::Argv { argv } ==> command.argv_part() == Some(argv)
            && command.shell_part() is None && command.mode() == "argv"@
            && command.summarized().mode == CommandSummaryMode::Argv
            && command.summarized().arg_count == Some(argv.len() as usize),
        command matches CommandModel::Shell { shell } ==> command.shell_part() == Some(shell)
            && command.argv_part() is None && command.mode() == "shell"@
            && command.summarized().mode == CommandSummaryMode::Shell
            && command.summarized().arg_count is None,
{
    if let CommandModel::Shell { shell } = command {
        plain_texts_are_accepted(shell, 131072, "shell command"@);
    }
}

/// A command cannot be written in the parts of both kinds, nor in those of the
/// other kind.
pub proof fn mixed_parts_make_no_command(
    mode: Seq<char>,
    argv: Option<Seq<Seq<char>>>,
    shell: Option<Seq<char>>,
)
    requires
        parts_fault(mode, argv, shell) is None,
    ensures
        (argv is Some) != (shell is Some),
        argv is Some ==> mode == "argv"@ && argv_fault(argv->0) is None,
        shell is Some ==> mode == "shell"@ && bounded_text(shell->0, 131072) && free_of_nul(shell->0),
{
    if shell is Some {
        plain_texts_are_accepted(shell->0, 131072, "shell command"@);
    }
}

/// What a command says tells its every word.
pub proof fn commands_say_everything(left: CommandSpec, right: CommandSpec)
    requires
        left@ == right@,
    ensures
        left is Argv <==> right is Argv,
        left is Argv ==> texts(left->argv@) == texts(right->argv@),
        left is Shell ==> left->shell@ == right->shell@,
{
}

/// An identifier reads as the number that its 32 lowercase digits write, and
/// nothing else reads as one.
pub proof fn identifiers_read_as_their_number(result: Result<u128, String>, text: Seq<char>)
    requires
        reads_as(result, text),
    ensures
        result is Ok <==> utf8(text).len() == 32 && made_of(text, hex_bytes()),
        result matches Ok(value) ==> value == hex_value(utf8(text)),
{
    if made_of(text, hex_bytes()) {
        assert forall|i: int| 0 <= i < utf8(text).len() implies crate::text::is_hex_digit(
            #[trigger] utf8(text)[i],
        ) by {
            assert(hex_bytes()(utf8(text)[i]));
        }
    }
    if crate::text::lower_hex(text, 32) {
        assert forall|i: int| 0 <= i < utf8(text).len() implies hex_bytes()(
            #[trigger] utf8(text)[i],
        ) by {
            assert(crate::text::is_hex_digit(utf8(text)[i]));
        }
    }
}

} // verus!
