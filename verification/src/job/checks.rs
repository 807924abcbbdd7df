//! Checks that the records share, each with the fault that it reports.
use vstd::prelude::*;
use vstd::utf8::is_ascii_chars_encode_utf8;
use vstd::string::*;
use crate::error::{earliest, fault_if, labelled_error, outcome_of, protocol_error, WorkerError};
use crate::job::{MAX_ARG_BYTES, MAX_CONTROL_CODE_BYTES, MAX_CONTROL_MESSAGE_BYTES};
use crate::text::{
    contains_nul, has_nul, is_digit, is_lower, is_lower_hex, is_upper, lower_hex, text_eq, texts,
    utf8,
};

verus! {

/// The bytes that a kind of name is made of.
#[derive(Debug, Clone, Copy, PartialEq, Eq, Structural)]
pub enum ByteClass {
    /// Lowercase letters, digits and `.` `_` `-` `:` `@`.
    Opaque,
    /// Letters, digits and `.` `_` `-` `@`.
    Worker,
    /// Uppercase letters, digits and `_`.
    Code,
    /// Letters, digits and `.` `_` `-`.
    Profile,
}

impl ByteClass {
    pub open spec fn holds(self, byte: u8) -> bool {
        let dotted = byte == 0x2e || byte == 0x5f || byte == 0x2d;
        match self {
            ByteClass::Opaque => is_lower(byte) || is_digit(byte) || dotted || byte == 0x3a || byte
                == 0x40,
            ByteClass::Worker => is_lower(byte) || is_upper(byte) || is_digit(byte) || dotted || byte
                == 0x40,
            ByteClass::Code => is_upper(byte) || is_digit(byte) || byte == 0x5f,
            ByteClass::Profile => is_lower(byte) || is_upper(byte) || is_digit(byte) || dotted,
        }
    }

    pub fn admits(self, byte: u8) -> (admitted: bool)
        ensures
            admitted == self.holds(byte),
    {
        let lower = 0x61 <= byte && byte <= 0x7a;
        let upper = 0x41 <= byte && byte <= 0x5a;
        let digit = 0x30 <= byte && byte <= 0x39;
        let dotted = byte == 0x2e || byte == 0x5f || byte == 0x2d;
        match self {
            ByteClass::Opaque => lower || digit || dotted || byte == 0x3a || byte == 0x40,
            ByteClass::Worker => lower || upper || digit || dotted || byte == 0x40,
            ByteClass::Code => upper || digit || byte == 0x5f,
            ByteClass::Profile => lower || upper || digit || dotted,
        }
    }
}

/// Every byte of a text is of one class.
pub open spec fn all_bytes(text: Seq<char>, class: ByteClass) -> bool {
    forall|i: int| 0 <= i < utf8(text).len() ==> class.holds(#[trigger] utf8(text)[i])
}

pub fn all_in(text: &str, class: ByteClass) -> (all: bool)
    ensures
        all == all_bytes(text@, class),
{
    let bytes = text.as_bytes();
    let mut i: usize = 0;
    while i < bytes.len()
        invariant
            i <= bytes.len(),
            bytes@ == utf8(text@),
            forall|j: int| 0 <= j < i ==> class.holds(#[trigger] utf8(text@)[j]),
        decreases bytes.len() - i,
    {
        if !class.admits(bytes[i]) {
            assert(!class.holds(utf8(text@)[i as int]));
            return false;
        }
        i += 1;
    }
    true
}

/// C0 and C1 control characters.
pub open spec fn is_control(c: char) -> bool {
    c <= '\u{1f}' || '\u{7f}' <= c <= '\u{9f}'
}

pub open spec fn has_control(text: Seq<char>) -> bool {
    exists|i: int| 0 <= i < text.len() && is_control(#[trigger] text[i])
}

/// Whether a text holds a control character.
pub fn contains_control(text: &str) -> (found: bool)
    ensures
        found == has_control(text@),
{
    let length: usize = text.unicode_len();
    let mut i: usize = 0;
    while i < length
        invariant
            i <= length,
            length == text@.len(),
            forall|j: int| 0 <= j < i ==> !is_control(#[trigger] text@[j]),
        decreases length - i,
    {
        let c = text.get_char(i);
        if c <= '\u{1f}' || ('\u{7f}' <= c && c <= '\u{9f}') {
            assert(is_control(text@[i as int]));
            return true;
        }
        i += 1;
    }
    false
}

pub open spec fn non_nul_fault(value: Seq<char>, max_bytes: nat, label: Seq<char>) -> Option<
    Seq<char>,
> {
    fault_if(
        value.len() == 0 || utf8(value).len() > max_bytes || has_nul(utf8(value)),
        label + " is empty, too long, or contains NUL"@,
    )
}

/// A text that is present, bounded and free of NUL.
pub fn validate_non_nul(value: &str, max_bytes: usize, label: &str) -> (result: Result<
    (),
    WorkerError,
>)
    ensures
        outcome_of(result, non_nul_fault(value@, max_bytes as nat, label@)),
{
    if value.is_empty() || value.as_bytes().len() > max_bytes || contains_nul(value) {
        return Err(labelled_error(label, " is empty, too long, or contains NUL"));
    }
    Ok(())
}

/// A short text of printable ASCII is accepted everywhere.
pub proof fn printable_texts_are_accepted(value: Seq<char>, max_bytes: nat, label: Seq<char>)
    requires
        0 < value.len() <= max_bytes,
        forall|i: int| 0 <= i < value.len() ==> ' ' <= #[trigger] value[i] <= '~',
    ensures
        non_nul_fault(value, max_bytes, label) is None,
{
    is_ascii_chars_encode_utf8(value);
    assert forall|i: int| 0 <= i < utf8(value).len() implies #[trigger] utf8(value)[i] != 0 by {
        assert(value[i] as u8 == utf8(value)[i]);
    }
}

/// A canonical opaque name: at most 128 bytes, led by a lowercase letter or a
/// digit.
pub open spec fn opaque_identifier(value: Seq<char>) -> bool {
    let bytes = utf8(value);
    &&& 0 < bytes.len() <= 128
    &&& all_bytes(value, ByteClass::Opaque)
    &&& is_lower(bytes[0]) || is_digit(bytes[0])
}

pub open spec fn opaque_fault(value: Seq<char>, label: Seq<char>) -> Option<Seq<char>> {
    fault_if(!opaque_identifier(value), label + " is not canonical"@)
}

pub fn validate_opaque_identifier(value: &str, label: &str) -> (result: Result<(), WorkerError>)
    ensures
        outcome_of(result, opaque_fault(value@, label@)),
{
    let bytes = value.as_bytes();
    if bytes.len() == 0 || bytes.len() > 128 || !all_in(value, ByteClass::Opaque) || !((0x61
        <= bytes[0] && bytes[0] <= 0x7a) || (0x30 <= bytes[0] && bytes[0] <= 0x39)) {
        return Err(labelled_error(label, " is not canonical"));
    }
    Ok(())
}

/// A worker's name in the queue: 1 to 128 bytes of its class.
pub open spec fn queue_worker_name(value: Seq<char>) -> bool {
    0 < utf8(value).len() <= 128 && all_bytes(value, ByteClass::Worker)
}

pub open spec fn worker_name_fault(value: Seq<char>) -> Option<Seq<char>> {
    fault_if(!queue_worker_name(value), "queue worker name is invalid"@)
}

pub fn validate_worker_name(value: &str) -> (result: Result<(), WorkerError>)
    ensures
        outcome_of(result, worker_name_fault(value@)),
{
    let length: usize = value.as_bytes().len();
    if length == 0 || length > 128 || !all_in(value, ByteClass::Worker) {
        return Err(protocol_error("queue worker name is invalid"));
    }
    Ok(())
}

/// A capability's name: 1 to 128 bytes of its class.
pub open spec fn capability_name(value: Seq<char>) -> bool {
    0 < utf8(value).len() <= 128 && all_bytes(value, ByteClass::Opaque)
}

pub open spec fn requirement_fault_at(names: Seq<Seq<char>>, at: int) -> Option<Seq<char>> {
    earliest(
        fault_if(!capability_name(names[at]), "queue capability is invalid"@),
        fault_if(
            names.take(at).contains(names[at]),
            "queue capabilities contain a duplicate"@,
        ),
    )
}

/// The first fault of the capabilities from `at` on.
pub open spec fn requirement_faults(names: Seq<Seq<char>>, at: int) -> Option<Seq<char>>
    decreases names.len() - at,
{
    if at >= names.len() {
        None
    } else {
        earliest(requirement_fault_at(names, at), requirement_faults(names, at + 1))
    }
}

pub open spec fn requirements_fault(names: Seq<Seq<char>>) -> Option<Seq<char>> {
    earliest(
        fault_if(names.len() > 256, "queue capability count exceeds its limit"@),
        requirement_faults(names, 0),
    )
}

/// Whether a text stands among the first `count` strings.
pub fn among_first(strings: &Vec<String>, count: usize, text: &str) -> (found: bool)
    requires
        count <= strings@.len(),
    ensures
        found == texts(strings@).take(count as int).contains(text@),
{
    let mut i: usize = 0;
    while i < count
        invariant
            i <= count <= strings@.len(),
            forall|j: int| 0 <= j < i ==> texts(strings@)[j] != text@,
        decreases count - i,
    {
        if text_eq(strings[i].as_str(), text) {
            assert(texts(strings@).take(count as int)[i as int] == text@);
            return true;
        }
        assert(texts(strings@)[i as int] != text@);
        i += 1;
    }
    false
}

/// At most 256 well-formed capabilities, none twice.
pub fn validate_requirements(requirements: &Vec<String>) -> (result: Result<(), WorkerError>)
    ensures
        outcome_of(result, requirements_fault(texts(requirements@))),
{
    if requirements.len() > 256 {
        return Err(protocol_error("queue capability count exceeds its limit"));
    }
    let ghost names = texts(requirements@);
    let mut i: usize = 0;
    while i < requirements.len()
        invariant
            i <= requirements.len() <= 256,
            names == texts(requirements@),
            requirement_faults(names, 0) == requirement_faults(names, i as int),
        decreases requirements.len() - i,
    {
        let name = requirements[i].as_str();
        assert(name@ == names[i as int]);
        let length: usize = name.as_bytes().len();
        if length == 0 || length > 128 || !all_in(name, ByteClass::Opaque) {
            return Err(protocol_error("queue capability is invalid"));
        }
        if among_first(requirements, i, name) {
            return Err(protocol_error("queue capabilities contain a duplicate"));
        }
        i += 1;
    }
    Ok(())
}

/// A stable code: led by an uppercase letter.
pub open spec fn control_code_fault(value: Seq<char>, label: Seq<char>) -> Option<Seq<char>> {
    earliest(
        non_nul_fault(value, MAX_CONTROL_CODE_BYTES as nat, label),
        fault_if(
            !(utf8(value).len() > 0 && is_upper(utf8(value)[0]) && all_bytes(value, ByteClass::Code)),
            label + " must be an uppercase ASCII identifier"@,
        ),
    )
}

/// A character that a stable code may be made of.
pub open spec fn code_char(c: char) -> bool {
    'A' <= c <= 'Z' || '0' <= c <= '9' || c == '_'
}

/// A short text of capitals, digits and underscores that a capital leads is a
/// stable code.
pub proof fn plain_codes_are_accepted(value: Seq<char>, label: Seq<char>)
    requires
        0 < value.len() <= MAX_CONTROL_CODE_BYTES,
        'A' <= value[0] <= 'Z',
        forall|i: int| 0 <= i < value.len() ==> code_char(#[trigger] value[i]),
    ensures
        control_code_fault(value, label) is None,
{
    assert forall|i: int| 0 <= i < value.len() implies ' ' <= #[trigger] value[i] <= '~' by {
        assert(code_char(value[i]));
    }
    printable_texts_are_accepted(value, MAX_CONTROL_CODE_BYTES as nat, label);
    is_ascii_chars_encode_utf8(value);
    assert forall|i: int| 0 <= i < utf8(value).len() implies ByteClass::Code.holds(
        #[trigger] utf8(value)[i],
    ) by {
        assert(value[i] as u8 == utf8(value)[i]);
        assert(code_char(value[i]));
    }
    assert(value[0] as u8 == utf8(value)[0]);
}

pub fn validate_control_code(value: &str, label: &str) -> (result: Result<(), WorkerError>)
    ensures
        outcome_of(result, control_code_fault(value@, label@)),
{
    validate_non_nul(value, MAX_CONTROL_CODE_BYTES, label)?;
    let bytes = value.as_bytes();
    if bytes.len() == 0 || !(0x41 <= bytes[0] && bytes[0] <= 0x5a) || !all_in(
        value,
        ByteClass::Code,
    ) {
        return Err(labelled_error(label, " must be an uppercase ASCII identifier"));
    }
    Ok(())
}

pub open spec fn control_message_fault(value: Seq<char>, label: Seq<char>) -> Option<Seq<char>> {
    earliest(
        non_nul_fault(value, MAX_CONTROL_MESSAGE_BYTES as nat, label),
        fault_if(has_control(value), label + " contains a control character"@),
    )
}

pub fn validate_control_message(value: &str, label: &str) -> (result: Result<(), WorkerError>)
    ensures
        outcome_of(result, control_message_fault(value@, label@)),
{
    validate_non_nul(value, MAX_CONTROL_MESSAGE_BYTES, label)?;
    if contains_control(value) {
        return Err(labelled_error(label, " contains a control character"));
    }
    Ok(())
}

pub open spec fn argument_fault(value: Seq<char>) -> Option<Seq<char>> {
    fault_if(
        utf8(value).len() > MAX_ARG_BYTES || has_nul(utf8(value)),
        "argv argument is too long or contains NUL"@,
    )
}

pub fn validate_argument(value: &str) -> (result: Result<(), WorkerError>)
    ensures
        outcome_of(result, argument_fault(value@)),
{
    if value.as_bytes().len() > MAX_ARG_BYTES || contains_nul(value) {
        return Err(protocol_error("argv argument is too long or contains NUL"));
    }
    Ok(())
}

pub open spec fn hex_fault(value: Seq<char>, label: Seq<char>) -> Option<Seq<char>> {
    fault_if(!lower_hex(value, 64), label + " must be 64 lowercase hexadecimal bytes"@)
}

pub fn validate_hex_component(value: &str, label: &str) -> (result: Result<(), WorkerError>)
    ensures
        outcome_of(result, hex_fault(value@, label@)),
{
    if is_lower_hex(value, 64) {
        Ok(())
    } else {
        Err(labelled_error(label, " must be 64 lowercase hexadecimal bytes"))
    }
}

} // verus!
