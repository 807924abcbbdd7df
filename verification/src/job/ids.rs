//! Identifiers.
use vstd::prelude::*;
use crate::error::{fault_if, outcome_of, protocol_error, WorkerError};
use crate::job::checks::{opaque_fault, validate_opaque_identifier};
use crate::outside::{
    hex_digit_value, hex_number, hex_value, random_shape, uuid_parse, uuid_random, uuid_to_simple,
};
use crate::text::{ascii_text, hex_char, is_hex_digit, is_lower_hex, lower_hex, text_eq, utf8};
use vstd::utf8::is_ascii_chars_encode_utf8;

verus! {

/// What reading an identifier's text gives: the number that 32 lowercase
/// hexadecimal digits write, and a complaint for every other text.
pub open spec fn reads_as(result: Result<u128, String>, text: Seq<char>) -> bool {
    match result {
        Ok(value) => lower_hex(text, 32) && value == hex_value(utf8(text)),
        Err(message) => !lower_hex(text, 32) && message@
            == "identifier must be a lowercase simple UUID"@,
    }
}

fn read_identifier(value: &str) -> (result: Result<u128, String>)
    ensures
        reads_as(result, value@),
{
    if !is_lower_hex(value, 32) {
        return Err("identifier must be a lowercase simple UUID".to_owned());
    }
    match uuid_parse(value) {
        Some(number) => Ok(number),
        None => Err("identifier must be a lowercase simple UUID".to_owned()),
    }
}

/// A job.
#[derive(Debug, Clone, Copy, PartialEq, Eq, Hash, Structural)]
pub struct JobId {
    pub value: u128,
}

/// A laptop's installation.
#[derive(Debug, Clone, Copy, PartialEq, Eq, Hash, Structural)]
pub struct ClientId {
    pub value: u128,
}

/// The secret that binds a lease to its holder. It is never shown, so it has no
/// debug form.
#[derive(Clone, Copy, PartialEq, Eq, Hash, Structural)]
pub struct LeaseToken {
    pub value: u128,
}

/// A task.
#[derive(Debug, Clone, Copy, PartialEq, Eq, Hash, Structural)]
pub struct TaskId {
    pub value: u128,
}

impl JobId {
    pub fn new(value: u128) -> (id: JobId)
        ensures
            id.value == value,
    {
        JobId { value }
    }

    /// A fresh random identifier, never the nil one.
    pub fn generate() -> (id: JobId)
        ensures
            random_shape(id.value),
            id.value != 0,
    {
        JobId { value: uuid_random() }
    }

    pub fn as_uuid(self) -> (value: u128)
        ensures
            value == self.value,
    {
        self.value
    }

    /// The identifier in 32 lowercase hexadecimal digits.
    pub fn to_text(&self) -> (text: String)
        ensures
            text@ == hex_number(self.value as int, 32),
    {
        uuid_to_simple(self.value)
    }

    pub fn from_text(value: &str) -> (result: Result<JobId, String>)
        ensures
            reads_as(
                match result {
                    Ok(id) => Ok(id.value),
                    Err(message) => Err(message),
                },
                value@,
            ),
    {
        match read_identifier(value) {
            Ok(number) => Ok(JobId { value: number }),
            Err(message) => Err(message),
        }
    }
}

impl ClientId {
    pub fn new(value: u128) -> (id: ClientId)
        ensures
            id.value == value,
    {
        ClientId { value }
    }

    /// A fresh random identifier, never the nil one.
    pub fn generate() -> (id: ClientId)
        ensures
            random_shape(id.value),
            id.value != 0,
    {
        ClientId { value: uuid_random() }
    }

    pub fn as_uuid(self) -> (value: u128)
        ensures
            value == self.value,
    {
        self.value
    }

    /// The identifier in 32 lowercase hexadecimal digits.
    pub fn to_text(&self) -> (text: String)
        ensures
            text@ == hex_number(self.value as int, 32),
    {
        uuid_to_simple(self.value)
    }

    pub fn from_text(value: &str) -> (result: Result<ClientId, String>)
        ensures
            reads_as(
                match result {
                    Ok(id) => Ok(id.value),
                    Err(message) => Err(message),
                },
                value@,
            ),
    {
        match read_identifier(value) {
            Ok(number) => Ok(ClientId { value: number }),
            Err(message) => Err(message),
        }
    }
}

impl LeaseToken {
    pub fn new(value: u128) -> (id: LeaseToken)
        ensures
            id.value == value,
    {
        LeaseToken { value }
    }

    /// A fresh random identifier, never the nil one.
    pub fn generate() -> (id: LeaseToken)
        ensures
            random_shape(id.value),
            id.value != 0,
    {
        LeaseToken { value: uuid_random() }
    }

    pub fn as_uuid(self) -> (value: u128)
        ensures
            value == self.value,
    {
        self.value
    }

    /// The identifier in 32 lowercase hexadecimal digits.
    pub fn to_text(&self) -> (text: String)
        ensures
            text@ == hex_number(self.value as int, 32),
    {
        uuid_to_simple(self.value)
    }

    pub fn from_text(value: &str) -> (result: Result<LeaseToken, String>)
        ensures
            reads_as(
                match result {
                    Ok(id) => Ok(id.value),
                    Err(message) => Err(message),
                },
                value@,
            ),
    {
        match read_identifier(value) {
            Ok(number) => Ok(LeaseToken { value: number }),
            Err(message) => Err(message),
        }
    }
}

impl TaskId {
    pub fn new(value: u128) -> (id: TaskId)
        ensures
            id.value == value,
    {
        TaskId { value }
    }

    /// A fresh random identifier, never the nil one.
    pub fn generate() -> (id: TaskId)
        ensures
            random_shape(id.value),
            id.value != 0,
    {
        TaskId { value: uuid_random() }
    }

    pub fn as_uuid(self) -> (value: u128)
        ensures
            value == self.value,
    {
        self.value
    }

    /// The identifier in 32 lowercase hexadecimal digits.
    pub fn to_text(&self) -> (text: String)
        ensures
            text@ == hex_number(self.value as int, 32),
    {
        uuid_to_simple(self.value)
    }

    pub fn from_text(value: &str) -> (result: Result<TaskId, String>)
        ensures
            reads_as(
                match result {
                    Ok(id) => Ok(id.value),
                    Err(message) => Err(message),
                },
                value@,
            ),
    {
        match read_identifier(value) {
            Ok(number) => Ok(TaskId { value: number }),
            Err(message) => Err(message),
        }
    }
}


/// The digest that a request is known by: 64 lowercase hexadecimal digits.
#[derive(Debug, PartialEq, Eq)]
pub struct RequestFingerprint {
    pub text: String,
}

impl RequestFingerprint {
    pub open spec fn valid(&self) -> bool {
        lower_hex(self.text@, 64)
    }

    pub fn new(value: String) -> (result: Result<RequestFingerprint, WorkerError>)
        ensures
            outcome_of(
                result,
                fault_if(
                    !lower_hex(value@, 64),
                    "request fingerprint must be 64 lowercase hexadecimal bytes"@,
                ),
            ),
            result matches Ok(fingerprint) ==> fingerprint.text == value,
    {
        if is_lower_hex(value.as_str(), 64) {
            Ok(RequestFingerprint { text: value })
        } else {
            Err(protocol_error("request fingerprint must be 64 lowercase hexadecimal bytes"))
        }
    }

    /// Whether two requests are known by the same digest.
    pub fn same(&self, other: &RequestFingerprint) -> (same: bool)
        ensures
            same == (self.text@ == other.text@),
    {
        text_eq(self.text.as_str(), other.text.as_str())
    }
}

impl Clone for RequestFingerprint {
    fn clone(&self) -> (copy: RequestFingerprint)
        ensures
            copy == *self,
    {
        RequestFingerprint { text: self.text.clone() }
    }
}

/// A batch of queue entries, by name.
#[derive(Debug, PartialEq, Eq)]
pub struct RunId {
    pub text: String,
}

impl RunId {
    pub fn new(value: String) -> (result: Result<RunId, WorkerError>)
        ensures
            outcome_of(result, opaque_fault(value@, "run ID"@)),
            result matches Ok(run) ==> run.text == value,
    {
        validate_opaque_identifier(value.as_str(), "run ID")?;
        Ok(RunId { text: value })
    }

    pub fn as_str(&self) -> (value: &str)
        ensures
            value@ == self.text@,
    {
        self.text.as_str()
    }
}

/// Reading back a written identifier gives the same identifier.
pub proof fn written_identifier_reads_back(value: u128)
    ensures
        lower_hex(hex_number(value as int, 32), 32),
        hex_value(utf8(hex_number(value as int, 32))) == value,
{
    let text = hex_number(value as int, 32);
    hex_number_chars(value as int, 32);
    is_ascii_chars_encode_utf8(text);
    assert(utf8(text) =~= Seq::new(text.len(), |i: int| text[i] as u8));
    assert(power16(32) == 0x1_0000_0000_0000_0000_0000_0000_0000_0000) by {
        reveal_with_fuel(power16, 33);
    }
    hex_number_value(value as int, 32);
}

/// Writing an identifier that was read gives back the text that was read.
pub proof fn read_identifier_writes_back(text: Seq<char>)
    requires
        lower_hex(text, 32),
    ensures
        hex_number(hex_value(utf8(text)), 32) == text,
{
    ascii_text(text);
    hex_value_number(utf8(text));
    assert(Seq::new(utf8(text).len(), |i: int| utf8(text)[i] as char) =~= text);
}

spec fn power16(width: nat) -> int
    decreases width,
{
    if width == 0 {
        1
    } else {
        16 * power16((width - 1) as nat)
    }
}

proof fn hex_number_chars(value: int, width: nat)
    requires
        value >= 0,
    ensures
        hex_number(value, width).len() == width,
        forall|i: int|
            0 <= i < width ==> is_hex_digit(#[trigger] hex_number(value, width)[i] as u8)
                && '\0' <= hex_number(value, width)[i] <= '\u{7f}',
    decreases width,
{
    if width > 0 {
        hex_number_chars(value / 16, (width - 1) as nat);
    }
}

proof fn hex_number_value(value: int, width: nat)
    requires
        0 <= value < power16(width),
    ensures
        hex_value(Seq::new(width, |i: int| hex_number(value, width)[i] as u8)) == value,
    decreases width,
{
    let digits = Seq::new(width, |i: int| hex_number(value, width)[i] as u8);
    hex_number_chars(value, width);
    if width > 0 {
        let less = (width - 1) as nat;
        hex_number_chars(value / 16, less);
        hex_number_value(value / 16, less);
        assert(digits.drop_last() =~= Seq::new(less, |i: int| hex_number(value / 16, less)[i] as u8));
        assert(hex_digit_value(digits.last()) == value % 16);
    }
}

proof fn hex_value_number(digits: Seq<u8>)
    requires
        forall|i: int| 0 <= i < digits.len() ==> is_hex_digit(#[trigger] digits[i]),
    ensures
        hex_value(digits) >= 0,
        hex_number(hex_value(digits), digits.len()) =~= Seq::new(
            digits.len(),
            |i: int| digits[i] as char,
        ),
    decreases digits.len(),
{
    if digits.len() > 0 {
        let less = digits.drop_last();
        hex_value_number(less);
        let last = digits.last();
        assert(is_hex_digit(digits[digits.len() - 1]));
        assert(hex_value(digits) / 16 == hex_value(less));
        assert(hex_value(digits) % 16 == hex_digit_value(last));
        assert(hex_char(hex_digit_value(last)) == last as char);
    }
}

} // verus!
