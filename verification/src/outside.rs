//! Calls into other crates, each with what the library relies on.
use vstd::prelude::*;
use vstd::utf8::{decode_utf8, valid_utf8};
use crate::text::{hex_char, lower_hex, utf8};
use base64::engine::general_purpose::STANDARD;
use base64::Engine;
use sha2::{Digest, Sha256};
use uuid::Uuid;

verus! {

/// The value of a hexadecimal digit's byte.
pub open spec fn hex_digit_value(byte: u8) -> int {
    if byte <= 0x39 {
        byte - 0x30
    } else {
        byte - 0x57
    }
}

/// The number that lowercase hexadecimal digits write, most significant first.
pub open spec fn hex_value(digits: Seq<u8>) -> int
    decreases digits.len(),
{
    if digits.len() == 0 {
        0
    } else {
        hex_value(digits.drop_last()) * 16 + hex_digit_value(digits.last())
    }
}

/// A number in `width` lowercase hexadecimal digits, most significant first.
pub open spec fn hex_number(value: int, width: nat) -> Seq<char>
    decreases width,
{
    if width == 0 {
        seq![]
    } else {
        hex_number(value / 16, (width - 1) as nat).push(hex_char(value % 16))
    }
}

/// The 128-bit number that a text writes as a UUID, in any of its forms; `None`
/// where it is none.
pub uninterp spec fn uuid_parsed(text: Seq<char>) -> Option<u128>;

/// `uuid::Uuid::parse_str`. Of its forms only the simple one is spelled out: 32
/// lowercase hexadecimal digits are always accepted, and give the number that
/// they write.
#[verifier::external_body]
pub(crate) fn uuid_parse(text: &str) -> (value: Option<u128>)
    ensures
        value == uuid_parsed(text@),
        lower_hex(text@, 32) ==> value is Some,
        lower_hex(text@, 32) ==> value->0 == hex_value(utf8(text@)),
{
    Uuid::parse_str(text).ok().map(|id| id.as_u128())
}

/// `uuid::fmt::Simple` in lowercase hexadecimal: the 128-bit number in exactly
/// 32 digits, leading zeros kept.
#[verifier::external_body]
pub(crate) fn uuid_to_simple(value: u128) -> (text: String)
    ensures
        text@ == hex_number(value as int, 32),
{
    format!("{:x}", Uuid::from_u128(value).simple())
}

/// The 32 digits of an identifier in the groups of its hyphenated form.
pub open spec fn hyphenated(digits: Seq<char>) -> Seq<char> {
    digits.subrange(0, 8) + "-"@ + digits.subrange(8, 12) + "-"@ + digits.subrange(12, 16) + "-"@
        + digits.subrange(16, 20) + "-"@ + digits.subrange(20, 32)
}

/// `std::fmt::Debug` of `uuid::Uuid`: the 32 digits of the simple form, with
/// hyphens between its five groups.
#[verifier::external_body]
pub(crate) fn uuid_to_hyphenated(value: u128) -> (text: String)
    ensures
        text@ == hyphenated(hex_number(value as int, 32)),
{
    format!("{:?}", Uuid::from_u128(value))
}

/// Whether a number has the shape of a random identifier: version 4, and the
/// variant bits `10`.
pub open spec fn random_shape(value: u128) -> bool {
    &&& (value / 0x1000_0000_0000_0000_0000) % 16 == 4
    &&& (value / 0x4000_0000_0000_0000) % 4 == 2
}

/// `uuid::Uuid::new_v4`: a random identifier. Every outcome carries its version
/// and its variant; the other bits are left open.
#[verifier::external_body]
pub(crate) fn uuid_random() -> (value: u128)
    ensures
        random_shape(value),
{
    Uuid::new_v4().as_u128()
}

/// The SHA-256 digest of a byte string.
pub uninterp spec fn sha256_digest(bytes: Seq<u8>) -> Seq<u8>;

/// `sha2::Sha256::digest`: 32 bytes that depend on the input alone.
#[verifier::external_body]
pub(crate) fn sha256(bytes: &[u8]) -> (digest: Vec<u8>)
    ensures
        digest@ == sha256_digest(bytes@),
        digest@.len() == 32,
{
    Sha256::digest(bytes).to_vec()
}

/// The standard base64 text of a byte string, padded.
pub uninterp spec fn base64_text(bytes: Seq<u8>) -> Seq<char>;

/// The bytes that a standard base64 text holds; `None` where it is not one.
pub uninterp spec fn base64_bytes(text: Seq<char>) -> Option<Seq<u8>>;

/// `base64` standard engine, `encode`: its text decodes to the bytes that were
/// encoded. The bound keeps the encoded length within `usize`.
#[verifier::external_body]
pub(crate) fn base64_encode(bytes: &[u8]) -> (text: String)
    requires
        bytes@.len() <= 0x1000_0000,
    ensures
        text@ == base64_text(bytes@),
        base64_bytes(text@) == Some(bytes@),
{
    STANDARD.encode(bytes)
}

/// `base64` standard engine, `decode`: the bytes of a well-formed text, or
/// nothing.
#[verifier::external_body]
pub(crate) fn base64_decode(text: &str) -> (bytes: Option<Vec<u8>>)
    ensures
        (match bytes {
            Some(held) => Some(held@),
            None => None,
        }) == base64_bytes(text@),
{
    STANDARD.decode(text).ok()
}

/// One character inside a JSON string: quote, backslash and control characters
/// below U+0020 are escaped, everything else stands for itself.
pub open spec fn json_char(c: char) -> Seq<char> {
    if c == '"' {
        seq!['\\', '"']
    } else if c == '\\' {
        seq!['\\', '\\']
    } else if c == '\u{8}' {
        seq!['\\', 'b']
    } else if c == '\t' {
        seq!['\\', 't']
    } else if c == '\n' {
        seq!['\\', 'n']
    } else if c == '\u{c}' {
        seq!['\\', 'f']
    } else if c == '\r' {
        seq!['\\', 'r']
    } else if (c as int) < 0x20 {
        seq!['\\', 'u', '0', '0', hex_char(c as int / 16), hex_char(c as int % 16)]
    } else {
        seq![c]
    }
}

/// The characters of a JSON string between its quotes.
pub open spec fn json_chars(text: Seq<char>) -> Seq<char>
    decreases text.len(),
{
    if text.len() == 0 {
        seq![]
    } else {
        json_chars(text.drop_last()) + json_char(text.last())
    }
}

/// A text as a JSON string.
pub open spec fn json_string_text(text: Seq<char>) -> Seq<char> {
    seq!['"'] + json_chars(text) + seq!['"']
}

/// `String::from_iter` on characters: the text that they spell.
#[verifier::external_body]
pub(crate) fn text_of(chars: &[char]) -> (text: String)
    ensures
        text@ == chars@,
{
    String::from_iter(chars)
}

/// Bytes as text, where each part that is not UTF-8 becomes a replacement
/// character.
pub uninterp spec fn lossy_text(bytes: Seq<u8>) -> Seq<char>;

/// `String::from_utf8_lossy`: bytes that are UTF-8 are the text that they
/// encode. How many replacement characters stand for other bytes is left
/// unsaid.
#[verifier::external_body]
pub(crate) fn text_from_utf8_lossy(bytes: &[u8]) -> (text: String)
    ensures
        text@ == lossy_text(bytes@),
        forall|plain: Seq<char>| #[trigger] utf8(plain) == bytes@ ==> text@ == plain,
{
    String::from_utf8_lossy(bytes).into_owned()
}

/// `String::from_utf8`: the text that the bytes encode, or nothing where they
/// are not UTF-8.
#[verifier::external_body]
pub(crate) fn text_from_utf8(bytes: Vec<u8>) -> (text: Option<String>)
    ensures
        text is Some <==> valid_utf8(bytes@),
        text is Some ==> text->0@ == decode_utf8(bytes@),
{
    String::from_utf8(bytes).ok()
}

/// The debug form of a text: in double quotes, escaped as Rust source would be.
pub uninterp spec fn debug_quoted_text(text: Seq<char>) -> Seq<char>;

/// `std::fmt::Debug` of `str`.
#[verifier::external_body]
pub(crate) fn debug_quoted(text: &str) -> (quoted: String)
    ensures
        quoted@ == debug_quoted_text(text@),
{
    format!("{text:?}")
}

/// `serde_json::to_string` on a string: the text in double quotes, escaped.
#[verifier::external_body]
pub(crate) fn json_string(text: &str) -> (json: String)
    ensures
        json@ == json_string_text(text@),
{
    serde_json::to_string(text).expect("a string is always valid JSON")
}

} // verus!
