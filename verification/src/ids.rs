//! UUIDs: their text form, and the distribution ids of sender keys.

use crate::error::{generic_outcome, validation_error, BridgeError};
use crate::outside::{format_uuid, obtained, parse_uuid, random_uuid};
use crate::text::join;
use vstd::prelude::*;

verus! {

/// The lower-case hexadecimal digit for `n < 16`.
pub open spec fn hex_digit(n: int) -> char {
    if n < 10 {
        (48 + n) as char
    } else {
        (87 + n) as char
    }
}

/// The value of a hexadecimal digit of either case, or 16 for any other
/// character.
pub open spec fn hex_value(c: char) -> int {
    if '0' <= c <= '9' {
        c as int - 48
    } else if 'a' <= c <= 'f' {
        c as int - 87
    } else if 'A' <= c <= 'F' {
        c as int - 55
    } else {
        16
    }
}

/// Two lower-case hexadecimal digits for each byte.
pub open spec fn hex_text(bytes: Seq<u8>) -> Seq<char> {
    Seq::new(
        2 * bytes.len(),
        |i: int|
            if i % 2 == 0 {
                hex_digit(bytes[i / 2] as int / 16)
            } else {
                hex_digit(bytes[i / 2] as int % 16)
            },
    )
}

/// The bytes that 32 hexadecimal digits spell, if they are such digits.
pub open spec fn bytes_of_digits(digits: Seq<char>) -> Option<Seq<u8>> {
    if digits.len() == 32 && forall|i: int|
        0 <= i < 32 ==> hex_value(#[trigger] digits[i]) < 16 {
        Some(
            Seq::new(
                16,
                |i: int| (16 * hex_value(digits[2 * i]) + hex_value(digits[2 * i + 1])) as u8,
            ),
        )
    } else {
        None
    }
}

/// 32 digits in groups of 8, 4, 4, 4 and 12, with hyphens between them.
pub open spec fn grouped(digits: Seq<char>) -> Seq<char> {
    digits.subrange(0, 8) + seq!['-'] + digits.subrange(8, 12) + seq!['-'] + digits.subrange(
        12,
        16,
    ) + seq!['-'] + digits.subrange(16, 20) + seq!['-'] + digits.subrange(20, 32)
}

/// The bytes that a hyphenated text spells.
pub open spec fn bytes_of_hyphenated(text: Seq<char>) -> Option<Seq<u8>> {
    if text.len() == 36 && text[8] == '-' && text[13] == '-' && text[18] == '-' && text[23] == '-' {
        bytes_of_digits(
            text.subrange(0, 8) + text.subrange(9, 13) + text.subrange(14, 18) + text.subrange(
                19,
                23,
            ) + text.subrange(24, 36),
        )
    } else {
        None
    }
}

/// `c` is the letter `lower`, in either case.
pub open spec fn letter(c: char, lower: char, upper: char) -> bool {
    c == lower || c == upper
}

/// The text starts with `urn:uuid:`, in any case.
pub open spec fn has_urn_prefix(text: Seq<char>) -> bool {
    &&& letter(text[0], 'u', 'U') && letter(text[1], 'r', 'R') && letter(text[2], 'n', 'N')
    &&& text[3] == ':'
    &&& letter(text[4], 'u', 'U') && letter(text[5], 'u', 'U')
    &&& letter(text[6], 'i', 'I') && letter(text[7], 'd', 'D')
    &&& text[8] == ':'
}

/// The 16 bytes of the UUID that a text spells: as 32 digits, hyphenated, or
/// hyphenated within braces or behind `urn:uuid:`.
pub open spec fn uuid_of_text(text: Seq<char>) -> Option<Seq<u8>> {
    if text.len() == 32 {
        bytes_of_digits(text)
    } else if text.len() == 36 {
        bytes_of_hyphenated(text)
    } else if text.len() == 38 && text[0] == '{' && text[37] == '}' {
        bytes_of_hyphenated(text.subrange(1, 37))
    } else if text.len() == 45 && has_urn_prefix(text) {
        bytes_of_hyphenated(text.subrange(9, 45))
    } else {
        None
    }
}

/// The default text of the UUID with these 16 bytes.
pub open spec fn hyphenated_text(bytes: Seq<u8>) -> Seq<char> {
    grouped(hex_text(bytes))
}

/// Reads a distribution id. The caller mints it: sender keys are filed under
/// `(sender, distribution id)`, and the id must be a UUID text.
pub fn parse_distribution_id(id: &str) -> (r: Result<Vec<u8>, BridgeError>)
    ensures
        match r {
            Ok(bytes) => uuid_of_text(id@) == Some(bytes@),
            Err(e) => uuid_of_text(id@) is None && crate::error::refused_with(
                e,
                "Invalid distribution id (must be a UUID string): "@ + id@,
            ),
        },
{
    match parse_uuid(id) {
        Ok(bytes) => Ok(bytes),
        Err(_) => Err(
            BridgeError::Validation(join("Invalid distribution id (must be a UUID string): ", id)),
        ),
    }
}

/// The bytes are those of a UUID that was drawn at random.
pub closed spec fn random_id(bytes: Vec<u8>) -> bool {
    call_ensures(random_uuid, (), bytes)
}

/// A random UUID, as its 16 bytes.
pub fn generate_uuid() -> (bytes: Vec<u8>)
    ensures
        random_id(bytes),
        bytes@.len() == 16,
        0x40 <= bytes@[6] < 0x50,
        0x80 <= bytes@[8] < 0xC0,
{
    obtained(random_uuid)
}

/// The text of the UUID with these bytes, of which there must be 16.
pub fn uuid_to_string(bytes: &[u8]) -> (r: Result<String, BridgeError>)
    ensures
        match r {
            Ok(text) => bytes@.len() == 16 && text@ == hyphenated_text(bytes@),
            Err(e) => bytes@.len() != 16 && crate::error::refused_with(e, "UUID must be 16 bytes"@),
        },
{
    match format_uuid(bytes) {
        Some(text) => Ok(text),
        None => Err(validation_error("UUID must be 16 bytes")),
    }
}

/// The 16 bytes of the UUID that a text spells.
pub fn uuid_from_string(s: &str) -> (r: Result<Vec<u8>, BridgeError>)
    ensures
        match r {
            Ok(bytes) => uuid_of_text(s@) == Some(bytes@),
            Err(e) => uuid_of_text(s@) is None && (e matches BridgeError::Generic(detail)
                && detail@ == crate::outside::uuid_refusal(s@)),
        },
{
    generic_outcome(parse_uuid(s))
}

/// A hexadecimal digit has the value that it was written for.
proof fn lemma_hex_digit_value(n: int)
    requires
        0 <= n < 16,
    ensures
        hex_value(hex_digit(n)) == n,
{
}

/// The digits of 16 bytes spell those bytes.
proof fn lemma_digits_round_trip(bytes: Seq<u8>)
    requires
        bytes.len() == 16,
    ensures
        bytes_of_digits(hex_text(bytes)) == Some(bytes),
{
    let digits = hex_text(bytes);
    assert forall|i: int| 0 <= i < 32 implies hex_value(#[trigger] digits[i]) < 16 by {
        lemma_hex_digit_value(bytes[i / 2] as int / 16);
        lemma_hex_digit_value(bytes[i / 2] as int % 16);
    }
    assert forall|i: int| 0 <= i < 16 implies (16 * hex_value(#[trigger] digits[2 * i]) + hex_value(
        digits[2 * i + 1],
    )) as u8 == bytes[i] by {
        lemma_hex_digit_value(bytes[i] as int / 16);
        lemma_hex_digit_value(bytes[i] as int % 16);
    }
    assert(bytes_of_digits(digits)->0 =~= bytes);
}

/// Reading the text of a UUID gives back its bytes, and so does reading its digits
/// without hyphens.
pub proof fn law_uuid_text_round_trip(bytes: Seq<u8>)
    requires
        bytes.len() == 16,
    ensures
        uuid_of_text(hyphenated_text(bytes)) == Some(bytes),
        uuid_of_text(hex_text(bytes)) == Some(bytes),
{
    let text = hyphenated_text(bytes);
    assert(text.subrange(0, 8) + text.subrange(9, 13) + text.subrange(14, 18) + text.subrange(
        19,
        23,
    ) + text.subrange(24, 36) =~= hex_text(bytes));
    lemma_digits_round_trip(bytes);
}

/// A text spells 16 bytes or none.
pub proof fn law_uuid_has_sixteen_bytes(text: Seq<char>)
    ensures
        uuid_of_text(text) matches Some(bytes) ==> bytes.len() == 16,
{
}

/// Two UUIDs with the same text are the same UUID.
pub proof fn law_uuid_text_is_unique(a: Seq<u8>, b: Seq<u8>)
    requires
        a.len() == 16,
        b.len() == 16,
        hyphenated_text(a) == hyphenated_text(b),
    ensures
        a == b,
{
    law_uuid_text_round_trip(a);
    law_uuid_text_round_trip(b);
}

/// A generated UUID is one that was drawn at random, of version 4.
pub(crate) proof fn law_generated_uuid_is_drawn(bytes: Vec<u8>)
    requires
        call_ensures(generate_uuid, (), bytes),
    ensures
        call_ensures(random_uuid, (), bytes),
        bytes@.len() == 16,
        bytes@[6] / 16 == 4,
        bytes@[8] / 64 == 2,
{
}

} // verus!
