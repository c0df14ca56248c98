//! Textual forms of a UUID, parsed and rendered by the `uuid` crate.
//!
//! The library carries a UUID as its 128-bit value, most significant byte first.

use vstd::prelude::*;

verus! {

/// The 128-bit value that `uuid::Uuid::parse_str` reads out of a text, or `None`
/// where it rejects the text.
pub uninterp spec fn uuid_parse_str(text: Seq<char>) -> Option<u128>;

/// The lower-case hexadecimal digit for a value below sixteen.
pub open spec fn hex_digit(nibble: int) -> char {
    if nibble < 10 {
        (48 + nibble) as char
    } else {
        (87 + nibble) as char
    }
}

/// The index, among the 32 hexadecimal digits of a UUID, of the digit that
/// stands at position `pos` of the hyphenated form.
pub open spec fn digit_index(pos: int) -> int {
    if pos < 8 {
        pos
    } else if pos < 13 {
        pos - 1
    } else if pos < 18 {
        pos - 2
    } else if pos < 23 {
        pos - 3
    } else {
        pos - 4
    }
}

/// The hexadecimal digit `index` of a 128-bit value, counted from the most
/// significant one, which is digit 0.
pub open spec fn nibble(value: u128, index: int) -> int {
    ((value >> ((4 * (31 - index)) as u128)) & 0xf) as int
}

/// The character at position `pos` of the hyphenated form of `value`.
pub open spec fn hyphenated_char(value: u128, pos: int) -> char {
    if pos == 8 || pos == 13 || pos == 18 || pos == 23 {
        '-'
    } else {
        hex_digit(nibble(value, digit_index(pos)))
    }
}

/// The canonical text of a UUID: 32 lower-case hexadecimal digits, most
/// significant first, in groups of 8, 4, 4, 4 and 12 separated by hyphens.
pub open spec fn hyphenated(value: u128) -> Seq<char> {
    Seq::new(36, |pos: int| hyphenated_char(value, pos))
}

/// Makes `uuid::Error`, the error of a failed parse, known as an opaque type.
#[verifier::external_type_specification]
#[verifier::external_body]
pub struct ExUuidError(uuid::Error);

/// Calls `uuid::Uuid::parse_str` and hands the parsed UUID out as its 128-bit
/// value. Trusted: the call succeeds exactly on the texts for which
/// `uuid_parse_str` names a value, and returns that value.
#[verifier::external_body]
pub(crate) fn parse_str(text: &str) -> (parsed: Result<u128, uuid::Error>)
    ensures
        parsed is Ok <==> uuid_parse_str(text@) is Some,
        parsed matches Ok(value) ==> uuid_parse_str(text@) == Some(value),
{
    match uuid::Uuid::parse_str(text) {
        Ok(id) => Ok(id.as_u128()),
        Err(e) => Err(e),
    }
}

/// Renders a UUID through `uuid::Uuid`'s `Display`. Trusted: the text is the
/// hyphenated lower-case form of the value.
#[verifier::external_body]
pub(crate) fn to_hyphenated(value: u128) -> (text: String)
    ensures
        text@ == hyphenated(value),
{
    uuid::Uuid::from_u128(value).to_string()
}

/// The position, in the hyphenated form, of the hexadecimal digit `index`.
pub open spec fn digit_position(index: int) -> int {
    if index < 8 {
        index
    } else if index < 12 {
        index + 1
    } else if index < 16 {
        index + 2
    } else if index < 20 {
        index + 3
    } else {
        index + 4
    }
}

/// Two values that agree on their `count` most significant hexadecimal digits
/// agree on the bits that these digits make up.
proof fn lemma_high_digits(a: u128, b: u128, count: int)
    requires
        1 <= count <= 32,
        forall|index: int| 0 <= index < count ==> nibble(a, index) == nibble(b, index),
    ensures
        a >> ((128 - 4 * count) as u128) == b >> ((128 - 4 * count) as u128),
    decreases count,
{
    let shift = (128 - 4 * count) as u128;
    assert(nibble(a, count - 1) == nibble(b, count - 1));
    if count == 1 {
        assert(a >> 124u128 == (a >> 124u128) & 0xf) by (bit_vector);
        assert(b >> 124u128 == (b >> 124u128) & 0xf) by (bit_vector);
    } else {
        lemma_high_digits(a, b, count - 1);
        let above = (shift + 4) as u128;
        assert(a >> shift == ((a >> above) << 4u128) | ((a >> shift) & 0xf)) by (bit_vector)
            requires
                shift <= 120,
                above == shift + 4,
        ;
        assert(b >> shift == ((b >> above) << 4u128) | ((b >> shift) & 0xf)) by (bit_vector)
            requires
                shift <= 120,
                above == shift + 4,
        ;
    }
}

/// The hyphenated form tells UUIDs apart: two values with the same text are
/// the same value.
pub proof fn lemma_hyphenated_injective(a: u128, b: u128)
    requires
        hyphenated(a) == hyphenated(b),
    ensures
        a == b,
{
    assert forall|index: int| 0 <= index < 32 implies nibble(a, index) == nibble(b, index) by {
        let pos = digit_position(index);
        let shift = (4 * (31 - index)) as u128;
        let x = nibble(a, index);
        let y = nibble(b, index);
        assert((a >> shift) & 0xf < 16) by (bit_vector);
        assert((b >> shift) & 0xf < 16) by (bit_vector);
        // The digit stands at `pos` in both texts, and the texts are the same.
        assert(hyphenated(a)[pos] == hex_digit(x));
        assert(hyphenated(b)[pos] == hex_digit(y));
        // A digit is told by its character.
        assert(hex_digit(x) as int == if x < 10 { 48 + x } else { 87 + x });
        assert(hex_digit(y) as int == if y < 10 { 48 + y } else { 87 + y });
    }
    lemma_high_digits(a, b, 32);
    assert(a >> 0u128 == a) by (bit_vector);
    assert(b >> 0u128 == b) by (bit_vector);
}

} // verus!
