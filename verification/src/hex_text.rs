//! Hexadecimal text, as the `hex` crate reads and writes it.

use vstd::prelude::*;

verus! {

/// Whether an ASCII code is one of `0..9`, `A..F`, `a..f`.
pub open spec fn is_hex_digit(c: u8) -> bool {
    ||| 0x30 <= c <= 0x39
    ||| 0x41 <= c <= 0x46
    ||| 0x61 <= c <= 0x66
}

/// The number that a hexadecimal digit stands for.
pub open spec fn hex_digit_value(c: u8) -> int
    recommends
        is_hex_digit(c),
{
    if 0x30 <= c <= 0x39 {
        c - 0x30
    } else if 0x41 <= c <= 0x46 {
        c - 0x41 + 10
    } else {
        c - 0x61 + 10
    }
}

/// Text that decodes: an even number of hexadecimal digits.
pub open spec fn is_hex_text(text: Seq<u8>) -> bool {
    &&& text.len() % 2 == 0
    &&& forall|i: int| 0 <= i < text.len() ==> is_hex_digit(#[trigger] text[i])
}

/// The byte that two hexadecimal digits spell, the high digit first.
pub open spec fn hex_pair_value(high: u8, low: u8) -> u8
    recommends
        is_hex_digit(high),
        is_hex_digit(low),
{
    (16 * hex_digit_value(high) + hex_digit_value(low)) as u8
}

/// The bytes that hexadecimal text spells, two digits to a byte.
pub open spec fn hex_decoded(text: Seq<u8>) -> Seq<u8>
    recommends
        is_hex_text(text),
{
    Seq::new(text.len() / 2, |i: int| hex_pair_value(text[2 * i], text[2 * i + 1]))
}

/// The upper-case digit for a number below sixteen.
pub open spec fn upper_hex_digit(n: int) -> char
    recommends
        0 <= n < 16,
{
    if n < 10 {
        (0x30 + n) as u8 as char
    } else {
        (0x41 + n - 10) as u8 as char
    }
}

/// The upper-case hexadecimal text of some bytes: for every byte its high
/// digit, then its low digit.
pub open spec fn upper_hex_text(data: Seq<u8>) -> Seq<char> {
    Seq::new(
        2 * data.len(),
        |i: int|
            if i % 2 == 0 {
                upper_hex_digit((data[i / 2] / 16) as int)
            } else {
                upper_hex_digit((data[i / 2] % 16) as int)
            },
    )
}

/// Whether a character is a hexadecimal digit of either case.
pub open spec fn is_hex_char(c: char) -> bool {
    c as u32 <= 0x7f && is_hex_digit(c as u8)
}

/// A character with `a..z` turned into `A..Z`.
pub open spec fn ascii_upper(c: char) -> char {
    if 'a' <= c <= 'z' {
        ((c as u8) - 0x20) as u8 as char
    } else {
        c
    }
}

/// The upper-case digit of a number below sixteen is a hexadecimal digit
/// that stands for that number.
pub proof fn lemma_digit_of_value(n: int)
    requires
        0 <= n < 16,
    ensures
        is_hex_char(upper_hex_digit(n)),
        hex_digit_value(upper_hex_digit(n) as u8) == n,
        ascii_upper(upper_hex_digit(n)) == upper_hex_digit(n),
{
}

/// The upper-case digit of the number that a hexadecimal digit stands for is
/// that digit in upper case.
pub proof fn lemma_value_of_digit(c: char)
    requires
        is_hex_char(c),
    ensures
        0 <= hex_digit_value(c as u8) < 16,
        upper_hex_digit(hex_digit_value(c as u8)) == ascii_upper(c),
{
}

/// Calls `hex::decode`. Trusted: the call succeeds exactly on an even number
/// of hexadecimal digits of either case, and then yields one byte for every
/// two digits, the first digit of a pair being the high half.
#[verifier::external_body]
pub(crate) fn decode_hex(text: &[u8]) -> (decoded: Result<Vec<u8>, hex::FromHexError>)
    ensures
        decoded is Ok <==> is_hex_text(text@),
        decoded matches Ok(bytes) ==> bytes@ == hex_decoded(text@),
{
    hex::decode(text)
}

/// Calls `hex::encode_upper`. Trusted: the text holds two digits for every
/// byte, high half first, drawn from `0123456789ABCDEF`.
#[verifier::external_body]
pub(crate) fn encode_hex_upper(data: &[u8]) -> (text: String)
    ensures
        text@ == upper_hex_text(data@),
{
    hex::encode_upper(data)
}

/// The error type of `hex::decode`; nothing is read from it.
#[verifier::external_type_specification]
#[verifier::external_body]
pub struct ExFromHexError(hex::FromHexError);

} // verus!
