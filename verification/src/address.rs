//! Device addresses: six bytes in wire order and a type tag.

use crate::hex_text::{
    ascii_upper, decode_hex, encode_hex_upper, hex_pair_value, is_hex_char, is_hex_digit,
    lemma_digit_of_value, lemma_value_of_digit, upper_hex_digit,
};
use vstd::prelude::*;
use vstd::slice::slice_subrange;
use vstd::string::{is_ascii_spec_bytes, StringExecFns};

verus! {

/// The kind of a device address.
#[derive(Debug, Clone, Copy, PartialEq, Eq, Structural)]
pub enum AddressType {
    BrEdr,
    LePublic,
    LeRandom,
    Unknown,
}

impl AddressType {
    /// The type that a tag byte names; every byte but 0, 1 and 2 is `Unknown`.
    pub open spec fn of_byte(value: u8) -> AddressType {
        match value {
            0 => AddressType::BrEdr,
            1 => AddressType::LePublic,
            2 => AddressType::LeRandom,
            _ => AddressType::Unknown,
        }
    }

    /// The tag byte that goes on the wire. The protocol has no tag for
    /// `Unknown`, which is written as 0.
    pub open spec fn tag(self) -> u8 {
        match self {
            AddressType::BrEdr => 0,
            AddressType::LePublic => 1,
            AddressType::LeRandom => 2,
            AddressType::Unknown => 0,
        }
    }

    /// Reads a tag byte.
    pub fn from_byte(value: u8) -> (kind: AddressType)
        ensures
            kind == AddressType::of_byte(value),
    {
        match value {
            0 => AddressType::BrEdr,
            1 => AddressType::LePublic,
            2 => AddressType::LeRandom,
            _ => AddressType::Unknown,
        }
    }

    /// Writes the tag byte. `Unknown` becomes 0, so reading the byte back
    /// gives `BrEdr`.
    pub fn to_byte(&self) -> (value: u8)
        ensures
            value == self.tag(),
    {
        match self {
            AddressType::BrEdr => 0,
            AddressType::LePublic => 1,
            AddressType::LeRandom => 2,
            AddressType::Unknown => 0,
        }
    }

    /// Every type but `Unknown` survives being written and read back.
    pub proof fn lemma_tag_round_trip(kind: AddressType)
        requires
            kind != AddressType::Unknown,
        ensures
            AddressType::of_byte(kind.tag()) == kind,
    {
    }
}

/// The ASCII code of the colon that separates the groups of an address text.
pub const GROUP_SEPARATOR: u8 = 0x3A;

/// Whether `c` may stand at place `at` of an address text: a colon at every
/// third place, a hexadecimal digit elsewhere.
pub open spec fn fits_place(at: int, c: char) -> bool {
    if at % 3 == 2 {
        c == ':'
    } else {
        is_hex_char(c)
    }
}

/// The text of an address: six groups of two hexadecimal digits, with a colon
/// between neighbouring groups.
pub open spec fn is_address_text(text: Seq<char>) -> bool {
    &&& text.len() == 17
    &&& forall|i: int| 0 <= i < 17 ==> fits_place(i, #[trigger] text[i])
}

/// The byte that the group at `group` (counted from the left) spells.
pub open spec fn group_value(text: Seq<char>, group: int) -> u8
    recommends
        0 <= group < 6,
        text.len() == 17,
{
    hex_pair_value(text[3 * group] as u8, text[3 * group + 1] as u8)
}

/// The six bytes, in wire order, that an address text spells: the leftmost
/// group is the last byte on the wire.
pub open spec fn bytes_of_text(text: Seq<char>) -> Seq<u8>
    recommends
        is_address_text(text),
{
    Seq::new(6, |k: int| group_value(text, 5 - k))
}

/// The text of six bytes in wire order: upper-case digits, the last byte on
/// the wire printed first.
pub open spec fn text_of_bytes(bytes: Seq<u8>) -> Seq<char>
    recommends
        bytes.len() == 6,
{
    Seq::new(
        17,
        |i: int|
            if i % 3 == 2 {
                ':'
            } else if i % 3 == 0 {
                upper_hex_digit((bytes[5 - i / 3] / 16) as int)
            } else {
                upper_hex_digit((bytes[5 - i / 3] % 16) as int)
            },
    )
}

/// Bytes that an address takes on the wire: six of the address, one tag.
pub const ADDRESS_RECORD_LEN: usize = 7;

/// Whether `a` is the address that `frame` holds at `at`: six bytes in wire
/// order, then the tag byte.
pub open spec fn holds_address(frame: Seq<u8>, at: int, a: Address) -> bool
    recommends
        0 <= at,
        at + 7 <= frame.len(),
{
    &&& a.address@ == frame.subrange(at, at + 6)
    &&& a.address_type == AddressType::of_byte(frame[at + 6])
}

/// The wire form of an address: its six bytes, then its tag byte.
pub open spec fn wire_form(a: Address) -> Seq<u8> {
    a.address@.push(a.address_type.tag())
}

/// A character is ASCII exactly when its code is below 128.
proof fn lemma_ascii_code(c: char)
    ensures
        '\0' <= c <= '\u{7f}' <==> c as u32 <= 0x7f,
{
}

/// A device address.
#[derive(Debug, Clone, Copy, PartialEq, Eq)]
pub struct Address {
    /// The six bytes in the order in which they travel.
    pub address: [u8; 6],
    pub address_type: AddressType,
}

impl Address {
    /// Builds an address from its wire form.
    pub fn from_bytes(address: [u8; 6], address_type: u8) -> (made: Address)
        ensures
            made.address == address,
            made.address_type == AddressType::of_byte(address_type),
    {
        Address { address, address_type: AddressType::from_byte(address_type) }
    }

    /// Reads the address that a frame holds at `at`.
    pub(crate) fn read_at(frame: &[u8], at: usize) -> (a: Address)
        requires
            at + 7 <= frame@.len(),
        ensures
            holds_address(frame@, at as int, a),
    {
        let bytes: [u8; 6] = [
            frame[at],
            frame[at + 1],
            frame[at + 2],
            frame[at + 3],
            frame[at + 4],
            frame[at + 5],
        ];
        assert(bytes@ =~= frame@.subrange(at as int, at + 6));
        Address::from_bytes(bytes, frame[at + 6])
    }

    /// Appends the wire form of the address to `out`.
    pub(crate) fn write_to(&self, out: &mut Vec<u8>)
        ensures
            final(out)@ == old(out)@ + wire_form(*self),
    {
        let mut at: usize = 0;
        while at < 6
            invariant
                at <= 6,
                out@ == old(out)@ + self.address@.subrange(0, at as int),
            decreases 6 - at,
        {
            out.push(self.address[at]);
            at += 1;
            assert(out@ =~= old(out)@ + self.address@.subrange(0, at as int));
        }
        out.push(self.address_type.to_byte());
        assert(out@ =~= old(out)@ + wire_form(*self));
    }

    /// Whether the wire form of the address stands in `frame` at `at`.
    pub(crate) fn stands_at(&self, frame: &[u8], at: usize) -> (yes: bool)
        requires
            at + 7 <= frame@.len(),
        ensures
            yes == (frame@.subrange(at as int, at + 7) == wire_form(*self)),
    {
        let ghost part = frame@.subrange(at as int, at + 7);
        let length = frame.len();
        let mut k: usize = 0;
        while k < 6
            invariant
                k <= 6,
                at + 7 <= frame@.len() == length,
                part == frame@.subrange(at as int, at + 7),
                forall|j: int| 0 <= j < k ==> part[j] == self.address@[j],
            decreases 6 - k,
        {
            if frame[at + k] != self.address[k] {
                assert(part[k as int] != wire_form(*self)[k as int]);
                return false;
            }
            k += 1;
        }
        if frame[at + 6] != self.address_type.to_byte() {
            assert(part[6] != wire_form(*self)[6]);
            return false;
        }
        assert(part =~= wire_form(*self));
        true
    }

    /// Parses the text of an address and gives it the stated type. Digits of
    /// either case are read; every other text is refused.
    pub fn from_string(address: &str, address_type: AddressType) -> (parsed: Option<Address>)
        ensures
            parsed is Some <==> is_address_text(address@),
            parsed matches Some(a) ==> a.address@ == bytes_of_text(address@) && a.address_type
                == address_type,
    {
        if !address.is_ascii() {
            proof {
                if is_address_text(address@) {
                    assert forall|i: int| 0 <= i < address@.len() implies '\0'
                        <= #[trigger] address@[i] <= '\u{7f}' by {
                        assert(fits_place(i, address@[i]));
                        lemma_ascii_code(address@[i]);
                    }
                }
            }
            return None;
        }
        let text = address.as_bytes();
        proof {
            is_ascii_spec_bytes(address);
        }
        if text.len() != 17 {
            return None;
        }
        let mut bytes: [u8; 6] = [0; 6];
        let mut group: usize = 0;
        while group < 6
            invariant
                group <= 6,
                text@.len() == 17,
                address@.len() == 17,
                forall|i: int| 0 <= i < 17 ==> text@[i] == address@[i] as u8,
                forall|i: int| 0 <= i < 17 ==> '\0' <= #[trigger] address@[i] <= '\u{7f}',
                forall|i: int|
                    0 <= i < 3 * group && i < 17 ==> fits_place(i, #[trigger] address@[i]),
                forall|k: int|
                    6 - group <= k < 6 ==> #[trigger] bytes@[k] == group_value(address@, 5 - k),
            decreases 6 - group,
        {
            if group < 5 && text[3 * group + 2] != GROUP_SEPARATOR {
                assert(!fits_place(3 * group + 2, address@[3 * group + 2]));
                return None;
            }
            let pair = slice_subrange(text, 3 * group, 3 * group + 2);
            assert(pair@[0] == text@[3 * group]);
            assert(pair@[1] == text@[3 * group + 1]);
            match decode_hex(pair) {
                Ok(byte) => {
                    if byte.len() != 1 {
                        return None;
                    }
                    assert(is_hex_digit(pair@[0]) && is_hex_digit(pair@[1]));
                    bytes[5 - group] = byte[0];
                },
                Err(_) => {
                    assert(!is_hex_digit(pair@[0]) || !is_hex_digit(pair@[1]));
                    assert(!fits_place(3 * group, address@[3 * group]) || !fits_place(
                        3 * group + 1,
                        address@[3 * group + 1],
                    ));
                    return None;
                },
            }
            group += 1;
        }
        assert(bytes@ =~= bytes_of_text(address@));
        Some(Address { address: bytes, address_type })
    }

    /// Writes the address as text: upper-case digits, the last byte on the
    /// wire first.
    pub fn to_string(&self) -> (text: String)
        ensures
            text@ == text_of_bytes(self.address@),
    {
        let ghost whole = text_of_bytes(self.address@);
        let mut text = String::new();
        let mut group: usize = 0;
        while group < 6
            invariant
                group <= 6,
                whole == text_of_bytes(self.address@),
                text@.len() == if group == 0 {
                    0int
                } else {
                    3 * group - 1
                },
                forall|i: int| 0 <= i < text@.len() ==> text@[i] == whole[i],
            decreases 6 - group,
        {
            if group > 0 {
                proof {
                    reveal_strlit(":");
                }
                text.append(":");
            }
            let byte: [u8; 1] = [self.address[5 - group]];
            let digits = encode_hex_upper(&byte);
            text.append(digits.as_str());
            group += 1;
        }
        assert(text@ =~= whole);
        text
    }

    /// The text that is written for an address is an address text, and it
    /// spells the six bytes of that address: an address that is read back
    /// from the text with the same type is the address itself.
    pub proof fn lemma_render_then_parse(a: Address)
        ensures
            is_address_text(text_of_bytes(a.address@)),
            bytes_of_text(text_of_bytes(a.address@)) == a.address@,
            forall|b: Address|
                b.address@ == bytes_of_text(text_of_bytes(a.address@)) && b.address_type
                    == a.address_type ==> b == a,
    {
        let text = text_of_bytes(a.address@);
        assert forall|i: int| 0 <= i < 17 implies fits_place(i, #[trigger] text[i]) by {
            if i % 3 == 0 {
                lemma_digit_of_value((a.address@[5 - i / 3] / 16) as int);
            } else if i % 3 == 1 {
                lemma_digit_of_value((a.address@[5 - i / 3] % 16) as int);
            }
        }
        assert forall|k: int| 0 <= k < 6 implies #[trigger] bytes_of_text(text)[k]
            == a.address@[k] by {
            let g = 5 - k;
            lemma_digit_of_value((a.address@[k] / 16) as int);
            lemma_digit_of_value((a.address@[k] % 16) as int);
            assert(text[3 * g] == upper_hex_digit((a.address@[k] / 16) as int));
            assert(text[3 * g + 1] == upper_hex_digit((a.address@[k] % 16) as int));
        }
        assert(bytes_of_text(text) =~= a.address@);
        assert forall|b: Address|
            b.address@ == bytes_of_text(text) && b.address_type == a.address_type implies b
            == a by {
            assert(b.address =~= a.address);
        }
    }

    /// Writing the bytes that a text spells gives that text in upper case.
    pub proof fn lemma_parse_then_render(text: Seq<char>)
        requires
            is_address_text(text),
        ensures
            text_of_bytes(bytes_of_text(text)) == text.map_values(|c: char| ascii_upper(c)),
    {
        let bytes = bytes_of_text(text);
        let upper = text.map_values(|c: char| ascii_upper(c));
        assert forall|i: int| 0 <= i < 17 implies #[trigger] text_of_bytes(bytes)[i]
            == upper[i] by {
            let g = i / 3;
            assert(fits_place(i, text[i]));
            assert(fits_place(3 * g, text[3 * g]));
            assert(fits_place(3 * g + 1, text[3 * g + 1]));
            lemma_value_of_digit(text[3 * g]);
            lemma_value_of_digit(text[3 * g + 1]);
            assert(bytes[5 - g] == group_value(text, g));
        }
        assert(text_of_bytes(bytes) =~= upper);
    }
}

} // verus!
