//! Identifiers: random numbers of 128 bits with the marks of version four,
//! and their text.

use crate::codec::is_marshalable;
use vstd::prelude::*;

verus! {

/// The number of a fresh identifier has the marks of a random one: version
/// four, and the variant of the standard.
pub open spec fn is_random_id(id: u128) -> bool {
    id & 0xF000_C000_0000_0000_0000u128 == 0x4000_8000_0000_0000_0000u128
}

/// `uuid::Uuid::new_v4`, as the number that `as_u128` gives for it: random
/// bits, but for the version and the variant.
#[verifier::external_body]
pub(crate) fn fresh_id() -> (id: u128)
    ensures
        is_random_id(id),
{
    uuid::Uuid::new_v4().as_u128()
}

/// The character of a hexadecimal digit, in lower case.
pub open spec fn hex_char(n: int) -> char {
    if 0 <= n < 10 {
        ((48 + n) as u8) as char
    } else if 10 <= n < 16 {
        ((87 + n) as u8) as char
    } else {
        '?'
    }
}

/// The hexadecimal digit of `id` at `place`, counted from the most
/// significant one.
pub open spec fn hex_digit(id: u128, place: int) -> int {
    ((id >> ((4 * (31 - place)) as u128)) & 0xF) as int
}

/// The number of characters of the text of an identifier.
pub const ID_TEXT_LEN: usize = 36;

/// The text of the identifier with the number `id`: its 32 hexadecimal
/// digits in groups of 8, 4, 4, 4 and 12 with hyphens between them.
pub open spec fn id_text(id: u128) -> Seq<char> {
    Seq::new(
        ID_TEXT_LEN as nat,
        |i: int|
            if i == 8 || i == 13 || i == 18 || i == 23 {
                '-'
            } else if i < 8 {
                hex_char(hex_digit(id, i))
            } else if i < 13 {
                hex_char(hex_digit(id, i - 1))
            } else if i < 18 {
                hex_char(hex_digit(id, i - 2))
            } else if i < 23 {
                hex_char(hex_digit(id, i - 3))
            } else {
                hex_char(hex_digit(id, i - 4))
            },
    )
}

/// The text of an identifier has 36 characters, none of them NUL.
pub proof fn lemma_id_text_is_marshalable(id: u128)
    ensures
        id_text(id).len() == ID_TEXT_LEN,
        is_marshalable(id_text(id)),
{
    assert forall|n: int| hex_char(n) != '\0' by {
        if 0 <= n < 10 {
            assert(((48 + n) as u8) as char != '\0');
        } else if 10 <= n < 16 {
            assert(((87 + n) as u8) as char != '\0');
        }
    }
}

/// The character at `index` of the text of the identifier with the number
/// `id`.
pub fn id_char(id: u128, index: usize) -> (c: char)
    requires
        index < ID_TEXT_LEN,
    ensures
        c == id_text(id)[index as int],
{
    if index == 8 || index == 13 || index == 18 || index == 23 {
        '-'
    } else {
        let place: usize = if index < 8 {
            index
        } else if index < 13 {
            index - 1
        } else if index < 18 {
            index - 2
        } else if index < 23 {
            index - 3
        } else {
            index - 4
        };
        let shift: u128 = (4 * (31 - place)) as u128;
        let digit: u128 = (id >> shift) & 0xF;
        assert(digit < 16) by (bit_vector)
            requires
                digit == (id >> shift) & 0xF,
        ;
        let small: u8 = digit as u8;
        if small < 10 {
            (48 + small) as char
        } else {
            (87 + small) as char
        }
    }
}

/// `uuid::Uuid::from_u128` and then `to_string`: the hyphenated text, in
/// lower case, of the identifier with that number.
#[verifier::external_body]
pub(crate) fn id_to_string(id: u128) -> (text: String)
    ensures
        text@ == id_text(id),
{
    uuid::Uuid::from_u128(id).to_string()
}

} // verus!
