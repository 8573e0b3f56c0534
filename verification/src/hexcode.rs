//! Hexadecimal text, as it appears in playlist attributes.

use vstd::prelude::*;

verus! {

/// Value of one hexadecimal digit, in either case; `None` for any other character.
pub open spec fn hex_digit(c: char) -> Option<int> {
    if '0' <= c && c <= '9' {
        Some(c as int - '0' as int)
    } else if 'a' <= c && c <= 'f' {
        Some(c as int - 'a' as int + 10)
    } else if 'A' <= c && c <= 'F' {
        Some(c as int - 'A' as int + 10)
    } else {
        None
    }
}

/// Whether `text` is an even number of hexadecimal digits.
pub open spec fn is_hex_text(text: Seq<char>) -> bool {
    &&& text.len() % 2 == 0
    &&& forall|i: int| 0 <= i < text.len() ==> (#[trigger] hex_digit(text[i])) is Some
}

/// The bytes that `text` spells, two digits to a byte, high digit first.
pub open spec fn hex_bytes(text: Seq<char>) -> Seq<u8> {
    Seq::new(
        text.len() / 2,
        |i: int| (hex_digit(text[2 * i]).unwrap() * 16 + hex_digit(text[2 * i + 1]).unwrap()) as u8,
    )
}

/// The value of the hexadecimal digit `c`, in either case.
pub fn digit(c: char) -> (r: Option<u8>)
    ensures
        r is Some <==> hex_digit(c) is Some,
        r matches Some(d) ==> hex_digit(c) == Some(d as int) && d < 16,
{
    if '0' <= c && c <= '9' {
        Some(c as u8 - 48)
    } else if 'a' <= c && c <= 'f' {
        Some(c as u8 - 97 + 10)
    } else if 'A' <= c && c <= 'F' {
        Some(c as u8 - 65 + 10)
    } else {
        None
    }
}

/// Decodes hexadecimal text: one byte for each pair of digits, the first
/// digit of a pair being the high half. Upper and lower case may be mixed.
/// `None` unless the text is an even number of digits.
pub fn decode_hex(text: &str) -> (r: Option<Vec<u8>>)
    ensures
        r is Some <==> is_hex_text(text@),
        r matches Some(bytes) ==> bytes@ == hex_bytes(text@),
{
    let len = text.unicode_len();
    if len % 2 != 0 {
        return None;
    }
    let mut bytes: Vec<u8> = Vec::new();
    let mut i: usize = 0;
    while i < len / 2
        invariant
            len == text@.len(),
            len % 2 == 0,
            i <= len / 2,
            bytes.len() == i,
            forall|j: int| 0 <= j < 2 * i ==> (#[trigger] hex_digit(text@[j])) is Some,
            forall|k: int|
                0 <= k < i ==> (#[trigger] bytes@[k]) == (hex_digit(text@[2 * k]).unwrap() * 16
                    + hex_digit(text@[2 * k + 1]).unwrap()) as u8,
        decreases len / 2 - i,
    {
        let high = match digit(text.get_char(2 * i)) {
            Some(d) => d,
            None => {
                assert(hex_digit(text@[2 * i as int]) is None);
                return None;
            },
        };
        let low = match digit(text.get_char(2 * i + 1)) {
            Some(d) => d,
            None => {
                assert(hex_digit(text@[2 * i + 1]) is None);
                return None;
            },
        };
        bytes.push(high * 16 + low);
        assert forall|j: int| 0 <= j < 2 * (i + 1) implies (#[trigger] hex_digit(text@[j])) is Some by {
            if j == 2 * i {
            } else if j == 2 * i + 1 {
            }
        }
        i += 1;
    }
    assert(bytes@ =~= hex_bytes(text@));
    Some(bytes)
}

} // verus!
