//! The hexadecimal text form of byte strings: `0x`, then two digits a byte.

use vstd::prelude::*;

verus! {

/// The digit for a value below sixteen, in lower case.
pub open spec fn digit_of(n: u8) -> u8 {
    if n < 10 {
        (48 + n) as u8
    } else {
        (87 + n) as u8
    }
}

/// The value of a digit of either case, if the character is one.
pub open spec fn value_of(c: u8) -> Option<u8> {
    if 48 <= c <= 57 {
        Some((c - 48) as u8)
    } else if 97 <= c <= 102 {
        Some((c - 87) as u8)
    } else if 65 <= c <= 70 {
        Some((c - 55) as u8)
    } else {
        None
    }
}

/// The text form of `bytes`.
pub open spec fn encoded(bytes: Seq<u8>) -> Seq<u8> {
    seq![48u8, 120u8] + Seq::new(
        2 * bytes.len(),
        |i: int|
            if i % 2 == 0 {
                digit_of(bytes[i / 2] / 16)
            } else {
                digit_of(bytes[i / 2] % 16)
            },
    )
}

/// Whether `text` is the text form of some bytes: the prefix, then an even
/// number of digits.
pub open spec fn is_hex(text: Seq<u8>) -> bool {
    &&& text.len() >= 2
    &&& text[0] == 48u8
    &&& text[1] == 120u8
    &&& text.len() % 2 == 0
    &&& forall|i: int| 2 <= i < text.len() ==> value_of(#[trigger] text[i]) is Some
}

/// The bytes that `text` is the text form of, if it is one.
pub open spec fn decoded(text: Seq<u8>) -> Option<Seq<u8>> {
    if is_hex(text) {
        Some(
            Seq::new(
                ((text.len() - 2) / 2) as nat,
                |i: int|
                    (16 * value_of(text[2 + 2 * i])->Some_0 + value_of(text[3 + 2 * i])->Some_0) as u8,
            ),
        )
    } else {
        None
    }
}

fn digit(n: u8) -> (c: u8)
    requires
        n < 16,
    ensures
        c == digit_of(n),
{
    if n < 10 {
        48 + n
    } else {
        87 + n
    }
}

fn value(c: u8) -> (v: Option<u8>)
    ensures
        v == value_of(c),
        v matches Some(n) ==> n < 16,
{
    if 48 <= c && c <= 57 {
        Some(c - 48)
    } else if 97 <= c && c <= 102 {
        Some(c - 87)
    } else if 65 <= c && c <= 70 {
        Some(c - 55)
    } else {
        None
    }
}

/// Writes `bytes` as text.
pub fn encode(bytes: &[u8]) -> (text: Vec<u8>)
    ensures
        text@ == encoded(bytes@),
{
    let mut text: Vec<u8> = Vec::new();
    text.push(48u8);
    text.push(120u8);
    let mut i: usize = 0;
    while i < bytes.len()
        invariant
            i <= bytes@.len(),
            text@.len() == 2 + 2 * i,
            forall|j: int| 0 <= j < 2 + 2 * i ==> text@[j] == encoded(bytes@)[j],
        decreases bytes@.len() - i,
    {
        let b = bytes[i];
        text.push(digit(b / 16));
        text.push(digit(b % 16));
        i += 1;
    }
    assert(text@ =~= encoded(bytes@));
    text
}

/// Reads the bytes that `text` is the text form of, if it is one.
pub fn decode(text: &[u8]) -> (bytes: Option<Vec<u8>>)
    ensures
        bytes is Some <==> decoded(text@) is Some,
        bytes matches Some(b) ==> decoded(text@) == Some(b@),
{
    if text.len() < 2 || text[0] != 48u8 || text[1] != 120u8 || text.len() % 2 != 0 {
        return None;
    }
    let mut bytes: Vec<u8> = Vec::new();
    let mut i: usize = 2;
    while i < text.len()
        invariant
            2 <= i <= text@.len(),
            i % 2 == 0,
            text@.len() % 2 == 0,
            text@[0] == 48u8,
            text@[1] == 120u8,
            bytes@.len() == (i - 2) / 2,
            forall|j: int| 2 <= j < i ==> value_of(#[trigger] text@[j]) is Some,
            forall|j: int|
                0 <= j < bytes@.len() ==> bytes@[j] == (16 * value_of(text@[2 + 2 * j])->Some_0
                    + value_of(text@[3 + 2 * j])->Some_0) as u8,
        decreases text@.len() - i,
    {
        let high = match value(text[i]) {
            Some(high) => high,
            None => {
                return None;
            },
        };
        let low = match value(text[i + 1]) {
            Some(low) => low,
            None => {
                return None;
            },
        };
        bytes.push(16 * high + low);
        i += 2;
    }
    assert(is_hex(text@));
    assert(bytes@ =~= decoded(text@)->Some_0);
    Some(bytes)
}

/// Reading what was written gives the bytes back.
pub proof fn lemma_decode_encode(bytes: Seq<u8>)
    ensures
        decoded(encoded(bytes)) == Some(bytes),
{
    let text = encoded(bytes);
    assert forall|i: int| 2 <= i < text.len() implies value_of(#[trigger] text[i]) is Some by {
        let b = bytes[(i - 2) / 2];
        assert(b / 16 < 16 && b % 16 < 16);
    }
    assert(is_hex(text));
    let back = decoded(text)->Some_0;
    assert forall|j: int| 0 <= j < bytes.len() implies back[j] == bytes[j] by {
        let b = bytes[j];
        assert(text[2 + 2 * j] == digit_of(b / 16));
        assert(text[3 + 2 * j] == digit_of(b % 16));
        assert(b / 16 < 16 && b % 16 < 16);
        assert(16 * (b / 16) + b % 16 == b);
    }
    assert(back =~= bytes);
}

} // verus!
