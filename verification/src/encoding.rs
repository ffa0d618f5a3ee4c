//! Hexadecimal text: what it decodes to, and how bytes are written in it.

use vstd::prelude::*;
use vstd::utf8::{encode_utf8, is_ascii_chars, is_ascii_chars_encode_utf8};

verus! {

/// Why a text is not the hexadecimal writing of a byte string.
#[derive(Clone, Copy, Debug, PartialEq, Eq, Structural)]
pub enum HexError {
    /// A character that is no hexadecimal digit, and the place where it stands.
    InvalidHexCharacter { c: char, index: usize },
    /// The text has an odd number of digits.
    OddLength,
    /// The text does not fill the buffer it is decoded into.
    InvalidStringLength,
}

/// The number that one hexadecimal digit stands for; upper and lower case
/// letters both count.
pub open spec fn digit_value(c: u8) -> Option<u8> {
    if ('0' as u8) <= c <= ('9' as u8) {
        Some((c - ('0' as u8)) as u8)
    } else if ('a' as u8) <= c <= ('f' as u8) {
        Some((c - ('a' as u8) + 10) as u8)
    } else if ('A' as u8) <= c <= ('F' as u8) {
        Some((c - ('A' as u8) + 10) as u8)
    } else {
        None
    }
}

/// The lower-case digit that stands for a number below sixteen.
pub open spec fn digit_of(n: u8) -> u8 {
    if n < 10 {
        (('0' as u8) + n) as u8
    } else {
        (('a' as u8) + (n - 10)) as u8
    }
}

/// The first place at or after `from` that holds no hexadecimal digit, or the
/// text's length where there is none.
pub open spec fn first_invalid(text: Seq<u8>, from: int) -> int
    decreases text.len() - from,
{
    if from < 0 || from >= text.len() {
        text.len() as int
    } else if digit_value(text[from]) is None {
        from
    } else {
        first_invalid(text, from + 1)
    }
}

/// The byte that the `i`-th pair of digits stands for.
pub open spec fn pair_value(text: Seq<u8>, i: int) -> u8 {
    (digit_value(text[2 * i]).unwrap() * 16 + digit_value(text[2 * i + 1]).unwrap()) as u8
}

/// What a text decodes to: the bytes its pairs of digits stand for, or the
/// first thing wrong with it, an odd length before any bad character.
pub open spec fn decoded(text: Seq<u8>) -> Result<Seq<u8>, HexError> {
    if text.len() % 2 != 0 {
        Err(HexError::OddLength)
    } else if first_invalid(text, 0) < text.len() {
        let at = first_invalid(text, 0);
        Err(HexError::InvalidHexCharacter { c: text[at] as char, index: at as usize })
    } else {
        Ok(Seq::new((text.len() / 2) as nat, |i: int| pair_value(text, i)))
    }
}

/// The lower-case hexadecimal writing of a byte string, two digits a byte.
pub open spec fn encoded(bytes: Seq<u8>) -> Seq<u8> {
    Seq::new(
        2 * bytes.len(),
        |i: int|
            if i % 2 == 0 {
                digit_of(bytes[i / 2] / 16)
            } else {
                digit_of(bytes[i / 2] % 16)
            },
    )
}

/// Calls `hex::decode`. Trusted: the result is `decoded` of the text, that is,
/// an odd length is reported first, then the first character that is no digit
/// (as a `char` of the same code), and otherwise each pair of digits gives one
/// byte, high digit first.
#[verifier::external_body]
pub(crate) fn decode(text: &[u8]) -> (result: Result<Vec<u8>, HexError>)
    ensures
        match result {
            Ok(bytes) => decoded(text@) == Ok::<Seq<u8>, HexError>(bytes@),
            Err(e) => decoded(text@) == Err::<Seq<u8>, HexError>(e),
        },
{
    match hex::decode(text) {
        Ok(bytes) => Ok(bytes),
        Err(hex::FromHexError::InvalidHexCharacter { c, index }) => Err(
            HexError::InvalidHexCharacter { c, index },
        ),
        Err(hex::FromHexError::OddLength) => Err(HexError::OddLength),
        Err(hex::FromHexError::InvalidStringLength) => Err(HexError::InvalidStringLength),
    }
}

/// The text of the lower-case digit that stands for a number below sixteen.
fn digit_text(n: u8) -> (text: &'static str)
    requires
        n < 16,
    ensures
        text@.len() == 1,
        text@[0] == digit_of(n) as char,
{
    proof {
        reveal_strlit("0");
        reveal_strlit("1");
        reveal_strlit("2");
        reveal_strlit("3");
        reveal_strlit("4");
        reveal_strlit("5");
        reveal_strlit("6");
        reveal_strlit("7");
        reveal_strlit("8");
        reveal_strlit("9");
        reveal_strlit("a");
        reveal_strlit("b");
        reveal_strlit("c");
        reveal_strlit("d");
        reveal_strlit("e");
        reveal_strlit("f");
    }
    match n {
        0 => "0",
        1 => "1",
        2 => "2",
        3 => "3",
        4 => "4",
        5 => "5",
        6 => "6",
        7 => "7",
        8 => "8",
        9 => "9",
        10 => "a",
        11 => "b",
        12 => "c",
        13 => "d",
        14 => "e",
        _ => "f",
    }
}

/// The characters of a text that is written in bytes below 128.
pub open spec fn as_chars(bytes: Seq<u8>) -> Seq<char> {
    Seq::new(bytes.len(), |i: int| bytes[i] as char)
}

/// Writes bytes as lower-case hexadecimal text.
pub fn encode(bytes: &[u8]) -> (text: String)
    ensures
        text@ == as_chars(encoded(bytes@)),
{
    let mut text = String::new();
    let mut i: usize = 0;
    while i < bytes.len()
        invariant
            i <= bytes.len(),
            text@.len() == 2 * i,
            forall|j: int| 0 <= j < text@.len() ==> text@[j] == encoded(bytes@)[j] as char,
        decreases bytes.len() - i,
    {
        let b: u8 = bytes[i];
        text.append(digit_text(b / 16));
        text.append(digit_text(b % 16));
        i += 1;
    }
    assert(text@ =~= as_chars(encoded(bytes@)));
    text
}

/// A hexadecimal writing is the same in bytes as in characters: its UTF-8
/// bytes are its digits.
pub proof fn lemma_encoded_text(bytes: Seq<u8>)
    ensures
        is_ascii_chars(as_chars(encoded(bytes))),
        encode_utf8(as_chars(encoded(bytes))) == encoded(bytes),
{
    let chars = as_chars(encoded(bytes));
    assert forall|i: int| 0 <= i < chars.len() implies '\0' <= #[trigger] chars[i] <= '\u{7f}' by {
        assert(chars[i] == encoded(bytes)[i] as char);
    }
    is_ascii_chars_encode_utf8(chars);
    assert(encode_utf8(chars) =~= encoded(bytes));
}

/// Every character of an encoding is a digit.
pub proof fn lemma_encoded_is_valid(bytes: Seq<u8>, from: int)
    requires
        0 <= from <= 2 * bytes.len(),
    ensures
        first_invalid(encoded(bytes), from) == 2 * bytes.len(),
    decreases 2 * bytes.len() - from,
{
    let text = encoded(bytes);
    if from < text.len() {
        assert(digit_value(text[from]) is Some);
        lemma_encoded_is_valid(bytes, from + 1);
    }
}

/// Decoding undoes encoding: the hexadecimal writing of any byte string
/// decodes, and gives that byte string back.
pub proof fn lemma_decode_encode(bytes: Seq<u8>)
    ensures
        decoded(encoded(bytes)) == Ok::<Seq<u8>, HexError>(bytes),
{
    let text = encoded(bytes);
    lemma_encoded_is_valid(bytes, 0);
    let back = Seq::new((text.len() / 2) as nat, |i: int| pair_value(text, i));
    assert forall|i: int| 0 <= i < bytes.len() implies back[i] == bytes[i] by {
        let b = bytes[i];
        assert(text[2 * i] == digit_of(b / 16));
        assert(text[2 * i + 1] == digit_of(b % 16));
        assert(digit_value(digit_of(b / 16)) == Some((b / 16) as u8));
        assert(digit_value(digit_of(b % 16)) == Some((b % 16) as u8));
    }
    assert(back =~= bytes);
}

} // verus!
