//! Hexadecimal text for byte strings: two lower-case digits per byte,
//! and the `0x`-marked form in which proof artefacts travel.

use vstd::prelude::*;
use vstd::std_specs::iter::IteratorSpec;

verus! {

/// Why a text is not the hexadecimal form of a byte string.
#[derive(Clone, Copy, Debug, PartialEq, Eq, Structural)]
pub enum HexError {
    /// The text does not begin with the marker `0x`.
    MissingPrefix,
    /// The digits are odd in number, so they do not pair up into bytes.
    OddLength,
    /// The character at `index` among the digits is the first that is no
    /// hexadecimal digit.
    InvalidDigit { index: usize },
}

/// The lower-case digit that writes a value below sixteen.
pub open spec fn hex_digit(nibble: int) -> char {
    if nibble < 10 {
        (48 + nibble) as char
    } else {
        (87 + nibble) as char
    }
}

/// The text of a byte string: for each byte its high digit, then its low
/// digit.
pub open spec fn hex_text(bytes: Seq<u8>) -> Seq<char> {
    Seq::new(
        2 * bytes.len(),
        |i: int|
            if i % 2 == 0 {
                hex_digit(bytes[i / 2] as int / 16)
            } else {
                hex_digit(bytes[i / 2] as int % 16)
            },
    )
}

/// The marker that opens the transport form.
pub open spec fn hex_prefix() -> Seq<char> {
    seq!['0', 'x']
}

/// The transport form of a byte string: the marker, then its text.
pub open spec fn prefixed_hex(bytes: Seq<u8>) -> Seq<char> {
    hex_prefix() + hex_text(bytes)
}

/// Digits of either case count as hexadecimal.
pub open spec fn is_hex_char(c: char) -> bool {
    ||| 48 <= c as int <= 57
    ||| 97 <= c as int <= 102
    ||| 65 <= c as int <= 70
}

/// The value below sixteen that a hexadecimal digit writes.
pub open spec fn hex_char_value(c: char) -> int
    recommends
        is_hex_char(c),
{
    if c as int <= 57 {
        c as int - 48
    } else if c as int <= 70 {
        c as int - 55
    } else {
        c as int - 87
    }
}

/// Every character of the text is a hexadecimal digit.
pub open spec fn all_hex(text: Seq<char>) -> bool {
    forall|i: int| 0 <= i < text.len() ==> is_hex_char(#[trigger] text[i])
}

/// `index` is where the first character stands that is no hexadecimal
/// digit.
pub open spec fn is_first_non_hex(text: Seq<char>, index: int) -> bool {
    &&& 0 <= index < text.len()
    &&& !is_hex_char(text[index])
    &&& forall|j: int| 0 <= j < index ==> is_hex_char(#[trigger] text[j])
}

/// The place of the first character that is no hexadecimal digit, in a
/// text that has one.
pub open spec fn first_non_hex(text: Seq<char>) -> int
    recommends
        !all_hex(text),
{
    choose|index: int| is_first_non_hex(text, index)
}

/// The bytes that an even number of hexadecimal digits write, two digits
/// to a byte, the high one first.
pub open spec fn hex_bytes(text: Seq<char>) -> Seq<u8>
    recommends
        text.len() % 2 == 0,
        all_hex(text),
{
    Seq::new(
        text.len() / 2,
        |i: int| (hex_char_value(text[2 * i]) * 16 + hex_char_value(text[2 * i + 1])) as u8,
    )
}

/// What a run of digits decodes to. An odd length is reported before a
/// bad digit; of bad digits the first is reported.
pub open spec fn hex_decoded(text: Seq<char>) -> Result<Seq<u8>, HexError> {
    if text.len() % 2 == 1 {
        Err(HexError::OddLength)
    } else if !all_hex(text) {
        Err(HexError::InvalidDigit { index: first_non_hex(text) as usize })
    } else {
        Ok(hex_bytes(text))
    }
}

/// The text opens with the marker `0x`.
pub open spec fn has_hex_prefix(text: Seq<char>) -> bool {
    text.len() >= 2 && text[0] == '0' && text[1] == 'x'
}

/// What a transport form decodes to: the marker is required, and the
/// digits behind it are read as by [`hex_decoded`].
pub open spec fn prefixed_decoded(text: Seq<char>) -> Result<Seq<u8>, HexError> {
    if !has_hex_prefix(text) {
        Err(HexError::MissingPrefix)
    } else {
        hex_decoded(text.skip(2))
    }
}

/// The first bad digit of a text is at one place only.
pub proof fn lemma_first_non_hex_unique(text: Seq<char>, index: int)
    requires
        is_first_non_hex(text, index),
    ensures
        !all_hex(text),
        first_non_hex(text) == index,
{
    let chosen = first_non_hex(text);
    assert(is_first_non_hex(text, chosen));
    if chosen < index {
        assert(is_hex_char(text[chosen]));
    } else if index < chosen {
        assert(is_hex_char(text[index]));
    }
}

/// Decoding the text of a byte string gives the byte string back.
pub proof fn lemma_hex_round_trip(bytes: Seq<u8>)
    ensures
        hex_decoded(hex_text(bytes)) == Ok::<Seq<u8>, HexError>(bytes),
{
    let text = hex_text(bytes);
    assert(text.len() % 2 == 0);
    assert(all_hex(text));
    assert(hex_bytes(text) =~= bytes);
}

/// Decoding the transport form of a byte string gives the byte string
/// back.
pub proof fn lemma_prefixed_round_trip(bytes: Seq<u8>)
    ensures
        prefixed_decoded(prefixed_hex(bytes)) == Ok::<Seq<u8>, HexError>(bytes),
{
    let text = prefixed_hex(bytes);
    assert(has_hex_prefix(text));
    assert(text.skip(2) =~= hex_text(bytes));
    lemma_hex_round_trip(bytes);
}

/// The text of a byte string as `hex::encode` writes it: two lower-case
/// digits for each byte, the high one first, and nothing else.
#[verifier::external_body]
fn hex_encode(data: &[u8]) -> (text: String)
    ensures
        text@ == hex_text(data@),
{
    hex::encode(data)
}

/// Writes a byte string in its transport form.
pub fn encode_prefixed(data: &[u8]) -> (text: String)
    ensures
        text@ == prefixed_hex(data@),
{
    let digits = hex_encode(data);
    let marker = String::from_str("0x");
    proof {
        reveal_strlit("0x");
        assert("0x"@ =~= hex_prefix());
    }
    marker.concat(digits.as_str())
}

/// Reads one character as a hexadecimal digit of either case.
pub fn nibble_of(c: char) -> (value: Option<u8>)
    ensures
        value is Some <==> is_hex_char(c),
        value matches Some(v) ==> v as int == hex_char_value(c),
{
    let code: u32 = c as u32;
    if 48 <= code && code <= 57 {
        Some((code - 48) as u8)
    } else if 65 <= code && code <= 70 {
        Some((code - 55) as u8)
    } else if 97 <= code && code <= 102 {
        Some((code - 87) as u8)
    } else {
        None
    }
}

/// Reads a transport form back into the byte string it writes.
///
/// The text must open with `0x`; an even number of hexadecimal digits,
/// of either case, must follow and nothing else. The index of a bad
/// digit counts from the first character behind the marker.
pub fn decode_prefixed(text: &str) -> (decoded: Result<Vec<u8>, HexError>)
    ensures
        match decoded {
            Ok(bytes) => prefixed_decoded(text@) == Ok::<Seq<u8>, HexError>(bytes@),
            Err(e) => prefixed_decoded(text@) == Err::<Seq<u8>, HexError>(e),
        },
{
    let total: usize = text.unicode_len();
    let mut chars = text.chars();
    if total < 2 {
        return Err(HexError::MissingPrefix);
    }
    let first = chars.next();
    let second = chars.next();
    if first != Some('0') || second != Some('x') {
        return Err(HexError::MissingPrefix);
    }
    let ghost digits = text@.skip(2);
    let count: usize = total - 2;
    if count % 2 == 1 {
        return Err(HexError::OddLength);
    }
    let mut bytes: Vec<u8> = Vec::new();
    let mut done: usize = 0;
    while done < count
        invariant
            has_hex_prefix(text@),
            digits == text@.skip(2),
            count == digits.len(),
            count % 2 == 0,
            done % 2 == 0,
            done <= count,
            chars.remaining() == digits.skip(done as int),
            forall|j: int| 0 <= j < done ==> is_hex_char(#[trigger] digits[j]),
            bytes@ == hex_bytes(digits.take(done as int)),
        decreases count - done,
    {
        let high = chars.next();
        let low = chars.next();
        assert(high == Some(digits[done as int]));
        assert(low == Some(digits[done as int + 1]));
        let high_value = match high {
            Some(c) => nibble_of(c),
            None => None,
        };
        let low_value = match low {
            Some(c) => nibble_of(c),
            None => None,
        };
        match (high_value, low_value) {
            (Some(h), Some(l)) => {
                bytes.push(h * 16 + l);
                proof {
                    assert(bytes@ =~= hex_bytes(digits.take(done as int + 2)));
                }
                done = done + 2;
            },
            (None, _) => {
                proof {
                    lemma_first_non_hex_unique(digits, done as int);
                }
                return Err(HexError::InvalidDigit { index: done });
            },
            (Some(_), None) => {
                proof {
                    lemma_first_non_hex_unique(digits, done as int + 1);
                }
                return Err(HexError::InvalidDigit { index: done + 1 });
            },
        }
    }
    proof {
        assert(digits.take(done as int) =~= digits);
        assert(all_hex(digits));
    }
    Ok(bytes)
}

} // verus!
