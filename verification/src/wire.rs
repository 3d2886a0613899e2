//! The words and bytes in which measurements reach the proved program
//! and in which its answer comes back.
//!
//! Measurements travel as four 32-bit words in the zkVM's own word
//! serialisation; the committed answer travels as the little-endian bytes
//! of one word.

use vstd::prelude::*;
use crate::classifier::{ClassificationInput, predict};

verus! {

/// Why words or bytes could not be read.
#[derive(Clone, Copy, Debug, PartialEq, Eq, Structural)]
pub enum WireError {
    /// The bytes do not make up whole 32-bit words.
    Misaligned,
    /// The words ran out before the value was complete.
    UnexpectedEnd,
}

/// The error of `risc0_zkvm::serde`. Nothing is read from it: a failed
/// read is carried as far as the function that names it [`WireError`].
#[verifier::external_type_specification]
#[verifier::external_body]
pub struct ExSerdeError(risc0_zkvm::serde::Error);

/// The four bytes of a word, the low byte first.
pub open spec fn le_bytes(word: u32) -> Seq<u8> {
    seq![
        (word % 256) as u8,
        (word / 256 % 256) as u8,
        (word / 65536 % 256) as u8,
        (word / 16777216) as u8,
    ]
}

/// The word that four bytes write, the low byte first.
pub open spec fn le_word(b0: u8, b1: u8, b2: u8, b3: u8) -> u32 {
    (b0 as int + 256 * b1 as int + 65536 * b2 as int + 16777216 * b3 as int) as u32
}

/// The bytes of a run of words: each word's four bytes in turn.
pub open spec fn words_as_bytes(words: Seq<u32>) -> Seq<u8> {
    Seq::new(4 * words.len(), |i: int| le_bytes(words[i / 4])[i % 4])
}

/// The words that a whole number of four-byte groups write.
pub open spec fn bytes_as_words(bytes: Seq<u8>) -> Seq<u32>
    recommends
        bytes.len() % 4 == 0,
{
    Seq::new(
        bytes.len() / 4,
        |i: int| le_word(bytes[4 * i], bytes[4 * i + 1], bytes[4 * i + 2], bytes[4 * i + 3]),
    )
}

/// Four values as four words, in their order.
pub open spec fn quad_words(a: u32, b: u32, c: u32, d: u32) -> Seq<u32> {
    seq![a, b, c, d]
}

/// The words in which a quadruple of measurements travels: the four
/// values in their order, with no length before them.
pub open spec fn input_words(input: ClassificationInput) -> Seq<u32> {
    quad_words(input.sepal_length, input.sepal_width, input.petal_length, input.petal_width)
}

/// What a run of words reads as: the first four are the measurements,
/// and words behind them are not looked at.
pub open spec fn input_decoded(words: Seq<u32>) -> Result<ClassificationInput, WireError> {
    if words.len() < 4 {
        Err(WireError::UnexpectedEnd)
    } else {
        Ok(
            (ClassificationInput {
                sepal_length: words[0],
                sepal_width: words[1],
                petal_length: words[2],
                petal_width: words[3],
            }),
        )
    }
}

/// What committed bytes read as: they must be whole words and at least
/// one, and the first word is the value.
pub open spec fn journal_decoded(bytes: Seq<u8>) -> Result<u32, WireError> {
    if bytes.len() % 4 != 0 {
        Err(WireError::Misaligned)
    } else if bytes.len() == 0 {
        Err(WireError::UnexpectedEnd)
    } else {
        Ok(le_word(bytes[0], bytes[1], bytes[2], bytes[3]))
    }
}

/// Four bytes written from a word read back as that word.
pub proof fn lemma_le_word_of_le_bytes(word: u32)
    ensures
        le_bytes(word).len() == 4,
        le_word(le_bytes(word)[0], le_bytes(word)[1], le_bytes(word)[2], le_bytes(word)[3])
            == word,
{
}

/// Words written as bytes read back as the same words.
pub proof fn lemma_words_round_trip(words: Seq<u32>)
    ensures
        words_as_bytes(words).len() == 4 * words.len(),
        bytes_as_words(words_as_bytes(words)) == words,
{
    let bytes = words_as_bytes(words);
    assert forall|i: int| 0 <= i < words.len() implies #[trigger] bytes_as_words(bytes)[i]
        == words[i] by {
        lemma_le_word_of_le_bytes(words[i]);
        assert(bytes[4 * i] == le_bytes(words[i])[0]);
        assert(bytes[4 * i + 1] == le_bytes(words[i])[1]);
        assert(bytes[4 * i + 2] == le_bytes(words[i])[2]);
        assert(bytes[4 * i + 3] == le_bytes(words[i])[3]);
    }
    assert(bytes_as_words(bytes) =~= words);
}

/// Measurements written as words read back as the same measurements.
pub proof fn lemma_input_round_trip(input: ClassificationInput)
    ensures
        input_decoded(input_words(input)) == Ok::<ClassificationInput, WireError>(input),
{
}

/// A committed word reads back as itself.
pub proof fn lemma_journal_round_trip(word: u32)
    ensures
        journal_decoded(le_bytes(word)) == Ok::<u32, WireError>(word),
{
    lemma_le_word_of_le_bytes(word);
}

/// Writes words as bytes, each word's low byte first.
pub fn words_to_le_bytes(words: &[u32]) -> (bytes: Vec<u8>)
    ensures
        bytes@ == words_as_bytes(words@),
{
    let mut bytes: Vec<u8> = Vec::new();
    let mut i: usize = 0;
    while i < words.len()
        invariant
            i <= words@.len(),
            bytes@ == words_as_bytes(words@.take(i as int)),
        decreases words@.len() - i,
    {
        let word: u32 = words[i];
        bytes.push((word % 256) as u8);
        bytes.push((word / 256 % 256) as u8);
        bytes.push((word / 65536 % 256) as u8);
        bytes.push((word / 16777216) as u8);
        proof {
            assert(bytes@ =~= words_as_bytes(words@.take(i as int + 1)));
        }
        i = i + 1;
    }
    proof {
        assert(words@.take(i as int) =~= words@);
    }
    bytes
}

/// Reads bytes as words, each word's low byte first. Bytes that do not
/// make up whole words are refused.
pub fn le_bytes_to_words(bytes: &[u8]) -> (words: Option<Vec<u32>>)
    ensures
        words is Some <==> bytes@.len() % 4 == 0,
        words matches Some(w) ==> w@ == bytes_as_words(bytes@),
{
    if bytes.len() % 4 != 0 {
        return None;
    }
    let length: usize = bytes.len();
    let count: usize = length / 4;
    let mut words: Vec<u32> = Vec::new();
    let mut i: usize = 0;
    while i < count
        invariant
            bytes@.len() == length,
            length == 4 * count,
            i <= count,
            words@.len() == i,
            forall|j: int| 0 <= j < i ==> #[trigger] words@[j] == bytes_as_words(bytes@)[j],
        decreases count - i,
    {
        let b0: u32 = bytes[4 * i] as u32;
        let b1: u32 = bytes[4 * i + 1] as u32;
        let b2: u32 = bytes[4 * i + 2] as u32;
        let b3: u32 = bytes[4 * i + 3] as u32;
        words.push(b0 + 256 * b1 + 65536 * b2 + 16777216 * b3);
        i = i + 1;
    }
    proof {
        assert(words@ =~= bytes_as_words(bytes@));
    }
    Some(words)
}

/// The words that `risc0_zkvm::serde::to_vec` writes for a tuple of four
/// `u32`: one word for each, in the tuple's order, with no length and no
/// padding. Writing into a vector does not fail.
#[verifier::external_body]
fn serialize_quad(a: u32, b: u32, c: u32, d: u32) -> (words: Option<Vec<u32>>)
    ensures
        words is Some,
        words.unwrap()@ == quad_words(a, b, c, d),
{
    risc0_zkvm::serde::to_vec(&(a, b, c, d)).ok()
}

/// What `risc0_zkvm::serde::from_slice` reads from words as a tuple of
/// four `u32`: the first four words, one for each. It fails where fewer
/// than four words are there, and does not look at words behind them.
#[verifier::external_body]
fn deserialize_quad(words: &[u32]) -> (quad: Result<(u32, u32, u32, u32), risc0_zkvm::serde::Error>)
    ensures
        quad is Ok <==> words@.len() >= 4,
        quad matches Ok(q) ==> q.0 == words@[0] && q.1 == words@[1] && q.2 == words@[2] && q.3
            == words@[3],
{
    risc0_zkvm::serde::from_slice::<(u32, u32, u32, u32), u32>(words)
}

/// What `risc0_zkvm::serde::from_slice` reads from words as one `u32`:
/// the first word. It fails where there is no word.
#[verifier::external_body]
fn deserialize_word(words: &[u32]) -> (word: Result<u32, risc0_zkvm::serde::Error>)
    ensures
        word is Ok <==> words@.len() >= 1,
        word matches Ok(w) ==> w == words@[0],
{
    risc0_zkvm::serde::from_slice::<u32, u32>(words)
}

/// Writes measurements as the words that the proved program reads.
pub fn encode_input(input: &ClassificationInput) -> (words: Vec<u32>)
    ensures
        words@ == input_words(*input),
{
    let written = serialize_quad(
        input.sepal_length,
        input.sepal_width,
        input.petal_length,
        input.petal_width,
    );
    written.unwrap()
}

/// Reads measurements from words.
pub fn decode_input(words: &[u32]) -> (input: Result<ClassificationInput, WireError>)
    ensures
        input == input_decoded(words@),
{
    match deserialize_quad(words) {
        Ok(quad) => Ok(
            ClassificationInput {
                sepal_length: quad.0,
                sepal_width: quad.1,
                petal_length: quad.2,
                petal_width: quad.3,
            },
        ),
        Err(_) => Err(WireError::UnexpectedEnd),
    }
}

/// Reads the committed value from the bytes that a proof makes public.
pub fn decode_journal(bytes: &[u8]) -> (value: Result<u32, WireError>)
    ensures
        value == journal_decoded(bytes@),
{
    match le_bytes_to_words(bytes) {
        None => Err(WireError::Misaligned),
        Some(words) => match deserialize_word(words.as_slice()) {
            Ok(word) => Ok(word),
            Err(_) => Err(WireError::UnexpectedEnd),
        },
    }
}

/// What the proved program computes: it reads measurements from its
/// input words and answers with their category.
pub fn classify_words(words: &[u32]) -> (category: Result<u32, WireError>)
    ensures
        match input_decoded(words@) {
            Ok(input) => category == Ok::<u32, WireError>(input.category()),
            Err(e) => category == Err::<u32, WireError>(e),
        },
{
    match decode_input(words) {
        Ok(input) => Ok(
            predict(input.sepal_length, input.sepal_width, input.petal_length, input.petal_width),
        ),
        Err(e) => Err(e),
    }
}

} // verus!
