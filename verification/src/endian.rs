//! Little-endian conversions between integers and bytes.

use vstd::prelude::*;

verus! {

/// The 32-bit word whose little-endian bytes are `b0`, `b1`, `b2`, `b3`.
pub open spec fn word_from_le(b0: u8, b1: u8, b2: u8, b3: u8) -> u32 {
    (b0 + 0x100 * b1 + 0x1_0000 * b2 + 0x100_0000 * b3) as u32
}

/// The four little-endian bytes of a 32-bit word: its digits in base 256,
/// lowest first.
pub open spec fn word_le_bytes(word: u32) -> Seq<u8> {
    seq![
        (word % 0x100) as u8,
        (word / 0x100 % 0x100) as u8,
        (word / 0x1_0000 % 0x100) as u8,
        (word / 0x100_0000 % 0x100) as u8,
    ]
}

/// The eight little-endian bytes of a 64-bit integer: its digits in base 256,
/// lowest first.
pub open spec fn u64_le_bytes(value: u64) -> Seq<u8> {
    seq![
        (value % 0x100) as u8,
        (value / 0x100 % 0x100) as u8,
        (value / 0x1_0000 % 0x100) as u8,
        (value / 0x100_0000 % 0x100) as u8,
        (value / 0x1_0000_0000 % 0x100) as u8,
        (value / 0x100_0000_0000 % 0x100) as u8,
        (value / 0x1_0000_0000_0000 % 0x100) as u8,
        (value / 0x100_0000_0000_0000 % 0x100) as u8,
    ]
}

/// The little-endian bytes of a sequence of 32-bit words, word after word.
pub open spec fn words_le_bytes(words: Seq<u32>) -> Seq<u8> {
    Seq::new(4 * words.len(), |p: int| word_le_bytes(words[p / 4])[p % 4])
}

/// Reading back the little-endian bytes of a word gives the word.
pub proof fn lemma_word_le_round_trip(word: u32)
    ensures
        word_le_bytes(word).len() == 4,
        word_from_le(
            word_le_bytes(word)[0],
            word_le_bytes(word)[1],
            word_le_bytes(word)[2],
            word_le_bytes(word)[3],
        ) == word,
{
}

/// The little-endian bytes of a 64-bit integer, weighted by the powers of
/// 256, sum to the integer.
pub proof fn lemma_u64_le_bytes_sum(value: u64)
    ensures
        u64_le_bytes(value).len() == 8,
        value == u64_le_bytes(value)[0] + 0x100 * u64_le_bytes(value)[1] + 0x1_0000
            * u64_le_bytes(value)[2] + 0x100_0000 * u64_le_bytes(value)[3] + 0x1_0000_0000
            * u64_le_bytes(value)[4] + 0x100_0000_0000 * u64_le_bytes(value)[5]
            + 0x1_0000_0000_0000 * u64_le_bytes(value)[6] + 0x100_0000_0000_0000 * u64_le_bytes(
            value,
        )[7],
{
    assert(value == (value % 0x100) + 0x100 * (value / 0x100 % 0x100) + 0x1_0000 * (value
        / 0x1_0000 % 0x100) + 0x100_0000 * (value / 0x100_0000 % 0x100) + 0x1_0000_0000 * (value
        / 0x1_0000_0000 % 0x100) + 0x100_0000_0000 * (value / 0x100_0000_0000 % 0x100)
        + 0x1_0000_0000_0000 * (value / 0x1_0000_0000_0000 % 0x100) + 0x100_0000_0000_0000 * (
    value / 0x100_0000_0000_0000 % 0x100)) by (bit_vector);
}

/// Reads a 32-bit word from its four little-endian bytes.
pub fn u32_from_le(b0: u8, b1: u8, b2: u8, b3: u8) -> (word: u32)
    ensures
        word == word_from_le(b0, b1, b2, b3),
{
    (b0 as u32) + 0x100 * (b1 as u32) + 0x1_0000 * (b2 as u32) + 0x100_0000 * (b3 as u32)
}

/// Writes a 32-bit word as its four little-endian bytes; read back, they
/// give the word.
pub fn u32_to_le(word: u32) -> (bytes: [u8; 4])
    ensures
        bytes@ == word_le_bytes(word),
        word_from_le(bytes@[0], bytes@[1], bytes@[2], bytes@[3]) == word,
{
    let bytes = [
        (word % 0x100) as u8,
        (word / 0x100 % 0x100) as u8,
        (word / 0x1_0000 % 0x100) as u8,
        (word / 0x100_0000 % 0x100) as u8,
    ];
    proof {
        assert(bytes@ =~= word_le_bytes(word));
        lemma_word_le_round_trip(word);
    }
    bytes
}

/// Writes a 64-bit integer as its eight little-endian bytes; weighted by the
/// powers of 256, they sum to the integer.
pub fn u64_to_le(value: u64) -> (bytes: [u8; 8])
    ensures
        bytes@ == u64_le_bytes(value),
        value == bytes@[0] + 0x100 * bytes@[1] + 0x1_0000 * bytes@[2] + 0x100_0000 * bytes@[3]
            + 0x1_0000_0000 * bytes@[4] + 0x100_0000_0000 * bytes@[5] + 0x1_0000_0000_0000
            * bytes@[6] + 0x100_0000_0000_0000 * bytes@[7],
{
    let bytes = [
        (value % 0x100) as u8,
        (value / 0x100 % 0x100) as u8,
        (value / 0x1_0000 % 0x100) as u8,
        (value / 0x100_0000 % 0x100) as u8,
        (value / 0x1_0000_0000 % 0x100) as u8,
        (value / 0x100_0000_0000 % 0x100) as u8,
        (value / 0x1_0000_0000_0000 % 0x100) as u8,
        (value / 0x100_0000_0000_0000 % 0x100) as u8,
    ];
    proof {
        assert(bytes@ =~= u64_le_bytes(value));
        lemma_u64_le_bytes_sum(value);
    }
    bytes
}

/// Writes five 32-bit words as their twenty little-endian bytes, word after
/// word.
pub fn words_to_le(words: &[u32; 5]) -> (bytes: [u8; 20])
    ensures
        bytes@ == words_le_bytes(words@),
{
    let mut bytes = [0u8; 20];
    for i in 0..5usize
        invariant
            forall|p: int| 0 <= p < 4 * i ==> bytes@[p] == word_le_bytes(words@[p / 4])[p % 4],
    {
        let word = u32_to_le(words[i]);
        bytes[4 * i] = word[0];
        bytes[4 * i + 1] = word[1];
        bytes[4 * i + 2] = word[2];
        bytes[4 * i + 3] = word[3];
    }
    assert(bytes@ =~= words_le_bytes(words@));
    bytes
}

} // verus!
