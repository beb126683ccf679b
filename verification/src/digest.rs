//! The key-derivation digest: one shortened round of a SHA-1 style
//! compression function over five words read cyclically from the input.
//!
//! Five 32-bit words are read from the input bytes, wrapping around its end.
//! Five mixing steps, one per word, update five accumulators that start from
//! the SHA-1 initial state; each step writes one accumulator and rotates
//! another. The digest is the final accumulators, each added to the initial
//! accumulator at its position.

use vstd::prelude::*;
use crate::endian::{u32_from_le, u64_le_bytes, word_from_le};

verus! {

/// The constant added in every mixing step.
pub const ROUND_CONSTANT: u32 = 0x5a827999;

/// The accumulators before the first mixing step.
pub open spec fn initial_state() -> Seq<u32> {
    seq![0x67452301u32, 0xefcdab89u32, 0x98badcfeu32, 0x10325476u32, 0xc3d2e1f0u32]
}

/// The byte of `buffer` at `offset`, counted cyclically: offsets past the end
/// start again at the first byte.
pub open spec fn wrapped_byte(buffer: Seq<u8>, offset: int) -> u8
    recommends
        buffer.len() > 0,
        offset >= 0,
{
    buffer[offset % buffer.len() as int]
}

/// Input word `i`: the little-endian word made of the four bytes at the
/// cyclic offsets `4 * i` to `4 * i + 3`.
pub open spec fn block_word(buffer: Seq<u8>, i: int) -> u32
    recommends
        buffer.len() > 0,
        i >= 0,
{
    word_from_le(
        wrapped_byte(buffer, 4 * i),
        wrapped_byte(buffer, 4 * i + 1),
        wrapped_byte(buffer, 4 * i + 2),
        wrapped_byte(buffer, 4 * i + 3),
    )
}

/// The five input words of `buffer`.
pub open spec fn block_words(buffer: Seq<u8>) -> Seq<u32>
    recommends
        buffer.len() > 0,
{
    Seq::new(5, |i: int| block_word(buffer, i))
}

/// `x` rotated left by `n` bits, for `0 < n < 32`.
pub open spec fn rotated_left(x: u32, n: u32) -> u32
    recommends
        0 < n < 32,
{
    (x << n) | (x >> ((32 - n) as u32))
}

/// The sum of two words modulo 2^32.
pub open spec fn wrapped_sum(x: u32, y: u32) -> u32 {
    ((x + y) % 0x1_0000_0000) as u32
}

/// The value that a mixing step writes: with message word `m` and the
/// accumulators in the roles `v`, `w`, `x`, `y`, `z`, the sum modulo 2^32 of
/// `z`, the choice of `x` or `y` by the bits of `w`, `m`, the round constant
/// and `v` rotated left by five bits.
pub open spec fn mixed_word(m: u32, v: u32, w: u32, x: u32, y: u32, z: u32) -> u32 {
    ((z + ((w & (x ^ y)) ^ y) + m + ROUND_CONSTANT + rotated_left(v, 5)) % 0x1_0000_0000) as u32
}

/// The accumulator that plays role `r` in step `t`, where the roles `v`, `w`,
/// `x`, `y`, `z` are numbered 0 to 4. In step 0 the accumulators play the
/// roles in their own order; with each step every role moves one accumulator
/// back, cyclically, so that step `t` writes accumulator `4 - t`.
pub open spec fn role(t: int, r: int) -> int {
    (5 - t + r) % 5
}

/// The accumulators after step `t` on the accumulators `state` with message
/// word `m`: the accumulator in role `z` takes the mixed word, the one in
/// role `w` is rotated left by thirty bits, the other three stay.
pub open spec fn step(state: Seq<u32>, m: u32, t: int) -> Seq<u32>
    recommends
        state.len() == 5,
        0 <= t < 5,
{
    let v = state[role(t, 0)];
    let w = state[role(t, 1)];
    let x = state[role(t, 2)];
    let y = state[role(t, 3)];
    let z = state[role(t, 4)];
    state.update(role(t, 4), mixed_word(m, v, w, x, y, z)).update(role(t, 1), rotated_left(w, 30))
}

/// The accumulators after the first `n` steps over the input words `block`.
pub open spec fn mixed(block: Seq<u32>, n: nat) -> Seq<u32>
    recommends
        block.len() == 5,
        n <= 5,
    decreases n,
{
    if n == 0 {
        initial_state()
    } else {
        step(mixed(block, (n - 1) as nat), block[n - 1], n - 1)
    }
}

/// The digest of `buffer`: at each of the five positions, the accumulator
/// after all five steps plus the initial accumulator at that position,
/// modulo 2^32.
pub open spec fn digest(buffer: Seq<u8>) -> Seq<u32>
    recommends
        buffer.len() > 0,
{
    Seq::new(5, |k: int| wrapped_sum(mixed(block_words(buffer), 5)[k], initial_state()[k]))
}

/// Cyclic reading: an offset inside the buffer reads the byte there, and an
/// offset one buffer length further on reads the same byte again.
pub proof fn lemma_wrapped_byte_cycles(buffer: Seq<u8>, offset: int)
    requires
        buffer.len() > 0,
        offset >= 0,
    ensures
        offset < buffer.len() ==> wrapped_byte(buffer, offset) == buffer[offset],
        wrapped_byte(buffer, offset + buffer.len()) == wrapped_byte(buffer, offset),
{
    let n = buffer.len() as int;
    assert((offset + n) % n == offset % n) by (nonlinear_arith)
        requires
            n > 0,
            offset >= 0,
    ;
    assert(offset < n ==> offset % n == offset) by (nonlinear_arith)
        requires
            n > 0,
            offset >= 0,
    ;
}

/// With eight input bytes the five input words reuse them cyclically: the
/// words at positions 0, 2 and 4 are made of the first four bytes, the words
/// at positions 1 and 3 of the last four.
pub proof fn lemma_block_words_of_eight_bytes(buffer: Seq<u8>)
    requires
        buffer.len() == 8,
    ensures
        block_words(buffer) == seq![
            word_from_le(buffer[0], buffer[1], buffer[2], buffer[3]),
            word_from_le(buffer[4], buffer[5], buffer[6], buffer[7]),
            word_from_le(buffer[0], buffer[1], buffer[2], buffer[3]),
            word_from_le(buffer[4], buffer[5], buffer[6], buffer[7]),
            word_from_le(buffer[0], buffer[1], buffer[2], buffer[3]),
        ],
{
    assert(block_words(buffer) =~= seq![
        word_from_le(buffer[0], buffer[1], buffer[2], buffer[3]),
        word_from_le(buffer[4], buffer[5], buffer[6], buffer[7]),
        word_from_le(buffer[0], buffer[1], buffer[2], buffer[3]),
        word_from_le(buffer[4], buffer[5], buffer[6], buffer[7]),
        word_from_le(buffer[0], buffer[1], buffer[2], buffer[3]),
    ]);
}

/// With the eight little-endian bytes of a 64-bit integer as input, the five
/// input words are its low and high halves in turn: low, high, low, high,
/// low.
pub proof fn lemma_block_words_of_u64(value: u64)
    ensures
        block_words(u64_le_bytes(value)) == seq![
            (value % 0x1_0000_0000) as u32,
            (value / 0x1_0000_0000) as u32,
            (value % 0x1_0000_0000) as u32,
            (value / 0x1_0000_0000) as u32,
            (value % 0x1_0000_0000) as u32,
        ],
{
    let bytes = u64_le_bytes(value);
    lemma_block_words_of_eight_bytes(bytes);
    assert((value % 0x100) + 0x100 * (value / 0x100 % 0x100) + 0x1_0000 * (value / 0x1_0000
        % 0x100) + 0x100_0000 * (value / 0x100_0000 % 0x100) == value % 0x1_0000_0000)
        by (bit_vector);
    assert((value / 0x1_0000_0000 % 0x100) + 0x100 * (value / 0x100_0000_0000 % 0x100) + 0x1_0000
        * (value / 0x1_0000_0000_0000 % 0x100) + 0x100_0000 * (value / 0x100_0000_0000_0000
        % 0x100) == value / 0x1_0000_0000) by (bit_vector);
    assert(word_from_le(bytes[0], bytes[1], bytes[2], bytes[3]) == (value % 0x1_0000_0000) as u32);
    assert(word_from_le(bytes[4], bytes[5], bytes[6], bytes[7]) == (value / 0x1_0000_0000) as u32);
}

/// Step `t` writes accumulator `4 - t`, rotates the accumulator two places
/// further on (cyclically), and leaves the other three as they were.
pub proof fn lemma_step_positions(state: Seq<u32>, m: u32, t: int)
    requires
        state.len() == 5,
        0 <= t < 5,
    ensures
        step(state, m, t).len() == 5,
        role(t, 4) == 4 - t,
        role(t, 1) == (4 - t + 2) % 5,
        step(state, m, t)[4 - t] == mixed_word(
            m,
            state[role(t, 0)],
            state[role(t, 1)],
            state[role(t, 2)],
            state[role(t, 3)],
            state[4 - t],
        ),
        step(state, m, t)[role(t, 1)] == rotated_left(state[role(t, 1)], 30),
        forall|k: int|
            0 <= k < 5 && k != role(t, 4) && k != role(t, 1) ==> step(state, m, t)[k] == state[k],
{
}

/// Reads the byte of `buffer` at the cyclic offset `offset`.
pub fn read_wrapped(buffer: &[u8], offset: usize) -> (byte: u8)
    requires
        buffer@.len() > 0,
    ensures
        byte == wrapped_byte(buffer@, offset as int),
{
    buffer[offset % buffer.len()]
}

/// Reads the five input words of `buffer`.
pub fn extract_block(buffer: &[u8]) -> (block: [u32; 5])
    requires
        buffer@.len() > 0,
    ensures
        block@ == block_words(buffer@),
{
    let mut block = [0u32; 5];
    for i in 0..5usize
        invariant
            buffer@.len() > 0,
            forall|k: int| 0 <= k < i ==> block@[k] == block_word(buffer@, k),
    {
        block[i] = u32_from_le(
            read_wrapped(buffer, 4 * i),
            read_wrapped(buffer, 4 * i + 1),
            read_wrapped(buffer, 4 * i + 2),
            read_wrapped(buffer, 4 * i + 3),
        );
    }
    assert(block@ =~= block_words(buffer@));
    block
}

/// Rotates `x` left by `n` bits.
pub fn rotate_left(x: u32, n: u32) -> (rotated: u32)
    requires
        0 < n < 32,
    ensures
        rotated == rotated_left(x, n),
{
    (x << n) | (x >> (32 - n))
}

/// Computes the word that a mixing step writes.
pub fn mix(m: u32, v: u32, w: u32, x: u32, y: u32, z: u32) -> (word: u32)
    ensures
        word == mixed_word(m, v, w, x, y, z),
{
    z.wrapping_add((w & (x ^ y)) ^ y).wrapping_add(m).wrapping_add(ROUND_CONSTANT).wrapping_add(
        rotate_left(v, 5),
    )
}

/// Applies mixing step `t` with message word `m` to the accumulators.
pub fn apply_step(state: &mut [u32; 5], m: u32, t: usize)
    requires
        t < 5,
    ensures
        final(state)@ == step(old(state)@, m, t as int),
{
    let v = state[(5 - t) % 5];
    let w = state[(6 - t) % 5];
    let x = state[(7 - t) % 5];
    let y = state[(8 - t) % 5];
    let z = state[(9 - t) % 5];
    state[(9 - t) % 5] = mix(m, v, w, x, y, z);
    state[(6 - t) % 5] = rotate_left(w, 30);
}

/// Adds two words modulo 2^32.
pub fn add_wrapping(x: u32, y: u32) -> (sum: u32)
    ensures
        sum == wrapped_sum(x, y),
{
    x.wrapping_add(y)
}

/// Computes the five-word digest of a nonempty buffer.
pub fn hash_sha1_5_rounds(buffer: &[u8]) -> (words: [u32; 5])
    requires
        buffer@.len() > 0,
    ensures
        words@ == digest(buffer@),
{
    let block = extract_block(buffer);
    let initial: [u32; 5] = [0x67452301, 0xefcdab89, 0x98badcfe, 0x10325476, 0xc3d2e1f0];
    assert(initial@ =~= initial_state());
    let mut state = initial;
    for t in 0..5usize
        invariant
            block@.len() == 5,
            state@ == mixed(block@, t as nat),
    {
        apply_step(&mut state, block[t], t);
    }
    let words = [
        add_wrapping(state[0], initial[0]),
        add_wrapping(state[1], initial[1]),
        add_wrapping(state[2], initial[2]),
        add_wrapping(state[3], initial[3]),
        add_wrapping(state[4], initial[4]),
    ];
    assert(words@ =~= digest(buffer@));
    words
}

} // verus!
