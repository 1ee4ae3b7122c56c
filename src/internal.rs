//! Mixing core: word mixing, finalization, and absorption of byte slices.
use vstd::prelude::*;

verus! {

/// The odd 64-bit constant that drives both the mixing and the finalization.
pub const PRIME: u64 = 15422943418517532487;

/// 2^64, the modulus of all word arithmetic.
pub open spec fn word_modulus() -> int {
    0x1_0000_0000_0000_0000
}

/// Addition modulo 2^64.
pub open spec fn add64(a: u64, b: u64) -> u64 {
    ((a + b) % word_modulus()) as u64
}

/// Multiplication modulo 2^64.
pub open spec fn mul64(a: u64, b: u64) -> u64 {
    ((a * b) % word_modulus()) as u64
}

/// A word xored with its own upper half shifted down.
pub open spec fn fold_high(x: u64) -> u64 {
    x ^ (x >> 32u64)
}

/// Finalization: xor-shift, multiply by the constant, xor-shift again.
pub open spec fn finish_spec(hash: u64) -> u64 {
    fold_high(mul64(fold_high(hash), PRIME))
}

/// Combination of the state with one word.
pub open spec fn mix2_spec(a: u64, b: u64) -> u64 {
    add64(a, PRIME) ^ b
}

/// Combination of the state with two words.
pub open spec fn mix3_spec(a: u64, b: u64, c: u64) -> u64 {
    add64(a, PRIME) ^ add64(b, c) ^ c
}

/// The little-endian word held by the `width` bytes of `b` that start at `start`.
pub open spec fn le_word(b: Seq<u8>, start: int, width: nat) -> u64
    decreases width,
{
    if width == 0 {
        0
    } else {
        (b[start] as u64) | (le_word(b, start + 1, (width - 1) as nat) << 8u64)
    }
}

/// Width in bytes of each of the two reads that cover a short input of `n` bytes:
/// the smallest of 1, 2, 4 and 8 whose double reaches `n`.
pub open spec fn short_width(n: nat) -> nat {
    if n <= 2 {
        1
    } else if n <= 4 {
        2
    } else if n <= 8 {
        4
    } else {
        8
    }
}

/// Mixes in, from the front, each 16-byte block of `b` that starts at `offset + 16 * k`
/// before `end`.
pub open spec fn absorb_blocks(hash: u64, b: Seq<u8>, offset: int, end: int) -> u64
    decreases end - offset + 16,
{
    if offset < end {
        absorb_blocks(
            mix3_spec(hash, le_word(b, offset, 8), le_word(b, offset + 8, 8)),
            b,
            offset + 16,
            end,
        )
    } else {
        hash
    }
}

/// The state after absorbing the byte slice `b` into `hash`.
///
/// The length is mixed in first. An empty slice then mixes in the constant twice.
/// Up to 16 bytes are covered by two reads of `short_width` bytes, one from the start
/// and one ending at the end. Longer slices mix in the last 16 bytes first, after
/// folding the constant into the state once more so that the tail enters differently
/// from the other blocks, and then every 16-byte block from the front that starts
/// before the tail.
pub open spec fn mix_with_bytes_spec(hash: u64, b: Seq<u8>) -> u64 {
    let n = b.len();
    let h = mix2_spec(hash, n as u64);
    if n == 0 {
        mix3_spec(h, PRIME, PRIME)
    } else if n <= 16 {
        let w = short_width(n);
        mix3_spec(h, le_word(b, 0, w), le_word(b, n - w, w))
    } else {
        let tail = n - 16;
        let t = mix3_spec(mix2_spec(h, PRIME), le_word(b, tail, 8), le_word(b, tail + 8, 8));
        absorb_blocks(t, b, 0, tail)
    }
}

/// Perform finalization on the hash.
pub fn finish(hash: u64) -> (r: u64)
    ensures
        r == finish_spec(hash),
{
    let x = hash ^ (hash >> 32);
    let y = x.wrapping_mul(PRIME);
    y ^ (y >> 32)
}

/// Mix two words: the first is offset by the constant, then xored with the second.
pub fn mix2(a: u64, b: u64) -> (r: u64)
    ensures
        r == mix2_spec(a, b),
{
    a.wrapping_add(PRIME) ^ b
}

/// Mix three words; the arguments play different parts, so their order matters.
pub fn mix3(a: u64, b: u64, c: u64) -> (r: u64)
    ensures
        r == mix3_spec(a, b, c),
{
    a.wrapping_add(PRIME) ^ b.wrapping_add(c) ^ c
}

/// Reads the little-endian word held by `width` bytes of `bytes` from `start` on.
fn read_le(bytes: &[u8], start: usize, width: usize) -> (r: u64)
    requires
        start + width <= bytes@.len(),
    ensures
        r == le_word(bytes@, start as int, width as nat),
{
    let len = bytes.len();
    let mut acc: u64 = 0;
    let mut j: usize = width;
    while j > 0
        invariant
            j <= width,
            len == bytes@.len(),
            start + width <= len,
            acc == le_word(bytes@, start + j, (width - j) as nat),
        decreases j,
    {
        j = j - 1;
        acc = (bytes[start + j] as u64) | (acc << 8);
    }
    acc
}

/// Mix hash with byte slice.
pub fn mix_with_bytes(hash: u64, bytes: &[u8]) -> (r: u64)
    ensures
        r == mix_with_bytes_spec(hash, bytes@),
{
    let n = bytes.len();
    let mut hash = mix2(hash, n as u64);
    if n > 16 {
        let tail = n - 16;
        // The tail goes in first, on a state marked with the constant, so the loop
        // below never meets it.
        let tl = read_le(bytes, tail, 8);
        let tr = read_le(bytes, tail + 8, 8);
        hash = mix3(mix2(hash, PRIME), tl, tr);
        let ghost t = hash;
        let mut offset: usize = 0;
        while offset < tail
            invariant
                n == bytes@.len(),
                tail == n - 16,
                offset <= tail + 15,
                absorb_blocks(hash, bytes@, offset as int, tail as int) == absorb_blocks(
                    t,
                    bytes@,
                    0,
                    tail as int,
                ),
            decreases tail + 16 - offset,
        {
            let l = read_le(bytes, offset, 8);
            let r = read_le(bytes, offset + 8, 8);
            hash = mix3(hash, l, r);
            offset = offset + 16;
        }
        hash
    } else if n == 0 {
        mix3(hash, PRIME, PRIME)
    } else {
        let w: usize = if n <= 2 {
            1
        } else if n <= 4 {
            2
        } else if n <= 8 {
            4
        } else {
            8
        };
        let l = read_le(bytes, 0, w);
        let r = read_le(bytes, n - w, w);
        mix3(hash, l, r)
    }
}

} // verus!
