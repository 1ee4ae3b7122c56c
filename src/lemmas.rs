//! Laws of the hash over the mixing core's spec functions.
use vstd::prelude::*;

use crate::internal::{
    absorb_blocks, add64, finish_spec, fold_high, le_word, mix2_spec, mix3_spec,
    mix_with_bytes_spec, mul64, short_width, word_modulus, PRIME,
};
use crate::FHasher;

verus! {

/// The digest of the byte slice `b` absorbed by a hasher that starts from `seed`.
pub open spec fn digest_of_bytes(seed: u64, b: Seq<u8>) -> u64 {
    finish_spec(mix_with_bytes_spec(seed, b))
}

/// Two fresh hashers that start from the same seed give the same digest for the
/// same bytes.
pub proof fn lemma_deterministic(h1: FHasher, h2: FHasher, seed: u64, b: Seq<u8>)
    requires
        h1@ == seed,
        h2@ == seed,
    ensures
        finish_spec(mix_with_bytes_spec(h1@, b)) == finish_spec(mix_with_bytes_spec(h2@, b)),
        finish_spec(mix_with_bytes_spec(h1@, b)) == digest_of_bytes(seed, b),
{
}

/// Appending a byte always changes the length word that is mixed in first.
pub proof fn lemma_length_word_differs(seed: u64, b: Seq<u8>)
    requires
        b.len() < u64::MAX,
    ensures
        mix2_spec(seed, b.len() as u64) != mix2_spec(seed, (b.len() + 1) as u64),
{
    let n = b.len() as u64;
    let m = (b.len() + 1) as u64;
    lemma_xor_cancel(add64(seed, PRIME), n, m);
}

/// The read positions of `mix_with_bytes_spec` cover every index of an input of `n`
/// bytes. Up to 16 bytes, one of the two reads of `short_width(n)` bytes, both inside
/// the input, holds index `i`. Beyond 16 bytes, either the tail block of the last 16
/// bytes holds it, or the forward block at the multiple of 16 below it does, and that
/// block starts before the tail: the forward blocks reach the tail and never take it
/// again. This speaks of positions only: a word that is read can still leave the
/// state unchanged, since `mix3_spec` cancels its last argument when the middle one
/// is zero.
pub proof fn lemma_read_positions_cover_input(n: nat, i: nat)
    requires
        i < n,
    ensures
        n <= 16 ==> short_width(n) <= n && (i < short_width(n) || n - short_width(n) <= i),
        n > 16 ==> n - 16 <= i || ({
            let k = 16 * (i / 16);
            &&& k % 16 == 0
            &&& k < n - 16
            &&& k <= i < k + 16
        }),
{
}

/// Two different seeds never give the same digest for the same bytes.
pub proof fn lemma_seed_independence(s1: u64, s2: u64, b: Seq<u8>)
    requires
        s1 != s2,
    ensures
        digest_of_bytes(s1, b) != digest_of_bytes(s2, b),
{
    lemma_mix_with_bytes_injective(s1, s2, b);
    lemma_finish_injective(mix_with_bytes_spec(s1, b), mix_with_bytes_spec(s2, b));
}

proof fn lemma_xor_cancel(x: u64, a: u64, b: u64)
    requires
        a != b,
    ensures
        x ^ a != x ^ b,
        a ^ x != b ^ x,
{
    assert(a != b ==> x ^ a != x ^ b && a ^ x != b ^ x) by (bit_vector);
}

proof fn lemma_add64_injective(a1: u64, a2: u64, c: u64)
    requires
        a1 != a2,
    ensures
        add64(a1, c) != add64(a2, c),
{
}

proof fn lemma_mix2_injective(a1: u64, a2: u64, b: u64)
    requires
        a1 != a2,
    ensures
        mix2_spec(a1, b) != mix2_spec(a2, b),
{
    lemma_add64_injective(a1, a2, PRIME);
    lemma_xor_cancel(b, add64(a1, PRIME), add64(a2, PRIME));
}

proof fn lemma_mix3_injective(a1: u64, a2: u64, b: u64, c: u64)
    requires
        a1 != a2,
    ensures
        mix3_spec(a1, b, c) != mix3_spec(a2, b, c),
{
    lemma_add64_injective(a1, a2, PRIME);
    lemma_xor_cancel(add64(b, c), add64(a1, PRIME), add64(a2, PRIME));
    lemma_xor_cancel(c, add64(a1, PRIME) ^ add64(b, c), add64(a2, PRIME) ^ add64(b, c));
}

proof fn lemma_absorb_blocks_injective(h1: u64, h2: u64, b: Seq<u8>, offset: int, end: int)
    requires
        h1 != h2,
    ensures
        absorb_blocks(h1, b, offset, end) != absorb_blocks(h2, b, offset, end),
    decreases end - offset + 16,
{
    if offset < end {
        let l = le_word(b, offset, 8);
        let r = le_word(b, offset + 8, 8);
        lemma_mix3_injective(h1, h2, l, r);
        lemma_absorb_blocks_injective(mix3_spec(h1, l, r), mix3_spec(h2, l, r), b, offset + 16, end);
    }
}

proof fn lemma_mix_with_bytes_injective(s1: u64, s2: u64, b: Seq<u8>)
    requires
        s1 != s2,
    ensures
        mix_with_bytes_spec(s1, b) != mix_with_bytes_spec(s2, b),
{
    let n = b.len();
    let h1 = mix2_spec(s1, n as u64);
    let h2 = mix2_spec(s2, n as u64);
    lemma_mix2_injective(s1, s2, n as u64);
    if n == 0 {
        lemma_mix3_injective(h1, h2, PRIME, PRIME);
    } else if n <= 16 {
        let w = short_width(n);
        lemma_mix3_injective(h1, h2, le_word(b, 0, w), le_word(b, n - w, w));
    } else {
        let tail = n - 16;
        let l = le_word(b, tail, 8);
        let r = le_word(b, tail + 8, 8);
        let m1 = mix2_spec(h1, PRIME);
        let m2 = mix2_spec(h2, PRIME);
        lemma_mix2_injective(h1, h2, PRIME);
        lemma_mix3_injective(m1, m2, l, r);
        lemma_absorb_blocks_injective(mix3_spec(m1, l, r), mix3_spec(m2, l, r), b, 0, tail);
    }
}

proof fn lemma_fold_high_injective(x: u64, y: u64)
    requires
        x != y,
    ensures
        fold_high(x) != fold_high(y),
{
    assert(x != y ==> x ^ (x >> 32u64) != y ^ (y >> 32u64)) by (bit_vector);
}

/// The inverse of `PRIME` modulo 2^64.
const PRIME_INVERSE: u64 = 4948454677197703799;

proof fn lemma_mul_prime_undone(x: u64)
    ensures
        mul64(mul64(x, PRIME), PRIME_INVERSE) == x,
{
    let m = word_modulus();
    let p = PRIME as int;
    let q = PRIME_INVERSE as int;
    let k: int = 4137301205598126682;
    assert(p * q == m * k + 1);
    vstd::arithmetic::div_mod::lemma_mul_mod_noop_left(x * p, q, m);
    vstd::arithmetic::mul::lemma_mul_is_associative(x as int, p, q);
    assert(x * (p * q) == m * (x * k) + x) by (nonlinear_arith)
        requires
            p * q == m * k + 1,
    ;
    vstd::arithmetic::div_mod::lemma_mod_multiples_vanish(x * k, x as int, m);
    vstd::arithmetic::div_mod::lemma_small_mod(x as nat, m as nat);
}

proof fn lemma_finish_injective(x: u64, y: u64)
    requires
        x != y,
    ensures
        finish_spec(x) != finish_spec(y),
{
    lemma_fold_high_injective(x, y);
    let fx = fold_high(x);
    let fy = fold_high(y);
    lemma_mul_prime_undone(fx);
    lemma_mul_prime_undone(fy);
    lemma_fold_high_injective(mul64(fx, PRIME), mul64(fy, PRIME));
}

} // verus!
