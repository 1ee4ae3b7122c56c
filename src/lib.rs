//! A small, fast, seedable 64-bit hasher for in-memory hash tables.
use vstd::prelude::*;

pub mod internal;
pub mod lemmas;

use internal::{finish_spec, mix2_spec, mix3_spec, mix_with_bytes_spec};

verus! {

/// Stupidly simple hasher: all it holds is the running 64-bit state.
pub struct FHasher {
    state: u64,
}

impl View for FHasher {
    type V = u64;

    /// The running state.
    closed spec fn view(&self) -> u64 {
        self.state
    }
}

impl Default for FHasher {
    /// Creates a new FHasher with the default state (0).
    fn default() -> (r: Self)
        ensures
            r@ == 0,
    {
        FHasher { state: 0 }
    }
}

impl From<u64> for FHasher {
    /// Use custom u64 value as a seed for FHasher.
    fn from(state: u64) -> (r: Self)
        ensures
            r@ == state,
    {
        FHasher { state }
    }
}

impl vstd::std_specs::convert::FromSpecImpl<u64> for FHasher {
    open spec fn obeys_from_spec() -> bool {
        true
    }

    closed spec fn from_spec(v: u64) -> FHasher {
        FHasher { state: v }
    }
}

impl std::hash::Hasher for FHasher {
    /// The digest of the state; the state itself is left as it was.
    fn finish(&self) -> (r: u64)
        ensures
            r == finish_spec(self@),
    {
        internal::finish(self.state)
    }

    /// Absorbs a byte slice, its length included.
    fn write(&mut self, bytes: &[u8])
        ensures
            final(self)@ == mix_with_bytes_spec(old(self)@, bytes@),
    {
        self.state = internal::mix_with_bytes(self.state, bytes);
    }

    fn write_u8(&mut self, i: u8)
        ensures
            final(self)@ == mix2_spec(old(self)@, i as u64),
    {
        self.write_u64(i as u64);
    }

    fn write_u16(&mut self, i: u16)
        ensures
            final(self)@ == mix2_spec(old(self)@, i as u64),
    {
        self.write_u64(i as u64);
    }

    fn write_u32(&mut self, i: u32)
        ensures
            final(self)@ == mix2_spec(old(self)@, i as u64),
    {
        self.write_u64(i as u64);
    }

    fn write_u64(&mut self, i: u64)
        ensures
            final(self)@ == mix2_spec(old(self)@, i),
    {
        self.state = internal::mix2(self.state, i);
    }

    /// Absorbs the low half, then the high half, in one three-word mix.
    fn write_u128(&mut self, i: u128)
        ensures
            final(self)@ == mix3_spec(old(self)@, i as u64, (i >> 64u128) as u64),
    {
        self.state = internal::mix3(self.state, i as u64, (i >> 64) as u64);
    }

    /// Updates the hasher with a single usize value, as a 64-bit word.
    fn write_usize(&mut self, i: usize)
        ensures
            final(self)@ == mix2_spec(old(self)@, i as u64),
    {
        self.write_u64(i as u64);
    }
}

/// Builder of `FHasher`s that all start from one stored seed.
///
/// A seed chosen per table makes it harder to precompute colliding keys for the
/// algorithm, which is public. The seed comes either from the caller (`with_seed`,
/// `From<u64>`) or from two words of entropy, such as a clock reading, handed to
/// `from_entropy`.
pub struct RandomState {
    state: u64,
}

impl View for RandomState {
    type V = u64;

    /// The seed that every hasher built from this state starts from.
    closed spec fn view(&self) -> u64 {
        self.state
    }
}

impl RandomState {
    /// A builder whose hashers start from `seed` as it is.
    pub fn with_seed(seed: u64) -> (r: Self)
        ensures
            r@ == seed,
    {
        RandomState { state: seed }
    }

    /// A builder whose seed is derived from two words of entropy: they are mixed
    /// together and finalized.
    pub fn from_entropy(l: u64, r: u64) -> (s: Self)
        ensures
            s@ == finish_spec(mix2_spec(l, r)),
    {
        RandomState { state: internal::finish(internal::mix2(l, r)) }
    }
}

impl From<u64> for RandomState {
    /// Use custom u64 value as a seed for RandomState, for environments
    /// without a source of entropy.
    fn from(state: u64) -> (r: Self)
        ensures
            r@ == state,
    {
        RandomState { state }
    }
}

impl vstd::std_specs::convert::FromSpecImpl<u64> for RandomState {
    open spec fn obeys_from_spec() -> bool {
        true
    }

    closed spec fn from_spec(v: u64) -> RandomState {
        RandomState { state: v }
    }
}

impl std::hash::BuildHasher for RandomState {
    type Hasher = FHasher;

    /// Builds a new FHasher that starts from the stored seed.
    fn build_hasher(&self) -> (h: FHasher)
        ensures
            h@ == self@,
    {
        FHasher { state: self.state }
    }
}

} // verus!
