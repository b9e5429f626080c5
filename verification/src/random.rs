//! A seeded source of random draws, wrapping the standard generator of the
//! `rand` crate.
//!
//! The engine only ever asks this source for one fair coin flip at a time.
//! The generator is a deterministic pseudo-random function of its seed, so
//! the stream of flips a seed produces is given a name, `seed_bits`, and
//! every contract that mentions a draw speaks of that name. Nothing else is
//! assumed of the stream.

use rand::Rng;
use rand::SeedableRng;
use vstd::prelude::*;

verus! {

#[verifier::external_type_specification]
#[verifier::external_body]
pub struct ExStdRng(rand::rngs::StdRng);

/// The stream of boolean draws produced by the standard generator of the
/// `rand` crate when seeded with `seed`. Uninterpreted: no contract states
/// what the stream is on a given seed, only that equal seeds give equal
/// streams.
pub uninterp spec fn seed_bits(seed: u64) -> Seq<bool>;

/// A pseudo-random boolean source, remembering the seed it was built from
/// and (in ghost state) how many draws have been taken.
///
/// The fields are private: a source can only be built by `from_seed` and
/// advanced by `flip`, which keeps the real generator in lockstep with the
/// model `(seed, drawn)`.
pub struct RandomSource {
    rng: rand::rngs::StdRng,
    seed: u64,
    drawn: Ghost<nat>,
}

impl RandomSource {
    /// The seed this source was built from.
    pub closed spec fn spec_seed(self) -> u64 {
        self.seed
    }

    /// How many draws have been taken so far.
    pub closed spec fn spec_drawn(self) -> nat {
        self.drawn@
    }

    /// Relies on `rand::SeedableRng::seed_from_u64` for `rand::rngs::StdRng`:
    /// it builds the generator from the seed word alone.
    #[verifier::external_body]
    fn seeded_rng(seed: u64) -> rand::rngs::StdRng {
        rand::rngs::StdRng::seed_from_u64(seed)
    }

    /// Builds a source whose draws follow `seed_bits(seed)` from the start.
    pub fn from_seed(seed: u64) -> (r: RandomSource)
        ensures
            r.spec_seed() == seed,
            r.spec_drawn() == 0,
    {
        RandomSource { rng: Self::seeded_rng(seed), seed, drawn: Ghost(0nat) }
    }

    /// One fair coin flip.
    ///
    /// Relies on `rand::Rng::gen::<bool>`, which draws
    /// `(rng.next_u32() as i32) < 0`: a pure function of the generator
    /// state, itself a deterministic function of the seed and of the number
    /// of draws already taken. `seed_bits` names that stream.
    #[verifier::external_body]
    pub(crate) fn flip(&mut self) -> (b: bool)
        ensures
            final(self).spec_seed() == old(self).spec_seed(),
            final(self).spec_drawn() == old(self).spec_drawn() + 1,
            b == seed_bits(old(self).spec_seed())[old(self).spec_drawn() as int],
    {
        self.rng.gen::<bool>()
    }
}

} // verus!
