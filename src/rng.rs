//! The seeded pseudo-random stream used to fill a board, from `rand`.
//!
//! A stream is modelled by the seed it was made from and the number of
//! values drawn from it since; the `k`-th boolean drawn from a stream seeded
//! with `seed` is `seeded_bool(seed, k)`.

use vstd::prelude::*;

verus! {

/// `rand::rngs::StdRng`, carried through opaquely.
#[verifier::external_type_specification]
#[verifier::external_body]
pub struct ExStdRng(rand::rngs::StdRng);

/// The boolean drawn `k`-th (from 0) by `rand::Rng::gen::<bool>` from a
/// `StdRng` made by `seed_from_u64(seed)`.
pub uninterp spec fn seeded_bool(seed: u64, k: nat) -> bool;

/// A seeded generator together with its seed and the count of draws.
pub struct Stream {
    rng: rand::rngs::StdRng,
    seed: Ghost<u64>,
    drawn: Ghost<nat>,
}

impl Stream {
    /// The seed the stream was made from.
    pub closed spec fn seed(&self) -> u64 {
        self.seed@
    }

    /// How many values have been drawn since the stream was seeded.
    pub closed spec fn drawn(&self) -> nat {
        self.drawn@
    }

    /// Relies on `rand::SeedableRng::seed_from_u64` for `StdRng`: a
    /// generator whose stream is fixed by the seed alone.
    #[verifier::external_body]
    pub fn seeded(seed: u64) -> (s: Stream)
        ensures
            s.seed() == seed,
            s.drawn() == 0,
    {
        Stream {
            rng: <rand::rngs::StdRng as rand::SeedableRng>::seed_from_u64(seed),
            seed: Ghost(seed),
            drawn: Ghost(0),
        }
    }

    /// Relies on `rand::Rng::gen::<bool>` for `StdRng`: the next boolean of
    /// the stream, which then moves on by one.
    #[verifier::external_body]
    pub fn next_bool(&mut self) -> (r: bool)
        ensures
            r == seeded_bool(old(self).seed(), old(self).drawn()),
            final(self).seed() == old(self).seed(),
            final(self).drawn() == old(self).drawn() + 1,
    {
        self.drawn = Ghost(self.drawn@ + 1);
        <rand::rngs::StdRng as rand::Rng>::gen::<bool>(&mut self.rng)
    }
}

} // verus!
