//! Randomness for the sampling routines.
//!
//! All randomness is drawn from a single generator threaded explicitly
//! through every call that needs it, so tests can seed it deterministically.
//! Nothing is assumed of the values beyond the range they are drawn from.

use rand::Rng as RandRng;
use rand::SeedableRng;
use vstd::prelude::*;

verus! {

/// Declares `rand`'s standard generator type so it can stand in a field.
#[verifier::external_type_specification]
#[verifier::external_body]
pub struct ExStdRng(rand::rngs::StdRng);

/// A random-number source, passed explicitly to every sampling routine.
pub struct Rng {
    inner: rand::rngs::StdRng,
}

impl Rng {
    /// Relies on rand's `StdRng::seed_from_u64`: builds a generator whose
    /// output is a fixed function of the seed.
    #[verifier::external_body]
    pub fn seeded(seed: u64) -> Rng {
        Rng { inner: rand::rngs::StdRng::seed_from_u64(seed) }
    }

    /// Relies on rand's `StdRng::from_entropy`: builds a generator seeded
    /// from the system's entropy source.
    #[verifier::external_body]
    pub fn from_entropy() -> Rng {
        Rng { inner: rand::rngs::StdRng::from_entropy() }
    }

    /// Draw a scalar uniformly from `[lo, hi)`.
    ///
    /// Relies on rand's `Rng::gen_range`: for a non-empty integer range it
    /// returns a value inside the range (and panics on an empty one, which
    /// the precondition rules out).
    #[verifier::external_body]
    pub fn next_in(&mut self, lo: i64, hi: i64) -> (r: i64)
        requires
            lo < hi,
        ensures
            lo <= r < hi,
    {
        self.inner.gen_range(lo..hi)
    }
}

} // verus!
