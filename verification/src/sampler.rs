//! The injectable random source.
//!
//! Every sampling decision in the renderer draws from a `Sampler` passed in
//! explicitly by the caller, so a rendering can be reproduced from a seed.
//! The generator itself comes from the `rand` crate; its draws are opaque to
//! verification beyond the range promised by each wrapper.

use vstd::prelude::*;
use crate::fx::FX_ONE;

verus! {

#[verifier::external_type_specification]
#[verifier::external_body]
pub struct ExStdRng(rand::rngs::StdRng);

/// A deterministic pseudo-random generator, seeded explicitly.
pub struct Sampler {
    rng: rand::rngs::StdRng,
}

impl Sampler {
    /// Relies on `rand::SeedableRng::seed_from_u64` for `rand::rngs::StdRng`:
    /// builds a generator whose stream is a function of the seed.
    #[verifier::external_body]
    pub fn from_seed(seed: u64) -> Sampler {
        Sampler { rng: <rand::rngs::StdRng as rand::SeedableRng>::seed_from_u64(seed) }
    }

    /// Relies on `rand::Rng::gen_range`: returns a uniform value in
    /// `[lo, hi)` and panics only when the range is empty.
    #[verifier::external_body]
    pub fn next_in(&mut self, lo: i64, hi: i64) -> (r: i64)
        requires
            lo < hi,
        ensures
            lo <= r < hi,
    {
        rand::Rng::gen_range(&mut self.rng, lo..hi)
    }

    /// A uniform fixed-point draw from `[0, 1)`.
    pub fn next_unit(&mut self) -> (r: i64)
        ensures
            0 <= r < FX_ONE,
    {
        self.next_in(0, FX_ONE)
    }

    /// A uniform fixed-point draw from `[-1, 1)`.
    pub fn next_symmetric(&mut self) -> (r: i64)
        ensures
            -FX_ONE <= r < FX_ONE,
    {
        self.next_in(-FX_ONE, FX_ONE)
    }

    /// A uniform choice among `0, 1, 2`: the axis pick of the tree builder.
    pub fn next_axis(&mut self) -> (r: u32)
        ensures
            r < 3,
    {
        let v = self.next_in(0, 3);
        v as u32
    }
}

} // verus!
