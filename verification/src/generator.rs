//! The value generator: draws one bounded unsigned integer at a time,
//! uniformly over `[0, range)`, from a seeded pseudo-random source.
//!
//! The bound is checked once at construction, never per call. The drawn
//! value depends on the generator's hidden state, so nothing is promised of
//! it beyond its bound; callers treat each draw as an arbitrary value below
//! the range.

use vstd::prelude::*;
use crate::errors::PluginError;

verus! {

/// `rand::rngs::StdRng` carried as an opaque value: a seeded pseudo-random
/// source that one production loop owns (or several threads share under a
/// lock, as every call advancing it is serialized by `&mut` access).
#[verifier::external_type_specification]
#[verifier::external_body]
pub struct ExStdRng(rand::rngs::StdRng);

/// Relies on `rand::SeedableRng::from_entropy`: returns a freshly
/// entropy-seeded pseudo-random source. Nothing is assumed of its state.
#[verifier::external_body]
fn fresh_rng() -> rand::rngs::StdRng {
    rand::SeedableRng::from_entropy()
}

/// Relies on `rand::Rng::gen_range` over the half-open range `0..bound`:
/// it panics exactly on an empty range, and otherwise returns a uniformly
/// distributed value of the range, so the result is below `bound`. Nothing
/// more is assumed: two calls on one bound may differ.
#[verifier::external_body]
fn sample_below(rng: &mut rand::rngs::StdRng, bound: u64) -> (value: u64)
    requires
        bound > 0,
    ensures
        value < bound,
{
    rand::Rng::gen_range(rng, 0..bound)
}

/// A bounded uniform generator: a pseudo-random source together with the
/// exclusive upper bound of its draws.
pub struct Generator {
    rng: rand::rngs::StdRng,
    range: u64,
}

impl Generator {
    /// The exclusive upper bound the generator was built with.
    pub closed spec fn spec_range(&self) -> u64 {
        self.range
    }

    /// A generator is well formed exactly when its range is positive; a
    /// zero range admits no value at all and is rejected at construction.
    pub open spec fn wf(&self) -> bool {
        self.spec_range() > 0
    }

    /// Builds a generator over `[0, range)`: a zero range is a
    /// configuration error, any other range succeeds.
    pub fn new(range: u64) -> (r: Result<Generator, PluginError>)
        ensures
            match r {
                Ok(g) => range > 0 && g.wf() && g.spec_range() == range,
                Err(e) => range == 0 && e == PluginError::ConfigurationError,
            },
    {
        if range == 0 {
            Err(PluginError::ConfigurationError)
        } else {
            Ok(Generator { rng: fresh_rng(), range })
        }
    }

    /// Draws one value: always below the range, which itself never changes.
    pub fn next(&mut self) -> (value: u64)
        requires
            old(self).wf(),
        ensures
            value < old(self).spec_range(),
            final(self).spec_range() == old(self).spec_range(),
            final(self).wf(),
    {
        sample_below(&mut self.rng, self.range)
    }
}

} // verus!
