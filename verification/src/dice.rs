//! The random number source.

use bracket_lib::prelude::RandomNumberGenerator;
use vstd::prelude::*;

verus! {

#[verifier::external_type_specification]
#[verifier::external_body]
pub struct ExRandomNumberGenerator(RandomNumberGenerator);

/// Calls `RandomNumberGenerator::new`, which seeds a generator from the
/// operating system. Nothing is claimed of the generator.
#[verifier::external_body]
pub(crate) fn new_generator() -> RandomNumberGenerator {
    RandomNumberGenerator::new()
}

/// Calls `RandomNumberGenerator::range`, which draws from `min` inclusive to
/// `max` exclusive and panics on an empty range. The contract claims the
/// bounds and nothing of the distribution.
#[verifier::external_body]
pub(crate) fn roll(rng: &mut RandomNumberGenerator, min: i32, max: i32) -> (n: i32)
    requires
        min < max,
    ensures
        min <= n < max,
{
    rng.range(min, max)
}

} // verus!
