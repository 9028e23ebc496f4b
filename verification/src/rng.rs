use vstd::prelude::*;

verus! {

#[verifier::external_type_specification]
#[verifier::external_body]
pub struct ExRandomNumberGenerator(bracket_random::prelude::RandomNumberGenerator);

/// Relies on bracket_random's RandomNumberGenerator::range, which samples a
/// value uniformly from the half-open interval: inclusive of `min`,
/// exclusive of `max` (it panics on an empty interval, hence the
/// precondition). The draw depends on the generator's hidden stream, so
/// nothing more than the interval bound is promised of any one call.
#[verifier::external_body]
pub(crate) fn rng_range(
    rng: &mut bracket_random::prelude::RandomNumberGenerator,
    min: i32,
    max: i32,
) -> (r: i32)
    requires
        min < max,
    ensures
        min <= r < max,
{
    rng.range(min, max)
}

} // verus!
