//! The seeded pseudorandom source behind obstacle placement.

use bracket_lib::random::RandomNumberGenerator;
use vstd::prelude::*;

verus! {

/// The number that a generator freshly seeded with `seed` yields when it is
/// first asked for a value of the half-open range `low..high`.
pub uninterp spec fn seeded_range(seed: u64, low: i32, high: i32) -> i32;

/// Seeds a generator with `RandomNumberGenerator::seeded` and draws once from
/// it with `RandomNumberGenerator::range`.
///
/// Trusted: the generator is a deterministic function of its seed, so the draw
/// is the named value `seeded_range`, and `range` includes its lower bound and
/// excludes its upper bound. `range` panics on an empty range, which the
/// precondition rules out.
#[verifier::external_body]
pub(crate) fn draw_seeded(seed: u64, low: i32, high: i32) -> (value: i32)
    requires
        low < high,
    ensures
        value == seeded_range(seed, low, high),
        low <= value < high,
{
    RandomNumberGenerator::seeded(seed).range(low, high)
}

} // verus!
