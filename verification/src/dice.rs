//! The random draws of an engagement, taken from a seeded generator.

use crate::engagement::Shot;
use crate::setup::SideSetup;
use rand::distributions::Uniform;
use rand::rngs::SmallRng;
use rand::Rng;
use vstd::prelude::*;

verus! {

/// `rand::rngs::SmallRng`, the seeded generator. It is carried to the draws
/// and never looked into.
#[verifier::external_type_specification]
#[verifier::external_body]
pub struct ExSmallRng(SmallRng);

/// Calls `Rng::gen_ratio` on the generator.
///
/// The result is `true` with probability `numerator / denominator`; the
/// contract keeps the two outcomes that are certain: a zero numerator never
/// gives `true`, and a numerator equal to the denominator always does.
#[verifier::external_body]
pub(crate) fn draw_ratio(rng: &mut SmallRng, numerator: u32, denominator: u32) -> (outcome: bool)
    requires
        0 < denominator,
        numerator <= denominator,
    ensures
        numerator == 0 ==> !outcome,
        numerator == denominator ==> outcome,
{
    rng.gen_ratio(numerator, denominator)
}

/// Samples `Uniform::new_inclusive(low, high)` on the generator.
///
/// The result lies in the closed range `[low, high]`.
#[verifier::external_body]
pub(crate) fn draw_between(rng: &mut SmallRng, low: i64, high: i64) -> (roll: i64)
    requires
        low <= high,
    ensures
        low <= roll <= high,
{
    rng.sample(Uniform::new_inclusive(low, high))
}

/// Draws one fire event for `side`: first whether the shot hits; only on a
/// hit, the damage and then whether the hit is critical.
pub fn draw_shot(rng: &mut SmallRng, side: &SideSetup) -> (shot: Shot)
    ensures
        side@.can_fire(shot),
{
    let hit_chance = side.hit_chance();
    if draw_ratio(rng, hit_chance.numerator(), hit_chance.denominator()) {
        let damage = side.damage();
        let roll = draw_between(rng, damage.low(), damage.high());
        let crit_chance = side.crit_chance();
        let crit = draw_ratio(rng, crit_chance.numerator(), crit_chance.denominator());
        Shot::Hit { roll, crit }
    } else {
        Shot::Miss
    }
}

} // verus!
