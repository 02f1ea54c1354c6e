//! Reasons for which a description of a unit or a ratio is refused.

use vstd::prelude::*;

verus! {

/// Why a value was refused at construction.
#[derive(Clone, Copy, Debug, PartialEq, Eq)]
pub enum ConfigError {
    /// A ratio with a zero denominator, or with a numerator above its denominator.
    InvalidRatio,
    /// A weapon whose base hit chance is above 100 percent.
    HitChanceOutOfRange,
    /// A weapon whose fire interval is zero or negative.
    FireIntervalNotPositive,
    /// A weapon whose base damage is zero or negative.
    DamageNotPositive,
    /// A weapon whose armor penetration is above 100 percent.
    PenetrationOutOfRange,
    /// A unit whose health capacity is zero or negative.
    HealthNotPositive,
}

} // verus!
