//! Exact ratios in the closed unit interval.
//!
//! Probabilities, mitigation and health fractions are all numbers between
//! zero and one. They are kept as a pair of integers, so that every rule of
//! the engine is stated and computed exactly.

use crate::error::ConfigError;
use vstd::prelude::*;

verus! {

/// The mathematical content of a [`Fraction`]: the number `numerator / denominator`.
pub struct Ratio {
    pub numerator: int,
    pub denominator: int,
}

impl Ratio {
    /// Whether the ratio denotes a number in `[0, 1]`.
    pub open spec fn in_unit_interval(self) -> bool {
        0 <= self.numerator <= self.denominator && 0 < self.denominator
    }

    /// Whether the ratio denotes zero: as a chance, what never happens.
    pub open spec fn is_zero(self) -> bool {
        self.numerator == 0
    }

    /// Whether the ratio denotes one: as a chance, what always happens.
    pub open spec fn is_one(self) -> bool {
        self.numerator == self.denominator
    }

    /// Whether two ratios denote the same number (by cross-multiplication).
    pub open spec fn same_value(self, other: Ratio) -> bool {
        self.numerator * other.denominator == other.numerator * self.denominator
    }

    /// The whole part of `amount` times this ratio.
    pub open spec fn part_of(self, amount: int) -> int {
        (amount * self.numerator) / self.denominator
    }
}

/// A ratio of two integers that lies in `[0, 1]`.
#[derive(Clone, Copy, Debug, PartialEq, Eq)]
pub struct Fraction {
    numerator: u32,
    denominator: u32,
}

impl View for Fraction {
    type V = Ratio;

    closed spec fn view(&self) -> Ratio {
        Ratio { numerator: self.numerator as int, denominator: self.denominator as int }
    }
}

impl Fraction {
    /// Every fraction lies in `[0, 1]`, with a denominator that fits in `u32`.
    #[verifier::type_invariant]
    pub open spec fn wf(self) -> bool {
        self@.in_unit_interval() && self@.denominator <= u32::MAX
    }

    /// Builds `numerator / denominator`, refusing what lies outside `[0, 1]`
    /// and what has no value.
    pub fn from_ratio(numerator: u32, denominator: u32) -> (r: Result<Fraction, ConfigError>)
        ensures
            r is Ok <==> numerator <= denominator && denominator != 0,
            r matches Ok(f) ==> f@ == (Ratio {
                numerator: numerator as int,
                denominator: denominator as int,
            }),
            r matches Err(e) ==> e == ConfigError::InvalidRatio,
    {
        if numerator > denominator || denominator == 0 {
            Err(ConfigError::InvalidRatio)
        } else {
            Ok(Fraction { numerator, denominator })
        }
    }

    /// The numerator, never above the denominator.
    pub fn numerator(&self) -> (n: u32)
        ensures
            n == self@.numerator,
            self@.in_unit_interval(),
    {
        proof {
            use_type_invariant(self);
        }
        self.numerator
    }

    /// The denominator, never zero.
    pub fn denominator(&self) -> (d: u32)
        ensures
            d == self@.denominator,
            self@.in_unit_interval(),
    {
        proof {
            use_type_invariant(self);
        }
        self.denominator
    }

    /// The whole part of `amount` times this fraction: the product is
    /// truncated, never rounded up.
    pub fn part_of(&self, amount: u32) -> (part: u32)
        ensures
            part == self@.part_of(amount as int),
            part <= amount,
    {
        proof {
            use_type_invariant(self);
            lemma_part_of_bounds(self@, amount as int);
            assert(amount * self.numerator <= 0xffff_ffff * 0xffff_ffff) by (nonlinear_arith)
                requires
                    0 <= amount <= 0xffff_ffff,
                    0 <= self.numerator <= 0xffff_ffff,
            ;
        }
        let product: u64 = (amount as u64) * (self.numerator as u64);
        (product / (self.denominator as u64)) as u32
    }
}

/// A part of a non-negative amount is non-negative and no larger than the amount.
pub proof fn lemma_part_of_bounds(ratio: Ratio, amount: int)
    requires
        ratio.in_unit_interval(),
        0 <= amount,
    ensures
        0 <= ratio.part_of(amount) <= amount,
        amount * ratio.numerator <= amount * ratio.denominator,
{
    let n = ratio.numerator;
    let d = ratio.denominator;
    assert(0 <= amount * n <= amount * d) by (nonlinear_arith)
        requires
            0 <= n <= d,
            0 <= amount,
    ;
    assert(0 <= (amount * n) / d <= amount) by (nonlinear_arith)
        requires
            0 <= amount * n <= amount * d,
            0 < d,
    ;
}

/// A fraction that is a whole number of `amount`-ths survives a round trip
/// through [`Ratio::part_of`]: the part, taken over `amount`, is the same number.
pub proof fn lemma_part_of_exact(ratio: Ratio, amount: int)
    requires
        ratio.in_unit_interval(),
        0 < amount,
        (amount * ratio.numerator) % ratio.denominator == 0,
    ensures
        (Ratio { numerator: ratio.part_of(amount), denominator: amount }).same_value(ratio),
{
    let n = ratio.numerator;
    let d = ratio.denominator;
    let p = amount * n;
    assert(p == d * (p / d) + p % d) by (nonlinear_arith)
        requires
            0 < d,
    ;
    assert((p / d) * d == n * amount) by (nonlinear_arith)
        requires
            p == d * (p / d),
            p == amount * n,
    ;
}

} // verus!
