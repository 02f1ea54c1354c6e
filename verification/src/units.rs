//! Units, their weapons, and what one unit's fire is worth against another.

use crate::error::ConfigError;
use crate::fraction::{Fraction, Ratio};
use vstd::prelude::*;

verus! {

/// Tactical posture, shared by both sides for one engagement.
#[derive(Clone, Copy, Debug, PartialEq, Eq, Hash)]
pub enum Stance {
    /// Defensive: fifteen points off every hit chance.
    Def,
    /// Balanced: hit chances as they are.
    Bal,
    /// Aggressive: fifteen points on every hit chance.
    Agg,
}

/// `value` held between `low` and `high`.
pub open spec fn clamp(value: int, low: int, high: int) -> int {
    if value < low {
        low
    } else if value > high {
        high
    } else {
        value
    }
}

/// The integer nearest to `amount / 10_000`, halves going up.
pub open spec fn round_ten_thousandths(amount: int) -> int {
    (amount + 5_000) / 10_000
}

/// The integer nearest to one and a half times `amount`, halves going up.
pub open spec fn half_again(amount: int) -> int {
    (3 * amount + 1) / 2
}

/// `base` taken `kept` percent and then `boost` percent, in ten-thousandths.
pub open spec fn scaled(base: int, kept: int, boost: int) -> int {
    base * kept * boost
}

/// A bound on the damage of one roll, whatever the units.
pub const MAX_ROLL: i64 = 0x0200_0000_0000_0000;

/// The mathematical content of a [`Weapon`].
pub struct WeaponStats {
    pub hit_chance: int,
    pub rate: int,
    pub damage: int,
    pub pen: int,
}

impl WeaponStats {
    /// What every weapon satisfies: percentages within 0 to 100, a positive
    /// fire interval and a positive base damage.
    pub open spec fn wf(self) -> bool {
        &&& 0 <= self.hit_chance <= 100
        &&& 0 < self.rate <= i32::MAX
        &&& 0 < self.damage <= i32::MAX
        &&& 0 <= self.pen <= 100
    }

    /// The base hit chance as the stance moves it, in percent, never below zero.
    pub open spec fn hit_chance(self, stance: Stance) -> int {
        match stance {
            Stance::Def => if self.hit_chance >= 15 {
                self.hit_chance - 15
            } else {
                0
            },
            Stance::Bal => self.hit_chance,
            Stance::Agg => self.hit_chance + 15,
        }
    }
}

/// A weapon: how often it hits, how often it fires, and how hard.
#[derive(Clone, Copy, Debug, PartialEq, Eq, Hash)]
pub struct Weapon {
    hit_chance: u32,
    rate: i32,
    damage: i32,
    pen: u32,
}

impl View for Weapon {
    type V = WeaponStats;

    closed spec fn view(&self) -> WeaponStats {
        WeaponStats {
            hit_chance: self.hit_chance as int,
            rate: self.rate as int,
            damage: self.damage as int,
            pen: self.pen as int,
        }
    }
}

impl Weapon {
    /// Holds of every value of the type, by every constructor.
    #[verifier::type_invariant]
    pub open spec fn wf(self) -> bool {
        self@.wf()
    }

    /// The first fault of a weapon's description, in the order in which
    /// [`Weapon::new`] looks for them.
    pub open spec fn fault(hit_chance: int, rate: int, damage: int, pen: int) -> Option<
        ConfigError,
    > {
        if hit_chance > 100 {
            Some(ConfigError::HitChanceOutOfRange)
        } else if rate <= 0 {
            Some(ConfigError::FireIntervalNotPositive)
        } else if damage <= 0 {
            Some(ConfigError::DamageNotPositive)
        } else if pen > 100 {
            Some(ConfigError::PenetrationOutOfRange)
        } else {
            None
        }
    }

    /// A weapon with the given base hit chance (percent), fire interval (time
    /// units between shots), base damage and armor penetration (percent). A
    /// percentage above 100, and an interval or a damage that is not
    /// positive, is refused with the first fault found.
    pub fn new(hit_chance: u32, rate: i32, damage: i32, pen: u32) -> (r: Result<
        Weapon,
        ConfigError,
    >)
        ensures
            r is Ok <==> Weapon::fault(hit_chance as int, rate as int, damage as int, pen as int)
                is None,
            r matches Ok(weapon) ==> weapon@ == (WeaponStats {
                hit_chance: hit_chance as int,
                rate: rate as int,
                damage: damage as int,
                pen: pen as int,
            }),
            r matches Err(e) ==> Weapon::fault(
                hit_chance as int,
                rate as int,
                damage as int,
                pen as int,
            ) == Some(e),
    {
        if hit_chance > 100 {
            Err(ConfigError::HitChanceOutOfRange)
        } else if rate <= 0 {
            Err(ConfigError::FireIntervalNotPositive)
        } else if damage <= 0 {
            Err(ConfigError::DamageNotPositive)
        } else if pen > 100 {
            Err(ConfigError::PenetrationOutOfRange)
        } else {
            Ok(Weapon { hit_chance, rate, damage, pen })
        }
    }

    /// The hit chance in percent under `stance`: fifteen points less when
    /// defensive (never below zero), fifteen points more when aggressive.
    pub fn hit_chance(&self, stance: Stance) -> (percent: u32)
        ensures
            percent == self@.hit_chance(stance),
            percent <= 115,
    {
        proof {
            use_type_invariant(self);
        }
        match stance {
            Stance::Def => self.hit_chance.saturating_sub(15),
            Stance::Bal => self.hit_chance,
            Stance::Agg => self.hit_chance + 15,
        }
    }

    /// The base hit chance in percent, before any stance.
    pub fn base_hit_chance(&self) -> (percent: u32)
        ensures
            percent == self@.hit_chance,
            self@.wf(),
    {
        proof {
            use_type_invariant(self);
        }
        self.hit_chance
    }

    /// The fire interval: time units between two shots.
    pub fn rate(&self) -> (interval: i32)
        ensures
            interval == self@.rate,
            self@.wf(),
    {
        proof {
            use_type_invariant(self);
        }
        self.rate
    }

    /// The base damage of one hit.
    pub fn damage(&self) -> (damage: i32)
        ensures
            damage == self@.damage,
            self@.wf(),
    {
        proof {
            use_type_invariant(self);
        }
        self.damage
    }

    /// The weapon's own armor penetration, in percent.
    pub fn pen(&self) -> (pen: u32)
        ensures
            pen == self@.pen,
            self@.wf(),
    {
        proof {
            use_type_invariant(self);
        }
        self.pen
    }
}

/// The mathematical content of a [`DamageRange`]: the closed range `[low, high]`.
pub struct Span {
    pub low: int,
    pub high: int,
}

impl Span {
    /// Whether the range is not empty, holds no negative damage, and stays
    /// within what one roll can be.
    pub open spec fn wf(self) -> bool {
        0 <= self.low <= self.high <= MAX_ROLL
    }

    /// Whether `roll` lies in the range.
    pub open spec fn contains(self, roll: int) -> bool {
        self.low <= roll <= self.high
    }
}

/// The damage that one hit can roll: a closed range of integers.
#[derive(Clone, Copy, Debug, PartialEq, Eq)]
pub struct DamageRange {
    low: i64,
    high: i64,
}

impl View for DamageRange {
    type V = Span;

    closed spec fn view(&self) -> Span {
        Span { low: self.low as int, high: self.high as int }
    }
}

impl DamageRange {
    /// Holds of every value of the type, by every constructor.
    #[verifier::type_invariant]
    pub open spec fn wf(self) -> bool {
        self@.wf()
    }

    /// The least damage of a hit.
    pub fn low(&self) -> (low: i64)
        ensures
            low == self@.low,
            self@.wf(),
    {
        proof {
            use_type_invariant(self);
        }
        self.low
    }

    /// The greatest damage of a hit, before a critical hit doubles it.
    pub fn high(&self) -> (high: i64)
        ensures
            high == self@.high,
            self@.wf(),
    {
        proof {
            use_type_invariant(self);
        }
        self.high
    }
}

/// The mathematical content of a [`Ship`].
pub struct ShipStats {
    pub health: int,
    pub armor: int,
    pub pen: int,
    pub kills: int,
    pub weapon: WeaponStats,
}

impl ShipStats {
    /// What every unit satisfies: a positive health capacity, no negative
    /// count, and a weapon that is one.
    pub open spec fn wf(self) -> bool {
        &&& 0 < self.health <= i32::MAX
        &&& 0 <= self.armor <= u32::MAX
        &&& 0 <= self.pen <= u32::MAX
        &&& 0 <= self.kills <= u32::MAX
        &&& self.weapon.wf()
    }

    /// Effective penetration: the unit's own bonus plus its weapon's.
    pub open spec fn pen(self) -> int {
        self.pen + self.weapon.pen
    }

    /// The share of incoming damage that this unit's armor absorbs when
    /// `attacker` fires on it: the armor left after penetration, in percent,
    /// never below 0 nor above 95.
    pub open spec fn incoming_mitigation(self, attacker: ShipStats) -> Ratio {
        Ratio { numerator: clamp(self.armor - attacker.pen(), 0, 95), denominator: 100 }
    }

    /// The chance that a shot of this unit hits: the weapon's hit chance
    /// under the stance plus three points per kill (thirty at most), the sum
    /// held at 100 percent.
    pub open spec fn outward_hit_chance(self, stance: Stance) -> Ratio {
        Ratio {
            numerator: vstd::math::min(
                self.weapon.hit_chance(stance) + vstd::math::min(3 * self.kills, 30),
                100,
            ),
            denominator: 100,
        }
    }

    /// The chance that a hit of this unit on `target` is critical: the
    /// penetration left over the target's armor, between 10 and 50, in
    /// two-hundredths.
    pub open spec fn outward_crit_chance(self, target: ShipStats) -> Ratio {
        Ratio {
            numerator: clamp(vstd::math::max(self.pen() - target.armor, 0), 10, 50),
            denominator: 200,
        }
    }

    /// The least damage of a hit of this unit on `target`: the base damage,
    /// less the target's mitigation, plus one percent per kill, rounded.
    pub open spec fn damage_floor(self, target: ShipStats) -> int {
        round_ten_thousandths(
            scaled(
                self.weapon.damage,
                100 - target.incoming_mitigation(self).numerator,
                100 + self.kills,
            ),
        )
    }

    /// The damage that a hit of this unit on `target` can roll: from the
    /// floor to one and a half times the floor, rounded.
    pub open spec fn outward_damage(self, target: ShipStats) -> Span {
        Span { low: self.damage_floor(target), high: half_again(self.damage_floor(target)) }
    }
}

/// A combat unit: what it can take, what protects it, and what it fires.
#[derive(Clone, Copy, Debug, PartialEq, Eq)]
pub struct Ship {
    health: i32,
    armor: u32,
    pen: u32,
    kills: u32,
    weapon: Weapon,
}

impl View for Ship {
    type V = ShipStats;

    closed spec fn view(&self) -> ShipStats {
        ShipStats {
            health: self.health as int,
            armor: self.armor as int,
            pen: self.pen as int,
            kills: self.kills as int,
            weapon: self.weapon@,
        }
    }
}

impl Ship {
    /// Holds of every value of the type, by every constructor.
    #[verifier::type_invariant]
    pub open spec fn wf(self) -> bool {
        self@.wf()
    }

    /// A unit with the given health capacity (whole hit points), armor,
    /// penetration bonus, kills to its name, and weapon. A capacity that is
    /// not positive is refused.
    pub fn new(health: i32, armor: u32, pen: u32, kills: u32, weapon: Weapon) -> (r: Result<
        Ship,
        ConfigError,
    >)
        ensures
            r is Ok <==> health > 0,
            r matches Ok(ship) ==> ship@ == (ShipStats {
                health: health as int,
                armor: armor as int,
                pen: pen as int,
                kills: kills as int,
                weapon: weapon@,
            }),
            r matches Err(e) ==> e == ConfigError::HealthNotPositive,
    {
        proof {
            use_type_invariant(&weapon);
        }
        if health <= 0 {
            Err(ConfigError::HealthNotPositive)
        } else {
            Ok(Ship { health, armor, pen, kills, weapon })
        }
    }

    /// Effective penetration: the unit's own bonus plus its weapon's.
    pub fn pen(&self) -> (pen: u64)
        ensures
            pen == self@.pen(),
    {
        (self.pen as u64) + (self.weapon.pen() as u64)
    }

    /// The chance that a shot of this unit hits under `stance`.
    pub fn outward_hit_chance(&self, stance: Stance) -> (chance: Fraction)
        ensures
            chance@ == self@.outward_hit_chance(stance),
    {
        let experience: u32 = if self.kills >= 10 {
            30
        } else {
            self.kills * 3
        };
        let percent: u32 = self.weapon.hit_chance(stance) + experience;
        let held: u32 = if percent > 100 {
            100
        } else {
            percent
        };
        Fraction::from_ratio(held, 100).unwrap()
    }

    /// The chance that a hit of this unit on `target` is critical.
    pub fn outward_crit_chance(&self, target: &Ship) -> (chance: Fraction)
        ensures
            chance@ == self@.outward_crit_chance(target@),
            10 <= chance@.numerator <= 50,
            chance@.denominator == 200,
    {
        let advantage: u64 = self.pen().saturating_sub(target.armor as u64);
        let points: u32 = if advantage < 10 {
            10
        } else if advantage > 50 {
            50
        } else {
            advantage as u32
        };
        Fraction::from_ratio(points, 200).unwrap()
    }

    /// The share of incoming damage that this unit absorbs when `attacker`
    /// fires on it.
    pub fn incoming_mitigation(&self, attacker: &Ship) -> (share: Fraction)
        ensures
            share@ == self@.incoming_mitigation(attacker@),
            share@.numerator <= 95,
            share@.denominator == 100,
    {
        let left: u64 = (self.armor as u64).saturating_sub(attacker.pen());
        let percent: u32 = if left > 95 {
            95
        } else {
            left as u32
        };
        Fraction::from_ratio(percent, 100).unwrap()
    }

    /// The damage that a hit of this unit on `target` can roll.
    pub fn outward_damage(&self, target: &Ship) -> (range: DamageRange)
        ensures
            range@ == self@.outward_damage(target@),
            0 <= range@.low <= range@.high,
    {
        let mitigation: u32 = target.incoming_mitigation(self).numerator();
        let kept: u128 = (100 - mitigation) as u128;
        let boost: u128 = 100 + (self.kills as u128);
        let base: u128 = self.weapon.damage() as u128;
        proof {
            assert(base * kept <= 214_748_364_700) by (nonlinear_arith)
                requires
                    0 <= base <= 2_147_483_647,
                    0 <= kept <= 100,
            ;
            assert((base * kept) * boost <= 214_748_364_700 * 4_294_967_395) by (nonlinear_arith)
                requires
                    0 <= base * kept <= 214_748_364_700,
                    0 <= boost <= 4_294_967_395,
            ;
        }
        let scaled: u128 = base * kept * boost;
        let low: i64 = ((scaled + 5_000) / 10_000) as i64;
        let high: i64 = (3 * low + 1) / 2;
        DamageRange { low, high }
    }

    /// The health capacity, in whole hit points.
    pub fn health(&self) -> (health: i32)
        ensures
            health == self@.health,
            self@.wf(),
    {
        proof {
            use_type_invariant(self);
        }
        self.health
    }

    /// The armor.
    pub fn armor(&self) -> (armor: u32)
        ensures
            armor == self@.armor,
    {
        self.armor
    }

    /// The unit's own penetration bonus, without its weapon's.
    pub fn bonus_pen(&self) -> (pen: u32)
        ensures
            pen == self@.pen,
    {
        self.pen
    }

    /// The kills to the unit's name.
    pub fn kills(&self) -> (kills: u32)
        ensures
            kills == self@.kills,
    {
        self.kills
    }

    /// The weapon that the unit fires.
    pub fn weapon(&self) -> (weapon: Weapon)
        ensures
            weapon@ == self@.weapon,
    {
        self.weapon
    }
}

/// Mitigation is held between nothing and 95 percent: armor that the
/// attacker's penetration covers absorbs nothing, and armor that exceeds it by
/// 95 points or more absorbs 95 percent, never more.
pub proof fn lemma_mitigation_clamp(defender: ShipStats, attacker: ShipStats)
    requires
        defender.wf(),
        attacker.wf(),
    ensures
        defender.incoming_mitigation(attacker).denominator == 100,
        0 <= defender.incoming_mitigation(attacker).numerator <= 95,
        defender.armor <= attacker.pen() ==> defender.incoming_mitigation(attacker).numerator == 0,
        defender.armor >= attacker.pen() + 95 ==> defender.incoming_mitigation(
            attacker,
        ).numerator == 95,
{
}

/// The chance of a critical hit lies between 5 and 25 percent, whatever the
/// armor and the penetration.
pub proof fn lemma_crit_chance_bounds(firer: ShipStats, target: ShipStats)
    ensures
        firer.outward_crit_chance(target).denominator == 200,
        10 <= firer.outward_crit_chance(target).numerator <= 50,
        5 * firer.outward_crit_chance(target).denominator <= 100 * firer.outward_crit_chance(
            target,
        ).numerator,
        100 * firer.outward_crit_chance(target).numerator <= 25 * firer.outward_crit_chance(
            target,
        ).denominator,
{
}

/// The chance to hit is a chance: between nothing and 100 percent.
pub proof fn lemma_hit_chance_bounds(firer: ShipStats, stance: Stance)
    requires
        firer.wf(),
    ensures
        firer.outward_hit_chance(stance).in_unit_interval(),
        firer.outward_hit_chance(stance).denominator == 100,
{
}

/// Both roundings go to the nearest integer, halves going up.
pub proof fn lemma_rounding_is_nearest(amount: int)
    ensures
        10_000 * round_ten_thousandths(amount) - 5_000 <= amount < 10_000 * round_ten_thousandths(
            amount,
        ) + 5_000,
        2 * half_again(amount) - 1 <= 3 * amount < 2 * half_again(amount) + 1,
{
}

/// The damage of a hit is never negative, and its range is never empty: the
/// least damage is the greatest only where both are zero.
pub proof fn lemma_damage_range(firer: ShipStats, target: ShipStats)
    requires
        firer.wf(),
        target.wf(),
    ensures
        0 <= firer.outward_damage(target).low <= firer.outward_damage(target).high,
        firer.outward_damage(target).high <= MAX_ROLL,
        firer.outward_damage(target).low == firer.outward_damage(target).high
            ==> firer.outward_damage(target).low == 0,
{
    let base = firer.weapon.damage;
    let kept = 100 - target.incoming_mitigation(firer).numerator;
    let boost = 100 + firer.kills;
    assert(0 <= base * kept <= 214_748_364_700) by (nonlinear_arith)
        requires
            0 <= base <= 2_147_483_647,
            0 <= kept <= 100,
    ;
    assert(0 <= (base * kept) * boost <= 214_748_364_700 * 4_294_967_395) by (nonlinear_arith)
        requires
            0 <= base * kept <= 214_748_364_700,
            0 <= boost <= 4_294_967_395,
    ;
}

} // verus!
