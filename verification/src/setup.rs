//! The parameters of one engagement, derived from two units and a stance.

use crate::fraction::{Fraction, Ratio};
use crate::units::{DamageRange, Ship, ShipStats, Span, Stance};
use vstd::prelude::*;

verus! {

/// The mathematical content of a [`SideSetup`].
pub struct SideModel {
    pub start_health: int,
    pub damage: Span,
    pub hit_chance: Ratio,
    pub crit_chance: Ratio,
    pub fire_rate: int,
}

impl SideModel {
    /// What the parameters of every side satisfy.
    pub open spec fn wf(self) -> bool {
        &&& 0 < self.start_health <= i32::MAX
        &&& self.damage.wf()
        &&& self.hit_chance.in_unit_interval()
        &&& self.crit_chance.in_unit_interval()
        &&& 0 < self.fire_rate <= i32::MAX
    }

    /// The parameters of `firer` when it engages `target` under `stance`.
    pub open spec fn derive(firer: ShipStats, target: ShipStats, stance: Stance) -> SideModel {
        SideModel {
            start_health: firer.health,
            damage: firer.outward_damage(target),
            hit_chance: firer.outward_hit_chance(stance),
            crit_chance: firer.outward_crit_chance(target),
            fire_rate: firer.weapon.rate,
        }
    }
}

/// What one side brings to an engagement: its health capacity, the damage
/// and the chances of its fire, and how often it fires.
#[derive(Clone, Copy, Debug, PartialEq, Eq)]
pub struct SideSetup {
    start_health: i32,
    damage: DamageRange,
    hit_chance: Fraction,
    crit_chance: Fraction,
    fire_rate: i32,
}

impl View for SideSetup {
    type V = SideModel;

    closed spec fn view(&self) -> SideModel {
        SideModel {
            start_health: self.start_health as int,
            damage: self.damage@,
            hit_chance: self.hit_chance@,
            crit_chance: self.crit_chance@,
            fire_rate: self.fire_rate as int,
        }
    }
}

impl SideSetup {
    /// Holds of every value of the type, by every constructor.
    #[verifier::type_invariant]
    pub open spec fn wf(self) -> bool {
        self@.wf()
    }

    /// The parameters of `firer` when it engages `target` under `stance`.
    pub fn derive(firer: &Ship, target: &Ship, stance: Stance) -> (side: SideSetup)
        ensures
            side@ == SideModel::derive(firer@, target@, stance),
    {
        let start_health = firer.health();
        let damage = firer.outward_damage(target);
        let hit_chance = firer.outward_hit_chance(stance);
        let crit_chance = firer.outward_crit_chance(target);
        let fire_rate = firer.weapon().rate();
        proof {
            use_type_invariant(&damage);
            use_type_invariant(&hit_chance);
            use_type_invariant(&crit_chance);
        }
        SideSetup { start_health, damage, hit_chance, crit_chance, fire_rate }
    }

    /// The health capacity, in whole hit points.
    pub fn start_health(&self) -> (health: i32)
        ensures
            health == self@.start_health,
            self@.wf(),
    {
        proof {
            use_type_invariant(self);
        }
        self.start_health
    }

    /// The damage that one hit can roll.
    pub fn damage(&self) -> (damage: DamageRange)
        ensures
            damage@ == self@.damage,
            self@.wf(),
    {
        proof {
            use_type_invariant(self);
        }
        self.damage
    }

    /// The chance that a shot hits.
    pub fn hit_chance(&self) -> (chance: Fraction)
        ensures
            chance@ == self@.hit_chance,
            self@.wf(),
    {
        proof {
            use_type_invariant(self);
        }
        self.hit_chance
    }

    /// The chance that a hit is critical.
    pub fn crit_chance(&self) -> (chance: Fraction)
        ensures
            chance@ == self@.crit_chance,
            self@.wf(),
    {
        proof {
            use_type_invariant(self);
        }
        self.crit_chance
    }

    /// The fire interval: time units between two shots.
    pub fn fire_rate(&self) -> (interval: i32)
        ensures
            interval == self@.fire_rate,
            self@.wf(),
    {
        proof {
            use_type_invariant(self);
        }
        self.fire_rate
    }
}

/// The mathematical content of a [`BattleSetup`].
pub struct BattleModel {
    pub xcom: SideModel,
    pub ufo: SideModel,
}

impl BattleModel {
    /// What the parameters of every engagement satisfy.
    pub open spec fn wf(self) -> bool {
        self.xcom.wf() && self.ufo.wf()
    }

    /// The parameters of the engagement of `xcom` and `ufo` under `stance`:
    /// each side derived against the other.
    pub open spec fn calculate(xcom: ShipStats, ufo: ShipStats, stance: Stance) -> BattleModel {
        BattleModel {
            xcom: SideModel::derive(xcom, ufo, stance),
            ufo: SideModel::derive(ufo, xcom, stance),
        }
    }
}

/// The parameters of one engagement. They are derived once and only read
/// afterwards.
#[derive(Clone, Copy, Debug, PartialEq, Eq)]
pub struct BattleSetup {
    xcom: SideSetup,
    ufo: SideSetup,
}

impl View for BattleSetup {
    type V = BattleModel;

    closed spec fn view(&self) -> BattleModel {
        BattleModel { xcom: self.xcom@, ufo: self.ufo@ }
    }
}

impl BattleSetup {
    /// Holds of every value of the type, by every constructor.
    #[verifier::type_invariant]
    pub open spec fn wf(self) -> bool {
        self@.wf()
    }

    /// The parameters of the engagement of `xcom` and `ufo` under `stance`.
    pub fn calculate(xcom: Ship, ufo: Ship, stance: Stance) -> (setup: BattleSetup)
        ensures
            setup@ == BattleModel::calculate(xcom@, ufo@, stance),
            setup@.wf(),
    {
        let xcom_side = SideSetup::derive(&xcom, &ufo, stance);
        let ufo_side = SideSetup::derive(&ufo, &xcom, stance);
        proof {
            use_type_invariant(&xcom_side);
            use_type_invariant(&ufo_side);
        }
        BattleSetup { xcom: xcom_side, ufo: ufo_side }
    }

    /// The first side's parameters.
    pub fn xcom(&self) -> (side: SideSetup)
        ensures
            side@ == self@.xcom,
            self@.wf(),
    {
        proof {
            use_type_invariant(self);
        }
        self.xcom
    }

    /// The second side's parameters.
    pub fn ufo(&self) -> (side: SideSetup)
        ensures
            side@ == self@.ufo,
            self@.wf(),
    {
        proof {
            use_type_invariant(self);
        }
        self.ufo
    }
}

} // verus!
