//! The state of one engagement and the step that one fire event makes.
//!
//! Each side fires at a fixed rate. The clock jumps to whichever side is due
//! next; when both are due at the same time, the second side (the UFO) fires
//! first. The engagement is over once the clock has reached [`ROUND_CAP`] or
//! either side has no health left.

use crate::fraction::{Fraction, Ratio};
use crate::setup::{BattleModel, BattleSetup, SideModel, SideSetup};
use crate::units::MAX_ROLL;
use vstd::prelude::*;

verus! {

/// The time at which an engagement ends if nobody has been eliminated.
pub const ROUND_CAP: i64 = 10_000;

/// One of the two parties.
#[derive(Clone, Copy, Debug, PartialEq, Eq)]
pub enum Side {
    Xcom,
    Ufo,
}

impl Side {
    /// The opponent.
    pub open spec fn other(self) -> Side {
        match self {
            Side::Xcom => Side::Ufo,
            Side::Ufo => Side::Xcom,
        }
    }
}

/// What the dice gave for one fire event.
#[derive(Clone, Copy, Debug, PartialEq, Eq)]
pub enum Shot {
    /// The shot missed: nothing else was drawn.
    Miss,
    /// The shot hit for `roll`, doubled if `crit`.
    Hit { roll: i64, crit: bool },
}

impl Shot {
    /// The health that the shot takes from its target.
    pub open spec fn damage(self) -> int {
        match self {
            Shot::Miss => 0,
            Shot::Hit { roll, crit } => if crit {
                2 * roll
            } else {
                roll as int
            },
        }
    }
}

impl SideModel {
    /// Whether the dice can give `shot` to this side: a miss unless the hit
    /// chance is one, a hit unless it is zero, a roll within the damage
    /// range, and a critical hit or none unless the critical chance forbids it.
    pub open spec fn can_fire(self, shot: Shot) -> bool {
        match shot {
            Shot::Miss => !self.hit_chance.is_one(),
            Shot::Hit { roll, crit } => {
                &&& !self.hit_chance.is_zero()
                &&& self.damage.contains(roll as int)
                &&& crit ==> !self.crit_chance.is_zero()
                &&& !crit ==> !self.crit_chance.is_one()
            },
        }
    }
}

/// The mathematical content of an [`Engagement`].
pub struct State {
    pub xcom_health: int,
    pub ufo_health: int,
    pub xcom_next: int,
    pub ufo_next: int,
    pub time: int,
}

impl State {
    /// The health of `side`. It may be negative after the last hit.
    pub open spec fn health(self, side: Side) -> int {
        match side {
            Side::Xcom => self.xcom_health,
            Side::Ufo => self.ufo_health,
        }
    }

    /// The time at which `side` fires next.
    pub open spec fn next(self, side: Side) -> int {
        match side {
            Side::Xcom => self.xcom_next,
            Side::Ufo => self.ufo_next,
        }
    }

    /// Whether the engagement goes on: the clock is short of the cap and
    /// both sides have health left.
    pub open spec fn active(self) -> bool {
        self.time < ROUND_CAP && self.ufo_health > 0 && self.xcom_health > 0
    }

    /// The side that fires next: the one that is due first, the UFO when
    /// both are due at once.
    pub open spec fn firing(self) -> Side {
        if self.ufo_next <= self.xcom_next {
            Side::Ufo
        } else {
            Side::Xcom
        }
    }

    /// What every state of every engagement satisfies: the clock is not
    /// ahead of a side that is due, no side is due later than one fire
    /// interval from now, and the numbers stay within what the machine holds.
    pub open spec fn wf(self) -> bool {
        &&& 0 <= self.time < ROUND_CAP + i32::MAX
        &&& self.time <= self.xcom_next <= self.time + i32::MAX
        &&& self.time <= self.ufo_next <= self.time + i32::MAX
        &&& -2 * MAX_ROLL < self.xcom_health <= i32::MAX
        &&& -2 * MAX_ROLL < self.ufo_health <= i32::MAX
    }
}

impl BattleModel {
    /// The parameters of `side`.
    pub open spec fn side(self, side: Side) -> SideModel {
        match side {
            Side::Xcom => self.xcom,
            Side::Ufo => self.ufo,
        }
    }

    /// The state in which an engagement opens: each side holds its fraction
    /// of its own capacity (truncated to whole hit points), the clock is at
    /// zero, and each side's first shot is one fire interval away.
    pub open spec fn opening(self, xcom_fraction: Ratio, ufo_fraction: Ratio) -> State {
        State {
            xcom_health: xcom_fraction.part_of(self.xcom.start_health),
            ufo_health: ufo_fraction.part_of(self.ufo.start_health),
            xcom_next: self.xcom.fire_rate,
            ufo_next: self.ufo.fire_rate,
            time: 0,
        }
    }

    /// Whether the dice can give `shot` to the side that fires next in `state`.
    pub open spec fn admits(self, state: State, shot: Shot) -> bool {
        self.side(state.firing()).can_fire(shot)
    }

    /// The state after the fire event `shot`: the clock moves to the time of
    /// the side that fires, its target loses the shot's damage, and the side
    /// is due again one fire interval later. A state that is over stays as it is.
    pub open spec fn fired(self, state: State, shot: Shot) -> State {
        if !state.active() {
            state
        } else {
            match state.firing() {
                Side::Ufo => State {
                    time: state.ufo_next,
                    ufo_next: state.ufo_next + self.ufo.fire_rate,
                    xcom_health: state.xcom_health - shot.damage(),
                    ..state
                },
                Side::Xcom => State {
                    time: state.xcom_next,
                    xcom_next: state.xcom_next + self.xcom.fire_rate,
                    ufo_health: state.ufo_health - shot.damage(),
                    ..state
                },
            }
        }
    }

    /// The state after the fire events `shots`, in their order, from `start`.
    pub open spec fn replay(self, start: State, shots: Seq<Shot>) -> State
        decreases shots.len(),
    {
        if shots.len() == 0 {
            start
        } else {
            self.fired(self.replay(start, shots.drop_last()), shots.last())
        }
    }

    /// Whether `shots` can be the record of an engagement from `start`: each
    /// shot is fired while the engagement goes on, and is one that the dice
    /// can give to the side that fires it.
    pub open spec fn is_trace(self, start: State, shots: Seq<Shot>) -> bool
        decreases shots.len(),
    {
        shots.len() > 0 ==> {
            let before = self.replay(start, shots.drop_last());
            &&& self.is_trace(start, shots.drop_last())
            &&& before.active()
            &&& self.admits(before, shots.last())
        }
    }

    /// Whether `shots` is the record of a whole engagement from `start`: a
    /// trace after which the engagement is over.
    pub open spec fn plays_out(self, start: State, shots: Seq<Shot>) -> bool {
        self.is_trace(start, shots) && !self.replay(start, shots).active()
    }

    /// The health that `side` has left in `state`, as a fraction of its own
    /// capacity: negative health counts as none.
    pub open spec fn standing(self, state: State, side: Side) -> Ratio {
        Ratio {
            numerator: crate::units::clamp(state.health(side), 0, self.side(side).start_health),
            denominator: self.side(side).start_health,
        }
    }

    /// The most fire events that an engagement can hold: for each side its
    /// shots before the cap, and the one shot that reaches the cap.
    pub open spec fn shot_limit(self) -> int {
        (ROUND_CAP - 1) / self.xcom.fire_rate + (ROUND_CAP - 1) / self.ufo.fire_rate + 1
    }
}

/// A fire event leaves a state as every state is.
pub proof fn lemma_fired_wf(setup: BattleModel, state: State, shot: Shot)
    requires
        setup.wf(),
        state.wf(),
        state.active() ==> setup.admits(state, shot),
    ensures
        setup.fired(state, shot).wf(),
        state.active() ==> 0 <= shot.damage() <= 2 * MAX_ROLL,
{
}

/// The state of an engagement: the health of both sides, the time at which
/// each fires next, and the clock.
#[derive(Clone, Copy, Debug, PartialEq, Eq)]
pub struct Engagement {
    xcom_health: i64,
    ufo_health: i64,
    xcom_next: i64,
    ufo_next: i64,
    time: i64,
}

impl View for Engagement {
    type V = State;

    closed spec fn view(&self) -> State {
        State {
            xcom_health: self.xcom_health as int,
            ufo_health: self.ufo_health as int,
            xcom_next: self.xcom_next as int,
            ufo_next: self.ufo_next as int,
            time: self.time as int,
        }
    }
}

impl Engagement {
    /// Holds of every value of the type, by every constructor.
    #[verifier::type_invariant]
    pub open spec fn wf(self) -> bool {
        self@.wf()
    }

    /// The first side's health. It may be negative after the last hit.
    pub fn xcom_health(&self) -> (health: i64)
        ensures
            health == self@.xcom_health,
            self@.wf(),
    {
        proof {
            use_type_invariant(self);
        }
        self.xcom_health
    }

    /// The second side's health. It may be negative after the last hit.
    pub fn ufo_health(&self) -> (health: i64)
        ensures
            health == self@.ufo_health,
            self@.wf(),
    {
        proof {
            use_type_invariant(self);
        }
        self.ufo_health
    }

    /// The time at which the first side fires next.
    pub fn xcom_next(&self) -> (due: i64)
        ensures
            due == self@.xcom_next,
            self@.wf(),
    {
        proof {
            use_type_invariant(self);
        }
        self.xcom_next
    }

    /// The time at which the second side fires next.
    pub fn ufo_next(&self) -> (due: i64)
        ensures
            due == self@.ufo_next,
            self@.wf(),
    {
        proof {
            use_type_invariant(self);
        }
        self.ufo_next
    }

    /// The clock: the time of the last fire event, zero before the first.
    pub fn time(&self) -> (time: i64)
        ensures
            time == self@.time,
            self@.wf(),
    {
        proof {
            use_type_invariant(self);
        }
        self.time
    }

    /// Whether the engagement goes on.
    pub fn is_active(&self) -> (active: bool)
        ensures
            active == self@.active(),
            self@.wf(),
    {
        proof {
            use_type_invariant(self);
        }
        self.time < ROUND_CAP && self.ufo_health > 0 && self.xcom_health > 0
    }

    /// The side that fires next.
    pub fn firing(&self) -> (side: Side)
        ensures
            side == self@.firing(),
            self@.wf(),
    {
        proof {
            use_type_invariant(self);
        }
        if self.ufo_next <= self.xcom_next {
            Side::Ufo
        } else {
            Side::Xcom
        }
    }
}

impl BattleSetup {
    /// The parameters of `side`.
    pub fn side(&self, side: Side) -> (parameters: SideSetup)
        ensures
            parameters@ == self@.side(side),
            self@.wf(),
    {
        match side {
            Side::Xcom => self.xcom(),
            Side::Ufo => self.ufo(),
        }
    }

    /// The state in which an engagement opens when each side holds the given
    /// fraction of its own capacity.
    pub fn begin(&self, xcom_fraction: Fraction, ufo_fraction: Fraction) -> (state: Engagement)
        ensures
            state@ == self@.opening(xcom_fraction@, ufo_fraction@),
    {
        let xcom = self.xcom();
        let ufo = self.ufo();
        let xcom_health = xcom_fraction.part_of(xcom.start_health() as u32);
        let ufo_health = ufo_fraction.part_of(ufo.start_health() as u32);
        Engagement {
            xcom_health: xcom_health as i64,
            ufo_health: ufo_health as i64,
            xcom_next: xcom.fire_rate() as i64,
            ufo_next: ufo.fire_rate() as i64,
            time: 0,
        }
    }

    /// Whether the dice can give `shot` to the side that fires next in `state`.
    pub fn admits(&self, state: &Engagement, shot: &Shot) -> (ok: bool)
        ensures
            ok == self@.admits(state@, *shot),
    {
        let side = self.side(state.firing());
        let hit = side.hit_chance();
        match *shot {
            Shot::Miss => hit.numerator() != hit.denominator(),
            Shot::Hit { roll, crit } => {
                let crit_chance = side.crit_chance();
                let damage = side.damage();
                hit.numerator() != 0 && damage.low() <= roll && roll <= damage.high() && (!crit
                    || crit_chance.numerator() != 0) && (crit || crit_chance.numerator()
                    != crit_chance.denominator())
            },
        }
    }

    /// The state after the fire event `shot`. A state that is over stays as it is.
    pub fn advance(&self, state: Engagement, shot: Shot) -> (next: Engagement)
        requires
            state@.active() ==> self@.admits(state@, shot),
        ensures
            next@ == self@.fired(state@, shot),
    {
        if !state.is_active() {
            return state;
        }
        let side = self.side(state.firing());
        let damage = side.damage();
        proof {
            use_type_invariant(&state);
            lemma_fired_wf(self@, state@, shot);
        }
        let taken: i64 = match shot {
            Shot::Miss => 0,
            Shot::Hit { roll, crit } => if crit {
                2 * roll
            } else {
                roll
            },
        };
        match state.firing() {
            Side::Ufo => Engagement {
                xcom_health: state.xcom_health - taken,
                ufo_health: state.ufo_health,
                xcom_next: state.xcom_next,
                ufo_next: state.ufo_next + (side.fire_rate() as i64),
                time: state.ufo_next,
            },
            Side::Xcom => Engagement {
                xcom_health: state.xcom_health,
                ufo_health: state.ufo_health - taken,
                xcom_next: state.xcom_next + (side.fire_rate() as i64),
                ufo_next: state.ufo_next,
                time: state.xcom_next,
            },
        }
    }

    /// The health that `side` has left in `state`, as a fraction of its own
    /// capacity.
    pub fn standing(&self, state: &Engagement, side: Side) -> (left: Fraction)
        ensures
            left@ == self@.standing(state@, side),
    {
        let capacity: i32 = self.side(side).start_health();
        let health: i64 = match side {
            Side::Xcom => state.xcom_health(),
            Side::Ufo => state.ufo_health(),
        };
        let held: u32 = if health < 0 {
            0
        } else if health > capacity as i64 {
            capacity as u32
        } else {
            health as u32
        };
        Fraction::from_ratio(held, capacity as u32).unwrap()
    }
}

} // verus!
