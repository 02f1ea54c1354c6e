//! What holds of every engagement, whatever the dice give.

use crate::engagement::{lemma_fired_wf, Shot, Side, State, ROUND_CAP};
use crate::fraction::{lemma_part_of_bounds, lemma_part_of_exact, Ratio};
use crate::setup::BattleModel;
use vstd::arithmetic::div_mod::{
    lemma_basic_div, lemma_div_by_self, lemma_div_is_ordered, lemma_div_plus_one,
    lemma_div_pos_is_pos, lemma_fundamental_div_mod, lemma_fundamental_div_mod_converse,
    lemma_mod_add_multiples_vanish, lemma_mod_self_0,
};
use vstd::prelude::*;

verus! {

impl BattleModel {
    /// Whether `state` keeps the fire schedule after `fired` events: each
    /// side is due at a multiple of its fire interval, no later than one
    /// interval from the clock, and the multiples count the events.
    pub open spec fn on_schedule(self, state: State, fired: int) -> bool {
        &&& state.wf()
        &&& state.xcom_next % self.xcom.fire_rate == 0
        &&& state.ufo_next % self.ufo.fire_rate == 0
        &&& state.time <= state.xcom_next <= state.time + self.xcom.fire_rate
        &&& state.time <= state.ufo_next <= state.time + self.ufo.fire_rate
        &&& fired == state.xcom_next / self.xcom.fire_rate + state.ufo_next / self.ufo.fire_rate
            - 2
    }
}

/// An engagement opens on schedule, with no side above its capacity.
pub proof fn lemma_opening(setup: BattleModel, xcom_fraction: Ratio, ufo_fraction: Ratio)
    requires
        setup.wf(),
        xcom_fraction.in_unit_interval(),
        ufo_fraction.in_unit_interval(),
    ensures
        setup.on_schedule(setup.opening(xcom_fraction, ufo_fraction), 0),
        0 <= setup.opening(xcom_fraction, ufo_fraction).xcom_health <= setup.xcom.start_health,
        0 <= setup.opening(xcom_fraction, ufo_fraction).ufo_health <= setup.ufo.start_health,
{
    lemma_part_of_bounds(xcom_fraction, setup.xcom.start_health);
    lemma_part_of_bounds(ufo_fraction, setup.ufo.start_health);
    lemma_mod_self_0(setup.xcom.fire_rate);
    lemma_mod_self_0(setup.ufo.fire_rate);
    lemma_div_by_self(setup.xcom.fire_rate);
    lemma_div_by_self(setup.ufo.fire_rate);
}

/// A fire event keeps the schedule, counts as one, and adds no health.
pub proof fn lemma_fired_on_schedule(setup: BattleModel, state: State, shot: Shot, fired: int)
    requires
        setup.wf(),
        setup.on_schedule(state, fired),
        state.active(),
        setup.admits(state, shot),
    ensures
        setup.on_schedule(setup.fired(state, shot), fired + 1),
        setup.fired(state, shot).xcom_health <= state.xcom_health,
        setup.fired(state, shot).ufo_health <= state.ufo_health,
{
    lemma_fired_wf(setup, state, shot);
    lemma_mod_add_multiples_vanish(state.xcom_next, setup.xcom.fire_rate);
    lemma_mod_add_multiples_vanish(state.ufo_next, setup.ufo.fire_rate);
    lemma_div_plus_one(state.xcom_next, setup.xcom.fire_rate);
    lemma_div_plus_one(state.ufo_next, setup.ufo.fire_rate);
}

/// Every state of an engagement keeps the schedule, and no side ever holds
/// more health than it opened with.
pub proof fn lemma_trace_on_schedule(
    setup: BattleModel,
    xcom_fraction: Ratio,
    ufo_fraction: Ratio,
    shots: Seq<Shot>,
)
    requires
        setup.wf(),
        xcom_fraction.in_unit_interval(),
        ufo_fraction.in_unit_interval(),
        setup.is_trace(setup.opening(xcom_fraction, ufo_fraction), shots),
    ensures
        setup.on_schedule(
            setup.replay(setup.opening(xcom_fraction, ufo_fraction), shots),
            shots.len() as int,
        ),
        setup.replay(setup.opening(xcom_fraction, ufo_fraction), shots).xcom_health
            <= setup.opening(xcom_fraction, ufo_fraction).xcom_health,
        setup.replay(setup.opening(xcom_fraction, ufo_fraction), shots).ufo_health
            <= setup.opening(xcom_fraction, ufo_fraction).ufo_health,
    decreases shots.len(),
{
    let start = setup.opening(xcom_fraction, ufo_fraction);
    if shots.len() == 0 {
        lemma_opening(setup, xcom_fraction, ufo_fraction);
    } else {
        lemma_trace_on_schedule(setup, xcom_fraction, ufo_fraction, shots.drop_last());
        lemma_fired_on_schedule(
            setup,
            setup.replay(start, shots.drop_last()),
            shots.last(),
            shots.len() - 1,
        );
    }
}

/// An engagement holds no more fire events than its shot limit: each side
/// fires only while the clock is short of the cap, but for the one shot that
/// carries the clock to the cap or beyond.
pub proof fn lemma_shot_limit(
    setup: BattleModel,
    xcom_fraction: Ratio,
    ufo_fraction: Ratio,
    shots: Seq<Shot>,
)
    requires
        setup.wf(),
        xcom_fraction.in_unit_interval(),
        ufo_fraction.in_unit_interval(),
        setup.is_trace(setup.opening(xcom_fraction, ufo_fraction), shots),
    ensures
        shots.len() <= setup.shot_limit(),
{
    let xcom_rate = setup.xcom.fire_rate;
    let ufo_rate = setup.ufo.fire_rate;
    lemma_div_pos_is_pos(ROUND_CAP - 1, xcom_rate);
    lemma_div_pos_is_pos(ROUND_CAP - 1, ufo_rate);
    if shots.len() > 0 {
        let start = setup.opening(xcom_fraction, ufo_fraction);
        let before = setup.replay(start, shots.drop_last());
        lemma_trace_on_schedule(setup, xcom_fraction, ufo_fraction, shots.drop_last());
        lemma_div_plus_one(before.xcom_next - xcom_rate, xcom_rate);
        lemma_div_plus_one(before.ufo_next - ufo_rate, ufo_rate);
        lemma_div_is_ordered(before.xcom_next - xcom_rate, ROUND_CAP - 1, xcom_rate);
        lemma_div_is_ordered(before.ufo_next - ufo_rate, ROUND_CAP - 1, ufo_rate);
    }
}

/// Where neither side can hit, an engagement takes no health from anyone.
pub proof fn lemma_no_damage_conserves(setup: BattleModel, start: State, shots: Seq<Shot>)
    requires
        setup.xcom.hit_chance.is_zero(),
        setup.ufo.hit_chance.is_zero(),
        setup.is_trace(start, shots),
    ensures
        setup.replay(start, shots).xcom_health == start.xcom_health,
        setup.replay(start, shots).ufo_health == start.ufo_health,
    decreases shots.len(),
{
    if shots.len() > 0 {
        lemma_no_damage_conserves(setup, start, shots.drop_last());
    }
}

/// An engagement that is over when it opens holds no fire event.
pub proof fn lemma_over_at_opening(setup: BattleModel, start: State, shots: Seq<Shot>)
    requires
        !start.active(),
        setup.is_trace(start, shots),
    ensures
        shots.len() == 0,
    decreases shots.len(),
{
    if shots.len() > 0 {
        lemma_over_at_opening(setup, start, shots.drop_last());
    }
}

/// Every beginning of a trace is a trace, and one after which the
/// engagement still goes on if shots follow.
pub proof fn lemma_trace_prefix(setup: BattleModel, start: State, shots: Seq<Shot>, taken: int)
    requires
        setup.is_trace(start, shots),
        0 <= taken <= shots.len(),
    ensures
        setup.is_trace(start, shots.take(taken)),
        taken < shots.len() ==> setup.replay(start, shots.take(taken)).active(),
    decreases shots.len(),
{
    if taken == shots.len() {
        assert(shots.take(taken) =~= shots);
    } else {
        assert(shots.drop_last().take(taken) =~= shots.take(taken));
        lemma_trace_prefix(setup, start, shots.drop_last(), taken);
        if taken == shots.len() - 1 {
            assert(shots.take(taken) =~= shots.drop_last());
        }
    }
}

/// The draws decide the engagement: of two whole engagements from one
/// state, fed from one stream of draws, neither stops before the other, so
/// both make the same shots and end in the same state.
pub proof fn lemma_draws_decide(
    setup: BattleModel,
    start: State,
    shots: Seq<Shot>,
    longer: Seq<Shot>,
)
    requires
        setup.plays_out(start, shots),
        setup.plays_out(start, longer),
        shots.is_prefix_of(longer),
    ensures
        shots == longer,
        setup.replay(start, shots) == setup.replay(start, longer),
{
    assert(longer.take(shots.len() as int) =~= shots);
    lemma_trace_prefix(setup, start, longer, shots.len() as int);
    assert(shots =~= longer);
}

impl BattleModel {
    /// Whether `attacker` is sure to eliminate its opponent with its first
    /// shot, from `start`: it cannot miss, its least damage is no less than
    /// the health of its opponent, the shot falls before the cap, both sides
    /// have health left, and the opponent either cannot hit or fires later.
    pub open spec fn overwhelms(self, attacker: Side, start: State) -> bool {
        &&& self.side(attacker).hit_chance.is_one()
        &&& self.side(attacker).damage.low >= start.health(attacker.other())
        &&& start.next(attacker) < ROUND_CAP
        &&& start.xcom_health > 0
        &&& start.ufo_health > 0
        &&& self.side(attacker.other()).hit_chance.is_zero() || start.firing() == attacker
    }

    /// What holds of every state of an engagement in which `attacker`
    /// overwhelms: either it has not fired yet and nothing is lost, or its
    /// first shot has just eliminated the opponent.
    pub open spec fn before_or_after_strike(self, attacker: Side, start: State, state: State) -> bool {
        ||| {
            &&& state.next(attacker) == start.next(attacker)
            &&& state.xcom_health == start.xcom_health
            &&& state.ufo_health == start.ufo_health
            &&& state.time <= start.next(attacker)
            &&& state.time <= state.next(attacker.other())
            &&& start.firing() == attacker ==> state == start
        }
        ||| {
            &&& state.time == start.next(attacker)
            &&& state.health(attacker.other()) <= 0
            &&& state.health(attacker) == start.health(attacker)
        }
    }
}

/// While a side overwhelms, every state of the engagement is before its
/// first shot or just after it.
pub proof fn lemma_strike_invariant(
    setup: BattleModel,
    attacker: Side,
    start: State,
    shots: Seq<Shot>,
)
    requires
        setup.wf(),
        start.wf(),
        setup.overwhelms(attacker, start),
        setup.is_trace(start, shots),
    ensures
        setup.before_or_after_strike(attacker, start, setup.replay(start, shots)),
    decreases shots.len(),
{
    if shots.len() > 0 {
        lemma_strike_invariant(setup, attacker, start, shots.drop_last());
    }
}

/// Overwhelming fire ends the engagement early: where one side cannot miss
/// and its least damage is no less than its opponent's health, and the
/// opponent cannot hit or fires later, the engagement ends with that side's
/// first shot, before the cap, with the opponent eliminated and the side
/// itself unhurt.
pub proof fn lemma_overwhelming_fire(
    setup: BattleModel,
    attacker: Side,
    start: State,
    shots: Seq<Shot>,
)
    requires
        setup.wf(),
        start.wf(),
        setup.overwhelms(attacker, start),
        setup.plays_out(start, shots),
    ensures
        setup.replay(start, shots).time == start.next(attacker),
        setup.replay(start, shots).time < ROUND_CAP,
        setup.replay(start, shots).health(attacker.other()) <= 0,
        setup.replay(start, shots).health(attacker) == start.health(attacker),
        setup.standing(setup.replay(start, shots), attacker.other()).is_zero(),
{
    lemma_strike_invariant(setup, attacker, start, shots);
}

/// What a side has left is a fraction of its capacity: health below zero
/// counts as none, and along an engagement it is the health itself.
pub proof fn lemma_standing(setup: BattleModel, state: State, side: Side)
    requires
        setup.wf(),
    ensures
        setup.standing(state, side).in_unit_interval(),
        setup.standing(state, side).denominator == setup.side(side).start_health,
        state.health(side) <= 0 <==> setup.standing(state, side).is_zero(),
        0 <= state.health(side) <= setup.side(side).start_health ==> setup.standing(
            state,
            side,
        ).numerator == state.health(side),
{
}

/// Health bounds: at every point of an engagement, what each side has left
/// is a fraction between zero and one of its own capacity, and no more than
/// it opened with.
pub proof fn lemma_health_bounds(
    setup: BattleModel,
    xcom_fraction: Ratio,
    ufo_fraction: Ratio,
    shots: Seq<Shot>,
    side: Side,
)
    requires
        setup.wf(),
        xcom_fraction.in_unit_interval(),
        ufo_fraction.in_unit_interval(),
        setup.is_trace(setup.opening(xcom_fraction, ufo_fraction), shots),
    ensures
        setup.standing(
            setup.replay(setup.opening(xcom_fraction, ufo_fraction), shots),
            side,
        ).in_unit_interval(),
        setup.standing(
            setup.replay(setup.opening(xcom_fraction, ufo_fraction), shots),
            side,
        ).numerator <= setup.opening(xcom_fraction, ufo_fraction).health(side),
        setup.opening(xcom_fraction, ufo_fraction).health(side) <= setup.side(side).start_health,
{
    lemma_opening(setup, xcom_fraction, ufo_fraction);
    lemma_trace_on_schedule(setup, xcom_fraction, ufo_fraction, shots);
}

/// Conservation: where neither side can hit, a whole engagement leaves each
/// side with the fraction it opened with, provided that this fraction is a
/// whole number of hit points.
pub proof fn lemma_conservation(
    setup: BattleModel,
    xcom_fraction: Ratio,
    ufo_fraction: Ratio,
    shots: Seq<Shot>,
)
    requires
        setup.wf(),
        xcom_fraction.in_unit_interval(),
        ufo_fraction.in_unit_interval(),
        setup.xcom.hit_chance.is_zero(),
        setup.ufo.hit_chance.is_zero(),
        (setup.xcom.start_health * xcom_fraction.numerator) % xcom_fraction.denominator == 0,
        (setup.ufo.start_health * ufo_fraction.numerator) % ufo_fraction.denominator == 0,
        setup.is_trace(setup.opening(xcom_fraction, ufo_fraction), shots),
    ensures
        setup.standing(
            setup.replay(setup.opening(xcom_fraction, ufo_fraction), shots),
            Side::Xcom,
        ).same_value(xcom_fraction),
        setup.standing(
            setup.replay(setup.opening(xcom_fraction, ufo_fraction), shots),
            Side::Ufo,
        ).same_value(ufo_fraction),
{
    let start = setup.opening(xcom_fraction, ufo_fraction);
    lemma_opening(setup, xcom_fraction, ufo_fraction);
    lemma_no_damage_conserves(setup, start, shots);
    lemma_part_of_exact(xcom_fraction, setup.xcom.start_health);
    lemma_part_of_exact(ufo_fraction, setup.ufo.start_health);
}

impl BattleModel {
    /// The shorter of the two fire intervals.
    pub open spec fn shorter_interval(self) -> int {
        vstd::math::min(self.xcom.fire_rate, self.ufo.fire_rate)
    }

    /// The longer of the two fire intervals.
    pub open spec fn longer_interval(self) -> int {
        vstd::math::max(self.xcom.fire_rate, self.ufo.fire_rate)
    }
}

/// The shot limit is within the cap divided by the shorter fire interval
/// exactly where that interval divides the cap and the longer one is no
/// shorter than the cap.
pub proof fn lemma_shot_limit_and_cap(setup: BattleModel)
    requires
        setup.wf(),
    ensures
        setup.shot_limit() <= (ROUND_CAP as int) / setup.shorter_interval() <==> (ROUND_CAP as int)
            % setup.shorter_interval() == 0 && setup.longer_interval() >= ROUND_CAP,
{
    let cap = ROUND_CAP as int;
    let short = setup.shorter_interval();
    let long = setup.longer_interval();
    let quotient = cap / short;
    let rest = cap % short;
    lemma_fundamental_div_mod(cap, short);
    assert(short * quotient == quotient * short) by (nonlinear_arith);
    if rest == 0 {
        assert((quotient - 1) * short + (short - 1) == quotient * short - 1) by (nonlinear_arith);
        lemma_fundamental_div_mod_converse(cap - 1, short, quotient - 1, short - 1);
    } else {
        lemma_fundamental_div_mod_converse(cap - 1, short, quotient, rest - 1);
    }
    if long >= cap {
        lemma_basic_div(cap - 1, long);
    } else {
        lemma_div_is_ordered(long, cap - 1, long);
        lemma_div_by_self(long);
    }
}

/// The round cap bounds the fire events: where the shorter fire interval
/// divides the cap and the longer one is no shorter than the cap, an
/// engagement holds no more fire events than the cap divided by the shorter
/// interval.
pub proof fn lemma_round_cap(
    setup: BattleModel,
    xcom_fraction: Ratio,
    ufo_fraction: Ratio,
    shots: Seq<Shot>,
)
    requires
        setup.wf(),
        xcom_fraction.in_unit_interval(),
        ufo_fraction.in_unit_interval(),
        (ROUND_CAP as int) % setup.shorter_interval() == 0,
        setup.longer_interval() >= ROUND_CAP,
        setup.is_trace(setup.opening(xcom_fraction, ufo_fraction), shots),
    ensures
        shots.len() <= (ROUND_CAP as int) / setup.shorter_interval(),
{
    lemma_shot_limit(setup, xcom_fraction, ufo_fraction, shots);
    lemma_shot_limit_and_cap(setup);
}

/// The one multiple of `interval` that is the first to reach the cap is one
/// more multiple than those before the cap.
proof fn lemma_first_multiple_at_cap(multiple: int, interval: int)
    requires
        0 < interval,
        multiple % interval == 0,
        ROUND_CAP <= multiple < ROUND_CAP + interval,
    ensures
        multiple / interval == (ROUND_CAP - 1) / interval + 1,
{
    let count = multiple / interval;
    let before = (ROUND_CAP - 1) / interval;
    let rest = (ROUND_CAP - 1) % interval;
    lemma_fundamental_div_mod(multiple, interval);
    lemma_fundamental_div_mod(ROUND_CAP - 1, interval);
    assert(count == before + 1) by (nonlinear_arith)
        requires
            0 < interval,
            0 <= rest < interval,
            interval * before + rest + 1 <= interval * count,
            interval * count < interval * before + rest + 1 + interval,
    ;
}

/// The shot limit is reached: where neither side can hit and both open with
/// health, a whole engagement holds exactly as many fire events as the shot
/// limit.
pub proof fn lemma_blanks_reach_the_limit(
    setup: BattleModel,
    xcom_fraction: Ratio,
    ufo_fraction: Ratio,
    shots: Seq<Shot>,
)
    requires
        setup.wf(),
        xcom_fraction.in_unit_interval(),
        ufo_fraction.in_unit_interval(),
        setup.xcom.hit_chance.is_zero(),
        setup.ufo.hit_chance.is_zero(),
        setup.opening(xcom_fraction, ufo_fraction).active(),
        setup.plays_out(setup.opening(xcom_fraction, ufo_fraction), shots),
    ensures
        shots.len() == setup.shot_limit(),
{
    let start = setup.opening(xcom_fraction, ufo_fraction);
    lemma_no_damage_conserves(setup, start, shots);
    lemma_trace_on_schedule(setup, xcom_fraction, ufo_fraction, shots);
    if shots.len() > 0 {
        let before = setup.replay(start, shots.drop_last());
        let end = setup.replay(start, shots);
        lemma_trace_on_schedule(setup, xcom_fraction, ufo_fraction, shots.drop_last());
        match before.firing() {
            Side::Xcom => {
                lemma_first_multiple_at_cap(before.xcom_next, setup.xcom.fire_rate);
                lemma_first_multiple_at_cap(end.ufo_next, setup.ufo.fire_rate);
                lemma_div_plus_one(before.xcom_next, setup.xcom.fire_rate);
            },
            Side::Ufo => {
                lemma_first_multiple_at_cap(before.ufo_next, setup.ufo.fire_rate);
                lemma_first_multiple_at_cap(end.xcom_next, setup.xcom.fire_rate);
                lemma_div_plus_one(before.ufo_next, setup.ufo.fire_rate);
            },
        }
    }
}

} // verus!
