//! Whole engagements, played with a seeded generator.

use crate::dice::draw_shot;
use crate::engagement::{Engagement, Shot, Side, State, ROUND_CAP};
use crate::fraction::{lemma_part_of_exact, Fraction, Ratio};
use crate::laws::{
    lemma_no_damage_conserves, lemma_opening, lemma_over_at_opening, lemma_overwhelming_fire,
    lemma_shot_limit, lemma_trace_on_schedule,
};
use crate::setup::{BattleModel, BattleSetup};
use rand::rngs::SmallRng;
use vstd::prelude::*;

verus! {

impl BattleModel {
    /// Whether an engagement from `start` can leave the two sides with the
    /// fractions `xcom_left` and `ufo_left`: some whole engagement ends in a
    /// state in which they stand so.
    pub open spec fn may_leave(self, start: State, xcom_left: Ratio, ufo_left: Ratio) -> bool {
        exists|shots: Seq<Shot>|
            {
                &&& #[trigger] self.plays_out(start, shots)
                &&& xcom_left == self.standing(self.replay(start, shots), Side::Xcom)
                &&& ufo_left == self.standing(self.replay(start, shots), Side::Ufo)
            }
    }
}

impl BattleSetup {
    /// Plays one engagement in which each side opens with the given fraction
    /// of its capacity, and returns the state in which it ends together with
    /// the record of its fire events.
    ///
    /// Whatever the generator gives, the record is that of a whole
    /// engagement, the final state is the one that the record leads to, and
    /// the record is no longer than the shot limit. Where one side
    /// overwhelms the other, the engagement ends with that side's first
    /// shot, before the cap.
    pub fn simulate(
        &self,
        rng: &mut SmallRng,
        xcom_fraction: Fraction,
        ufo_fraction: Fraction,
    ) -> (end: (Engagement, Vec<Shot>))
        ensures
            self@.plays_out(self@.opening(xcom_fraction@, ufo_fraction@), end.1@),
            end.0@ == self@.replay(self@.opening(xcom_fraction@, ufo_fraction@), end.1@),
            end.1@.len() <= self@.shot_limit(),
            forall|attacker: Side| #[trigger]
                self@.overwhelms(attacker, self@.opening(xcom_fraction@, ufo_fraction@)) ==> {
                    &&& end.0@.time == self@.side(attacker).fire_rate
                    &&& end.0@.time < ROUND_CAP
                    &&& end.0@.health(attacker.other()) <= 0
                },
    {
        let ghost start = self@.opening(xcom_fraction@, ufo_fraction@);
        let mut state = self.begin(xcom_fraction, ufo_fraction);
        let mut log: Vec<Shot> = Vec::new();
        proof {
            use_type_invariant(&state);
        }
        while state.is_active()
            invariant
                self@.is_trace(start, log@),
                state@ == self@.replay(start, log@),
                state@.wf(),
            decreases 2 * (ROUND_CAP + 2 * i32::MAX) - state@.xcom_next - state@.ufo_next,
        {
            let side = self.side(state.firing());
            let shot = draw_shot(rng, &side);
            let ghost earlier = log@;
            state = self.advance(state, shot);
            log.push(shot);
            proof {
                use_type_invariant(&state);
                assert(log@.drop_last() =~= earlier);
            }
        }
        proof {
            use_type_invariant(&xcom_fraction);
            use_type_invariant(&ufo_fraction);
            use_type_invariant(self);
            lemma_shot_limit(self@, xcom_fraction@, ufo_fraction@, log@);
            lemma_opening(self@, xcom_fraction@, ufo_fraction@);
            assert forall|attacker: Side| #[trigger] self@.overwhelms(attacker, start) implies {
                &&& state@.time == self@.side(attacker).fire_rate
                &&& state@.time < ROUND_CAP
                &&& state@.health(attacker.other()) <= 0
            } by {
                lemma_overwhelming_fire(self@, attacker, start, log@);
            }
        }
        (state, log)
    }

    /// Plays one engagement in which each side opens with the given fraction
    /// of its capacity, and returns the fraction of its capacity that each
    /// side has left: the first side's, then the second's.
    ///
    /// Each result is taken over the side's own capacity, and health below
    /// zero counts as none. The results can open the next engagement.
    pub fn run(&self, rng: &mut SmallRng, xcom_fraction: Fraction, ufo_fraction: Fraction) -> (left:
        (Fraction, Fraction))
        ensures
            self@.may_leave(self@.opening(xcom_fraction@, ufo_fraction@), left.0@, left.1@),
            left.0@.in_unit_interval(),
            left.1@.in_unit_interval(),
            left.0@.denominator == self@.xcom.start_health,
            left.1@.denominator == self@.ufo.start_health,
            left.0@.numerator <= xcom_fraction@.part_of(self@.xcom.start_health),
            left.1@.numerator <= ufo_fraction@.part_of(self@.ufo.start_health),
            !self@.opening(xcom_fraction@, ufo_fraction@).active() ==> {
                &&& left.0@.numerator == xcom_fraction@.part_of(self@.xcom.start_health)
                &&& left.1@.numerator == ufo_fraction@.part_of(self@.ufo.start_health)
            },
            self@.xcom.hit_chance.is_zero() && self@.ufo.hit_chance.is_zero() ==> {
                &&& left.0@.numerator == xcom_fraction@.part_of(self@.xcom.start_health)
                &&& left.1@.numerator == ufo_fraction@.part_of(self@.ufo.start_health)
                &&& (self@.xcom.start_health * xcom_fraction@.numerator)
                    % xcom_fraction@.denominator == 0 ==> left.0@.same_value(xcom_fraction@)
                &&& (self@.ufo.start_health * ufo_fraction@.numerator) % ufo_fraction@.denominator
                    == 0 ==> left.1@.same_value(ufo_fraction@)
            },
            self@.overwhelms(Side::Xcom, self@.opening(xcom_fraction@, ufo_fraction@)) ==> {
                &&& left.0@.numerator == xcom_fraction@.part_of(self@.xcom.start_health)
                &&& left.1@.is_zero()
            },
            self@.overwhelms(Side::Ufo, self@.opening(xcom_fraction@, ufo_fraction@)) ==> {
                &&& left.0@.is_zero()
                &&& left.1@.numerator == ufo_fraction@.part_of(self@.ufo.start_health)
            },
    {
        let (end, log) = self.simulate(rng, xcom_fraction, ufo_fraction);
        let xcom_left = self.standing(&end, Side::Xcom);
        let ufo_left = self.standing(&end, Side::Ufo);
        proof {
            let start = self@.opening(xcom_fraction@, ufo_fraction@);
            use_type_invariant(self);
            use_type_invariant(&xcom_fraction);
            use_type_invariant(&ufo_fraction);
            lemma_opening(self@, xcom_fraction@, ufo_fraction@);
            lemma_trace_on_schedule(self@, xcom_fraction@, ufo_fraction@, log@);
            if self@.xcom.hit_chance.is_zero() && self@.ufo.hit_chance.is_zero() {
                lemma_no_damage_conserves(self@, start, log@);
                if (self@.xcom.start_health * xcom_fraction@.numerator) % xcom_fraction@.denominator
                    == 0 {
                    lemma_part_of_exact(xcom_fraction@, self@.xcom.start_health);
                }
                if (self@.ufo.start_health * ufo_fraction@.numerator) % ufo_fraction@.denominator
                    == 0 {
                    lemma_part_of_exact(ufo_fraction@, self@.ufo.start_health);
                }
            }
            if !start.active() {
                lemma_over_at_opening(self@, start, log@);
            }
            if self@.overwhelms(Side::Xcom, start) {
                lemma_overwhelming_fire(self@, Side::Xcom, start, log@);
            }
            if self@.overwhelms(Side::Ufo, start) {
                lemma_overwhelming_fire(self@, Side::Ufo, start, log@);
            }
            assert(self@.plays_out(start, log@));
        }
        (xcom_left, ufo_left)
    }
}

} // verus!
