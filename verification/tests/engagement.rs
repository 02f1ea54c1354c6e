use battle_sim::engagement::{Engagement, Shot, Side, ROUND_CAP};
use battle_sim::fraction::Fraction;
use battle_sim::setup::BattleSetup;
use battle_sim::units::{Ship, Stance, Weapon};

fn full() -> Fraction {
    Fraction::from_ratio(1, 1).unwrap()
}

/// Interceptor (2500 hit points, 340 to 510 damage every 2000) against a
/// scout (750 hit points, 405 to 608 damage every 1150).
fn patrol(stance: Stance) -> BattleSetup {
    let avalanche = Weapon::new(40, 2000, 340, 0).unwrap();
    let plasma = Weapon::new(33, 1150, 450, 0).unwrap();
    let xcom = Ship::new(2500, 25, 0, 0, avalanche).unwrap();
    let ufo = Ship::new(750, 0, 15, 0, plasma).unwrap();
    BattleSetup::calculate(xcom, ufo, stance)
}

fn duel(xcom_rate: i32, ufo_rate: i32) -> BattleSetup {
    let xcom = Ship::new(1000, 0, 0, 0, Weapon::new(50, xcom_rate, 100, 0).unwrap()).unwrap();
    let ufo = Ship::new(1000, 0, 0, 0, Weapon::new(50, ufo_rate, 100, 0).unwrap()).unwrap();
    BattleSetup::calculate(xcom, ufo, Stance::Bal)
}

fn snapshot(state: &Engagement) -> (i64, i64, i64, i64, i64) {
    (state.xcom_health(), state.ufo_health(), state.xcom_next(), state.ufo_next(), state.time())
}

#[test]
fn an_engagement_opens_one_interval_before_each_first_shot() {
    let setup = patrol(Stance::Bal);
    let state = setup.begin(full(), full());
    assert_eq!(snapshot(&state), (2500, 750, 2000, 1150, 0));
    assert!(state.is_active());
    assert_eq!(state.firing(), Side::Ufo);
}

#[test]
fn opening_health_is_a_truncated_part_of_the_capacity() {
    let setup = patrol(Stance::Bal);
    let half = Fraction::from_ratio(1, 2).unwrap();
    let third = Fraction::from_ratio(1, 3).unwrap();
    let state = setup.begin(third, half);
    assert_eq!(state.xcom_health(), 833);
    assert_eq!(state.ufo_health(), 375);
    let state = setup.begin(Fraction::from_ratio(1, 2501).unwrap(), full());
    assert_eq!(state.xcom_health(), 0);
    assert!(!state.is_active());
}

#[test]
fn a_hit_takes_its_roll_and_a_critical_hit_twice_that() {
    let setup = patrol(Stance::Bal);
    let state = setup.begin(full(), full());
    let state = setup.advance(state, Shot::Hit { roll: 500, crit: true });
    assert_eq!(snapshot(&state), (1500, 750, 2000, 2300, 1150));
    assert_eq!(state.firing(), Side::Xcom);
    let state = setup.advance(state, Shot::Hit { roll: 400, crit: false });
    assert_eq!(snapshot(&state), (1500, 350, 4000, 2300, 2000));
    assert_eq!(state.firing(), Side::Ufo);
}

#[test]
fn a_miss_moves_the_clock_only() {
    let setup = patrol(Stance::Bal);
    let state = setup.begin(full(), full());
    let state = setup.advance(state, Shot::Miss);
    assert_eq!(snapshot(&state), (2500, 750, 2000, 2300, 1150));
    let state = setup.advance(state, Shot::Miss);
    assert_eq!(snapshot(&state), (2500, 750, 4000, 2300, 2000));
    let state = setup.advance(state, Shot::Miss);
    assert_eq!(snapshot(&state), (2500, 750, 4000, 3450, 2300));
    let state = setup.advance(state, Shot::Miss);
    assert_eq!(snapshot(&state), (2500, 750, 4000, 4600, 3450));
    assert_eq!(state.firing(), Side::Xcom);
}

#[test]
fn the_ufo_fires_first_when_both_are_due() {
    let setup = duel(1000, 1000);
    let state = setup.begin(full(), full());
    assert_eq!(state.firing(), Side::Ufo);
    let state = setup.advance(state, Shot::Hit { roll: 100, crit: false });
    assert_eq!(snapshot(&state), (900, 1000, 1000, 2000, 1000));
    assert_eq!(state.firing(), Side::Xcom);
    let state = setup.advance(state, Shot::Hit { roll: 150, crit: false });
    assert_eq!(snapshot(&state), (900, 850, 2000, 2000, 1000));
    assert_eq!(state.firing(), Side::Ufo);
}

#[test]
fn health_may_fall_below_zero_and_ends_the_engagement() {
    let setup = patrol(Stance::Bal);
    let state = setup.begin(full(), full());
    let state = setup.advance(state, Shot::Miss);
    let state = setup.advance(state, Shot::Hit { roll: 510, crit: true });
    assert_eq!(state.ufo_health(), -270);
    assert!(!state.is_active());
    let left = setup.standing(&state, Side::Ufo);
    assert_eq!((left.numerator(), left.denominator()), (0, 750));
    let left = setup.standing(&state, Side::Xcom);
    assert_eq!((left.numerator(), left.denominator()), (2500, 2500));
}

#[test]
fn an_engagement_that_is_over_stays_as_it_is() {
    let setup = patrol(Stance::Bal);
    let state = setup.begin(full(), full());
    let state = setup.advance(state, Shot::Miss);
    let over = setup.advance(state, Shot::Hit { roll: 400, crit: true });
    assert!(!over.is_active());
    assert_eq!(setup.advance(over, Shot::Miss), over);
    assert_eq!(setup.advance(over, Shot::Hit { roll: 500, crit: false }), over);
    let dead = setup.begin(Fraction::from_ratio(0, 1).unwrap(), full());
    assert_eq!(setup.advance(dead, Shot::Hit { roll: 500, crit: false }), dead);
}

#[test]
fn the_shot_that_reaches_the_cap_is_the_last() {
    let setup = duel(3000, 20_000);
    let mut state = setup.begin(full(), full());
    let mut shots = 0;
    while state.is_active() {
        assert_eq!(state.firing(), Side::Xcom);
        state = setup.advance(state, Shot::Miss);
        shots += 1;
    }
    // Shots at 3000, 6000 and 9000, and the one at 12000 that passes the cap.
    assert_eq!(shots, 4);
    assert_eq!(state.time(), 12_000);
    assert!(state.time() >= ROUND_CAP);
    assert_eq!(state.xcom_next(), 15_000);
    assert_eq!(state.ufo_next(), 20_000);
}

#[test]
fn each_side_stands_on_its_own_capacity() {
    let setup = patrol(Stance::Bal);
    let state = setup.begin(full(), full());
    let state = setup.advance(state, Shot::Hit { roll: 608, crit: false });
    let state = setup.advance(state, Shot::Hit { roll: 340, crit: false });
    let xcom = setup.standing(&state, Side::Xcom);
    let ufo = setup.standing(&state, Side::Ufo);
    assert_eq!((xcom.numerator(), xcom.denominator()), (1892, 2500));
    assert_eq!((ufo.numerator(), ufo.denominator()), (410, 750));
    // What is left opens the next engagement with the same health.
    let next = setup.begin(xcom, ufo);
    assert_eq!(snapshot(&next), (1892, 410, 2000, 1150, 0));
}

#[test]
fn the_dice_cannot_give_what_the_side_cannot_fire() {
    let setup = patrol(Stance::Bal);
    let state = setup.begin(full(), full());
    // The scout fires first: 405 to 608.
    assert!(setup.admits(&state, &Shot::Miss));
    assert!(setup.admits(&state, &Shot::Hit { roll: 405, crit: false }));
    assert!(setup.admits(&state, &Shot::Hit { roll: 608, crit: true }));
    assert!(!setup.admits(&state, &Shot::Hit { roll: 404, crit: false }));
    assert!(!setup.admits(&state, &Shot::Hit { roll: 609, crit: true }));
    assert!(!setup.admits(&state, &Shot::Hit { roll: -1, crit: false }));
    // Then the interceptor: 340 to 510.
    let state = setup.advance(state, Shot::Miss);
    assert!(setup.admits(&state, &Shot::Hit { roll: 340, crit: true }));
    assert!(setup.admits(&state, &Shot::Hit { roll: 510, crit: false }));
    assert!(!setup.admits(&state, &Shot::Hit { roll: 511, crit: false }));
}

#[test]
fn a_sure_hit_is_no_miss_and_a_sure_miss_no_hit() {
    let sure = Ship::new(1000, 0, 0, 0, Weapon::new(100, 1000, 100, 0).unwrap()).unwrap();
    let hopeless = Ship::new(1000, 0, 0, 0, Weapon::new(0, 500, 100, 0).unwrap()).unwrap();
    let setup = BattleSetup::calculate(sure, hopeless, Stance::Bal);
    let state = setup.begin(full(), full());
    assert_eq!(state.firing(), Side::Ufo);
    assert!(setup.admits(&state, &Shot::Miss));
    assert!(!setup.admits(&state, &Shot::Hit { roll: 100, crit: false }));
    let state = setup.advance(state, Shot::Miss);
    let state = setup.advance(state, Shot::Miss);
    assert_eq!(state.firing(), Side::Xcom);
    assert!(!setup.admits(&state, &Shot::Miss));
    assert!(setup.admits(&state, &Shot::Hit { roll: 100, crit: false }));
    assert!(setup.admits(&state, &Shot::Hit { roll: 150, crit: true }));
}

#[test]
fn the_sides_of_a_setup_are_told_apart() {
    let setup = patrol(Stance::Bal);
    assert_eq!(setup.side(Side::Xcom), setup.xcom());
    assert_eq!(setup.side(Side::Ufo), setup.ufo());
    assert_ne!(setup.xcom(), setup.ufo());
}
