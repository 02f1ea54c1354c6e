use battle_sim::dice::draw_shot;
use battle_sim::engagement::{Shot, Side, ROUND_CAP};
use battle_sim::fraction::Fraction;
use battle_sim::setup::BattleSetup;
use battle_sim::units::{Ship, Stance, Weapon};
use rand::rngs::SmallRng;
use rand::SeedableRng;

fn full() -> Fraction {
    Fraction::from_ratio(1, 1).unwrap()
}

fn patrol(stance: Stance) -> BattleSetup {
    let avalanche = Weapon::new(40, 2000, 340, 0).unwrap();
    let plasma = Weapon::new(33, 1150, 450, 0).unwrap();
    let xcom = Ship::new(2500, 25, 0, 0, avalanche).unwrap();
    let ufo = Ship::new(750, 0, 15, 0, plasma).unwrap();
    BattleSetup::calculate(xcom, ufo, stance)
}

/// Two sides that cannot hit, with the given fire intervals.
fn blanks(xcom_rate: i32, ufo_rate: i32) -> BattleSetup {
    let xcom = Ship::new(2500, 0, 0, 0, Weapon::new(0, xcom_rate, 340, 0).unwrap()).unwrap();
    let ufo = Ship::new(750, 0, 0, 0, Weapon::new(0, ufo_rate, 450, 0).unwrap()).unwrap();
    BattleSetup::calculate(xcom, ufo, Stance::Bal)
}

fn terms(fraction: Fraction) -> (u32, u32) {
    (fraction.numerator(), fraction.denominator())
}

#[test]
fn the_same_seed_gives_the_same_engagement() {
    let setup = patrol(Stance::Agg);
    for seed in 0..20u64 {
        let mut first = SmallRng::seed_from_u64(seed);
        let mut second = SmallRng::seed_from_u64(seed);
        assert_eq!(setup.run(&mut first, full(), full()), setup.run(&mut second, full(), full()));
        let mut first = SmallRng::seed_from_u64(seed);
        let mut second = SmallRng::seed_from_u64(seed);
        let (end, log) = setup.simulate(&mut first, full(), full());
        let (again, relog) = setup.simulate(&mut second, full(), full());
        assert_eq!(end, again);
        assert_eq!(log, relog);
    }
}

#[test]
fn run_reports_where_simulate_ends() {
    let setup = patrol(Stance::Agg);
    for seed in 0..20u64 {
        let mut rng = SmallRng::seed_from_u64(seed);
        let (end, _) = setup.simulate(&mut rng, full(), full());
        let mut rng = SmallRng::seed_from_u64(seed);
        let (xcom, ufo) = setup.run(&mut rng, full(), full());
        assert_eq!(xcom, setup.standing(&end, Side::Xcom));
        assert_eq!(ufo, setup.standing(&end, Side::Ufo));
    }
}

#[test]
fn the_record_leads_to_the_final_state() {
    let setup = patrol(Stance::Agg);
    for seed in 0..50u64 {
        let mut rng = SmallRng::seed_from_u64(seed);
        let (end, log) = setup.simulate(&mut rng, full(), full());
        let mut state = setup.begin(full(), full());
        for shot in log.iter() {
            assert!(state.is_active());
            assert!(setup.admits(&state, shot));
            state = setup.advance(state, *shot);
        }
        assert!(!state.is_active());
        assert_eq!(state, end);
    }
}

#[test]
fn fractions_stay_within_zero_and_one() {
    let setup = patrol(Stance::Agg);
    for seed in 0..50u64 {
        let mut rng = SmallRng::seed_from_u64(seed);
        let (xcom, ufo) = setup.run(&mut rng, full(), full());
        assert!(xcom.numerator() <= xcom.denominator());
        assert!(ufo.numerator() <= ufo.denominator());
        assert_eq!(xcom.denominator(), 2500);
        assert_eq!(ufo.denominator(), 750);
        let ratio = xcom.numerator() as f64 / xcom.denominator() as f64;
        assert!((0.0..=1.0).contains(&ratio));
    }
}

#[test]
fn no_health_is_lost_where_nobody_can_hit() {
    let setup = blanks(2000, 1150);
    let mut rng = SmallRng::seed_from_u64(7);
    let (xcom, ufo) = setup.run(&mut rng, full(), full());
    assert_eq!(terms(xcom), (2500, 2500));
    assert_eq!(terms(ufo), (750, 750));
    let half = Fraction::from_ratio(1, 2).unwrap();
    let fifth = Fraction::from_ratio(3, 5).unwrap();
    let (xcom, ufo) = setup.run(&mut rng, half, fifth);
    assert_eq!(terms(xcom), (1250, 2500));
    assert_eq!(terms(ufo), (450, 750));
    assert_eq!(xcom.numerator() as f64 / xcom.denominator() as f64, 0.5);
    assert_eq!(ufo.numerator() as f64 / ufo.denominator() as f64, 0.6);
}

#[test]
fn a_fraction_between_two_hit_points_is_truncated() {
    let setup = blanks(2000, 1150);
    let mut rng = SmallRng::seed_from_u64(7);
    let quarter = Fraction::from_ratio(1, 4).unwrap();
    let (xcom, ufo) = setup.run(&mut rng, quarter, quarter);
    assert_eq!(terms(xcom), (625, 2500));
    // A quarter of 750 is 187.5: 187 hit points open the engagement.
    assert_eq!(terms(ufo), (187, 750));
}

#[test]
fn blanks_fire_until_the_cap() {
    let setup = blanks(2000, 1150);
    let mut rng = SmallRng::seed_from_u64(1);
    let (end, log) = setup.simulate(&mut rng, full(), full());
    // Four shots every 2000 and eight every 1150 before the cap, and the
    // shot at 10000 that reaches it.
    assert_eq!(log.len(), 13);
    assert!(log.iter().all(|shot| *shot == Shot::Miss));
    assert_eq!(end.time(), 10_000);
    assert_eq!(end.xcom_next(), 12_000);
    assert_eq!(end.ufo_next(), 10_350);
    assert_eq!(end.xcom_health(), 2500);
    assert_eq!(end.ufo_health(), 750);
}

#[test]
fn a_lone_interval_that_divides_the_cap_fires_cap_over_interval_shots() {
    let setup = blanks(2000, 20_000);
    let mut rng = SmallRng::seed_from_u64(1);
    let (end, log) = setup.simulate(&mut rng, full(), full());
    assert_eq!(log.len(), 5);
    assert_eq!(end.time(), 10_000);
    let setup = blanks(10_000, 10_000);
    let (end, log) = setup.simulate(&mut rng, full(), full());
    assert_eq!(log.len(), 1);
    assert_eq!(end.time(), 10_000);
    assert_eq!(end.xcom_next(), 10_000);
    assert_eq!(end.ufo_next(), 20_000);
}

#[test]
fn the_record_is_never_longer_than_the_shot_limit() {
    let setup = patrol(Stance::Def);
    for seed in 0..50u64 {
        let mut rng = SmallRng::seed_from_u64(seed);
        let (_, log) = setup.simulate(&mut rng, full(), full());
        assert!(log.len() <= 4 + 8 + 1);
        assert!(!log.is_empty());
    }
    let fast = blanks(1, 1);
    let mut rng = SmallRng::seed_from_u64(3);
    let (end, log) = fast.simulate(&mut rng, full(), full());
    assert_eq!(log.len(), 9_999 + 9_999 + 1);
    assert_eq!(end.time(), ROUND_CAP);
}

#[test]
fn overwhelming_fire_ends_the_engagement_with_its_first_shot() {
    let cannon = Weapon::new(100, 1000, 5000, 0).unwrap();
    let blank = Weapon::new(0, 300, 450, 0).unwrap();
    let xcom = Ship::new(2500, 0, 0, 0, cannon).unwrap();
    let ufo = Ship::new(750, 0, 0, 0, blank).unwrap();
    let setup = BattleSetup::calculate(xcom, ufo, Stance::Bal);
    for seed in 0..20u64 {
        let mut rng = SmallRng::seed_from_u64(seed);
        let (end, log) = setup.simulate(&mut rng, full(), full());
        // Three blanks at 300, 600 and 900, then the cannon at 1000.
        assert_eq!(log.len(), 4);
        assert_eq!(end.time(), 1000);
        assert!(end.time() < ROUND_CAP);
        assert!(end.ufo_health() <= 0);
        assert_eq!(end.xcom_health(), 2500);
        let mut rng = SmallRng::seed_from_u64(seed);
        let (xcom_left, ufo_left) = setup.run(&mut rng, full(), full());
        assert_eq!(terms(xcom_left), (2500, 2500));
        assert_eq!(terms(ufo_left), (0, 750));
    }
}

#[test]
fn overwhelming_fire_of_the_second_side_wins_a_tie() {
    let cannon = Weapon::new(100, 1000, 5000, 0).unwrap();
    let xcom = Ship::new(2500, 0, 0, 0, cannon).unwrap();
    let ufo = Ship::new(750, 0, 0, 0, cannon).unwrap();
    let setup = BattleSetup::calculate(xcom, ufo, Stance::Bal);
    let mut rng = SmallRng::seed_from_u64(11);
    let (end, log) = setup.simulate(&mut rng, full(), full());
    assert_eq!(log.len(), 1);
    assert_eq!(end.time(), 1000);
    assert!(end.xcom_health() <= 0);
    assert_eq!(end.ufo_health(), 750);
    let (xcom_left, ufo_left) = setup.run(&mut rng, full(), full());
    assert_eq!(terms(xcom_left), (0, 2500));
    assert_eq!(terms(ufo_left), (750, 750));
}

#[test]
fn an_eliminated_side_ends_the_next_engagement_at_once() {
    let setup = patrol(Stance::Agg);
    let mut rng = SmallRng::seed_from_u64(5);
    let none = Fraction::from_ratio(0, 1).unwrap();
    let (end, log) = setup.simulate(&mut rng, full(), none);
    assert!(log.is_empty());
    assert_eq!(end, setup.begin(full(), none));
    let (xcom, ufo) = setup.run(&mut rng, full(), none);
    assert_eq!(terms(xcom), (2500, 2500));
    assert_eq!(terms(ufo), (0, 750));
}

#[test]
fn engagements_can_be_chained() {
    let setup = patrol(Stance::Agg);
    let mut rng = SmallRng::seed_from_u64(0);
    let (mut xcom, mut ufo) = (full(), full());
    for _ in 0..3 {
        let before = setup.begin(xcom, ufo);
        let (next_xcom, next_ufo) = setup.run(&mut rng, xcom, ufo);
        assert!(i64::from(next_xcom.numerator()) <= before.xcom_health());
        assert!(i64::from(next_ufo.numerator()) <= before.ufo_health());
        assert_eq!(next_xcom.denominator(), 2500);
        assert_eq!(next_ufo.denominator(), 750);
        // What is left is a whole number of hit points: nothing is lost
        // between two engagements.
        let reopened = setup.begin(next_xcom, next_ufo);
        assert_eq!(reopened.xcom_health(), i64::from(next_xcom.numerator()));
        assert_eq!(reopened.ufo_health(), i64::from(next_ufo.numerator()));
        xcom = next_xcom;
        ufo = next_ufo;
    }
}

#[test]
fn rolls_cover_the_damage_range() {
    let sure = Weapon::new(100, 1000, 340, 0).unwrap();
    let xcom = Ship::new(2500, 0, 0, 0, sure).unwrap();
    let ufo = Ship::new(750, 0, 0, 0, sure).unwrap();
    let side = BattleSetup::calculate(xcom, ufo, Stance::Bal).xcom();
    let mut rng = SmallRng::seed_from_u64(42);
    let mut least = i64::MAX;
    let mut most = i64::MIN;
    let mut crits = 0;
    for _ in 0..2000 {
        match draw_shot(&mut rng, &side) {
            Shot::Miss => panic!("a sure hit missed"),
            Shot::Hit { roll, crit } => {
                assert!((340..=510).contains(&roll));
                least = least.min(roll);
                most = most.max(roll);
                if crit {
                    crits += 1;
                }
            }
        }
    }
    // 171 values, 2000 draws: both ends of the range are all but sure to turn up.
    assert!(least < 350);
    assert!(most > 500);
    // One hit in twenty is critical.
    assert!(crits > 0 && crits < 1000);
}

#[test]
fn a_collapsed_range_always_rolls_its_only_value() {
    let feeble = Weapon::new(100, 1000, 1, 0).unwrap();
    let xcom = Ship::new(2500, 0, 0, 0, feeble).unwrap();
    let fortress = Ship::new(750, 200, 0, 0, feeble).unwrap();
    let side = BattleSetup::calculate(xcom, fortress, Stance::Bal).xcom();
    assert_eq!((side.damage().low(), side.damage().high()), (0, 0));
    let mut rng = SmallRng::seed_from_u64(9);
    for _ in 0..100 {
        match draw_shot(&mut rng, &side) {
            Shot::Miss => panic!("a sure hit missed"),
            Shot::Hit { roll, .. } => assert_eq!(roll, 0),
        }
    }
}

#[test]
fn an_even_chance_gives_hits_and_misses() {
    let even = Weapon::new(50, 1000, 340, 0).unwrap();
    let xcom = Ship::new(2500, 0, 0, 0, even).unwrap();
    let ufo = Ship::new(750, 0, 0, 0, even).unwrap();
    let side = BattleSetup::calculate(xcom, ufo, Stance::Bal).xcom();
    let mut rng = SmallRng::seed_from_u64(42);
    let mut hits = 0;
    for _ in 0..2000 {
        if draw_shot(&mut rng, &side) != Shot::Miss {
            hits += 1;
        }
    }
    assert!(hits > 800 && hits < 1200);
}

#[test]
fn a_chance_of_zero_never_hits() {
    let side = blanks(2000, 1150).ufo();
    let mut rng = SmallRng::seed_from_u64(42);
    for _ in 0..2000 {
        assert_eq!(draw_shot(&mut rng, &side), Shot::Miss);
    }
}
