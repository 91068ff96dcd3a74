use dsa::Hero;
use dsa::Quality;
use dsa::commands::Roll;
use dsa::error::Error;

fn archer() -> Hero {
    let mut hero = Hero::default();
    hero.set_quality(Quality::Agility, 1);
    hero.set_quality(Quality::Dexterity, 2);
    hero.set_quality(Quality::Strength, 3);
    hero.add_skill("bogen", 4, [Quality::Agility, Quality::Dexterity, Quality::Strength]);
    hero
}

#[test]
fn worked_example_base_four_net_modifier_minus_two() {
    // base 4, modifiers -5 and 3, stats [1, 2, 3]:
    // effective base = max(0, 4 - (-2)) = 6, stat penalty = max(0, -2 - 4) = 0
    let hero = archer();
    let outcome = Roll::resolve(&hero, "bogen", -5 + 3, [3, 3, 3]).unwrap();
    assert_eq!(4, outcome.base);
    assert_eq!(-2, outcome.mods);
    assert_eq!([1, 2, 3], outcome.stat);
    assert_eq!([Quality::Agility, Quality::Dexterity, Quality::Strength], outcome.checks);
    assert_eq!([3, 3, 3], outcome.dice);
    // deficits 2, 1, 0 from a pool of 6
    assert_eq!(3, outcome.remainder);
    assert!(outcome.success);
    assert!(!outcome.critical);
}

#[test]
fn penalty_spills_over_when_modifier_exceeds_base() {
    // base 4, modifier 6: effective base 0, stat penalty 2
    let hero = archer();
    let outcome = Roll::resolve(&hero, "bogen", 6, [3, 3, 3]).unwrap();
    assert_eq!(4, outcome.base);
    assert_eq!(6, outcome.mods);
    // effective stats -1, 0, 1; deficits 4, 3, 2 from a pool of 0
    assert_eq!(-9, outcome.remainder);
    assert!(!outcome.success);
    assert!(!outcome.critical);
}

#[test]
fn pool_is_not_floored_mid_sequence() {
    // the first check drives the pool negative; later checks deduct further
    let outcome = Roll::resolve_check(
        2,
        [Quality::Courage, Quality::Courage, Quality::Courage],
        [1, 10, 10],
        [10, 10, 5],
        0,
    );
    // deficits 9, 0, 0 from a pool of 2
    assert_eq!(-7, outcome.remainder);
    assert!(!outcome.success);
}

#[test]
fn two_max_dice_are_a_critical_failure() {
    let outcome = Roll::resolve_check(
        100,
        [Quality::Courage, Quality::Courage, Quality::Courage],
        [20, 20, 20],
        [20, 20, 5],
        0,
    );
    assert!(outcome.critical);
    assert!(!outcome.success);
    // the pool would have been comfortable: deficits 0, 0, 0
    assert_eq!(100, outcome.remainder);
}

#[test]
fn two_min_dice_are_a_critical_success() {
    let outcome = Roll::resolve_check(
        0,
        [Quality::Courage, Quality::Courage, Quality::Courage],
        [0, 0, 0],
        [1, 1, 19],
        0,
    );
    // deficits 1, 1, 19 from a pool of 0: remainder -21, still a success
    assert_eq!(-21, outcome.remainder);
    assert!(outcome.success);
    assert!(outcome.critical);
}

#[test]
fn one_max_one_min_and_zero_remainder_is_a_plain_success() {
    let outcome = Roll::resolve_check(
        20,
        [Quality::Courage, Quality::Wisdom, Quality::Intuition],
        [0, 20, 10],
        [20, 1, 10],
        0,
    );
    assert_eq!(0, outcome.remainder);
    assert!(outcome.success);
    assert!(!outcome.critical);
}

#[test]
fn lookup_is_case_insensitive() {
    let hero = archer();
    let lower = Roll::resolve(&hero, "bogen", 0, [2, 2, 2]).unwrap();
    let upper = Roll::resolve(&hero, "BOGEN", 0, [2, 2, 2]).unwrap();
    let mixed = Roll::resolve(&hero, "BoGeN", 0, [2, 2, 2]).unwrap();
    assert_eq!(lower, upper);
    assert_eq!(lower, mixed);
}

#[test]
fn unknown_skill_is_skill_not_found() {
    let hero = archer();
    let err = Roll::resolve(&hero, "armbrust", 0, [2, 2, 2]).unwrap_err();
    match err {
        Error::SkillNotFound { name } => assert_eq!("armbrust", name),
        other => panic!("unexpected error: {:?}", other),
    }
    // the error carries the query as it was asked, case included
    let err = Roll::resolve(&hero, "Armbrust", 0, [2, 2, 2]).unwrap_err();
    match err {
        Error::SkillNotFound { name } => assert_eq!("Armbrust", name),
        other => panic!("unexpected error: {:?}", other),
    }
}

#[test]
fn identical_inputs_give_identical_outcomes() {
    let hero = archer();
    let first = Roll::resolve(&hero, "bogen", 2, [5, 6, 7]);
    let second = Roll::resolve(&hero, "bogen", 2, [5, 6, 7]);
    assert_eq!(first, second);
}

#[test]
fn fresh_dice_stay_within_their_range() {
    let hero = archer();
    for _ in 0..200 {
        let outcome = Roll::call(&hero, "bogen", 0).unwrap();
        for die in outcome.dice {
            assert!((1..=20).contains(&die));
        }
        assert_eq!(4, outcome.base);
        assert_eq!([1, 2, 3], outcome.stat);
    }
}

#[test]
fn a_batch_keeps_sibling_outcomes_when_one_skill_is_unknown() {
    let hero = archer();
    let names = vec!["bogen".to_string(), "armbrust".to_string(), "BOGEN".to_string()];
    let results = Roll::call_many(&hero, &names, 0);
    assert_eq!(3, results.len());
    assert!(results[0].is_ok());
    match results[1].as_ref().unwrap_err() {
        Error::SkillNotFound { name } => assert_eq!("armbrust", name),
        other => panic!("unexpected error: {:?}", other),
    }
    assert!(results[2].is_ok());
}
