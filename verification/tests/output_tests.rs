use dsa::Hero;
use dsa::Quality;
use dsa::commands::Dump;
use dsa::commands::Roll;
use dsa::output::Output;

#[test]
fn dump_emits_the_whole_hero() {
    let mut hero = Hero::default();
    hero.set_quality(Quality::Courage, 8);
    hero.add_skill("bogen", 4, [Quality::Courage, Quality::Courage, Quality::Courage]);
    hero.derive_secondary(3, 0, 0);
    let out = Dump.call(&hero);
    match out {
        Output::Dump(copy) => {
            assert_eq!(hero.name(), copy.name());
            assert_eq!(hero.health(), copy.health());
            assert_eq!(hero.stamina(), copy.stamina());
            assert_eq!(hero.astral(), copy.astral());
            assert_eq!(
                hero.qualities().get(Quality::Courage),
                copy.qualities().get(Quality::Courage)
            );
            assert_eq!(1, copy.skills().len());
            assert_eq!("bogen", copy.skills()[0].name);
        },
        other => panic!("unexpected output: {:?}", other),
    }
}

#[test]
fn outputs_carry_plain_values_for_rendering() {
    let mut hero = Hero::default();
    hero.add_skill("bogen", 4, [Quality::Courage, Quality::Courage, Quality::Courage]);
    let outcome = Roll::resolve(&hero, "bogen", 0, [2, 2, 2]).unwrap();
    let roll = Output::Roll(outcome);
    match roll {
        Output::Roll(o) => assert_eq!(4, o.base),
        other => panic!("unexpected output: {:?}", other),
    }
    let gauge = Output::Gauge { name: "health".to_string(), current: 1, max: 10 };
    match gauge {
        Output::Gauge { name, current, max } => {
            assert_eq!("health", name);
            assert_eq!(1, current);
            assert_eq!(10, max);
        },
        other => panic!("unexpected output: {:?}", other),
    }
}
