use dsa::Hero;
use dsa::Quality;
use dsa::error::Error;
use dsa::hero::QualityEntry;
use dsa::hero::Skill;
use dsa::hero::SkillEntry;
use dsa::hero::derive_astral;
use dsa::hero::derive_health;
use dsa::hero::derive_stamina;
use dsa::hero::half_round_exec;
use dsa::text::lower_string;
use dsa::text::to_lower_chars;

fn skill_entry(name: &str, level: isize, checks: &[&str]) -> SkillEntry {
    SkillEntry {
        name: name.to_string(),
        level,
        checks: checks.iter().map(|c| c.to_string()).collect(),
    }
}

fn quality_entry(name: &str, base: isize, modi: isize) -> QualityEntry {
    QualityEntry { name: name.to_string(), base, modi }
}

#[test]
fn quality_aliases_parse_case_insensitively() {
    assert_eq!(Quality::Wisdom, Quality::from_str("KluGHeiT").unwrap());
    assert_eq!(Quality::Courage, Quality::from_str("MU").unwrap());
    assert_eq!(Quality::Courage, Quality::from_str("mut").unwrap());
    assert_eq!(Quality::Courage, Quality::from_str("courage").unwrap());
    assert_eq!(Quality::Intuition, Quality::from_str("Intuition").unwrap());
    assert_eq!(Quality::Charisma, Quality::from_str("CH").unwrap());
    assert_eq!(Quality::Dexterity, Quality::from_str("fingerfertigkeit").unwrap());
    assert_eq!(Quality::Agility, Quality::from_str("Gewandtheit").unwrap());
    assert_eq!(Quality::Constitution, Quality::from_str("konstitution").unwrap());
    assert_eq!(Quality::Strength, Quality::from_str("KÖRPERKRAFT").unwrap());
    assert_eq!(Quality::Strength, Quality::from_str("kk").unwrap());
    assert_eq!(Quality::SocialStatus, Quality::from_str("sozialstatus").unwrap());
    assert_eq!(Quality::MagicResistance, Quality::from_str("magicrestistance").unwrap());
    assert_eq!(Quality::Initiative, Quality::from_str("INI").unwrap());
    assert_eq!(Quality::CloseCombat, Quality::from_str("nahkampf").unwrap());
    assert_eq!(Quality::CloseCombat, Quality::from_str("AT").unwrap());
    assert_eq!(Quality::Parry, Quality::from_str("parrieren").unwrap());
    assert_eq!(Quality::RangedCombat, Quality::from_str("Fernkampf").unwrap());
    assert_eq!(Quality::RangedCombat, Quality::from_str("fk").unwrap());
}

#[test]
fn unknown_quality_is_a_typed_error() {
    let err = Quality::from_str("frobnicate").unwrap_err();
    match err {
        Error::UnknownQuality { token } => assert_eq!("frobnicate", token),
        other => panic!("unexpected error: {:?}", other),
    }
}

#[test]
fn lowercasing_folds_ascii_and_umlauts() {
    assert_eq!("körperkraft", lower_string("KörperKraft"));
    assert_eq!("abcz", lower_string("AbCZ"));
    assert_eq!("äöü 12!", lower_string("ÄÖÜ 12!"));
    let chars = to_lower_chars("MU");
    assert_eq!(vec!['m', 'u'], chars);
}

#[test]
fn half_round_rounds_ties_away_from_zero() {
    assert_eq!(2, half_round_exec(3));
    assert_eq!(1, half_round_exec(2));
    assert_eq!(-2, half_round_exec(-3));
    assert_eq!(-1, half_round_exec(-2));
    assert_eq!(0, half_round_exec(0));
    assert_eq!(1, half_round_exec(1));
    assert_eq!(-1, half_round_exec(-1));
}

#[test]
fn derivation_follows_the_three_formulas() {
    let mut hero = Hero::default();
    hero.set_quality(Quality::Constitution, 13);
    hero.set_quality(Quality::Strength, 14);
    hero.set_quality(Quality::Courage, 12);
    hero.set_quality(Quality::Agility, 11);
    hero.set_quality(Quality::Intuition, 13);
    hero.set_quality(Quality::Charisma, 10);
    // health: round((2*13 + 14) / 2) = 20
    assert_eq!(20, derive_health(hero.qualities(), 0));
    // stamina: round((12 + 13 + 11) / 2) = 18
    assert_eq!(18, derive_stamina(hero.qualities(), 0));
    // astral: round((12 + 13 + 10) / 2) = round(17.5) = 18
    assert_eq!(18, derive_astral(hero.qualities(), 0));
    hero.derive_secondary(5, -3, 1);
    assert_eq!(25, hero.health());
    assert_eq!(15, hero.stamina());
    assert_eq!(19, hero.astral());
}

#[test]
fn derivation_handles_negative_odd_sums() {
    let mut hero = Hero::default();
    hero.set_quality(Quality::Courage, -3);
    // stamina: round((-3 + 0 + 0) / 2) = round(-1.5) = -2
    assert_eq!(-2, derive_stamina(hero.qualities(), 0));
}

#[test]
fn missing_attributes_default_to_zero() {
    let hero = Hero::default();
    assert_eq!(0, hero.qualities().get(Quality::Constitution));
    assert_eq!(7, derive_health(hero.qualities(), 7));
}

#[test]
fn from_entries_builds_the_hero() {
    let qualities = vec![
        quality_entry("lebensenergie", 30, 0),
        quality_entry("ausdauer", 20, 2),
        quality_entry("astralenergie", 10, -1),
        quality_entry("KO", 12, 1),
        quality_entry("kk", 14, 0),
        quality_entry("MU", 12, 0),
        quality_entry("GE", 11, 0),
        quality_entry("in", 13, 0),
        quality_entry("ch", 10, 0),
    ];
    let skills = vec![skill_entry("Bogen", 4, &["GE", "FF", "KK"])];
    let hero = Hero::from_entries("Elvenor Elvington".to_string(), &qualities, &skills);
    assert_eq!("Elvenor Elvington", hero.name().as_str());
    assert_eq!(13, hero.qualities().get(Quality::Constitution));
    assert_eq!(14, hero.qualities().get(Quality::Strength));
    // health: round((2*13 + 14) / 2) + 30 = 50
    assert_eq!(50, hero.health());
    // stamina: round((12 + 13 + 11) / 2) + 22 = 18 + 22 = 40
    assert_eq!(40, hero.stamina());
    // astral: round((12 + 13 + 10) / 2) + 9 = 18 + 9 = 27
    assert_eq!(27, hero.astral());
    assert_eq!(1, hero.skills().len());
    let skill = &hero.skills()[0];
    assert_eq!("bogen", skill.name);
    assert_eq!(4, skill.level);
    assert_eq!([Quality::Agility, Quality::Dexterity, Quality::Strength], skill.checks);
}

#[test]
fn from_entries_drops_unknown_and_malformed_entries() {
    let qualities = vec![
        quality_entry("frobnicate", 99, 0),
        quality_entry("mu", 8, 0),
    ];
    let skills = vec![
        skill_entry("good", 4, &["mu", "mu", "mu"]),
        skill_entry("two-checks", 4, &["mu", "kl"]),
        skill_entry("bad-check", 4, &["mu", "kl", "frobnicate"]),
        skill_entry("four-checks", 4, &["mu", "kl", "in", "ch"]),
    ];
    let hero = Hero::from_entries("X".to_string(), &qualities, &skills);
    assert_eq!(8, hero.qualities().get(Quality::Courage));
    assert_eq!(0, hero.qualities().get(Quality::Wisdom));
    assert_eq!(1, hero.skills().len());
    assert_eq!("good", hero.skills()[0].name);
}

#[test]
fn from_entries_lets_later_entries_override_earlier_ones() {
    let qualities = vec![
        quality_entry("mu", 3, 0),
        quality_entry("MU", 7, 0),
        quality_entry("lebensenergie", 5, 0),
        quality_entry("Lebensenergie", 9, 0),
    ];
    let skills = vec![
        skill_entry("bogen", 4, &["mu", "mu", "mu"]),
        skill_entry("dolche", 2, &["mu", "mu", "mu"]),
        skill_entry("BOGEN", 6, &["kl", "kl", "kl"]),
    ];
    let hero = Hero::from_entries("X".to_string(), &qualities, &skills);
    assert_eq!(7, hero.qualities().get(Quality::Courage));
    // the later "Lebensenergie" wins: health = round(0/2) + 9
    assert_eq!(9, hero.health());
    // "BOGEN" replaces "bogen" in place, keeping its slot before "dolche"
    assert_eq!(2, hero.skills().len());
    assert_eq!("bogen", hero.skills()[0].name);
    assert_eq!(6, hero.skills()[0].level);
    assert_eq!([Quality::Wisdom, Quality::Wisdom, Quality::Wisdom], hero.skills()[0].checks);
    assert_eq!("dolche", hero.skills()[1].name);
}

#[test]
fn rederiving_from_identical_input_is_bit_identical() {
    let qualities = vec![
        quality_entry("lebensenergie", 30, 0),
        quality_entry("KO", 12, 1),
        quality_entry("kk", 14, 0),
    ];
    let skills = vec![skill_entry("Bogen", 4, &["GE", "FF", "KK"])];
    let a = Hero::from_entries("X".to_string(), &qualities, &skills);
    let b = Hero::from_entries("X".to_string(), &qualities, &skills);
    assert_eq!(a.name(), b.name());
    assert_eq!(a.health(), b.health());
    assert_eq!(a.stamina(), b.stamina());
    assert_eq!(a.astral(), b.astral());
    for q in [
        Quality::Courage,
        Quality::Wisdom,
        Quality::Intuition,
        Quality::Charisma,
        Quality::Dexterity,
        Quality::Agility,
        Quality::Constitution,
        Quality::Strength,
        Quality::SocialStatus,
        Quality::MagicResistance,
        Quality::Initiative,
        Quality::CloseCombat,
        Quality::Parry,
        Quality::RangedCombat,
    ] {
        assert_eq!(a.qualities().get(q), b.qualities().get(q));
    }
    assert_eq!(a.skills().len(), b.skills().len());
    assert_eq!(a.skills()[0].name, b.skills()[0].name);
    assert_eq!(a.skills()[0].level, b.skills()[0].level);
    assert_eq!(a.skills()[0].checks, b.skills()[0].checks);
}

#[test]
fn skill_from_entry_reports_each_error() {
    let malformed = Skill::from_entry(&skill_entry("zwei", 4, &["mu", "kl"])).unwrap_err();
    match malformed {
        Error::MalformedSkill { name } => assert_eq!("zwei", name),
        other => panic!("unexpected error: {:?}", other),
    }
    let unknown = Skill::from_entry(&skill_entry("s", 4, &["mu", "xx", "kl"])).unwrap_err();
    match unknown {
        Error::UnknownQuality { token } => assert_eq!("xx", token),
        other => panic!("unexpected error: {:?}", other),
    }
    let ok = Skill::from_entry(&skill_entry("Bogen", 4, &["GE", "FF", "KK"])).unwrap();
    assert_eq!("bogen", ok.name);
    assert_eq!(4, ok.level);
    assert_eq!([Quality::Agility, Quality::Dexterity, Quality::Strength], ok.checks);
}

#[test]
fn cloned_hero_agrees_with_the_original() {
    let qualities = vec![quality_entry("mu", 8, 0), quality_entry("lebensenergie", 3, 0)];
    let skills = vec![skill_entry("bogen", 4, &["mu", "mu", "mu"])];
    let hero = Hero::from_entries("X".to_string(), &qualities, &skills);
    let copy = hero.clone();
    assert_eq!(hero.name(), copy.name());
    assert_eq!(hero.health(), copy.health());
    assert_eq!(hero.qualities().get(Quality::Courage), copy.qualities().get(Quality::Courage));
    assert_eq!(hero.skills().len(), copy.skills().len());
    assert_eq!(hero.skills()[0].name, copy.skills()[0].name);
}
