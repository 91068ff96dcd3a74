//! The skill-check resolution engine.
//!
//! A check rolls three twenty-sided dice against the three qualities of a
//! skill.  The modifier sum is absorbed by the skill's base level first
//! ([`effective_base`]); whatever exceeds the base spills onto the three
//! attribute values instead ([`stat_penalty`]).  Each die then deducts its
//! deficit from the running pool in order; the pool may go negative
//! mid-sequence and is never floored there.  Two or more maximum dice force
//! a critical failure, two or more minimum dice a critical success.

use vstd::prelude::*;

use rand::Rng;

use crate::error::Error;
use crate::hero::Hero;
use crate::hero::Quality;
use crate::hero::SkillView;
use crate::hero::VALUE_LIMIT;
use crate::hero::find_skill_idx;
use crate::hero::lemma_find_skill_idx;
use crate::hero::lemma_find_skill_idx_first;
use crate::hero::lemma_find_skill_idx_none;
use crate::text::lower;
use crate::text::to_lower_chars;
use crate::text::chars_eq_str;

verus! {

/// The proficiency pool before any die is applied:
/// `max(0, base - modifier_sum)`.  It is never negative.
pub open spec fn effective_base(base: int, mods: int) -> int {
    if base - mods >= 0 {
        base - mods
    } else {
        0
    }
}

/// The part of the modifier sum the base could not absorb:
/// `max(0, modifier_sum - base)`.  It reduces each of the three attribute
/// values and is never negative.
pub open spec fn stat_penalty(base: int, mods: int) -> int {
    if mods - base >= 0 {
        mods - base
    } else {
        0
    }
}

/// What one die deducts from the pool: the part of the die that exceeds the
/// penalty-reduced attribute value, `max(0, die - (stat - penalty))`.
pub open spec fn check_deficit(stat: int, penalty: int, die: int) -> int {
    if die - (stat - penalty) >= 0 {
        die - (stat - penalty)
    } else {
        0
    }
}

/// The pool after the three deficits were deducted in order.  Only the
/// initial pool and the penalty are clamped at zero; the running pool may go
/// negative and stays negative for later deductions.
pub open spec fn remainder_spec(
    base: int,
    mods: int,
    s1: int,
    s2: int,
    s3: int,
    d1: int,
    d2: int,
    d3: int,
) -> int {
    let p = stat_penalty(base, mods);
    effective_base(base, mods) - check_deficit(s1, p, d1) - check_deficit(s2, p, d2)
        - check_deficit(s3, p, d3)
}

/// How many of the three dice show the given value.
pub open spec fn count_eq(d1: int, d2: int, d3: int, v: int) -> int {
    (if d1 == v {
        1int
    } else {
        0int
    }) + (if d2 == v {
        1int
    } else {
        0int
    }) + (if d3 == v {
        1int
    } else {
        0int
    })
}

/// Whether the check succeeds: two or more maximum dice force failure;
/// otherwise a non-negative remainder succeeds, and two or more minimum dice
/// force success whatever the remainder.
pub open spec fn success_spec(
    base: int,
    mods: int,
    s1: int,
    s2: int,
    s3: int,
    d1: int,
    d2: int,
    d3: int,
) -> bool {
    count_eq(d1, d2, d3, 20) < 2 && (remainder_spec(base, mods, s1, s2, s3, d1, d2, d3) >= 0
        || count_eq(d1, d2, d3, 1) > 1)
}

/// Whether the outcome is critical: two or more extreme dice, in either
/// direction.  The direction is told apart by the success flag alone.
pub open spec fn critical_spec(d1: int, d2: int, d3: int) -> bool {
    count_eq(d1, d2, d3, 20) > 1 || count_eq(d1, d2, d3, 1) > 1
}

/// The outcome of one skill check, never mutated after creation.
#[derive(Debug, Clone, Copy, PartialEq, Eq)]
pub struct RollOutcome {
    /// Whether the check succeeded.
    pub success: bool,
    /// Whether the outcome is critical (in the direction `success` tells).
    pub critical: bool,
    /// The final proficiency pool after all deductions.
    pub remainder: isize,
    /// The skill's raw base level, before the modifier was applied.
    pub base: isize,
    /// The sum of all applied modifiers; positive is harder.
    pub mods: isize,
    /// The three checked qualities, in the skill's order.
    pub checks: [Quality; 3],
    /// The attribute values for `checks`, captured at roll time.
    pub stat: [isize; 3],
    /// The three raw dice, each drawn uniformly from 1 to 20.
    pub dice: [isize; 3],
}

/// What the engine promises of an outcome built from explicit inputs.
pub open spec fn outcome_matches(
    o: RollOutcome,
    base: isize,
    mods: isize,
    checks: [Quality; 3],
    stats: [isize; 3],
    dice: [isize; 3],
) -> bool {
    let s1 = stats@[0] as int;
    let s2 = stats@[1] as int;
    let s3 = stats@[2] as int;
    let d1 = dice@[0] as int;
    let d2 = dice@[1] as int;
    let d3 = dice@[2] as int;
    &&& o.base == base
    &&& o.mods == mods
    &&& o.checks == checks
    &&& o.stat == stats
    &&& o.dice == dice
    &&& o.remainder as int == remainder_spec(base as int, mods as int, s1, s2, s3, d1, d2, d3)
    &&& o.success == success_spec(base as int, mods as int, s1, s2, s3, d1, d2, d3)
    &&& o.critical == critical_spec(d1, d2, d3)
}

/// Whether all three dice lie within 1 to 20.
pub open spec fn dice_in_range(dice: [isize; 3]) -> bool {
    forall|k: int| 0 <= k < 3 ==> 1 <= (#[trigger] dice@[k]) as int <= 20
}

/// What resolving a named skill of a hero promises of an `Ok` outcome.
pub open spec fn resolve_matches(
    o: RollOutcome,
    h: Hero,
    sv: SkillView,
    mods: isize,
    dice: [isize; 3],
) -> bool {
    let s1 = h.spec_qualities().spec_get(sv.checks[0]);
    let s2 = h.spec_qualities().spec_get(sv.checks[1]);
    let s3 = h.spec_qualities().spec_get(sv.checks[2]);
    let d1 = dice@[0] as int;
    let d2 = dice@[1] as int;
    let d3 = dice@[2] as int;
    &&& o.base as int == sv.level
    &&& o.mods == mods
    &&& o.checks@ == sv.checks
    &&& o.stat@[0] as int == s1
    &&& o.stat@[1] as int == s2
    &&& o.stat@[2] as int == s3
    &&& o.dice == dice
    &&& o.remainder as int == remainder_spec(sv.level, mods as int, s1, s2, s3, d1, d2, d3)
    &&& o.success == success_spec(sv.level, mods as int, s1, s2, s3, d1, d2, d3)
    &&& o.critical == critical_spec(d1, d2, d3)
}

/// What resolving a named skill with given dice returns: the first catalog
/// entry whose stored name equals the lower-cased query decides the outcome;
/// without one, the error names the skill as it was asked for.
pub open spec fn resolve_post(
    r: Result<RollOutcome, Error>,
    h: Hero,
    name: Seq<char>,
    mods: isize,
    dice: [isize; 3],
) -> bool {
    match find_skill_idx(h.skills_view(), lower(name)) {
        Some(ix) => r matches Ok(o) && resolve_matches(o, h, h.skills_view()[ix], mods, dice),
        None => r matches Err(Error::SkillNotFound { name: n }) && n@ == name,
    }
}

/// What resolving a named skill with fresh dice returns.
pub open spec fn call_post(
    r: Result<RollOutcome, Error>,
    h: Hero,
    name: Seq<char>,
    mods: isize,
) -> bool {
    match find_skill_idx(h.skills_view(), lower(name)) {
        Some(ix) => r matches Ok(o) && dice_in_range(o.dice) && resolve_matches(
            o,
            h,
            h.skills_view()[ix],
            mods,
            o.dice,
        ),
        None => r matches Err(Error::SkillNotFound { name: n }) && n@ == name,
    }
}

/// Relies on rand's `Rng::gen_range` through `thread_rng`: a uniformly
/// distributed integer within the given inclusive range.  Nothing more is
/// assumed of the draw.
#[verifier::external_body]
fn roll_die() -> (r: isize)
    ensures
        1 <= r <= 20,
{
    rand::thread_rng().gen_range(1isize..=20isize)
}

/// The resolution engine.
pub struct Roll;

impl Roll {
    /// Resolves one skill check from explicit inputs: the skill's base
    /// level, its three qualities, the hero's values for them, three dice
    /// and the modifier sum.  Pure and total; an explicit sequential fold
    /// carries the pool across the three checks in order.
    #[verifier::rlimit(60)]
    pub fn resolve_check(
        base: isize,
        checks: [Quality; 3],
        stats: [isize; 3],
        dice: [isize; 3],
        mods: isize,
    ) -> (o: RollOutcome)
        requires
            -(VALUE_LIMIT as int) <= base as int <= VALUE_LIMIT as int,
            -(VALUE_LIMIT as int) <= mods as int <= VALUE_LIMIT as int,
            forall|k: int|
                0 <= k < 3 ==> -(VALUE_LIMIT as int) <= (#[trigger] stats@[k]) as int
                    <= VALUE_LIMIT as int,
            dice_in_range(dice),
        ensures
            outcome_matches(o, base, mods, checks, stats, dice),
    {
        let eff_base: isize = if base - mods >= 0 {
            base - mods
        } else {
            0
        };
        let penalty: isize = if mods - base >= 0 {
            mods - base
        } else {
            0
        };
        let mut pool = eff_base;
        let e1 = stats[0] - penalty;
        let f1: isize = if dice[0] - e1 >= 0 {
            dice[0] - e1
        } else {
            0
        };
        pool = pool - f1;
        let e2 = stats[1] - penalty;
        let f2: isize = if dice[1] - e2 >= 0 {
            dice[1] - e2
        } else {
            0
        };
        pool = pool - f2;
        let e3 = stats[2] - penalty;
        let f3: isize = if dice[2] - e3 >= 0 {
            dice[2] - e3
        } else {
            0
        };
        pool = pool - f3;
        let mut num_max: usize = 0;
        let mut num_min: usize = 0;
        if dice[0] == 20 {
            num_max += 1;
        }
        if dice[1] == 20 {
            num_max += 1;
        }
        if dice[2] == 20 {
            num_max += 1;
        }
        if dice[0] == 1 {
            num_min += 1;
        }
        if dice[1] == 1 {
            num_min += 1;
        }
        if dice[2] == 1 {
            num_min += 1;
        }
        let success = num_max < 2 && (pool >= 0 || num_min > 1);
        let critical = num_max > 1 || num_min > 1;
        RollOutcome { success, critical, remainder: pool, base, mods, checks, stat: stats, dice }
    }

    /// Resolves a named skill of a hero with caller-supplied dice.
    ///
    /// The lookup lowers the query first, so it is case-insensitive; a name
    /// the catalog lacks is a `SkillNotFound` error carrying the query.
    pub fn resolve(hero: &Hero, skill: &str, mods: isize, dice: [isize; 3]) -> (r: Result<
        RollOutcome,
        Error,
    >)
        requires
            hero.wf(),
            -(VALUE_LIMIT as int) <= mods as int <= VALUE_LIMIT as int,
            dice_in_range(dice),
        ensures
            resolve_post(r, *hero, skill@, mods, dice),
    {
        let low = to_lower_chars(skill);
        let skills = hero.skills();
        let n = skills.len();
        let mut i: usize = 0;
        while i < n
            invariant
                i <= n,
                n == hero.skills_view().len(),
                skills@ == hero.spec_skills(),
                low@ == lower(skill@),
                hero.wf(),
                -(VALUE_LIMIT as int) <= mods as int <= VALUE_LIMIT as int,
                dice_in_range(dice),
                forall|j: int|
                    0 <= j < i ==> (#[trigger] hero.skills_view()[j]).name != lower(skill@),
            decreases n - i,
        {
            let same = chars_eq_str(&low, skills[i].name.as_str());
            if same {
                proof {
                    assert(hero.skills_view()[i as int].name == lower(skill@));
                    lemma_find_skill_idx_first(hero.skills_view(), lower(skill@), i as int);
                }
                let sk = &skills[i];
                let s1 = hero.qualities().get(sk.checks[0]);
                let s2 = hero.qualities().get(sk.checks[1]);
                let s3 = hero.qualities().get(sk.checks[2]);
                let stats: [isize; 3] = [s1, s2, s3];
                proof {
                    assert(hero.skills_view()[i as int] == sk@);
                    assert(stats@[0] == s1 && stats@[1] == s2 && stats@[2] == s3);
                }
                let o = Roll::resolve_check(sk.level, sk.checks, stats, dice, mods);
                proof {
                    assert(o.checks@ == sk.checks@);
                    assert(o.stat@[0] == s1 && o.stat@[1] == s2 && o.stat@[2] == s3);
                    assert(sk@.checks[0] == sk.checks@[0]);
                }
                return Ok(o);
            }
            i += 1;
        }
        proof {
            lemma_find_skill_idx_none(hero.skills_view(), lower(skill@));
        }
        Err(Error::SkillNotFound { name: skill.to_owned() })
    }

    /// Resolves a named skill with three fresh, independently drawn dice.
    ///
    /// Whatever the dice came out as, the outcome relates to them exactly as
    /// [`Roll::resolve`] promises.
    pub fn call(hero: &Hero, skill: &str, mods: isize) -> (r: Result<RollOutcome, Error>)
        requires
            hero.wf(),
            -(VALUE_LIMIT as int) <= mods as int <= VALUE_LIMIT as int,
        ensures
            call_post(r, *hero, skill@, mods),
    {
        let dice: [isize; 3] = [roll_die(), roll_die(), roll_die()];
        let r = Roll::resolve(hero, skill, mods, dice);
        proof {
            assert(dice_in_range(dice));
        }
        r
    }

    /// Resolves several skills independently, each with fresh dice and the
    /// same modifier sum.  A name the catalog lacks yields its own error
    /// entry and does not discard sibling outcomes.
    pub fn call_many(hero: &Hero, skills: &Vec<String>, mods: isize) -> (rs: Vec<
        Result<RollOutcome, Error>,
    >)
        requires
            hero.wf(),
            -(VALUE_LIMIT as int) <= mods as int <= VALUE_LIMIT as int,
        ensures
            rs@.len() == skills@.len(),
            forall|i: int|
                0 <= i < rs@.len() ==> call_post(#[trigger] rs@[i], *hero, skills@[i]@, mods),
    {
        let mut rs: Vec<Result<RollOutcome, Error>> = Vec::new();
        let n = skills.len();
        let mut i: usize = 0;
        while i < n
            invariant
                i <= n,
                n == skills@.len(),
                rs@.len() == i,
                hero.wf(),
                -(VALUE_LIMIT as int) <= mods as int <= VALUE_LIMIT as int,
                forall|j: int|
                    0 <= j < i ==> call_post(#[trigger] rs@[j], *hero, skills@[j]@, mods),
            decreases n - i,
        {
            rs.push(Roll::call(hero, skills[i].as_str(), mods));
            i += 1;
        }
        rs
    }
}

/// The effective base is never negative, whatever the base level and the
/// modifier sum.
pub proof fn lemma_effective_base_nonneg(base: int, mods: int)
    ensures
        effective_base(base, mods) >= 0,
{
}

/// The stat penalty is never negative, and it is zero whenever the modifier
/// sum does not exceed the base level.
pub proof fn lemma_stat_penalty_nonneg(base: int, mods: int)
    ensures
        stat_penalty(base, mods) >= 0,
        mods <= base ==> stat_penalty(base, mods) == 0,
{
}

/// Two or more maximum dice force a critical failure, whatever the
/// remainder.
pub proof fn lemma_two_max_dice_fail(
    base: int,
    mods: int,
    s1: int,
    s2: int,
    s3: int,
    d1: int,
    d2: int,
    d3: int,
)
    requires
        count_eq(d1, d2, d3, 20) >= 2,
    ensures
        !success_spec(base, mods, s1, s2, s3, d1, d2, d3),
        critical_spec(d1, d2, d3),
{
}

/// Two or more minimum dice force a critical success, whatever the
/// remainder.
pub proof fn lemma_two_min_dice_succeed(
    base: int,
    mods: int,
    s1: int,
    s2: int,
    s3: int,
    d1: int,
    d2: int,
    d3: int,
)
    requires
        1 <= d1 <= 20,
        1 <= d2 <= 20,
        1 <= d3 <= 20,
        count_eq(d1, d2, d3, 1) >= 2,
    ensures
        success_spec(base, mods, s1, s2, s3, d1, d2, d3),
        critical_spec(d1, d2, d3),
{
}

/// Exactly one maximum die and exactly one minimum die with a remainder of
/// exactly zero is a plain, uncritical success.
pub proof fn lemma_single_extremes_succeed(
    base: int,
    mods: int,
    s1: int,
    s2: int,
    s3: int,
    d1: int,
    d2: int,
    d3: int,
)
    requires
        count_eq(d1, d2, d3, 20) == 1,
        count_eq(d1, d2, d3, 1) == 1,
        remainder_spec(base, mods, s1, s2, s3, d1, d2, d3) == 0,
    ensures
        success_spec(base, mods, s1, s2, s3, d1, d2, d3),
        !critical_spec(d1, d2, d3),
{
}

/// Resolution is deterministic: two outcomes the engine vouches for on the
/// same inputs are equal in every field, so calling the engine twice with
/// identical inputs (dice included) yields identical outcomes.
pub proof fn lemma_resolution_deterministic(
    o1: RollOutcome,
    o2: RollOutcome,
    base: isize,
    mods: isize,
    checks: [Quality; 3],
    stats: [isize; 3],
    dice: [isize; 3],
)
    requires
        outcome_matches(o1, base, mods, checks, stats, dice),
        outcome_matches(o2, base, mods, checks, stats, dice),
    ensures
        o1 == o2,
{
}

/// Lookup is case-insensitive: two queries with the same lower-case image
/// resolve to the same catalog entry, or both to none.
pub proof fn lemma_lookup_case_insensitive(h: Hero, a: Seq<char>, b: Seq<char>)
    requires
        lower(a) == lower(b),
    ensures
        find_skill_idx(h.skills_view(), lower(a)) == find_skill_idx(h.skills_view(), lower(b)),
{
}

/// In a well-formed catalog, whose stored names are lower-cased, a failed
/// lookup means that no entry matches the query case-insensitively: no
/// stored name has the query's lower-case image.
pub proof fn lemma_miss_means_no_match(h: Hero, query: Seq<char>)
    requires
        h.wf(),
        find_skill_idx(h.skills_view(), lower(query)) is None,
    ensures
        forall|i: int|
            0 <= i < h.spec_skills().len() ==> lower(
                (#[trigger] h.spec_skills()[i]).name@,
            ) != lower(query),
{
    lemma_find_skill_idx(h.skills_view(), lower(query));
    assert forall|i: int|
        0 <= i < h.spec_skills().len() implies lower((#[trigger] h.spec_skills()[i]).name@)
        != lower(query) by {
        assert(h.skills_view()[i].name == h.spec_skills()[i].name@);
        assert(h.spec_skills()[i].name@ == lower(h.spec_skills()[i].name@));
    }
}

/// A catalogued skill is found under any casing of its name, and the entry
/// found is the one that carries the lower-cased query.
pub proof fn lemma_catalog_hit(h: Hero, ix: int, query: Seq<char>)
    requires
        0 <= ix < h.skills_view().len(),
        lower(query) == h.skills_view()[ix].name,
    ensures
        find_skill_idx(h.skills_view(), lower(query)) is Some,
        h.skills_view()[find_skill_idx(h.skills_view(), lower(query))->0].name == lower(query),
{
    lemma_find_skill_idx(h.skills_view(), lower(query));
}

} // verus!
