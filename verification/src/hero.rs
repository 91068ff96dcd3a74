//! The character model: attributes, the skill catalog, and the derivation of
//! secondary attributes.

use vstd::prelude::*;

use crate::error::Error;
use crate::text::lower;
use crate::text::to_lower_chars;
use crate::text::chars_eq_str;

verus! {

/// Bound on every attribute value, skill level, base offset and modifier sum
/// the library accepts.  It is wide enough for campaign-scale numbers and
/// keeps every intermediate sum of the derivation and resolution formulas
/// within a 32-bit signed machine integer.
pub const VALUE_LIMIT: isize = 100_000_000;

/// Base attributes of a hero: a closed set of fourteen named capabilities.
#[derive(Debug, PartialEq, Eq, Structural, PartialOrd, Ord, Hash, Clone, Copy)]
pub enum Quality {
    /// MU, Mut, courage
    Courage,
    /// KL, Klugheit, wisdom
    Wisdom,
    /// IN, Intuition
    Intuition,
    /// CH, Charisma
    Charisma,
    /// FF, Fingerfertigkeit, dexterity
    Dexterity,
    /// GE, Gewandtheit, agility
    Agility,
    /// KO, Konstitution, constitution
    Constitution,
    /// KK, Körperkraft, strength
    Strength,
    /// GS, Sozialstatus, socialstatus
    SocialStatus,
    /// MR, Magieresistenz, magicrestistance
    MagicResistance,
    /// INI, Initiative
    Initiative,
    /// AT, Attacke, nahkampf, combat, closecombat
    CloseCombat,
    /// PA, Parrieren, parry
    Parry,
    /// FK, Fernkampf, ranged, rangedcombat
    RangedCombat,
}

/// The quality named by an alias, if any.
///
/// Aliases are matched on the lower-case image of the input (see
/// [`lower`]); each quality answers to its abbreviation and to at least one
/// full-word spelling per locale.
pub open spec fn quality_of_name(s: Seq<char>) -> Option<Quality> {
    let l = lower(s);
    if l == "mu"@ || l == "mut"@ || l == "courage"@ {
        Some(Quality::Courage)
    } else if l == "kl"@ || l == "klugheit"@ || l == "wisdom"@ {
        Some(Quality::Wisdom)
    } else if l == "in"@ || l == "intuition"@ {
        Some(Quality::Intuition)
    } else if l == "ch"@ || l == "charisma"@ {
        Some(Quality::Charisma)
    } else if l == "ff"@ || l == "fingerfertigkeit"@ || l == "dexterity"@ {
        Some(Quality::Dexterity)
    } else if l == "ge"@ || l == "gewandtheit"@ || l == "agility"@ {
        Some(Quality::Agility)
    } else if l == "ko"@ || l == "konstitution"@ || l == "constitution"@ {
        Some(Quality::Constitution)
    } else if l == "kk"@ || l == "körperkraft"@ || l == "strength"@ {
        Some(Quality::Strength)
    } else if l == "gs"@ || l == "sozialstatus"@ || l == "socialstatus"@ {
        Some(Quality::SocialStatus)
    } else if l == "mr"@ || l == "magieresistenz"@ || l == "magicrestistance"@ {
        Some(Quality::MagicResistance)
    } else if l == "ini"@ || l == "initiative"@ {
        Some(Quality::Initiative)
    } else if l == "at"@ || l == "attacke"@ || l == "nahkampf"@ || l == "combat"@
        || l == "closecombat"@ {
        Some(Quality::CloseCombat)
    } else if l == "pa"@ || l == "parrieren"@ || l == "parry"@ {
        Some(Quality::Parry)
    } else if l == "fk"@ || l == "fernkampf"@ || l == "ranged"@ || l == "rangedcombat"@ {
        Some(Quality::RangedCombat)
    } else {
        None
    }
}

impl Quality {
    /// Parses a textual alias, case-insensitively, into a quality.
    ///
    /// An unrecognized alias is a typed, recoverable error carrying the
    /// offending token; it is never silently mapped to a default quality.
    pub fn from_str(input: &str) -> (r: Result<Quality, Error>)
        ensures
            match quality_of_name(input@) {
                Some(q) => r == Ok::<Quality, Error>(q),
                None => r matches Err(Error::UnknownQuality { token }) && token@ == input@,
            },
    {
        let low = to_lower_chars(input);
        if chars_eq_str(&low, "mu") || chars_eq_str(&low, "mut") || chars_eq_str(&low, "courage") {
            Ok(Quality::Courage)
        } else if chars_eq_str(&low, "kl") || chars_eq_str(&low, "klugheit")
            || chars_eq_str(&low, "wisdom") {
            Ok(Quality::Wisdom)
        } else if chars_eq_str(&low, "in") || chars_eq_str(&low, "intuition") {
            Ok(Quality::Intuition)
        } else if chars_eq_str(&low, "ch") || chars_eq_str(&low, "charisma") {
            Ok(Quality::Charisma)
        } else if chars_eq_str(&low, "ff") || chars_eq_str(&low, "fingerfertigkeit")
            || chars_eq_str(&low, "dexterity") {
            Ok(Quality::Dexterity)
        } else if chars_eq_str(&low, "ge") || chars_eq_str(&low, "gewandtheit")
            || chars_eq_str(&low, "agility") {
            Ok(Quality::Agility)
        } else if chars_eq_str(&low, "ko") || chars_eq_str(&low, "konstitution")
            || chars_eq_str(&low, "constitution") {
            Ok(Quality::Constitution)
        } else if chars_eq_str(&low, "kk") || chars_eq_str(&low, "körperkraft")
            || chars_eq_str(&low, "strength") {
            Ok(Quality::Strength)
        } else if chars_eq_str(&low, "gs") || chars_eq_str(&low, "sozialstatus")
            || chars_eq_str(&low, "socialstatus") {
            Ok(Quality::SocialStatus)
        } else if chars_eq_str(&low, "mr") || chars_eq_str(&low, "magieresistenz")
            || chars_eq_str(&low, "magicrestistance") {
            Ok(Quality::MagicResistance)
        } else if chars_eq_str(&low, "ini") || chars_eq_str(&low, "initiative") {
            Ok(Quality::Initiative)
        } else if chars_eq_str(&low, "at") || chars_eq_str(&low, "attacke")
            || chars_eq_str(&low, "nahkampf") || chars_eq_str(&low, "combat")
            || chars_eq_str(&low, "closecombat") {
            Ok(Quality::CloseCombat)
        } else if chars_eq_str(&low, "pa") || chars_eq_str(&low, "parrieren")
            || chars_eq_str(&low, "parry") {
            Ok(Quality::Parry)
        } else if chars_eq_str(&low, "fk") || chars_eq_str(&low, "fernkampf")
            || chars_eq_str(&low, "ranged") || chars_eq_str(&low, "rangedcombat") {
            Ok(Quality::RangedCombat)
        } else {
            Err(Error::UnknownQuality { token: input.to_owned() })
        }
    }

    /// Position of the quality in the fixed order of the fourteen variants.
    pub open spec fn spec_index(self) -> int {
        match self {
            Quality::Courage => 0,
            Quality::Wisdom => 1,
            Quality::Intuition => 2,
            Quality::Charisma => 3,
            Quality::Dexterity => 4,
            Quality::Agility => 5,
            Quality::Constitution => 6,
            Quality::Strength => 7,
            Quality::SocialStatus => 8,
            Quality::MagicResistance => 9,
            Quality::Initiative => 10,
            Quality::CloseCombat => 11,
            Quality::Parry => 12,
            Quality::RangedCombat => 13,
        }
    }

    /// Computes [`Quality::spec_index`].
    pub fn index(&self) -> (i: usize)
        ensures
            i == self.spec_index(),
            i < 14,
    {
        match self {
            Quality::Courage => 0,
            Quality::Wisdom => 1,
            Quality::Intuition => 2,
            Quality::Charisma => 3,
            Quality::Dexterity => 4,
            Quality::Agility => 5,
            Quality::Constitution => 6,
            Quality::Strength => 7,
            Quality::SocialStatus => 8,
            Quality::MagicResistance => 9,
            Quality::Initiative => 10,
            Quality::CloseCombat => 11,
            Quality::Parry => 12,
            Quality::RangedCombat => 13,
        }
    }
}

/// Distinct qualities sit at distinct positions.
pub proof fn lemma_index_injective(a: Quality, b: Quality)
    requires
        a.spec_index() == b.spec_index(),
    ensures
        a == b,
{
}

/// Rounding of `s / 2` to the nearest integer, ties away from zero.
///
/// All three derivation formulas divide an integer sum by two; this is the
/// single rounding rule the library commits to.
pub open spec fn half_round(s: int) -> int {
    if s % 2 == 0 {
        s / 2
    } else if s >= 0 {
        s / 2 + 1
    } else {
        s / 2
    }
}

/// Computes [`half_round`] on machine integers.
pub fn half_round_exec(s: isize) -> (r: isize)
    requires
        isize::MIN + 2 <= s <= isize::MAX - 1,
    ensures
        r == half_round(s as int),
{
    if s >= 0 {
        (s + 1) / 2
    } else {
        -((-s + 1) / 2)
    }
}

/// The attribute map of a hero: one integer value per quality.
///
/// Every quality is always present; a value that was never set is 0, so a
/// missing attribute is not an error anywhere in the library.  All values are
/// bounded by [`VALUE_LIMIT`].
#[derive(Debug)]
pub struct QualityMap {
    values: Vec<isize>,
}

impl QualityMap {
    #[verifier::type_invariant]
    spec fn inv(self) -> bool {
        &&& self.values@.len() == 14
        &&& forall|i: int|
            0 <= i < 14 ==> -(VALUE_LIMIT as int) <= (#[trigger] self.values@[i]) as int
                <= VALUE_LIMIT as int
    }

    /// The value stored for a quality.
    pub closed spec fn spec_get(self, q: Quality) -> int {
        self.values@[q.spec_index()] as int
    }

    /// An empty map: every quality has value 0.
    pub fn new() -> (r: QualityMap)
        ensures
            forall|q: Quality| r.spec_get(q) == 0,
    {
        let mut values: Vec<isize> = Vec::new();
        let mut i: usize = 0;
        while i < 14
            invariant
                i <= 14,
                values@.len() == i,
                forall|j: int| 0 <= j < i ==> values@[j] == 0isize,
            decreases 14 - i,
        {
            values.push(0);
            i += 1;
        }
        QualityMap { values }
    }

    /// Reads the value of a quality.
    pub fn get(&self, q: Quality) -> (v: isize)
        ensures
            v as int == self.spec_get(q),
            -(VALUE_LIMIT as int) <= v as int <= VALUE_LIMIT as int,
    {
        proof {
            use_type_invariant(self);
        }
        let i = q.index();
        self.values[i]
    }

    /// Stores a value for a quality, leaving every other quality unchanged.
    pub fn set(&mut self, q: Quality, v: isize)
        requires
            -(VALUE_LIMIT as int) <= v as int <= VALUE_LIMIT as int,
        ensures
            forall|p: Quality| #[trigger]
                final(self).spec_get(p) == if p == q {
                    v as int
                } else {
                    old(self).spec_get(p)
                },
    {
        proof {
            use_type_invariant(&*self);
        }
        let i = q.index();
        let mut nv: Vec<isize> = Vec::new();
        let mut j: usize = 0;
        while j < 14
            invariant
                j <= 14,
                nv@.len() == j,
                i == q.spec_index(),
                i < 14,
                self.values@.len() == 14,
                -(VALUE_LIMIT as int) <= v as int <= VALUE_LIMIT as int,
                forall|k: int|
                    0 <= k < 14 ==> -(VALUE_LIMIT as int) <= (#[trigger] self.values@[k]) as int
                        <= VALUE_LIMIT as int,
                forall|k: int|
                    0 <= k < j ==> nv@[k] == if k == i {
                        v
                    } else {
                        self.values@[k]
                    },
            decreases 14 - j,
        {
            if j == i {
                nv.push(v);
            } else {
                nv.push(self.values[j]);
            }
            j += 1;
        }
        self.values = nv;
        proof {
            assert forall|p: Quality| #[trigger] self.spec_get(p) == if p == q {
                v as int
            } else {
                old(self).spec_get(p)
            } by {
                if p != q && p.spec_index() == q.spec_index() {
                    lemma_index_injective(p, q);
                }
            }
        }
    }
}

/// Derived maximum health: `round((2 * Constitution + Strength) / 2)` plus
/// the base offset.
pub open spec fn derived_health(q: QualityMap, base: int) -> int {
    half_round(2 * q.spec_get(Quality::Constitution) + q.spec_get(Quality::Strength)) + base
}

/// Derived maximum stamina: `round((Courage + Constitution + Agility) / 2)`
/// plus the base offset.
pub open spec fn derived_stamina(q: QualityMap, base: int) -> int {
    half_round(
        q.spec_get(Quality::Courage) + q.spec_get(Quality::Constitution) + q.spec_get(
            Quality::Agility,
        ),
    ) + base
}

/// Derived maximum astral reserve: `round((Courage + Intuition + Charisma) / 2)`
/// plus the base offset.
pub open spec fn derived_astral(q: QualityMap, base: int) -> int {
    half_round(
        q.spec_get(Quality::Courage) + q.spec_get(Quality::Intuition) + q.spec_get(
            Quality::Charisma,
        ),
    ) + base
}

/// Computes [`derived_health`]; total over its domain, it never fails.
pub fn derive_health(q: &QualityMap, base: isize) -> (r: isize)
    requires
        -(VALUE_LIMIT as int) <= base as int <= VALUE_LIMIT as int,
    ensures
        r as int == derived_health(*q, base as int),
{
    let ko = q.get(Quality::Constitution);
    let kk = q.get(Quality::Strength);
    half_round_exec(2 * ko + kk) + base
}

/// Computes [`derived_stamina`]; total over its domain, it never fails.
pub fn derive_stamina(q: &QualityMap, base: isize) -> (r: isize)
    requires
        -(VALUE_LIMIT as int) <= base as int <= VALUE_LIMIT as int,
    ensures
        r as int == derived_stamina(*q, base as int),
{
    let mu = q.get(Quality::Courage);
    let ko = q.get(Quality::Constitution);
    let ge = q.get(Quality::Agility);
    half_round_exec(mu + ko + ge) + base
}

/// Computes [`derived_astral`]; total over its domain, it never fails.
pub fn derive_astral(q: &QualityMap, base: isize) -> (r: isize)
    requires
        -(VALUE_LIMIT as int) <= base as int <= VALUE_LIMIT as int,
    ensures
        r as int == derived_astral(*q, base as int),
{
    let mu = q.get(Quality::Courage);
    let intu = q.get(Quality::Intuition);
    let ch = q.get(Quality::Charisma);
    half_round_exec(mu + intu + ch) + base
}

/// A named, leveled skill, checked against exactly three qualities.
///
/// The three-attribute invariant of the rules is enforced at the type level
/// by the fixed-size `checks` array.  Within a hero's catalog the name is
/// stored lower-cased, so lookups are case-insensitive.
#[derive(Debug)]
pub struct Skill {
    /// Skill name, lower-cased within a catalog.
    pub name: String,
    /// Base proficiency level.
    pub level: isize,
    /// The three qualities the skill is checked against, in rolling order.
    pub checks: [Quality; 3],
}

/// The mathematical image of a [`Skill`].
pub struct SkillView {
    /// The skill name's characters.
    pub name: Seq<char>,
    /// Base proficiency level.
    pub level: int,
    /// The three qualities the skill is checked against, in rolling order.
    pub checks: Seq<Quality>,
}

impl View for Skill {
    type V = SkillView;

    open spec fn view(&self) -> SkillView {
        SkillView { name: self.name@, level: self.level as int, checks: self.checks@ }
    }
}

impl Skill {
    /// A skill is well formed when its name is already lower-cased and its
    /// level lies within [`VALUE_LIMIT`].
    pub open spec fn wf(self) -> bool {
        &&& self.name@ == lower(self.name@)
        &&& -(VALUE_LIMIT as int) <= self.level as int <= VALUE_LIMIT as int
    }
}

/// Index of the first skill with the given (lower-cased) name, if any.
pub open spec fn find_skill_idx(s: Seq<SkillView>, key: Seq<char>) -> Option<int>
    decreases s.len(),
{
    if s.len() == 0 {
        None
    } else if s[0].name == key {
        Some(0int)
    } else {
        match find_skill_idx(s.drop_first(), key) {
            Some(i) => Some(i + 1),
            None => None,
        }
    }
}

/// What a successful or failed lookup says of the catalog: the found index
/// carries the key and is the first such index; a miss means no entry
/// carries the key.
pub proof fn lemma_find_skill_idx(s: Seq<SkillView>, key: Seq<char>)
    ensures
        match find_skill_idx(s, key) {
            Some(i) => 0 <= i < s.len() && s[i].name == key && (forall|j: int|
                0 <= j < i ==> (#[trigger] s[j]).name != key),
            None => forall|j: int| 0 <= j < s.len() ==> (#[trigger] s[j]).name != key,
        },
    decreases s.len(),
{
    if s.len() > 0 && s[0].name != key {
        lemma_find_skill_idx(s.drop_first(), key);
        assert(forall|j: int| 0 < j < s.len() ==> s[j] == s.drop_first()[j - 1]);
    }
}

/// The first index holding the key is what the lookup returns.
pub proof fn lemma_find_skill_idx_first(s: Seq<SkillView>, key: Seq<char>, i: int)
    requires
        0 <= i < s.len(),
        s[i].name == key,
        forall|j: int| 0 <= j < i ==> (#[trigger] s[j]).name != key,
    ensures
        find_skill_idx(s, key) == Some(i),
    decreases s.len(),
{
    if i > 0 {
        assert(forall|j: int| 0 < j < s.len() ==> s[j] == s.drop_first()[j - 1]);
        lemma_find_skill_idx_first(s.drop_first(), key, i - 1);
    }
}

/// A key that no entry carries is not found.
pub proof fn lemma_find_skill_idx_none(s: Seq<SkillView>, key: Seq<char>)
    requires
        forall|j: int| 0 <= j < s.len() ==> (#[trigger] s[j]).name != key,
    ensures
        find_skill_idx(s, key) is None,
{
    lemma_find_skill_idx(s, key);
    if find_skill_idx(s, key) is Some {
        let i = find_skill_idx(s, key)->0;
        assert(s[i].name != key);
    }
}

/// The character model: name, attribute values, derived secondary attributes
/// and the skill catalog.
///
/// A hero is built once from plain entries ([`Hero::from_entries`]) or grown
/// by [`Hero::set_quality`] and [`Hero::add_skill`]; the resolution engine
/// only ever reads it.  The derived attributes are computed at construction
/// (or on [`Hero::derive_secondary`]) and are not tracked afterwards.
#[derive(Debug)]
pub struct Hero {
    name: String,
    health: isize,
    stamina: isize,
    astral: isize,
    qualities: QualityMap,
    skills: Vec<Skill>,
}

/// A catalog is well formed when every entry is well formed and no two
/// entries share a name.
pub open spec fn catalog_wf(s: Seq<Skill>) -> bool {
    &&& forall|i: int| 0 <= i < s.len() ==> (#[trigger] s[i]).wf()
    &&& forall|i: int, j: int| 0 <= i < j < s.len() ==> s[i].name@ != s[j].name@
}

impl Hero {
    /// A hero is well formed when its skill catalog is.  Every constructor
    /// establishes this and every method preserves it.
    pub open spec fn wf(self) -> bool {
        catalog_wf(self.spec_skills())
    }

    /// The hero's display name.
    pub closed spec fn spec_name(self) -> Seq<char> {
        self.name@
    }

    /// Derived maximum health, as computed at construction.
    pub closed spec fn spec_health(self) -> int {
        self.health as int
    }

    /// Derived maximum stamina, as computed at construction.
    pub closed spec fn spec_stamina(self) -> int {
        self.stamina as int
    }

    /// Derived maximum astral reserve, as computed at construction.
    pub closed spec fn spec_astral(self) -> int {
        self.astral as int
    }

    /// The attribute map.
    pub closed spec fn spec_qualities(self) -> QualityMap {
        self.qualities
    }

    /// The skill catalog, in insertion order.
    pub closed spec fn spec_skills(self) -> Seq<Skill> {
        self.skills@
    }

    /// The mathematical image of the skill catalog.
    pub open spec fn skills_view(self) -> Seq<SkillView> {
        self.spec_skills().map_values(|s: Skill| s.view())
    }

    /// Reads the hero's name.
    pub fn name(&self) -> (r: &String)
        ensures
            r@ == self.spec_name(),
    {
        &self.name
    }

    /// Reads the derived maximum health.
    pub fn health(&self) -> (r: isize)
        ensures
            r as int == self.spec_health(),
    {
        self.health
    }

    /// Reads the derived maximum stamina.
    pub fn stamina(&self) -> (r: isize)
        ensures
            r as int == self.spec_stamina(),
    {
        self.stamina
    }

    /// Reads the derived maximum astral reserve.
    pub fn astral(&self) -> (r: isize)
        ensures
            r as int == self.spec_astral(),
    {
        self.astral
    }

    /// Reads the attribute map.
    pub fn qualities(&self) -> (r: &QualityMap)
        ensures
            *r == self.spec_qualities(),
    {
        &self.qualities
    }

    /// Reads the skill catalog.
    pub fn skills(&self) -> (r: &Vec<Skill>)
        ensures
            r@ == self.spec_skills(),
    {
        &self.skills
    }

    /// Stores an attribute value; the derived attributes are left as they
    /// are, as they are computed once at construction.
    pub fn set_quality(&mut self, q: Quality, v: isize)
        requires
            -(VALUE_LIMIT as int) <= v as int <= VALUE_LIMIT as int,
        ensures
            final(self).wf() == old(self).wf(),
            forall|p: Quality| #[trigger]
                final(self).spec_qualities().spec_get(p) == if p == q {
                    v as int
                } else {
                    old(self).spec_qualities().spec_get(p)
                },
            final(self).spec_name() == old(self).spec_name(),
            final(self).spec_health() == old(self).spec_health(),
            final(self).spec_stamina() == old(self).spec_stamina(),
            final(self).spec_astral() == old(self).spec_astral(),
            final(self).spec_skills() == old(self).spec_skills(),
    {
        self.qualities.set(q, v);
    }

    /// Recomputes the three derived attributes from the current attribute
    /// values and the three base offsets.
    pub fn derive_secondary(&mut self, health_base: isize, stamina_base: isize, astral_base: isize)
        requires
            -(VALUE_LIMIT as int) <= health_base as int <= VALUE_LIMIT as int,
            -(VALUE_LIMIT as int) <= stamina_base as int <= VALUE_LIMIT as int,
            -(VALUE_LIMIT as int) <= astral_base as int <= VALUE_LIMIT as int,
        ensures
            final(self).spec_health() == derived_health(
                old(self).spec_qualities(),
                health_base as int,
            ),
            final(self).spec_stamina() == derived_stamina(
                old(self).spec_qualities(),
                stamina_base as int,
            ),
            final(self).spec_astral() == derived_astral(
                old(self).spec_qualities(),
                astral_base as int,
            ),
            final(self).spec_name() == old(self).spec_name(),
            final(self).spec_qualities() == old(self).spec_qualities(),
            final(self).spec_skills() == old(self).spec_skills(),
            final(self).wf() == old(self).wf(),
    {
        self.health = derive_health(&self.qualities, health_base);
        self.stamina = derive_stamina(&self.qualities, stamina_base);
        self.astral = derive_astral(&self.qualities, astral_base);
    }

    /// Adds a skill under the lower-cased image of `name`.
    ///
    /// A later definition of an already catalogued name replaces the earlier
    /// one in place; a new name is appended.
    pub fn add_skill(&mut self, name: &str, level: isize, checks: [Quality; 3])
        requires
            old(self).wf(),
            -(VALUE_LIMIT as int) <= level as int <= VALUE_LIMIT as int,
        ensures
            final(self).wf(),
            ({
                let key = lower(name@);
                let sv = SkillView { name: key, level: level as int, checks: checks@ };
                match find_skill_idx(old(self).skills_view(), key) {
                    Some(i) => final(self).skills_view() == old(self).skills_view().update(i, sv),
                    None => final(self).skills_view() == old(self).skills_view().push(sv),
                }
            }),
            final(self).spec_name() == old(self).spec_name(),
            final(self).spec_health() == old(self).spec_health(),
            final(self).spec_stamina() == old(self).spec_stamina(),
            final(self).spec_astral() == old(self).spec_astral(),
            final(self).spec_qualities() == old(self).spec_qualities(),
    {
        let low = to_lower_chars(name);
        let key = crate::text::lower_string(name);
        proof {
            crate::text::lemma_lower_idempotent(name@);
        }
        let sk = Skill { name: key, level, checks };
        let ghost svw = SkillView { name: lower(name@), level: level as int, checks: checks@ };
        let n = self.skills.len();
        let mut i: usize = 0;
        while i < n
            invariant
                i <= n,
                n == self.skills@.len(),
                self == old(self),
                old(self).wf(),
                sk@ == svw,
                sk.wf(),
                low@ == sk.name@,
                svw == (SkillView { name: lower(name@), level: level as int, checks: checks@ }),
                forall|j: int| 0 <= j < i ==> (#[trigger] self.skills@[j]).name@ != sk.name@,
            decreases n - i,
        {
            let same = {
                let cur = &self.skills[i];
                crate::text::chars_eq_str(&low, cur.name.as_str())
            };
            if same {
                let ghost pre = self.skills@;
                proof {
                    assert(pre[i as int].name@ == sk.name@);
                    assert forall|j: int| 0 <= j < i implies (#[trigger] self.skills_view()[j]).name
                        != svw.name by {}
                    lemma_find_skill_idx_first(self.skills_view(), svw.name, i as int);
                }
                let _replaced = self.skills.remove(i);
                self.skills.insert(i, sk);
                proof {
                    assert(self.skills@ =~= pre.update(i as int, sk));
                    assert(self.skills_view() =~= old(self).skills_view().update(i as int, svw));
                    assert forall|j: int|
                        0 <= j < self.skills@.len() implies (#[trigger] self.skills@[j]).wf() by {
                        if j != i {
                            assert(self.skills@[j] == pre[j]);
                        }
                    }
                    assert forall|j: int, k: int|
                        0 <= j < k < self.skills@.len() implies self.skills@[j].name@
                        != self.skills@[k].name@ by {
                        assert(self.skills@[j].name@ == pre[j].name@);
                        assert(self.skills@[k].name@ == pre[k].name@);
                    }
                }
                return ;
            }
            i += 1;
        }
        proof {
            assert forall|j: int|
                0 <= j < self.skills_view().len() implies (#[trigger] self.skills_view()[j]).name
                != svw.name by {
                assert(self.skills@[j].name@ != sk.name@);
            }
            lemma_find_skill_idx_none(self.skills_view(), svw.name);
        }
        self.skills.push(sk);
        proof {
            assert(self.skills_view() =~= old(self).skills_view().push(svw));
        }
    }
}

/// Derivation is deterministic: attribute maps that agree on every quality
/// yield the same derived health, stamina and astral reserve for the same
/// base offsets, so re-deriving from identical input gives identical output.
pub proof fn lemma_derivation_deterministic(
    q1: QualityMap,
    q2: QualityMap,
    health_base: int,
    stamina_base: int,
    astral_base: int,
)
    requires
        forall|p: Quality| q1.spec_get(p) == q2.spec_get(p),
    ensures
        derived_health(q1, health_base) == derived_health(q2, health_base),
        derived_stamina(q1, stamina_base) == derived_stamina(q2, stamina_base),
        derived_astral(q1, astral_base) == derived_astral(q2, astral_base),
{
}

/// One raw attribute entry of a character sheet: an alias, the printed
/// value, and a modifier; the hero stores their sum.
#[derive(Debug)]
pub struct QualityEntry {
    /// The attribute alias as it was given.
    pub name: String,
    /// The printed value.
    pub base: isize,
    /// The modifier added onto the printed value.
    pub modi: isize,
}

/// The mathematical image of a [`QualityEntry`].
pub struct QualityEntryView {
    /// The alias characters.
    pub name: Seq<char>,
    /// The printed value.
    pub base: int,
    /// The modifier added onto the printed value.
    pub modi: int,
}

impl View for QualityEntry {
    type V = QualityEntryView;

    open spec fn view(&self) -> QualityEntryView {
        QualityEntryView { name: self.name@, base: self.base as int, modi: self.modi as int }
    }
}

/// One raw skill entry of a character sheet: a name, the proficiency level,
/// and the aliases of the qualities it is checked against.
#[derive(Debug)]
pub struct SkillEntry {
    /// The skill name as it was given.
    pub name: String,
    /// The proficiency level.
    pub level: isize,
    /// The aliases of the checked qualities, in rolling order.
    pub checks: Vec<String>,
}

/// The mathematical image of a [`SkillEntry`].
pub struct SkillEntryView {
    /// The skill name's characters.
    pub name: Seq<char>,
    /// The proficiency level.
    pub level: int,
    /// The alias character sequences, in rolling order.
    pub checks: Seq<Seq<char>>,
}

impl View for SkillEntry {
    type V = SkillEntryView;

    open spec fn view(&self) -> SkillEntryView {
        SkillEntryView {
            name: self.name@,
            level: self.level as int,
            checks: self.checks@.map_values(|s: String| s@),
        }
    }
}

/// The images of a sequence of attribute entries.
pub open spec fn quality_entries_view(s: Seq<QualityEntry>) -> Seq<QualityEntryView> {
    s.map_values(|e: QualityEntry| e.view())
}

/// The images of a sequence of skill entries.
pub open spec fn skill_entries_view(s: Seq<SkillEntry>) -> Seq<SkillEntryView> {
    s.map_values(|e: SkillEntry| e.view())
}

/// The value an attribute map holds for a quality after the entries were
/// loaded in order: the value-plus-modifier sum of the last entry whose
/// alias names the quality, or 0 where no entry does.
pub open spec fn quality_value(es: Seq<QualityEntryView>, q: Quality) -> int
    decreases es.len(),
{
    if es.len() == 0 {
        0
    } else if quality_of_name(es.last().name) == Some(q) {
        es.last().base + es.last().modi
    } else {
        quality_value(es.drop_last(), q)
    }
}

/// The base offset a reserved key holds after the entries were loaded in
/// order: the value-plus-modifier sum of the last entry whose lower-cased
/// alias equals the key, or 0 where no entry carries it.
pub open spec fn base_value(es: Seq<QualityEntryView>, key: Seq<char>) -> int
    decreases es.len(),
{
    if es.len() == 0 {
        0
    } else if lower(es.last().name) == key {
        es.last().base + es.last().modi
    } else {
        base_value(es.drop_last(), key)
    }
}

/// A reserved alias carries a base offset, not an attribute, and names no
/// quality.
pub proof fn lemma_reserved_not_quality(s: Seq<char>)
    requires
        lower(s) == "lebensenergie"@ || lower(s) == "ausdauer"@ || lower(s) == "astralenergie"@,
    ensures
        quality_of_name(s) is None,
{
    reveal_strlit("lebensenergie");
    reveal_strlit("ausdauer");
    reveal_strlit("astralenergie");
    reveal_strlit("mu");
    reveal_strlit("mut");
    reveal_strlit("courage");
    reveal_strlit("kl");
    reveal_strlit("klugheit");
    reveal_strlit("wisdom");
    reveal_strlit("in");
    reveal_strlit("intuition");
    reveal_strlit("ch");
    reveal_strlit("charisma");
    reveal_strlit("ff");
    reveal_strlit("fingerfertigkeit");
    reveal_strlit("dexterity");
    reveal_strlit("ge");
    reveal_strlit("gewandtheit");
    reveal_strlit("agility");
    reveal_strlit("ko");
    reveal_strlit("konstitution");
    reveal_strlit("constitution");
    reveal_strlit("kk");
    reveal_strlit("körperkraft");
    reveal_strlit("strength");
    reveal_strlit("gs");
    reveal_strlit("sozialstatus");
    reveal_strlit("socialstatus");
    reveal_strlit("mr");
    reveal_strlit("magieresistenz");
    reveal_strlit("magicrestistance");
    reveal_strlit("ini");
    reveal_strlit("initiative");
    reveal_strlit("at");
    reveal_strlit("attacke");
    reveal_strlit("nahkampf");
    reveal_strlit("combat");
    reveal_strlit("closecombat");
    reveal_strlit("pa");
    reveal_strlit("parrieren");
    reveal_strlit("parry");
    reveal_strlit("fk");
    reveal_strlit("fernkampf");
    reveal_strlit("ranged");
    reveal_strlit("rangedcombat");
    assert("lebensenergie"@.len() == 13);
    assert("ausdauer"@.len() == 8);
    assert("astralenergie"@.len() == 13);
    assert("mu"@.len() == 2);
    assert("mut"@.len() == 3);
    assert("courage"@.len() == 7);
    assert("kl"@.len() == 2);
    assert("klugheit"@.len() == 8);
    assert("wisdom"@.len() == 6);
    assert("in"@.len() == 2);
    assert("intuition"@.len() == 9);
    assert("ch"@.len() == 2);
    assert("charisma"@.len() == 8);
    assert("ff"@.len() == 2);
    assert("fingerfertigkeit"@.len() == 16);
    assert("dexterity"@.len() == 9);
    assert("ge"@.len() == 2);
    assert("gewandtheit"@.len() == 11);
    assert("agility"@.len() == 7);
    assert("ko"@.len() == 2);
    assert("konstitution"@.len() == 12);
    assert("constitution"@.len() == 12);
    assert("kk"@.len() == 2);
    assert("körperkraft"@.len() == 11);
    assert("strength"@.len() == 8);
    assert("gs"@.len() == 2);
    assert("sozialstatus"@.len() == 12);
    assert("socialstatus"@.len() == 12);
    assert("mr"@.len() == 2);
    assert("magieresistenz"@.len() == 14);
    assert("magicrestistance"@.len() == 16);
    assert("ini"@.len() == 3);
    assert("initiative"@.len() == 10);
    assert("at"@.len() == 2);
    assert("attacke"@.len() == 7);
    assert("nahkampf"@.len() == 8);
    assert("combat"@.len() == 6);
    assert("closecombat"@.len() == 11);
    assert("pa"@.len() == 2);
    assert("parrieren"@.len() == 9);
    assert("parry"@.len() == 5);
    assert("fk"@.len() == 2);
    assert("fernkampf"@.len() == 9);
    assert("ranged"@.len() == 6);
    assert("rangedcombat"@.len() == 12);
    assert("ausdauer"@[0] == 'a');
    assert("klugheit"@[0] == 'k');
    assert("charisma"@[0] == 'c');
    assert("strength"@[0] == 's');
    assert("nahkampf"@[0] == 'n');
}

/// Index of the first check alias that names no quality, if any.
pub open spec fn first_bad_check(cs: Seq<Seq<char>>) -> Option<int>
    decreases cs.len(),
{
    if cs.len() == 0 {
        None
    } else if quality_of_name(cs[0]) is None {
        Some(0int)
    } else {
        match first_bad_check(cs.drop_first()) {
            Some(i) => Some(i + 1),
            None => None,
        }
    }
}

/// The skill a raw entry defines: its checks must all name qualities and
/// there must be exactly three of them; the name is stored lower-cased.
pub open spec fn skill_of_entry(e: SkillEntryView) -> Option<SkillView> {
    if e.checks.len() == 3 && first_bad_check(e.checks) is None {
        Some(
            SkillView {
                name: lower(e.name),
                level: e.level,
                checks: seq![
                    quality_of_name(e.checks[0])->0,
                    quality_of_name(e.checks[1])->0,
                    quality_of_name(e.checks[2])->0,
                ],
            },
        )
    } else {
        None
    }
}

/// The catalog after the raw entries were loaded in order: malformed entries
/// are dropped, a later entry replaces an earlier one of the same name in
/// place, and a new name is appended.
pub open spec fn build_skills(es: Seq<SkillEntryView>) -> Seq<SkillView>
    decreases es.len(),
{
    if es.len() == 0 {
        Seq::empty()
    } else {
        let prev = build_skills(es.drop_last());
        match skill_of_entry(es.last()) {
            Some(sv) => match find_skill_idx(prev, sv.name) {
                Some(i) => prev.update(i, sv),
                None => prev.push(sv),
            },
            None => prev,
        }
    }
}

impl Skill {
    /// Parses one raw skill entry.
    ///
    /// A check alias that names no quality is an `UnknownQuality` error (the
    /// first such alias is reported); an entry without exactly three
    /// resolvable checks is a `MalformedSkill` error.  Both are recoverable:
    /// the caller drops the entry.
    pub fn from_entry(e: &SkillEntry) -> (r: Result<Skill, Error>)
        requires
            -(VALUE_LIMIT as int) <= e.level as int <= VALUE_LIMIT as int,
        ensures
            match first_bad_check(e@.checks) {
                Some(k) => r matches Err(Error::UnknownQuality { token }) && token@
                    == e@.checks[k],
                None => if e@.checks.len() == 3 {
                    r matches Ok(sk) && sk@ == skill_of_entry(e@)->0 && sk.wf()
                } else {
                    r matches Err(Error::MalformedSkill { name }) && name@ == e@.name
                },
            },
            r is Ok <==> skill_of_entry(e@) is Some,
    {
        let mut qs: Vec<Quality> = Vec::new();
        let n = e.checks.len();
        let mut i: usize = 0;
        while i < n
            invariant
                i <= n,
                n == e.checks@.len(),
                qs@.len() == i,
                forall|j: int|
                    0 <= j < i ==> #[trigger] quality_of_name(e@.checks[j]) == Some(qs@[j]),
            decreases n - i,
        {
            match Quality::from_str(e.checks[i].as_str()) {
                Ok(q) => {
                    qs.push(q);
                },
                Err(err) => {
                    proof {
                        lemma_first_bad_check_first(e@.checks, i as int);
                    }
                    return Err(err);
                },
            }
            i += 1;
        }
        proof {
            lemma_first_bad_check_none(e@.checks);
        }
        if qs.len() != 3 {
            return Err(Error::MalformedSkill { name: e.name.clone() });
        }
        let name = crate::text::lower_string(e.name.as_str());
        proof {
            crate::text::lemma_lower_idempotent(e.name@);
        }
        let sk = Skill { name, level: e.level, checks: [qs[0], qs[1], qs[2]] };
        proof {
            assert(sk@.checks =~= skill_of_entry(e@)->0.checks);
        }
        Ok(sk)
    }
}

/// A position where parsing fails makes the first failing position defined.
pub proof fn lemma_first_bad_check_first(cs: Seq<Seq<char>>, i: int)
    requires
        0 <= i < cs.len(),
        quality_of_name(cs[i]) is None,
        forall|j: int| 0 <= j < i ==> quality_of_name(#[trigger] cs[j]) is Some,
    ensures
        first_bad_check(cs) == Some(i),
    decreases cs.len(),
{
    if i > 0 {
        assert(forall|j: int| 0 < j < cs.len() ==> cs[j] == cs.drop_first()[j - 1]);
        lemma_first_bad_check_first(cs.drop_first(), i - 1);
    }
}

/// When every alias parses, no position fails.
pub proof fn lemma_first_bad_check_none(cs: Seq<Seq<char>>)
    requires
        forall|j: int| 0 <= j < cs.len() ==> quality_of_name(#[trigger] cs[j]) is Some,
    ensures
        first_bad_check(cs) is None,
    decreases cs.len(),
{
    if cs.len() > 0 {
        assert(forall|j: int| 0 < j < cs.len() ==> cs[j] == cs.drop_first()[j - 1]);
        lemma_first_bad_check_none(cs.drop_first());
    }
}

/// The three reserved base-offset keys are pairwise distinct.
pub proof fn lemma_reserved_keys_distinct()
    ensures
        "lebensenergie"@ != "ausdauer"@,
        "lebensenergie"@ != "astralenergie"@,
        "ausdauer"@ != "astralenergie"@,
{
    reveal_strlit("lebensenergie");
    reveal_strlit("ausdauer");
    reveal_strlit("astralenergie");
    assert("lebensenergie"@.len() == 13);
    assert("ausdauer"@.len() == 8);
    assert("astralenergie"@.len() == 13);
    assert("lebensenergie"@[0] == 'l');
    assert("astralenergie"@[0] == 'a');
}

impl Hero {
    /// Builds a hero from plain entries, as a character sheet supplies them.
    ///
    /// Attribute entries are loaded in order: the three reserved aliases
    /// (`lebensenergie`, `ausdauer`, `astralenergie`) carry the base offsets
    /// of the derived attributes, an alias that names a quality stores the
    /// entry's value-plus-modifier sum, and an unknown alias is dropped, not
    /// substituted.  A later entry overrides an earlier one.  Skill entries
    /// are parsed by [`Skill::from_entry`]; a malformed one is dropped, and
    /// a later entry of an already catalogued name replaces it in place.
    /// The derived attributes are computed once, at the end.
    pub fn from_entries(
        name: String,
        qualities: &Vec<QualityEntry>,
        skills: &Vec<SkillEntry>,
    ) -> (h: Hero)
        requires
            forall|i: int|
                0 <= i < qualities@.len() ==> {
                    &&& -(VALUE_LIMIT as int) <= (#[trigger] qualities@[i]).base as int
                        <= VALUE_LIMIT as int
                    &&& -(VALUE_LIMIT as int) <= qualities@[i].modi as int <= VALUE_LIMIT as int
                    &&& -(VALUE_LIMIT as int) <= qualities@[i].base as int
                        + qualities@[i].modi as int <= VALUE_LIMIT as int
                },
            forall|i: int|
                0 <= i < skills@.len() ==> -(VALUE_LIMIT as int)
                    <= (#[trigger] skills@[i]).level as int <= VALUE_LIMIT as int,
        ensures
            h.wf(),
            h.spec_name() == name@,
            forall|q: Quality| #[trigger]
                h.spec_qualities().spec_get(q) == quality_value(
                    quality_entries_view(qualities@),
                    q,
                ),
            h.skills_view() == build_skills(skill_entries_view(skills@)),
            h.spec_health() == derived_health(
                h.spec_qualities(),
                base_value(quality_entries_view(qualities@), "lebensenergie"@),
            ),
            h.spec_stamina() == derived_stamina(
                h.spec_qualities(),
                base_value(quality_entries_view(qualities@), "ausdauer"@),
            ),
            h.spec_astral() == derived_astral(
                h.spec_qualities(),
                base_value(quality_entries_view(qualities@), "astralenergie"@),
            ),
    {
        let mut qmap = QualityMap::new();
        let mut hb: isize = 0;
        let mut sb: isize = 0;
        let mut ab: isize = 0;
        let nq = qualities.len();
        let mut i: usize = 0;
        while i < nq
            invariant
                i <= nq,
                nq == qualities@.len(),
                forall|k: int|
                    0 <= k < qualities@.len() ==> {
                        &&& -(VALUE_LIMIT as int) <= (#[trigger] qualities@[k]).base as int
                            <= VALUE_LIMIT as int
                        &&& -(VALUE_LIMIT as int) <= qualities@[k].modi as int
                            <= VALUE_LIMIT as int
                        &&& -(VALUE_LIMIT as int) <= qualities@[k].base as int
                            + qualities@[k].modi as int <= VALUE_LIMIT as int
                    },
                forall|q: Quality| #[trigger]
                    qmap.spec_get(q) == quality_value(
                        quality_entries_view(qualities@.subrange(0, i as int)),
                        q,
                    ),
                hb as int == base_value(
                    quality_entries_view(qualities@.subrange(0, i as int)),
                    "lebensenergie"@,
                ),
                sb as int == base_value(
                    quality_entries_view(qualities@.subrange(0, i as int)),
                    "ausdauer"@,
                ),
                ab as int == base_value(
                    quality_entries_view(qualities@.subrange(0, i as int)),
                    "astralenergie"@,
                ),
                -(VALUE_LIMIT as int) <= hb as int <= VALUE_LIMIT as int,
                -(VALUE_LIMIT as int) <= sb as int <= VALUE_LIMIT as int,
                -(VALUE_LIMIT as int) <= ab as int <= VALUE_LIMIT as int,
            decreases nq - i,
        {
            let ghost prefix = quality_entries_view(qualities@.subrange(0, i as int));
            let ghost prefix1 = quality_entries_view(qualities@.subrange(0, i as int + 1));
            proof {
                assert(prefix1 =~= prefix.push(qualities@[i as int].view()));
                assert(prefix1.drop_last() =~= prefix);
                lemma_reserved_keys_distinct();
            }
            let e = &qualities[i];
            let v = e.base + e.modi;
            let low = to_lower_chars(e.name.as_str());
            if chars_eq_str(&low, "lebensenergie") {
                hb = v;
                proof {
                    lemma_reserved_not_quality(e.name@);
                }
            } else if chars_eq_str(&low, "ausdauer") {
                sb = v;
                proof {
                    lemma_reserved_not_quality(e.name@);
                }
            } else if chars_eq_str(&low, "astralenergie") {
                ab = v;
                proof {
                    lemma_reserved_not_quality(e.name@);
                }
            } else {
                match Quality::from_str(e.name.as_str()) {
                    Ok(q) => {
                        qmap.set(q, v);
                    },
                    Err(_) => {},
                }
            }
            i += 1;
        }
        proof {
            assert(qualities@.subrange(0, nq as int) =~= qualities@);
        }
        let ghost full_qualities = quality_entries_view(qualities@);
        let mut h = Hero {
            name,
            health: 0,
            stamina: 0,
            astral: 0,
            qualities: qmap,
            skills: Vec::new(),
        };
        let ns = skills.len();
        let mut j: usize = 0;
        while j < ns
            invariant
                j <= ns,
                ns == skills@.len(),
                forall|k: int|
                    0 <= k < skills@.len() ==> -(VALUE_LIMIT as int)
                        <= (#[trigger] skills@[k]).level as int <= VALUE_LIMIT as int,
                h.wf(),
                h.skills_view() == build_skills(skill_entries_view(skills@.subrange(0, j as int))),
                h.spec_name() == name@,
                forall|q: Quality| #[trigger]
                    h.spec_qualities().spec_get(q) == quality_value(full_qualities, q),
            decreases ns - j,
        {
            let ghost sprefix = skill_entries_view(skills@.subrange(0, j as int));
            let ghost sprefix1 = skill_entries_view(skills@.subrange(0, j as int + 1));
            proof {
                assert(sprefix1 =~= sprefix.push(skills@[j as int].view()));
                assert(sprefix1.drop_last() =~= sprefix);
            }
            let e = &skills[j];
            match Skill::from_entry(e) {
                Ok(sk) => {
                    proof {
                        assert(sk.name@ == lower(sk.name@));
                    }
                    h.add_skill(sk.name.as_str(), sk.level, sk.checks);
                    proof {
                        assert(sk@ == skill_of_entry(skills@[j as int].view())->0);
                        assert(h.skills_view() == build_skills(sprefix1));
                    }
                },
                Err(_) => {},
            }
            j += 1;
        }
        proof {
            assert(skills@.subrange(0, ns as int) =~= skills@);
        }
        h.derive_secondary(hb, sb, ab);
        h
    }
}

impl Clone for Skill {
    /// The copy equals the original.
    fn clone(&self) -> (r: Self)
        ensures
            r == *self,
    {
        Skill { name: self.name.clone(), level: self.level, checks: self.checks }
    }
}

impl Clone for QualityMap {
    /// The copy holds the same value for every quality.
    fn clone(&self) -> (r: Self)
        ensures
            forall|q: Quality| #[trigger] r.spec_get(q) == self.spec_get(q),
    {
        proof {
            use_type_invariant(self);
        }
        let mut values: Vec<isize> = Vec::new();
        let mut i: usize = 0;
        while i < 14
            invariant
                i <= 14,
                values@.len() == i,
                self.values@.len() == 14,
                forall|j: int|
                    0 <= j < 14 ==> -(VALUE_LIMIT as int) <= (#[trigger] self.values@[j]) as int
                        <= VALUE_LIMIT as int,
                forall|j: int| 0 <= j < i ==> values@[j] == self.values@[j],
            decreases 14 - i,
        {
            values.push(self.values[i]);
            i += 1;
        }
        QualityMap { values }
    }
}

/// Whether two heroes agree in everything the library observes: name,
/// derived attributes, every attribute value, and the skill catalog.
pub open spec fn same_hero(a: Hero, b: Hero) -> bool {
    &&& a.spec_name() == b.spec_name()
    &&& a.spec_health() == b.spec_health()
    &&& a.spec_stamina() == b.spec_stamina()
    &&& a.spec_astral() == b.spec_astral()
    &&& forall|q: Quality| #[trigger]
        a.spec_qualities().spec_get(q) == b.spec_qualities().spec_get(q)
    &&& a.spec_skills() == b.spec_skills()
}

impl Clone for Hero {
    /// The copy agrees with the original in everything the library
    /// observes.
    fn clone(&self) -> (r: Self)
        ensures
            same_hero(r, *self),
            r.wf() == self.wf(),
    {
        let mut skills: Vec<Skill> = Vec::new();
        let n = self.skills.len();
        let mut i: usize = 0;
        while i < n
            invariant
                i <= n,
                n == self.skills@.len(),
                skills@.len() == i,
                forall|j: int| 0 <= j < i ==> skills@[j] == self.skills@[j],
            decreases n - i,
        {
            skills.push(self.skills[i].clone());
            i += 1;
        }
        proof {
            assert(skills@ =~= self.skills@);
        }
        Hero {
            name: self.name.clone(),
            health: self.health,
            stamina: self.stamina,
            astral: self.astral,
            qualities: self.qualities.clone(),
            skills,
        }
    }
}

impl Default for Hero {
    /// An empty hero: no name, every attribute 0, derived attributes 0, no
    /// skills.
    fn default() -> (r: Self)
        ensures
            r.wf(),
            r.spec_name() == Seq::<char>::empty(),
            r.spec_health() == 0,
            r.spec_stamina() == 0,
            r.spec_astral() == 0,
            forall|q: Quality| r.spec_qualities().spec_get(q) == 0,
            r.spec_skills() == Seq::<Skill>::empty(),
    {
        Hero {
            name: String::new(),
            health: 0,
            stamina: 0,
            astral: 0,
            qualities: QualityMap::new(),
            skills: Vec::new(),
        }
    }
}

} // verus!
