//! The skill ledger: levels, experience and unlock flags of the seven skills.

use vstd::arithmetic::div_mod::lemma_div_is_ordered_by_denominator;
use vstd::prelude::*;

use crate::numeric::{int_sqrt, isqrt, MICRO};
use crate::save_data::SaveData;
use crate::skills::{LevelUpEvent, SkillXpEvent};
use crate::util::{decimal, to_decimal};

verus! {

/// One of the seven skills the player can train.
#[derive(Debug, Clone, Copy, PartialEq, Eq, Structural)]
pub enum Skill {
    Armor,
    Sword,
    Shield,
    Pants,
    Mirror,
    Healing,
    Speed,
}

impl Skill {
    /// Every skill once, in ledger order.
    pub open spec fn all() -> Seq<Skill> {
        seq![
            Skill::Armor,
            Skill::Sword,
            Skill::Shield,
            Skill::Pants,
            Skill::Mirror,
            Skill::Healing,
            Skill::Speed,
        ]
    }

    /// Every skill once, in ledger order.
    pub fn iter() -> (skills: Vec<Skill>)
        ensures
            skills@ == Skill::all(),
    {
        let mut skills: Vec<Skill> = Vec::new();
        skills.push(Skill::Armor);
        skills.push(Skill::Sword);
        skills.push(Skill::Shield);
        skills.push(Skill::Pants);
        skills.push(Skill::Mirror);
        skills.push(Skill::Healing);
        skills.push(Skill::Speed);
        assert(skills@ =~= Skill::all());
        skills
    }

    /// Place of the skill in ledger order, from zero.
    pub open spec fn ordinal(self) -> int {
        match self {
            Skill::Armor => 0,
            Skill::Sword => 1,
            Skill::Shield => 2,
            Skill::Pants => 3,
            Skill::Mirror => 4,
            Skill::Healing => 5,
            Skill::Speed => 6,
        }
    }

    /// The skill's name as it is shown to the player.
    pub open spec fn spec_name(self) -> Seq<char> {
        match self {
            Skill::Armor => "Armor"@,
            Skill::Sword => "Sword"@,
            Skill::Shield => "Shield"@,
            Skill::Pants => "Pants"@,
            Skill::Mirror => "Mirror"@,
            Skill::Healing => "Healing"@,
            Skill::Speed => "Speed"@,
        }
    }

    /// The skill's name as it is shown to the player.
    pub fn name(self) -> (name: &'static str)
        ensures
            name@ == self.spec_name(),
    {
        match self {
            Skill::Armor => "Armor",
            Skill::Sword => "Sword",
            Skill::Shield => "Shield",
            Skill::Pants => "Pants",
            Skill::Mirror => "Mirror",
            Skill::Healing => "Healing",
            Skill::Speed => "Speed",
        }
    }

    /// The skill's name as an owned string.
    pub fn to_string(self) -> (name: String)
        ensures
            name@ == self.spec_name(),
    {
        self.name().to_owned()
    }
}

/// Why the ledger refused an operation.
#[derive(Debug, Clone, Copy, PartialEq, Eq, Structural)]
pub enum SkillError {
    /// The experience granted does not fit the ledger's range any more.
    XpOverflow,
}

/// Experience that one level costs beyond the first point, per level held.
pub const XP_PER_LEVEL: u64 = 200_000;

/// Scale under the root of the catch-up bonus: a hundredth, in squared
/// fixed-point steps.
pub const BONUS_SCALE: u128 = 10_000_000_000;

/// Experience needed to leave `level`: one point and a fifth of a point for
/// each level already held.
pub open spec fn xp_needed_at(level: nat) -> nat {
    (MICRO + level * XP_PER_LEVEL) as nat
}

/// Experience used up by climbing `count` levels, starting at level `from`.
pub open spec fn xp_to_climb(from: nat, count: nat) -> nat
    decreases count,
{
    if count == 0 {
        0
    } else {
        xp_to_climb(from, (count - 1) as nat) + xp_needed_at((from + count - 1) as nat)
    }
}

/// The catch-up factor `1 + sqrt(highest / 100)` in millionths, rounded down.
pub open spec fn xp_bonus(highest: nat) -> nat {
    MICRO as nat + int_sqrt(highest * (BONUS_SCALE as nat))
}

/// `base` experience after the catch-up factor, rounded down.
pub open spec fn scaled_xp(base: nat, highest: nat) -> nat {
    (base * xp_bonus(highest)) / (MICRO as nat)
}

/// How many levels `xp` experience pays for, one after the other, starting
/// at `level`.
pub open spec fn levels_paid(level: nat, xp: nat) -> nat
    decreases xp,
{
    if xp >= xp_needed_at(level) {
        1 + levels_paid(level + 1, (xp - xp_needed_at(level)) as nat)
    } else {
        0
    }
}

/// Climbing `count` levels costs the first level and then the climb of the
/// rest from one level up.
pub proof fn lemma_xp_to_climb_first(from: nat, count: nat)
    requires
        count > 0,
    ensures
        xp_to_climb(from, count) == xp_needed_at(from) + xp_to_climb(from + 1, (count - 1) as nat),
    decreases count,
{
    if count > 1 {
        lemma_xp_to_climb_first(from, (count - 1) as nat);
        let rest = (count - 1) as nat;
        assert(xp_to_climb(from + 1, rest) == xp_to_climb(from + 1, (rest - 1) as nat)
            + xp_needed_at((from + 1 + rest - 1) as nat));
        assert(from + 1 + rest - 1 == from + count - 1);
        assert(xp_to_climb(from, count) == xp_to_climb(from, rest) + xp_needed_at(
            (from + count - 1) as nat,
        ));
    } else {
        assert(xp_to_climb(from, 1) == xp_to_climb(from, 0) + xp_needed_at(from));
        assert(xp_to_climb(from + 1, 0) == 0);
    }
}

/// The levels that `xp` pays for are the one count whose climb `xp` covers
/// while it does not cover the climb of one level more.
pub proof fn lemma_levels_paid(level: nat, xp: nat, count: nat)
    requires
        xp_to_climb(level, count) <= xp < xp_to_climb(level, count + 1),
    ensures
        levels_paid(level, xp) == count,
    decreases count,
{
    if count == 0 {
        assert(xp_to_climb(level, 1) == xp_to_climb(level, 0) + xp_needed_at(level));
    } else {
        lemma_xp_to_climb_first(level, count);
        lemma_xp_to_climb_first(level, count + 1);
        assert(xp_to_climb(level + 1, (count - 1) as nat) >= 0);
        lemma_levels_paid(level + 1, (xp - xp_needed_at(level)) as nat, (count - 1) as nat);
    }
}

/// The levels that `xp` pays for are covered by `xp`, and one level more is
/// not.
pub proof fn lemma_levels_paid_covered(level: nat, xp: nat)
    ensures
        xp_to_climb(level, levels_paid(level, xp)) <= xp,
        xp < xp_to_climb(level, levels_paid(level, xp) + 1),
    decreases xp,
{
    if xp >= xp_needed_at(level) {
        let rest = (xp - xp_needed_at(level)) as nat;
        lemma_levels_paid_covered(level + 1, rest);
        let paid = levels_paid(level + 1, rest);
        lemma_xp_to_climb_first(level, paid + 1);
        lemma_xp_to_climb_first(level, paid + 2);
    } else {
        assert(xp_to_climb(level, 1) == xp_to_climb(level, 0) + xp_needed_at(level));
    }
}

/// The catch-up factor applied to `base` experience of a skill whose stored
/// level is `highest`.
pub fn scale_xp(base: u64, highest: u64) -> (scaled: u128)
    ensures
        scaled == scaled_xp(base as nat, highest as nat),
{
    assert(highest * BONUS_SCALE <= 0xffff_ffff_ffff_ffff * 10_000_000_000) by (nonlinear_arith)
        requires
            highest <= 0xffff_ffff_ffff_ffff,
            BONUS_SCALE == 10_000_000_000,
    ;
    let radicand: u128 = (highest as u128) * BONUS_SCALE;
    let root: u64 = isqrt(radicand);
    assert(root < 0x2_0000_0000_0000) by {
        if root >= 0x2_0000_0000_0000 {
            assert(root * root >= 0x2_0000_0000_0000 * 0x2_0000_0000_0000) by (nonlinear_arith)
                requires
                    root >= 0x2_0000_0000_0000,
            ;
        }
    }
    let factor: u128 = MICRO as u128 + root as u128;
    assert(base * factor <= 0xffff_ffff_ffff_ffff * 0x2_0000_0010_0000) by (nonlinear_arith)
        requires
            base <= 0xffff_ffff_ffff_ffff,
            factor <= 0x2_0000_0010_0000,
    ;
    ((base as u128) * factor) / (MICRO as u128)
}

/// `1 / (1 + armor / 100)` in millionths, rounded down.
pub open spec fn damage_taken_at(armor: nat) -> nat {
    100_000_000nat / (100 + armor)
}

/// `0.65 - 500 / (shield^2 + 1000)` in millionths; the quotient is rounded
/// down before it is taken off.
pub open spec fn block_chance_at(shield: nat) -> nat {
    (650_000 - 500_000_000nat / (shield * shield + 1000)) as nat
}

/// `0.75 - 700 / (mirror^2 + 1000)` in millionths; the quotient is rounded
/// down before it is taken off.
pub open spec fn reflect_chance_at(mirror: nat) -> nat {
    (750_000 - 700_000_000nat / (mirror * mirror + 1000)) as nat
}

/// `1 + sqrt(pants / 10)` in millionths, rounded down.
pub open spec fn mass_at(pants: nat) -> nat {
    MICRO as nat + int_sqrt(pants * 100_000_000_000)
}

/// `1 + sqrt(pants / 50)` in millionths, rounded down.
pub open spec fn max_health_at(pants: nat) -> nat {
    MICRO as nat + int_sqrt(pants * 20_000_000_000)
}

/// `0.5 - 98 / (healing^2 + 200)` in millionths; the quotient is rounded
/// down before it is taken off.
pub open spec fn healing_at(healing: nat) -> nat {
    (500_000 - 98_000_000nat / (healing * healing + 200)) as nat
}

/// The square of a level.
fn level_squared(level: u64) -> (squared: u128)
    ensures
        squared == level * level,
        squared <= 0xffff_ffff_ffff_ffff * 0xffff_ffff_ffff_ffff,
{
    assert(level * level <= 0xffff_ffff_ffff_ffff * 0xffff_ffff_ffff_ffff) by (nonlinear_arith)
        requires
            level <= 0xffff_ffff_ffff_ffff,
    ;
    (level as u128) * (level as u128)
}

/// One value for each skill.
#[derive(Debug)]
struct PlayerSkillsImpl<T> {
    armor: T,
    sword: T,
    shield: T,
    pants: T,
    mirror: T,
    healing: T,
    speed: T,
}

impl<T> PlayerSkillsImpl<T> {
    spec fn at(self, skill: Skill) -> T {
        match skill {
            Skill::Armor => self.armor,
            Skill::Sword => self.sword,
            Skill::Shield => self.shield,
            Skill::Pants => self.pants,
            Skill::Mirror => self.mirror,
            Skill::Healing => self.healing,
            Skill::Speed => self.speed,
        }
    }

    spec fn with(self, skill: Skill, value: T) -> Self {
        match skill {
            Skill::Armor => PlayerSkillsImpl { armor: value, ..self },
            Skill::Sword => PlayerSkillsImpl { sword: value, ..self },
            Skill::Shield => PlayerSkillsImpl { shield: value, ..self },
            Skill::Pants => PlayerSkillsImpl { pants: value, ..self },
            Skill::Mirror => PlayerSkillsImpl { mirror: value, ..self },
            Skill::Healing => PlayerSkillsImpl { healing: value, ..self },
            Skill::Speed => PlayerSkillsImpl { speed: value, ..self },
        }
    }

    fn index(&self, skill: Skill) -> (value: &T)
        ensures
            *value == self.at(skill),
    {
        match skill {
            Skill::Armor => &self.armor,
            Skill::Sword => &self.sword,
            Skill::Shield => &self.shield,
            Skill::Pants => &self.pants,
            Skill::Mirror => &self.mirror,
            Skill::Healing => &self.healing,
            Skill::Speed => &self.speed,
        }
    }

    fn put(&mut self, skill: Skill, value: T)
        ensures
            final(self).at(skill) == value,
            forall|other: Skill| other != skill ==> final(self).at(other) == old(self).at(other),
    {
        match skill {
            Skill::Armor => self.armor = value,
            Skill::Sword => self.sword = value,
            Skill::Shield => self.shield = value,
            Skill::Pants => self.pants = value,
            Skill::Mirror => self.mirror = value,
            Skill::Healing => self.healing = value,
            Skill::Speed => self.speed = value,
        }
    }
}

impl<T: Copy> PlayerSkillsImpl<T> {
    fn splat(value: T) -> (table: Self)
        ensures
            forall|skill: Skill| table.at(skill) == value,
    {
        PlayerSkillsImpl {
            armor: value,
            sword: value,
            shield: value,
            pants: value,
            mirror: value,
            healing: value,
            speed: value,
        }
    }
}

/// The player's skills: what was earned in earlier cycles (stored) and what
/// was earned in the running cycle (delta).
#[derive(Debug)]
pub struct PlayerSkills {
    /// Levels earned in earlier cycles; these are what a save keeps.
    stored_levels: PlayerSkillsImpl<u64>,
    /// Levels earned in the running cycle.
    delta_levels: PlayerSkillsImpl<u64>,
    /// Experience left over from earlier cycles, in millionths of a point.
    stored_xp: PlayerSkillsImpl<u64>,
    /// Experience earned in the running cycle, in millionths of a point.
    delta_xp: PlayerSkillsImpl<u64>,
    /// Level-ups since they were last drained.
    levelups: PlayerSkillsImpl<u64>,
    /// Whether each skill is unlocked.
    unlocked: PlayerSkillsImpl<bool>,
}

impl PlayerSkills {
    /// Level of `skill` as of the start of the running cycle.
    pub closed spec fn stored_level(self, skill: Skill) -> nat {
        self.stored_levels.at(skill) as nat
    }

    /// Levels of `skill` gained in the running cycle.
    pub closed spec fn delta_level(self, skill: Skill) -> nat {
        self.delta_levels.at(skill) as nat
    }

    /// Experience of `skill` carried over from earlier cycles.
    pub closed spec fn stored_xp_of(self, skill: Skill) -> nat {
        self.stored_xp.at(skill) as nat
    }

    /// Experience of `skill` gained in the running cycle and not yet spent.
    pub closed spec fn delta_xp_of(self, skill: Skill) -> nat {
        self.delta_xp.at(skill) as nat
    }

    /// Level-ups of `skill` that have not been drained yet.
    pub closed spec fn pending_levelups(self, skill: Skill) -> nat {
        self.levelups.at(skill) as nat
    }

    /// Whether `skill` is unlocked.
    pub closed spec fn is_unlocked(self, skill: Skill) -> bool {
        self.unlocked.at(skill)
    }

    /// Total level of `skill`.
    pub open spec fn level(self, skill: Skill) -> nat {
        self.stored_level(skill) + self.delta_level(skill)
    }

    /// Total unspent experience of `skill`.
    pub open spec fn xp(self, skill: Skill) -> nat {
        self.stored_xp_of(skill) + self.delta_xp_of(skill)
    }

    /// The totals of `skill` fit the machine, and no more level-ups are
    /// pending than levels are held.
    pub open spec fn skill_wf(self, skill: Skill) -> bool {
        &&& self.level(skill) <= u64::MAX
        &&& self.xp(skill) <= u64::MAX
        &&& self.pending_levelups(skill) <= self.level(skill)
    }

    /// Well-formedness of the ledger.
    pub open spec fn wf(self) -> bool {
        forall|skill: Skill| #[trigger] self.skill_wf(skill)
    }

    /// The experience of `skill` is below what its next level costs.
    pub open spec fn settled(self, skill: Skill) -> bool {
        self.xp(skill) < xp_needed_at(self.level(skill))
    }

    /// Everything the ledger holds about `skill` is the same in `other`.
    pub open spec fn same_skill(self, other: PlayerSkills, skill: Skill) -> bool {
        &&& self.stored_level(skill) == other.stored_level(skill)
        &&& self.delta_level(skill) == other.delta_level(skill)
        &&& self.stored_xp_of(skill) == other.stored_xp_of(skill)
        &&& self.delta_xp_of(skill) == other.delta_xp_of(skill)
        &&& self.pending_levelups(skill) == other.pending_levelups(skill)
        &&& self.is_unlocked(skill) == other.is_unlocked(skill)
    }

    /// Two ledgers that agree on every skill are the same ledger.
    pub proof fn lemma_same_skills_equal(self, other: PlayerSkills)
        requires
            forall|skill: Skill| #[trigger] self.same_skill(other, skill),
        ensures
            self == other,
    {
        assert(self.same_skill(other, Skill::Armor));
        assert(self.same_skill(other, Skill::Sword));
        assert(self.same_skill(other, Skill::Shield));
        assert(self.same_skill(other, Skill::Pants));
        assert(self.same_skill(other, Skill::Mirror));
        assert(self.same_skill(other, Skill::Healing));
        assert(self.same_skill(other, Skill::Speed));
    }

    /// Every skill is locked, at level zero and without experience, and no
    /// level-up is pending.
    pub open spec fn is_fresh(self) -> bool {
        forall|skill: Skill|
            #![trigger self.stored_level(skill)]
            #![trigger self.delta_level(skill)]
            #![trigger self.stored_xp_of(skill)]
            #![trigger self.delta_xp_of(skill)]
            #![trigger self.pending_levelups(skill)]
            #![trigger self.is_unlocked(skill)]
            {
                &&& self.stored_level(skill) == 0
                &&& self.delta_level(skill) == 0
                &&& self.stored_xp_of(skill) == 0
                &&& self.delta_xp_of(skill) == 0
                &&& self.pending_levelups(skill) == 0
                &&& !self.is_unlocked(skill)
            }
    }

    /// A fresh ledger: every skill locked, at level zero, without experience.
    pub fn new() -> (skills: PlayerSkills)
        ensures
            skills.wf(),
            skills.is_fresh(),
    {
        let skills = PlayerSkills {
            stored_levels: PlayerSkillsImpl::splat(0u64),
            delta_levels: PlayerSkillsImpl::splat(0u64),
            stored_xp: PlayerSkillsImpl::splat(0u64),
            delta_xp: PlayerSkillsImpl::splat(0u64),
            levelups: PlayerSkillsImpl::splat(0u64),
            unlocked: PlayerSkillsImpl::splat(false),
        };
        assert forall|skill: Skill| #[trigger] skills.skill_wf(skill) by {}
        skills
    }

    /// Total level of `skill`.
    pub fn get(&self, skill: Skill) -> (level: u64)
        requires
            self.wf(),
        ensures
            level == self.level(skill),
    {
        assert(self.skill_wf(skill));
        *self.stored_levels.index(skill) + *self.delta_levels.index(skill)
    }

    /// Level of `skill` as of the start of the running cycle, the highest
    /// reached before it.
    pub fn get_highest(&self, skill: Skill) -> (level: u64)
        ensures
            level == self.stored_level(skill),
    {
        *self.stored_levels.index(skill)
    }

    /// Total unspent experience of `skill`, in millionths of a point.
    pub fn get_xp(&self, skill: Skill) -> (xp: u64)
        requires
            self.wf(),
        ensures
            xp == self.xp(skill),
    {
        assert(self.skill_wf(skill));
        *self.stored_xp.index(skill) + *self.delta_xp.index(skill)
    }

    /// Experience of `skill` carried over from earlier cycles, in millionths
    /// of a point.
    pub fn get_stored_xp(&self, skill: Skill) -> (xp: u64)
        ensures
            xp == self.stored_xp_of(skill),
    {
        *self.stored_xp.index(skill)
    }

    /// Whether `skill` is unlocked.
    pub fn get_unlocked(&self, skill: Skill) -> (unlocked: bool)
        ensures
            unlocked == self.is_unlocked(skill),
    {
        *self.unlocked.index(skill)
    }

    /// Experience that the next level of `skill` costs, in millionths of a
    /// point. Experience already held is not taken off.
    pub fn xp_needed(&self, skill: Skill) -> (needed: u128)
        requires
            self.wf(),
        ensures
            needed == xp_needed_at(self.level(skill)),
    {
        let level: u64 = self.get(skill);
        assert(level * XP_PER_LEVEL <= 0xffff_ffff_ffff_ffff * 200_000) by (nonlinear_arith)
            requires
                level <= 0xffff_ffff_ffff_ffff,
                XP_PER_LEVEL == 200_000,
        ;
        MICRO as u128 + (level as u128) * (XP_PER_LEVEL as u128)
    }

    /// Total experience of `skill` once `xp` has been granted to it: what it
    /// holds, and `xp` after the catch-up factor of its stored level.
    pub open spec fn xp_granted(self, skill: Skill, xp: u64) -> nat {
        self.xp(skill) + scaled_xp(xp as nat, self.stored_level(skill))
    }

    /// Whether a grant of `xp` to `skill` is refused: the skill is unlocked
    /// and its experience would leave the ledger's range.
    pub open spec fn xp_refused(self, skill: Skill, xp: u64) -> bool {
        self.is_unlocked(skill) && self.xp_granted(skill, xp) > u64::MAX
    }

    /// The ledger after `xp` has been granted to `skill`: unchanged where
    /// the skill is locked or the grant is refused; else the experience is
    /// added and spent on as many levels as it pays for.
    pub closed spec fn after_xp(self, skill: Skill, xp: u64) -> PlayerSkills {
        let granted = self.xp_granted(skill, xp);
        if !self.is_unlocked(skill) || granted > u64::MAX {
            self
        } else {
            let gained = levels_paid(self.level(skill), granted);
            let spent = xp_to_climb(self.level(skill), gained);
            let earned = granted - self.stored_xp_of(skill);
            PlayerSkills {
                stored_levels: self.stored_levels,
                delta_levels: self.delta_levels.with(skill, (self.delta_level(skill) + gained) as u64),
                stored_xp: self.stored_xp.with(
                    skill,
                    (if spent <= earned {
                        self.stored_xp_of(skill) as int
                    } else {
                        granted - spent
                    }) as u64,
                ),
                delta_xp: self.delta_xp.with(
                    skill,
                    (if spent <= earned {
                        earned - spent
                    } else {
                        0
                    }) as u64,
                ),
                levelups: self.levelups.with(skill, (self.pending_levelups(skill) + gained) as u64),
                unlocked: self.unlocked,
            }
        }
    }

    /// The ledger after each of `events` has been granted in turn.
    pub open spec fn after_all_xp(self, events: Seq<SkillXpEvent>) -> PlayerSkills
        decreases events.len(),
    {
        if events.len() == 0 {
            self
        } else {
            self.after_all_xp(events.drop_last()).after_xp(events.last().skill, events.last().xp)
        }
    }

    /// How many of `events`, granted in turn, are refused.
    pub open spec fn refused_among(self, events: Seq<SkillXpEvent>) -> nat
        decreases events.len(),
    {
        if events.len() == 0 {
            0
        } else {
            let before = self.after_all_xp(events.drop_last());
            self.refused_among(events.drop_last()) + if before.xp_refused(
                events.last().skill,
                events.last().xp,
            ) {
                1nat
            } else {
                0nat
            }
        }
    }

    /// Takes `xp` off the experience of `skill` if it holds that much: first
    /// off what the running cycle earned, then off what was stored.
    fn subtract_xp(&mut self, skill: Skill, xp: u64) -> (paid: bool)
        requires
            old(self).wf(),
        ensures
            final(self).wf(),
            paid <==> old(self).xp(skill) >= xp,
            !paid ==> *final(self) == *old(self),
            forall|other: Skill| other != skill ==> #[trigger] final(self).same_skill(*old(self), other),
            final(self).stored_level(skill) == old(self).stored_level(skill),
            final(self).delta_level(skill) == old(self).delta_level(skill),
            final(self).pending_levelups(skill) == old(self).pending_levelups(skill),
            final(self).is_unlocked(skill) == old(self).is_unlocked(skill),
            paid && old(self).delta_xp_of(skill) >= xp ==> {
                &&& final(self).delta_xp_of(skill) == old(self).delta_xp_of(skill) - xp
                &&& final(self).stored_xp_of(skill) == old(self).stored_xp_of(skill)
            },
            paid && old(self).delta_xp_of(skill) < xp ==> {
                &&& final(self).delta_xp_of(skill) == 0
                &&& final(self).stored_xp_of(skill) == old(self).xp(skill) - xp
            },
    {
        assert(self.skill_wf(skill));
        if self.get_xp(skill) < xp {
            return false;
        }
        let delta: u64 = *self.delta_xp.index(skill);
        if delta >= xp {
            self.delta_xp.put(skill, delta - xp);
        } else {
            let stored: u64 = *self.stored_xp.index(skill);
            self.delta_xp.put(skill, 0);
            self.stored_xp.put(skill, stored - (xp - delta));
        }
        assert forall|other: Skill| #[trigger] final(self).skill_wf(other) by {
            assert(old(self).skill_wf(other));
        }
        true
    }

    /// Grants `xp` base experience (millionths of a point) to `skill` and
    /// turns experience into levels for as long as it pays for one.
    ///
    /// A locked skill takes nothing. The grant is first multiplied by the
    /// catch-up factor of the skill's stored level. While the experience held
    /// covers the cost of the next level, that cost is taken off (first from
    /// what the running cycle earned) and the level and the count of pending
    /// level-ups rise by one. A grant that would push the experience held
    /// beyond the ledger's range is refused and leaves the ledger as it was.
    pub fn add_xp(&mut self, skill: Skill, xp: u64) -> (res: Result<(), SkillError>)
        requires
            old(self).wf(),
        ensures
            final(self).wf(),
            forall|other: Skill| other != skill ==> #[trigger] final(self).same_skill(*old(self), other),
            final(self).is_unlocked(skill) == old(self).is_unlocked(skill),
            final(self).stored_level(skill) == old(self).stored_level(skill),
            !old(self).is_unlocked(skill) ==> res is Ok && *final(self) == *old(self),
            old(self).is_unlocked(skill) ==> (res is Err <==> old(self).xp_granted(skill, xp) > u64::MAX),
            res is Err ==> *final(self) == *old(self),
            *final(self) == old(self).after_xp(skill, xp),
            old(self).settled(skill) ==> final(self).settled(skill),
            old(self).is_unlocked(skill) && res is Ok ==> {
                let granted = old(self).xp_granted(skill, xp);
                let before = old(self).level(skill);
                let gained = (final(self).level(skill) - before) as nat;
                let spent = xp_to_climb(before, gained);
                let earned = granted - old(self).stored_xp_of(skill);
                &&& final(self).level(skill) >= before
                &&& spent <= granted < xp_to_climb(before, gained + 1)
                &&& final(self).xp(skill) == granted - spent
                &&& final(self).settled(skill)
                &&& final(self).pending_levelups(skill) == old(self).pending_levelups(skill) + gained
                &&& final(self).delta_xp_of(skill) == if spent <= earned { earned - spent } else { 0 }
            },
    {
        // no experience until a skill is unlocked
        if !*self.unlocked.index(skill) {
            return Ok(());
        }
        assert(self.skill_wf(skill));
        let highest: u64 = *self.stored_levels.index(skill);
        let scaled: u128 = scale_xp(xp, highest);
        let held: u64 = self.get_xp(skill);
        if scaled > (u64::MAX - held) as u128 {
            return Err(SkillError::XpOverflow);
        }
        let ghost start = *self;
        let ghost before = self.level(skill);
        let ghost granted = self.xp_granted(skill, xp);
        let ghost earned = granted - self.stored_xp_of(skill);
        let delta: u64 = *self.delta_xp.index(skill);
        self.delta_xp.put(skill, delta + scaled as u64);
        assert forall|other: Skill| #[trigger] self.skill_wf(other) by {
            assert(start.skill_wf(other));
        }
        let ghost mut gained: nat = 0;
        let mut needed: u128 = self.xp_needed(skill);
        while self.get_xp(skill) as u128 >= needed
            invariant
                self.wf(),
                start.wf(),
                forall|other: Skill| other != skill ==> #[trigger] self.same_skill(start, other),
                self.is_unlocked(skill) == start.is_unlocked(skill),
                self.stored_level(skill) == start.stored_level(skill),
                self.level(skill) == before + gained,
                before == start.level(skill),
                self.pending_levelups(skill) == start.pending_levelups(skill) + gained,
                needed == xp_needed_at(self.level(skill)),
                granted <= u64::MAX,
                earned == granted - start.stored_xp_of(skill),
                earned >= 0,
                xp_to_climb(before, gained) <= granted,
                self.xp(skill) == granted - xp_to_climb(before, gained),
                self.delta_xp_of(skill) == if xp_to_climb(before, gained) <= earned {
                    earned - xp_to_climb(before, gained)
                } else {
                    0
                },
            decreases self.xp(skill),
        {
            assert(self.skill_wf(skill));
            let ghost entry = *self;
            let paid: bool = self.subtract_xp(skill, needed as u64);
            assert(paid);
            let ghost mid = *self;
            // one level up
            let level: u64 = *self.delta_levels.index(skill);
            let pending: u64 = *self.levelups.index(skill);
            assert(entry.level(skill) * XP_PER_LEVEL <= u64::MAX);
            assert(entry.level(skill) < u64::MAX) by (nonlinear_arith)
                requires
                    entry.level(skill) * XP_PER_LEVEL <= u64::MAX,
                    XP_PER_LEVEL == 200_000,
            ;
            self.delta_levels.put(skill, level + 1);
            self.levelups.put(skill, pending + 1);
            proof {
                assert(xp_to_climb(before, gained + 1) == xp_to_climb(before, gained)
                    + xp_needed_at((before + gained) as nat));
                gained = gained + 1;
                assert forall|other: Skill| other != skill implies #[trigger] self.same_skill(
                    start,
                    other,
                ) by {
                    assert(mid.same_skill(entry, other));
                    assert(entry.same_skill(start, other));
                }
                assert forall|other: Skill| #[trigger] self.skill_wf(other) by {
                    assert(start.skill_wf(other));
                    assert(mid.skill_wf(other));
                }
            }
            needed = self.xp_needed(skill);
        }
        proof {
            assert(xp_to_climb(before, gained + 1) == xp_to_climb(before, gained) + xp_needed_at(
                (before + gained) as nat,
            ));
            start.lemma_is_after_xp(*self, skill, xp, gained);
        }
        Ok(())
    }

    /// What `after_xp` describes: a locked skill and a refused grant leave
    /// the ledger as it is; any other grant raises the skill by the levels
    /// that its experience pays for, leaves less experience than the next
    /// level costs, and touches no other skill.
    pub proof fn lemma_after_xp(self, skill: Skill, xp: u64)
        requires
            self.wf(),
        ensures
            self.after_xp(skill, xp).wf(),
            forall|other: Skill|
                other != skill ==> #[trigger] self.after_xp(skill, xp).same_skill(self, other),
            self.after_xp(skill, xp).is_unlocked(skill) == self.is_unlocked(skill),
            self.after_xp(skill, xp).stored_level(skill) == self.stored_level(skill),
            !self.is_unlocked(skill) || self.xp_refused(skill, xp) ==> self.after_xp(skill, xp) == self,
            self.is_unlocked(skill) && !self.xp_refused(skill, xp) ==> {
                let after = self.after_xp(skill, xp);
                let granted = self.xp_granted(skill, xp);
                let gained = levels_paid(self.level(skill), granted);
                &&& after.level(skill) == self.level(skill) + gained
                &&& after.delta_level(skill) == self.delta_level(skill) + gained
                &&& after.pending_levelups(skill) == self.pending_levelups(skill) + gained
                &&& xp_to_climb(self.level(skill), gained) <= granted
                &&& granted < xp_to_climb(self.level(skill), gained + 1)
                &&& after.xp(skill) == granted - xp_to_climb(self.level(skill), gained)
                &&& after.settled(skill)
            },
    {
        let after = self.after_xp(skill, xp);
        assert(self.skill_wf(skill));
        if self.is_unlocked(skill) && !self.xp_refused(skill, xp) {
            let level = self.level(skill);
            let granted = self.xp_granted(skill, xp);
            let gained = levels_paid(level, granted);
            let spent = xp_to_climb(level, gained);
            lemma_levels_paid_covered(level, granted);
            assert(xp_to_climb(level, gained + 1) == spent + xp_needed_at((level + gained) as nat));
            if gained > 0 {
                assert(spent == xp_to_climb(level, (gained - 1) as nat) + xp_needed_at(
                    (level + gained - 1) as nat,
                ));
                assert((level + gained - 1) * XP_PER_LEVEL <= u64::MAX);
                assert(level + gained - 1 < u64::MAX - 1) by (nonlinear_arith)
                    requires
                        (level + gained - 1) * XP_PER_LEVEL <= u64::MAX,
                        XP_PER_LEVEL == 200_000,
                ;
            }
            assert(after.delta_level(skill) == self.delta_level(skill) + gained);
            assert(after.pending_levelups(skill) == self.pending_levelups(skill) + gained);
            assert(after.xp(skill) == granted - spent);
        }
        assert forall|other: Skill| other != skill implies #[trigger] after.same_skill(self, other) by {}
        assert forall|other: Skill| #[trigger] after.skill_wf(other) by {
            assert(self.skill_wf(other));
            if other != skill {
                assert(after.same_skill(self, other));
            }
        }
    }

    /// However many grants are made, the ledger stays well-formed and no
    /// unlock flag changes; a skill whose experience was below the cost of
    /// its next level stays so; and a skill is so after every grant to it
    /// that it accepts.
    pub proof fn lemma_grants_settle(self, events: Seq<SkillXpEvent>, skill: Skill)
        requires
            self.wf(),
        ensures
            self.after_all_xp(events).wf(),
            self.after_all_xp(events).is_unlocked(skill) == self.is_unlocked(skill),
            self.settled(skill) ==> self.after_all_xp(events).settled(skill),
            events.len() > 0 && events.last().skill == skill && self.is_unlocked(skill)
                && !self.after_all_xp(events.drop_last()).xp_refused(skill, events.last().xp)
                ==> self.after_all_xp(events).settled(skill),
        decreases events.len(),
    {
        if events.len() > 0 {
            self.lemma_grants_settle(events.drop_last(), skill);
            let before = self.after_all_xp(events.drop_last());
            let last = events.last();
            before.lemma_after_xp(last.skill, last.xp);
            let after = before.after_xp(last.skill, last.xp);
            if last.skill != skill {
                assert(after.same_skill(before, skill));
            }
        }
    }

    /// A ledger that differs from `self` by a grant as `add_xp` makes it is
    /// the ledger that `after_xp` describes.
    proof fn lemma_is_after_xp(self, end: PlayerSkills, skill: Skill, xp: u64, gained: nat)
        requires
            self.is_unlocked(skill),
            self.xp_granted(skill, xp) <= u64::MAX,
            forall|other: Skill| other != skill ==> #[trigger] end.same_skill(self, other),
            end.is_unlocked(skill),
            end.stored_level(skill) == self.stored_level(skill),
            end.delta_level(skill) == self.delta_level(skill) + gained,
            end.pending_levelups(skill) == self.pending_levelups(skill) + gained,
            xp_to_climb(self.level(skill), gained) <= self.xp_granted(skill, xp),
            self.xp_granted(skill, xp) < xp_to_climb(self.level(skill), gained + 1),
            end.xp(skill) == self.xp_granted(skill, xp) - xp_to_climb(self.level(skill), gained),
            end.delta_xp_of(skill) == if xp_to_climb(self.level(skill), gained) <= self.xp_granted(
                skill,
                xp,
            ) - self.stored_xp_of(skill) {
                self.xp_granted(skill, xp) - self.stored_xp_of(skill) - xp_to_climb(
                    self.level(skill),
                    gained,
                )
            } else {
                0
            },
        ensures
            end == self.after_xp(skill, xp),
    {
        lemma_levels_paid(self.level(skill), self.xp_granted(skill, xp), gained);
        let expected = self.after_xp(skill, xp);
        assert forall|other: Skill| #[trigger] end.same_skill(expected, other) by {
            if other != skill {
                assert(end.same_skill(self, other));
            }
        }
        end.lemma_same_skills_equal(expected);
    }

    /// Unlocks `skill`; a skill that is unlocked stays so.
    pub fn unlock_skill(&mut self, skill: Skill)
        requires
            old(self).wf(),
        ensures
            final(self).wf(),
            final(self).is_unlocked(skill),
            forall|other: Skill| other != skill ==> #[trigger] final(self).same_skill(*old(self), other),
            final(self).stored_level(skill) == old(self).stored_level(skill),
            final(self).delta_level(skill) == old(self).delta_level(skill),
            final(self).stored_xp_of(skill) == old(self).stored_xp_of(skill),
            final(self).delta_xp_of(skill) == old(self).delta_xp_of(skill),
            final(self).pending_levelups(skill) == old(self).pending_levelups(skill),
            old(self).is_unlocked(skill) ==> *final(self) == *old(self),
    {
        self.unlocked.put(skill, true);
        assert forall|other: Skill| #[trigger] final(self).skill_wf(other) by {
            assert(old(self).skill_wf(other));
        }
        proof {
            if old(self).is_unlocked(skill) {
                assert forall|other: Skill| #[trigger] final(self).same_skill(*old(self), other) by {}
                final(self).lemma_same_skills_equal(*old(self));
            }
        }
    }

    /// `self` is `before` with the running cycle folded into what is stored:
    /// for every skill the stored level and experience are the old totals,
    /// nothing is left in the running cycle, and the unlock flag and the
    /// pending level-ups are kept.
    pub open spec fn is_cycle_end_of(self, before: PlayerSkills) -> bool {
        forall|skill: Skill| #[trigger] self.skill_folded(before, skill)
    }

    /// What `is_cycle_end_of` asks of one skill.
    pub open spec fn skill_folded(self, before: PlayerSkills, skill: Skill) -> bool {
        &&& self.stored_level(skill) == before.level(skill)
        &&& self.delta_level(skill) == 0
        &&& self.stored_xp_of(skill) == before.xp(skill)
        &&& self.delta_xp_of(skill) == 0
        &&& self.pending_levelups(skill) == before.pending_levelups(skill)
        &&& self.is_unlocked(skill) == before.is_unlocked(skill)
    }

    /// Folds what `skill` earned in the running cycle into what is stored.
    fn fold_skill(&mut self, skill: Skill)
        requires
            old(self).wf(),
        ensures
            final(self).wf(),
            final(self).skill_folded(*old(self), skill),
            forall|other: Skill| other != skill ==> #[trigger] final(self).same_skill(*old(self), other),
    {
        assert(self.skill_wf(skill));
        let levels: u64 = *self.delta_levels.index(skill);
        let stored_levels: u64 = *self.stored_levels.index(skill);
        self.stored_levels.put(skill, stored_levels + levels);
        self.delta_levels.put(skill, 0);
        let xp: u64 = *self.delta_xp.index(skill);
        let stored_xp: u64 = *self.stored_xp.index(skill);
        self.stored_xp.put(skill, stored_xp + xp);
        self.delta_xp.put(skill, 0);
        assert forall|other: Skill| #[trigger] final(self).skill_wf(other) by {
            assert(old(self).skill_wf(other));
        }
    }

    /// Ends the cycle: for every skill the levels and the experience of the
    /// running cycle are added to what is stored, and the running cycle
    /// starts again from nothing.
    pub fn end_cycle(&mut self)
        requires
            old(self).wf(),
        ensures
            final(self).wf(),
            final(self).is_cycle_end_of(*old(self)),
            forall|skill: Skill| #[trigger]
                final(self).level(skill) == old(self).level(skill) && final(self).xp(skill) == old(
                    self,
                ).xp(skill),
    {
        let ghost start = *self;
        self.fold_skill(Skill::Armor);
        proof {
            start.lemma_fold_step(start, *self, Skill::Armor, 0, 1);
        }
        let ghost s1 = *self;
        self.fold_skill(Skill::Sword);
        proof {
            start.lemma_fold_step(s1, *self, Skill::Sword, 1, 2);
        }
        let ghost s2 = *self;
        self.fold_skill(Skill::Shield);
        proof {
            start.lemma_fold_step(s2, *self, Skill::Shield, 2, 3);
        }
        let ghost s3 = *self;
        self.fold_skill(Skill::Pants);
        proof {
            start.lemma_fold_step(s3, *self, Skill::Pants, 3, 4);
        }
        let ghost s4 = *self;
        self.fold_skill(Skill::Mirror);
        proof {
            start.lemma_fold_step(s4, *self, Skill::Mirror, 4, 5);
        }
        let ghost s5 = *self;
        self.fold_skill(Skill::Healing);
        proof {
            start.lemma_fold_step(s5, *self, Skill::Healing, 5, 6);
        }
        let ghost s6 = *self;
        self.fold_skill(Skill::Speed);
        proof {
            start.lemma_fold_step(s6, *self, Skill::Speed, 6, 7);
        }
        assert forall|skill: Skill| #[trigger] final(self).skill_folded(start, skill) by {
            assert(final(self).folded_through(start, skill));
        }
        assert forall|skill: Skill| #[trigger]
            final(self).level(skill) == start.level(skill) && final(self).xp(skill) == start.xp(
                skill,
            ) by {
            assert(final(self).skill_folded(start, skill));
        }
    }

    /// `skill` is folded if its turn has come before `upto`, untouched if not.
    spec fn folded_upto(self, before: PlayerSkills, upto: int, skill: Skill) -> bool {
        if skill.ordinal() < upto {
            self.skill_folded(before, skill)
        } else {
            self.same_skill(before, skill)
        }
    }

    /// `skill` is folded, every skill has had its turn.
    spec fn folded_through(self, before: PlayerSkills, skill: Skill) -> bool {
        self.folded_upto(before, 7, skill)
    }

    /// Folding the next skill in turn extends what is folded by that skill.
    proof fn lemma_fold_step(
        self,
        mid: PlayerSkills,
        after: PlayerSkills,
        skill: Skill,
        turn: int,
        next: int,
    )
        requires
            turn == skill.ordinal(),
            next == turn + 1,
            forall|k: Skill| #[trigger] mid.folded_upto(self, turn, k),
            after.skill_folded(mid, skill),
            forall|other: Skill| other != skill ==> #[trigger] after.same_skill(mid, other),
        ensures
            forall|k: Skill| #[trigger] after.folded_upto(self, next, k),
    {
        assert forall|k: Skill| #[trigger] after.folded_upto(self, next, k) by {
            assert(mid.folded_upto(self, turn, k));
            if k != skill {
                assert(after.same_skill(mid, k));
            }
        }
    }

    /// The level-up that is pending for `skill`, if there is one.
    pub open spec fn pending_event(self, skill: Skill) -> Seq<LevelUpEvent> {
        if self.pending_levelups(skill) > 0 {
            seq![(LevelUpEvent { num_levels: self.pending_levelups(skill) as u64, skill })]
        } else {
            Seq::empty()
        }
    }

    /// The level-ups that are pending among `skills`, one event for each
    /// skill that has any, in the order of `skills`.
    pub open spec fn pending_events_of(self, skills: Seq<Skill>) -> Seq<LevelUpEvent>
        decreases skills.len(),
    {
        if skills.len() == 0 {
            Seq::empty()
        } else {
            self.pending_events_of(skills.drop_last()) + self.pending_event(skills.last())
        }
    }

    /// The level-ups that are pending, one event for each skill that has
    /// any, in ledger order.
    pub open spec fn pending_events(self) -> Seq<LevelUpEvent> {
        self.pending_events_of(Skill::all())
    }

    /// `self` is `before` but for the pending level-ups, of which it has none.
    pub open spec fn is_drained_of(self, before: PlayerSkills) -> bool {
        forall|skill: Skill| #[trigger] self.skill_drained(before, skill)
    }

    /// What `is_drained_of` asks of one skill.
    pub open spec fn skill_drained(self, before: PlayerSkills, skill: Skill) -> bool {
        &&& self.stored_level(skill) == before.stored_level(skill)
        &&& self.delta_level(skill) == before.delta_level(skill)
        &&& self.stored_xp_of(skill) == before.stored_xp_of(skill)
        &&& self.delta_xp_of(skill) == before.delta_xp_of(skill)
        &&& self.pending_levelups(skill) == 0
        &&& self.is_unlocked(skill) == before.is_unlocked(skill)
    }

    /// Moves the pending level-up of `skill`, if any, to the end of `buf`.
    fn drain_skill(&mut self, skill: Skill, buf: &mut Vec<LevelUpEvent>)
        requires
            old(self).wf(),
        ensures
            final(self).wf(),
            final(self).skill_drained(*old(self), skill),
            forall|other: Skill| other != skill ==> #[trigger] final(self).same_skill(*old(self), other),
            final(buf)@ == old(buf)@ + old(self).pending_event(skill),
    {
        let pending: u64 = *self.levelups.index(skill);
        if pending == 0 {
            assert(buf@ =~= old(buf)@ + old(self).pending_event(skill));
            assert forall|other: Skill| other != skill implies #[trigger] final(self).same_skill(
                *old(self),
                other,
            ) by {}
            return ;
        }
        buf.push(LevelUpEvent { num_levels: pending, skill });
        self.levelups.put(skill, 0);
        assert(buf@ =~= old(buf)@ + old(self).pending_event(skill));
        assert forall|other: Skill| #[trigger] final(self).skill_wf(other) by {
            assert(old(self).skill_wf(other));
        }
    }

    /// Appends to `buf` one event for each skill that rose since the last
    /// drain, in ledger order, and forgets those level-ups.
    pub fn drain_levelups(&mut self, buf: &mut Vec<LevelUpEvent>)
        requires
            old(self).wf(),
        ensures
            final(self).wf(),
            final(self).is_drained_of(*old(self)),
            final(buf)@ == old(buf)@ + old(self).pending_events(),
            final(self).pending_events() == Seq::<LevelUpEvent>::empty(),
    {
        let ghost start = *self;
        let skills: Vec<Skill> = Skill::iter();
        let mut turn: usize = 0;
        while turn < skills.len()
            invariant
                turn <= 7,
                skills@ == Skill::all(),
                self.wf(),
                forall|k: Skill| #[trigger] self.drained_upto(start, turn as int, k),
                buf@ == old(buf)@ + start.pending_events_of(skills@.take(turn as int)),
            decreases skills.len() - turn,
        {
            let skill: Skill = skills[turn];
            let ghost mid = *self;
            self.drain_skill(skill, buf);
            proof {
                assert(mid.drained_upto(start, turn as int, skill));
                start.lemma_drain_step(mid, *self, skill, turn as int, turn + 1);
                let taken = skills@.take(turn + 1);
                assert(taken.drop_last() =~= skills@.take(turn as int));
                assert(taken.last() == skill);
                assert(buf@ =~= old(buf)@ + start.pending_events_of(taken));
            }
            turn = turn + 1;
        }
        assert(skills@.take(7) =~= Skill::all());
        assert forall|skill: Skill| #[trigger] final(self).skill_drained(start, skill) by {
            assert(final(self).drained_upto(start, 7, skill));
        }
        assert forall|skill: Skill| #[trigger] final(self).pending_levelups(skill) == 0 by {
            assert(final(self).skill_drained(start, skill));
        }
        proof {
            final(self).lemma_nothing_pending();
        }
    }

    /// `skill` is drained if its turn has come before `upto`, untouched if not.
    spec fn drained_upto(self, before: PlayerSkills, upto: int, skill: Skill) -> bool {
        if skill.ordinal() < upto {
            self.skill_drained(before, skill)
        } else {
            self.same_skill(before, skill)
        }
    }

    /// Draining the next skill in turn extends what is drained by that skill.
    proof fn lemma_drain_step(
        self,
        mid: PlayerSkills,
        after: PlayerSkills,
        skill: Skill,
        turn: int,
        next: int,
    )
        requires
            turn == skill.ordinal(),
            next == turn + 1,
            forall|k: Skill| #[trigger] mid.drained_upto(self, turn, k),
            after.skill_drained(mid, skill),
            forall|other: Skill| other != skill ==> #[trigger] after.same_skill(mid, other),
        ensures
            forall|k: Skill| #[trigger] after.drained_upto(self, next, k),
    {
        assert forall|k: Skill| #[trigger] after.drained_upto(self, next, k) by {
            assert(mid.drained_upto(self, turn, k));
            if k != skill {
                assert(after.same_skill(mid, k));
            }
        }
    }

    /// A ledger without pending level-ups has no events to hand out.
    pub proof fn lemma_nothing_pending(self)
        requires
            forall|skill: Skill| #[trigger] self.pending_levelups(skill) == 0,
        ensures
            self.pending_events() == Seq::<LevelUpEvent>::empty(),
    {
        self.lemma_nothing_pending_of(Skill::all());
    }

    /// A ledger without pending level-ups has no events for any skills.
    proof fn lemma_nothing_pending_of(self, skills: Seq<Skill>)
        requires
            forall|skill: Skill| #[trigger] self.pending_levelups(skill) == 0,
        ensures
            self.pending_events_of(skills) == Seq::<LevelUpEvent>::empty(),
        decreases skills.len(),
    {
        if skills.len() > 0 {
            self.lemma_nothing_pending_of(skills.drop_last());
            assert(self.pending_levelups(skills.last()) == 0);
            assert(self.pending_events_of(skills) =~= Seq::<LevelUpEvent>::empty());
        }
    }

    /// The level that `save_data` records for `skill`.
    pub open spec fn saved_level(save_data: SaveData, skill: Skill) -> u64 {
        match skill {
            Skill::Armor => save_data.armor_level,
            Skill::Sword => save_data.sword_level,
            Skill::Shield => save_data.shield_level,
            Skill::Pants => save_data.pants_level,
            Skill::Mirror => save_data.mirror_level,
            Skill::Healing => save_data.healing_level,
            Skill::Speed => save_data.speed_level,
        }
    }

    /// The experience that `save_data` records for `skill`.
    pub open spec fn saved_xp(save_data: SaveData, skill: Skill) -> u64 {
        match skill {
            Skill::Armor => save_data.armor_xp,
            Skill::Sword => save_data.sword_xp,
            Skill::Shield => save_data.shield_xp,
            Skill::Pants => save_data.pants_xp,
            Skill::Mirror => save_data.mirror_xp,
            Skill::Healing => save_data.healing_xp,
            Skill::Speed => save_data.speed_xp,
        }
    }

    /// The unlock flag that `save_data` records for `skill`.
    pub open spec fn saved_unlocked(save_data: SaveData, skill: Skill) -> bool {
        match skill {
            Skill::Armor => save_data.armor_unlocked,
            Skill::Sword => save_data.sword_unlocked,
            Skill::Shield => save_data.shield_unlocked,
            Skill::Pants => save_data.pants_unlocked,
            Skill::Mirror => save_data.mirror_unlocked,
            Skill::Healing => save_data.healing_unlocked,
            Skill::Speed => save_data.speed_unlocked,
        }
    }

    /// `self` holds what `save_data` records as stored, and nothing else.
    pub open spec fn is_loaded_from(self, save_data: SaveData) -> bool {
        forall|skill: Skill|
            #![trigger self.skill_loaded(save_data, skill)]
            #![trigger self.stored_level(skill)]
            #![trigger self.delta_level(skill)]
            #![trigger self.stored_xp_of(skill)]
            #![trigger self.delta_xp_of(skill)]
            #![trigger self.pending_levelups(skill)]
            #![trigger self.is_unlocked(skill)]
            self.skill_loaded(save_data, skill)
    }

    /// What `is_loaded_from` asks of one skill.
    pub open spec fn skill_loaded(self, save_data: SaveData, skill: Skill) -> bool {
        &&& self.stored_level(skill) == Self::saved_level(save_data, skill)
        &&& self.delta_level(skill) == 0
        &&& self.stored_xp_of(skill) == Self::saved_xp(save_data, skill)
        &&& self.delta_xp_of(skill) == 0
        &&& self.pending_levelups(skill) == 0
        &&& self.is_unlocked(skill) == Self::saved_unlocked(save_data, skill)
    }

    /// The ledger that a save describes: its levels, experience and unlock
    /// flags as stored, with nothing earned in the running cycle.
    pub fn from_save_data(save_data: &SaveData) -> (skills: PlayerSkills)
        ensures
            skills.wf(),
            skills.is_loaded_from(*save_data),
    {
        let skills = PlayerSkills {
            stored_levels: PlayerSkillsImpl {
                armor: save_data.armor_level,
                sword: save_data.sword_level,
                shield: save_data.shield_level,
                pants: save_data.pants_level,
                mirror: save_data.mirror_level,
                healing: save_data.healing_level,
                speed: save_data.speed_level,
            },
            delta_levels: PlayerSkillsImpl::splat(0u64),
            stored_xp: PlayerSkillsImpl {
                armor: save_data.armor_xp,
                sword: save_data.sword_xp,
                shield: save_data.shield_xp,
                pants: save_data.pants_xp,
                mirror: save_data.mirror_xp,
                healing: save_data.healing_xp,
                speed: save_data.speed_xp,
            },
            delta_xp: PlayerSkillsImpl::splat(0u64),
            levelups: PlayerSkillsImpl::splat(0u64),
            unlocked: PlayerSkillsImpl {
                armor: save_data.armor_unlocked,
                sword: save_data.sword_unlocked,
                shield: save_data.shield_unlocked,
                pants: save_data.pants_unlocked,
                mirror: save_data.mirror_unlocked,
                healing: save_data.healing_unlocked,
                speed: save_data.speed_unlocked,
            },
        };
        assert forall|skill: Skill| #[trigger] skills.skill_loaded(*save_data, skill) by {}
        assert forall|skill: Skill| #[trigger] skills.skill_wf(skill) by {
            assert(skills.skill_loaded(*save_data, skill));
        }
        skills
    }

    /// Ending a cycle twice in a row changes nothing the second time.
    pub proof fn lemma_end_cycle_idempotent(self, once: PlayerSkills, twice: PlayerSkills)
        requires
            once.is_cycle_end_of(self),
            twice.is_cycle_end_of(once),
        ensures
            twice == once,
    {
        assert forall|skill: Skill| #[trigger] twice.same_skill(once, skill) by {
            assert(once.skill_folded(self, skill));
            assert(twice.skill_folded(once, skill));
        }
        twice.lemma_same_skills_equal(once);
    }

    /// A drain that follows a drain finds nothing and changes nothing.
    pub proof fn lemma_drain_twice(self, once: PlayerSkills, twice: PlayerSkills)
        requires
            once.is_drained_of(self),
            twice.is_drained_of(once),
        ensures
            once.pending_events() == Seq::<LevelUpEvent>::empty(),
            twice == once,
    {
        assert forall|skill: Skill| #[trigger] once.pending_levelups(skill) == 0 by {
            assert(once.skill_drained(self, skill));
        }
        once.lemma_nothing_pending();
        assert forall|skill: Skill| #[trigger] twice.same_skill(once, skill) by {
            assert(once.skill_drained(self, skill));
            assert(twice.skill_drained(once, skill));
        }
        twice.lemma_same_skills_equal(once);
    }

    /// Fraction of incoming damage that the player takes, in millionths.
    pub fn damage_taken(&self) -> (fraction: u64)
        requires
            self.wf(),
        ensures
            fraction == damage_taken_at(self.level(Skill::Armor)),
            fraction <= MICRO,
    {
        let level: u128 = self.get(Skill::Armor) as u128;
        proof {
            lemma_div_is_ordered_by_denominator(100_000_000, 100, 100 + level);
        }
        (100_000_000u128 / (100u128 + level)) as u64
    }

    /// Chance that an incoming attack is blocked, in millionths; none while
    /// the shield is locked.
    pub fn block_chance(&self) -> (chance: u64)
        requires
            self.wf(),
        ensures
            chance == if self.is_unlocked(Skill::Shield) {
                block_chance_at(self.level(Skill::Shield))
            } else {
                0
            },
            chance <= 650_000,
            self.is_unlocked(Skill::Shield) ==> chance >= 150_000,
    {
        if self.get_unlocked(Skill::Shield) {
            let squared: u128 = level_squared(self.get(Skill::Shield));
            proof {
                lemma_div_is_ordered_by_denominator(500_000_000, 1000, squared + 1000);
            }
            650_000u64 - (500_000_000u128 / (squared + 1000u128)) as u64
        } else {
            0
        }
    }

    /// Chance that the player reflects a projectile, in millionths; none
    /// while the mirror is locked.
    pub fn reflect_chance(&self) -> (chance: u64)
        requires
            self.wf(),
        ensures
            chance == if self.is_unlocked(Skill::Mirror) {
                reflect_chance_at(self.level(Skill::Mirror))
            } else {
                0
            },
            chance <= 750_000,
            self.is_unlocked(Skill::Mirror) ==> chance >= 50_000,
    {
        if self.get_unlocked(Skill::Mirror) {
            let squared: u128 = level_squared(self.get(Skill::Mirror));
            proof {
                lemma_div_is_ordered_by_denominator(700_000_000, 1000, squared + 1000);
            }
            750_000u64 - (700_000_000u128 / (squared + 1000u128)) as u64
        } else {
            0
        }
    }

    /// The player's mass, in millionths: it divides the knockback taken and
    /// multiplies the knockback dealt.
    pub fn mass(&self) -> (mass: u64)
        requires
            self.wf(),
        ensures
            mass == mass_at(self.level(Skill::Pants)),
            mass >= MICRO,
    {
        let level: u64 = self.get(Skill::Pants);
        assert(level * 100_000_000_000 <= 0xffff_ffff_ffff_ffff * 100_000_000_000)
            by (nonlinear_arith)
            requires
                level <= 0xffff_ffff_ffff_ffff,
        ;
        let root: u64 = isqrt((level as u128) * 100_000_000_000u128);
        assert(root < 0x8_0000_0000_0000) by {
            if root >= 0x8_0000_0000_0000 {
                assert(root * root >= 0x8_0000_0000_0000 * 0x8_0000_0000_0000) by (nonlinear_arith)
                    requires
                        root >= 0x8_0000_0000_0000,
                ;
            }
        }
        MICRO + root
    }

    /// Multiplier on the player's maximum health, in millionths.
    pub fn max_health(&self) -> (multiplier: u64)
        requires
            self.wf(),
        ensures
            multiplier == max_health_at(self.level(Skill::Pants)),
            multiplier >= MICRO,
    {
        let level: u64 = self.get(Skill::Pants);
        assert(level * 20_000_000_000 <= 0xffff_ffff_ffff_ffff * 20_000_000_000) by (nonlinear_arith)
            requires
                level <= 0xffff_ffff_ffff_ffff,
        ;
        let root: u64 = isqrt((level as u128) * 20_000_000_000u128);
        assert(root < 0x8_0000_0000_0000) by {
            if root >= 0x8_0000_0000_0000 {
                assert(root * root >= 0x8_0000_0000_0000 * 0x8_0000_0000_0000) by (nonlinear_arith)
                    requires
                        root >= 0x8_0000_0000_0000,
                ;
            }
        }
        MICRO + root
    }

    /// Fraction of the maximum health that one healing tick restores, in
    /// millionths.
    pub fn healing(&self) -> (fraction: u64)
        requires
            self.wf(),
        ensures
            fraction == healing_at(self.level(Skill::Healing)),
            10_000 <= fraction <= 500_000,
    {
        let squared: u128 = level_squared(self.get(Skill::Healing));
        proof {
            lemma_div_is_ordered_by_denominator(98_000_000, 200, squared + 200);
        }
        500_000u64 - (98_000_000u128 / (squared + 200u128)) as u64
    }

    /// What the description of `skill` says before the level.
    pub open spec fn description_head(skill: Skill) -> Seq<char> {
        match skill {
            Skill::Armor => "Trusty Armor - Level *"@,
            Skill::Sword => "Soleil's Sword - Level *"@,
            Skill::Shield => "Prince's Shield - Level *"@,
            Skill::Pants => "Wulf's Pants - Level *"@,
            Skill::Mirror => "Mirror Witch's Armor Polish - Level *"@,
            Skill::Healing => "Amanon's Tears - Level *"@,
            Skill::Speed => "Artist's Boots - Level *"@,
        }
    }

    /// What the description of `skill` says between the level and the
    /// skill's effect.
    pub open spec fn description_body(skill: Skill) -> Seq<char> {
        match skill {
            Skill::Armor => "*\nReduces damage taken by *"@,
            Skill::Sword => "*\nAttacks deal *"@,
            Skill::Shield => "*\nBlocks *"@,
            Skill::Pants => "*\nIncreases maximum health by *"@,
            Skill::Mirror => "*\nReflects *"@,
            Skill::Healing => "*\nRestores *"@,
            Skill::Speed => "*\nMove *"@,
        }
    }

    /// What the description of `skill` says after the skill's effect.
    pub open spec fn description_tail(skill: Skill) -> Seq<char> {
        match skill {
            Skill::Armor => "%*"@,
            Skill::Sword => "* damage"@,
            Skill::Shield => "%* of attacks"@,
            Skill::Pants => "%* and *improves knockback*"@,
            Skill::Mirror => "%* of projectiles"@,
            Skill::Healing => "%* health every 3 seconds"@,
            Skill::Speed => "%* faster"@,
        }
    }

    /// The effect of `skill` as its description states it: whole hit
    /// points for the sword, whole hundredths for the others, rounded down;
    /// for the pants and the boots, the hundredths above one. The attack
    /// damage (millionths of a hit point) and the speed multiplier
    /// (millionths) are given.
    pub open spec fn described_effect(self, skill: Skill, attack_damage: u64, speed: u64) -> nat {
        match skill {
            Skill::Armor => ((MICRO - damage_taken_at(self.level(Skill::Armor))) / 10_000) as nat,
            Skill::Sword => (attack_damage / MICRO) as nat,
            Skill::Shield => if self.is_unlocked(Skill::Shield) {
                block_chance_at(self.level(Skill::Shield)) / 10_000
            } else {
                0
            },
            Skill::Pants => (max_health_at(self.level(Skill::Pants)) / 10_000 - 100) as nat,
            Skill::Mirror => if self.is_unlocked(Skill::Mirror) {
                reflect_chance_at(self.level(Skill::Mirror)) / 10_000
            } else {
                0
            },
            Skill::Healing => healing_at(self.level(Skill::Healing)) / 10_000,
            Skill::Speed => if speed / 10_000 >= 100 {
                (speed / 10_000 - 100) as nat
            } else {
                0
            },
        }
    }

    /// Describes what `skill` does and how well it does it at its level.
    /// Stars mark what is to stand out. The attack damage (millionths of a
    /// hit point) and the speed multiplier (millionths) are given, since
    /// they are worked out elsewhere.
    pub fn description(&self, skill: Skill, attack_damage: u64, speed: u64) -> (text: String)
        requires
            self.wf(),
        ensures
            text@ == Self::description_head(skill) + decimal(self.level(skill)) + Self::description_body(
                skill,
            ) + decimal(self.described_effect(skill, attack_damage, speed)) + Self::description_tail(
                skill,
            ),
    {
        let effect: u64 = match skill {
            Skill::Armor => (MICRO - self.damage_taken()) / 10_000,
            Skill::Sword => attack_damage / MICRO,
            Skill::Shield => self.block_chance() / 10_000,
            Skill::Pants => self.max_health() / 10_000 - 100,
            Skill::Mirror => self.reflect_chance() / 10_000,
            Skill::Healing => self.healing() / 10_000,
            Skill::Speed => {
                let percent: u64 = speed / 10_000;
                if percent >= 100 {
                    percent - 100
                } else {
                    0
                }
            },
        };
        let head: &'static str = match skill {
            Skill::Armor => "Trusty Armor - Level *",
            Skill::Sword => "Soleil's Sword - Level *",
            Skill::Shield => "Prince's Shield - Level *",
            Skill::Pants => "Wulf's Pants - Level *",
            Skill::Mirror => "Mirror Witch's Armor Polish - Level *",
            Skill::Healing => "Amanon's Tears - Level *",
            Skill::Speed => "Artist's Boots - Level *",
        };
        let body: &'static str = match skill {
            Skill::Armor => "*\nReduces damage taken by *",
            Skill::Sword => "*\nAttacks deal *",
            Skill::Shield => "*\nBlocks *",
            Skill::Pants => "*\nIncreases maximum health by *",
            Skill::Mirror => "*\nReflects *",
            Skill::Healing => "*\nRestores *",
            Skill::Speed => "*\nMove *",
        };
        let tail: &'static str = match skill {
            Skill::Armor => "%*",
            Skill::Sword => "* damage",
            Skill::Shield => "%* of attacks",
            Skill::Pants => "%* and *improves knockback*",
            Skill::Mirror => "%* of projectiles",
            Skill::Healing => "%* health every 3 seconds",
            Skill::Speed => "%* faster",
        };
        let mut text: String = head.to_owned();
        text.append(to_decimal(self.get(skill) as u128).as_str());
        text.append(body);
        text.append(to_decimal(effect as u128).as_str());
        text.append(tail);
        text
    }
}

impl Default for PlayerSkills {
    fn default() -> (skills: PlayerSkills)
        ensures
            skills.wf(),
            skills.is_fresh(),
    {
        PlayerSkills::new()
    }
}

} // verus!
