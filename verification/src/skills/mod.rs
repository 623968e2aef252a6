//! Skills: the ledger, and the events that feed and follow it.

use vstd::prelude::*;

use crate::damage::{DamageBlockedEvent, DamageEvent, MeleeAttackEvent};
use crate::numeric::MICRO;
use crate::player::PlayerHealth;
use crate::projectiles::ProjectileReflectEvent;

pub mod player_skills;

pub use player_skills::{PlayerSkills, Skill, SkillError};

verus! {

/// Experience earned for one skill, in millionths of a point, before the
/// catch-up factor.
#[derive(Debug, Clone, Copy, PartialEq, Eq, Structural)]
pub struct SkillXpEvent {
    pub skill: Skill,
    pub xp: u64,
}

/// A skill rose by `num_levels` levels.
#[derive(Debug, Clone, Copy, PartialEq, Eq, Structural)]
pub struct LevelUpEvent {
    pub num_levels: u64,
    pub skill: Skill,
}

/// A skill is to be unlocked.
#[derive(Debug, Clone, Copy, PartialEq, Eq, Structural)]
pub struct SkillUnlockedEvent {
    pub skill: Skill,
}

/// A skill was unlocked that had been locked until now.
#[derive(Debug, Clone, Copy, PartialEq, Eq, Structural)]
pub struct SkillFirstUnlockedEvent {
    pub skill: Skill,
}

/// The player was healed.
#[derive(Debug, Default, Clone, Copy, PartialEq, Eq, Structural)]
pub struct HealEvent;

/// Hands out the level-ups that are pending, one event for each skill that
/// rose since the last call, and forgets them.
pub fn send_levelup_events(player_skills: &mut PlayerSkills) -> (events: Vec<LevelUpEvent>)
    requires
        old(player_skills).wf(),
    ensures
        final(player_skills).wf(),
        final(player_skills).is_drained_of(*old(player_skills)),
        events@ == old(player_skills).pending_events(),
{
    let mut buffer: Vec<LevelUpEvent> = Vec::new();
    player_skills.drain_levelups(&mut buffer);
    assert(buffer@ =~= old(player_skills).pending_events());
    buffer
}

/// Whether one of `events` names `skill`.
pub open spec fn names_skill(events: Seq<SkillUnlockedEvent>, skill: Skill) -> bool {
    exists|i: int| 0 <= i < events.len() && (#[trigger] events[i]).skill == skill
}

/// The first unlocks that `events` bring about in a ledger: one for each
/// event whose skill is locked in `before` and is not named by an earlier
/// event, in the order of the events.
pub open spec fn first_unlocks(before: PlayerSkills, events: Seq<SkillUnlockedEvent>) -> Seq<
    SkillFirstUnlockedEvent,
>
    decreases events.len(),
{
    if events.len() == 0 {
        Seq::empty()
    } else {
        let earlier = first_unlocks(before, events.drop_last());
        let skill = events.last().skill;
        if before.is_unlocked(skill) || names_skill(events.drop_last(), skill) {
            earlier
        } else {
            earlier.push(SkillFirstUnlockedEvent { skill })
        }
    }
}

/// `after` is `before` with the skills that `events` name unlocked, and
/// nothing else changed.
pub open spec fn is_unlocked_by(
    after: PlayerSkills,
    before: PlayerSkills,
    events: Seq<SkillUnlockedEvent>,
) -> bool {
    forall|skill: Skill| #[trigger] skill_unlocked_by(after, before, events, skill)
}

/// What `is_unlocked_by` asks of one skill.
pub open spec fn skill_unlocked_by(
    after: PlayerSkills,
    before: PlayerSkills,
    events: Seq<SkillUnlockedEvent>,
    skill: Skill,
) -> bool {
    &&& after.stored_level(skill) == before.stored_level(skill)
    &&& after.delta_level(skill) == before.delta_level(skill)
    &&& after.stored_xp_of(skill) == before.stored_xp_of(skill)
    &&& after.delta_xp_of(skill) == before.delta_xp_of(skill)
    &&& after.pending_levelups(skill) == before.pending_levelups(skill)
    &&& after.is_unlocked(skill) == (before.is_unlocked(skill) || names_skill(events, skill))
}

/// Unlocks the skill of every event, and announces each skill that was
/// locked until then.
pub fn process_unlock_events(player_skills: &mut PlayerSkills, events: &Vec<SkillUnlockedEvent>) -> (first:
    Vec<SkillFirstUnlockedEvent>)
    requires
        old(player_skills).wf(),
    ensures
        final(player_skills).wf(),
        is_unlocked_by(*final(player_skills), *old(player_skills), events@),
        first@ == first_unlocks(*old(player_skills), events@),
{
    let ghost before = *player_skills;
    let mut first: Vec<SkillFirstUnlockedEvent> = Vec::new();
    let mut index: usize = 0;
    assert forall|skill: Skill| #[trigger]
        skill_unlocked_by(*player_skills, before, events@.take(0), skill) by {}
    while index < events.len()
        invariant
            index <= events.len(),
            player_skills.wf(),
            is_unlocked_by(*player_skills, before, events@.take(index as int)),
            first@ == first_unlocks(before, events@.take(index as int)),
        decreases events.len() - index,
    {
        let skill: Skill = events[index].skill;
        let ghost mid = *player_skills;
        let ghost taken = events@.take(index + 1);
        proof {
            assert(taken.drop_last() =~= events@.take(index as int));
            assert(taken.last() == events@[index as int]);
            assert(skill_unlocked_by(mid, before, events@.take(index as int), skill));
        }
        if !player_skills.get_unlocked(skill) {
            first.push(SkillFirstUnlockedEvent { skill });
        }
        player_skills.unlock_skill(skill);
        proof {
            assert forall|other: Skill| #[trigger]
                skill_unlocked_by(*player_skills, before, taken, other) by {
                assert(skill_unlocked_by(mid, before, events@.take(index as int), other));
                if other != skill {
                    assert(player_skills.same_skill(mid, other));
                    if names_skill(taken, other) {
                        let i = choose|i: int| 0 <= i < taken.len() && (#[trigger] taken[i]).skill == other;
                        assert(taken.drop_last()[i].skill == other);
                    }
                    if names_skill(taken.drop_last(), other) {
                        let i = choose|i: int|
                            0 <= i < taken.drop_last().len() && (#[trigger] taken.drop_last()[i]).skill
                                == other;
                        assert(taken[i].skill == other);
                    }
                } else {
                    assert(taken[index as int].skill == skill);
                }
            }
        }
        index = index + 1;
    }
    assert(events@.take(index as int) =~= events@);
    first
}

/// Grants the experience of every event in turn, and says how many grants
/// were refused because they would have left the ledger's range.
pub fn process_xp_events(player_skills: &mut PlayerSkills, events: &Vec<SkillXpEvent>) -> (refused: usize)
    requires
        old(player_skills).wf(),
    ensures
        final(player_skills).wf(),
        *final(player_skills) == old(player_skills).after_all_xp(events@),
        refused == old(player_skills).refused_among(events@),
{
    let ghost before = *player_skills;
    let mut refused: usize = 0;
    let mut index: usize = 0;
    while index < events.len()
        invariant
            index <= events.len(),
            refused <= index,
            player_skills.wf(),
            *player_skills == before.after_all_xp(events@.take(index as int)),
            refused == before.refused_among(events@.take(index as int)),
        decreases events.len() - index,
    {
        proof {
            let taken = events@.take(index + 1);
            assert(taken.drop_last() =~= events@.take(index as int));
            assert(taken.last() == events@[index as int]);
        }
        match player_skills.add_xp(events[index].skill, events[index].xp) {
            Ok(()) => {},
            Err(_) => {
                refused = refused + 1;
            },
        }
        index = index + 1;
    }
    assert(events@.take(index as int) =~= events@);
    refused
}

/// Whether one of the level-ups is a level-up of the speed skill, after
/// which the player's speed has to be worked out anew.
pub fn update_player_speed(levelups: &Vec<LevelUpEvent>) -> (faster: bool)
    ensures
        faster == exists|i: int| 0 <= i < levelups.len() && (#[trigger] levelups[i]).skill == Skill::Speed,
{
    let mut index: usize = 0;
    while index < levelups.len()
        invariant
            index <= levelups.len(),
            forall|i: int| 0 <= i < index ==> (#[trigger] levelups[i]).skill != Skill::Speed,
        decreases levelups.len() - index,
    {
        if levelups[index].skill == Skill::Speed {
            return true;
        }
        index = index + 1;
    }
    false
}

/// The experience that running earns: one point of speed experience for
/// each second that the speed timer has counted in this tick, nothing
/// where it has counted none.
pub fn speed_xp(times_finished: u32) -> (event: Option<SkillXpEvent>)
    ensures
        event == if times_finished > 0 {
            Some(SkillXpEvent { skill: Skill::Speed, xp: (times_finished * MICRO) as u64 })
        } else {
            None
        },
{
    if times_finished > 0 {
        assert(times_finished * MICRO <= 0xffff_ffff * 1_000_000) by (nonlinear_arith)
            requires
                times_finished <= 0xffff_ffff,
                MICRO == 1_000_000,
        ;
        Some(SkillXpEvent { skill: Skill::Speed, xp: (times_finished as u64) * MICRO })
    } else {
        None
    }
}

/// The health after `ticks` healing ticks in a row.
pub open spec fn health_after_ticks(health: PlayerHealth, healing: nat, ticks: nat) -> PlayerHealth
    decreases ticks,
{
    if ticks == 0 {
        health
    } else {
        let before = health_after_ticks(health, healing, (ticks - 1) as nat);
        PlayerHealth {
            current: (before.current + crate::player::healed_amount(before, healing)) as i64,
            maximum: before.maximum,
            dead: before.dead,
        }
    }
}

/// How many of `ticks` healing ticks in a row restore anything.
pub open spec fn ticks_that_heal(health: PlayerHealth, healing: nat, ticks: nat) -> nat
    decreases ticks,
{
    if ticks == 0 {
        0
    } else {
        let before = health_after_ticks(health, healing, (ticks - 1) as nat);
        ticks_that_heal(health, healing, (ticks - 1) as nat) + if crate::player::healed_amount(
            before,
            healing,
        ) > 0 {
            1nat
        } else {
            0nat
        }
    }
}

/// Heals the player once for each time the healing timer has run out in
/// this tick, as long as the player is alive and the healing skill is
/// unlocked. Each tick restores the healing fraction of the maximum health,
/// but no more than is missing. Says how many ticks restored anything: each
/// of them is worth a heal event.
pub fn healing(
    player_health: &mut PlayerHealth,
    player_skills: &PlayerSkills,
    times_finished: u32,
) -> (healed: u32)
    requires
        player_skills.wf(),
    ensures
        !player_skills.is_unlocked(Skill::Healing) ==> {
            &&& healed == 0
            &&& *final(player_health) == *old(player_health)
        },
        player_skills.is_unlocked(Skill::Healing) ==> {
            let fraction = player_skills::healing_at(player_skills.level(Skill::Healing));
            &&& *final(player_health) == health_after_ticks(
                *old(player_health),
                fraction,
                times_finished as nat,
            )
            &&& healed == ticks_that_heal(*old(player_health), fraction, times_finished as nat)
        },
{
    if !player_skills.get_unlocked(Skill::Healing) {
        return 0;
    }
    let fraction: u64 = player_skills.healing();
    let ghost start = *player_health;
    let mut healed: u32 = 0;
    let mut tick: u32 = 0;
    while tick < times_finished
        invariant
            tick <= times_finished,
            healed <= tick,
            *player_health == health_after_ticks(start, fraction as nat, tick as nat),
            healed == ticks_that_heal(start, fraction as nat, tick as nat),
        decreases times_finished - tick,
    {
        if player_health.heal(fraction) {
            healed = healed + 1;
        }
        tick = tick + 1;
    }
    healed
}

/// One point of experience for `skill`, `count` times.
pub open spec fn points_for(skill: Skill, count: nat) -> Seq<SkillXpEvent> {
    Seq::new(count, |i: int| SkillXpEvent { skill, xp: MICRO })
}

/// One point of armor experience for each hit that the player took.
pub open spec fn armor_points(damage_events: Seq<DamageEvent>) -> Seq<SkillXpEvent>
    decreases damage_events.len(),
{
    if damage_events.len() == 0 {
        Seq::empty()
    } else {
        let before = armor_points(damage_events.drop_last());
        if damage_events.last() is Player {
            before.push(SkillXpEvent { skill: Skill::Armor, xp: MICRO })
        } else {
            before
        }
    }
}

/// One point of sword experience and one of pants experience for each melee
/// attack, attack by attack.
pub open spec fn melee_points(count: nat) -> Seq<SkillXpEvent> {
    Seq::new(
        2 * count,
        |i: int|
            SkillXpEvent {
                skill: if i % 2 == 0 {
                    Skill::Sword
                } else {
                    Skill::Pants
                },
                xp: MICRO,
            },
    )
}

/// Appends one point of experience for `skill`, `count` times.
fn push_points(events: &mut Vec<SkillXpEvent>, skill: Skill, count: usize)
    ensures
        final(events)@ == old(events)@ + points_for(skill, count as nat),
{
    let mut done: usize = 0;
    assert(events@ =~= old(events)@ + points_for(skill, 0));
    while done < count
        invariant
            done <= count,
            events@ == old(events)@ + points_for(skill, done as nat),
        decreases count - done,
    {
        events.push(SkillXpEvent { skill, xp: MICRO });
        done = done + 1;
        assert(events@ =~= old(events)@ + points_for(skill, done as nat));
    }
}

/// Turns what happened in the fight into experience: a point of armor for
/// each hit that the player took, a point of sword and a point of pants for
/// each melee attack, a point of shield for each blocked attack, a point of
/// mirror for each reflected projectile and a point of healing for each
/// heal.
pub fn send_xp_events(
    damage_events: &Vec<DamageEvent>,
    melee_attack_events: &Vec<MeleeAttackEvent>,
    damage_blocked_events: &Vec<DamageBlockedEvent>,
    projectile_reflected_events: &Vec<ProjectileReflectEvent>,
    heal_events: &Vec<HealEvent>,
) -> (events: Vec<SkillXpEvent>)
    ensures
        events@ == armor_points(damage_events@) + melee_points(melee_attack_events.len() as nat)
            + points_for(Skill::Shield, damage_blocked_events.len() as nat) + points_for(
            Skill::Mirror,
            projectile_reflected_events.len() as nat,
        ) + points_for(Skill::Healing, heal_events.len() as nat),
{
    let mut events: Vec<SkillXpEvent> = Vec::new();
    let mut index: usize = 0;
    while index < damage_events.len()
        invariant
            index <= damage_events.len(),
            events@ == armor_points(damage_events@.take(index as int)),
        decreases damage_events.len() - index,
    {
        proof {
            let taken = damage_events@.take(index + 1);
            assert(taken.drop_last() =~= damage_events@.take(index as int));
            assert(taken.last() == damage_events@[index as int]);
        }
        match damage_events[index] {
            DamageEvent::Player { .. } => {
                events.push(SkillXpEvent { skill: Skill::Armor, xp: MICRO });
            },
            DamageEvent::Enemy { .. } => {},
        }
        index = index + 1;
    }
    assert(damage_events@.take(index as int) =~= damage_events@);
    let ghost armor = events@;
    let mut attack: usize = 0;
    assert(events@ =~= armor + melee_points(0));
    while attack < melee_attack_events.len()
        invariant
            attack <= melee_attack_events.len(),
            events@ == armor + melee_points(attack as nat),
        decreases melee_attack_events.len() - attack,
    {
        events.push(SkillXpEvent { skill: Skill::Sword, xp: MICRO });
        events.push(SkillXpEvent { skill: Skill::Pants, xp: MICRO });
        attack = attack + 1;
        assert(events@ =~= armor + melee_points(attack as nat));
    }
    push_points(&mut events, Skill::Shield, damage_blocked_events.len());
    push_points(&mut events, Skill::Mirror, projectile_reflected_events.len());
    push_points(&mut events, Skill::Healing, heal_events.len());
    events
}

} // verus!
