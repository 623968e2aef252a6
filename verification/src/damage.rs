//! Damage: who hits whom, how hard, and what is left afterwards.

use vstd::prelude::*;

use crate::enemy::{EnemyDeathEvent, EnemyHealth, EnemyStats};
use crate::physics::{CollisionEvent, Entity, EntityKind};
use crate::player::PlayerHealth;

verus! {

/// The player and an enemy have run into each other.
#[derive(Debug, Clone, Copy, PartialEq, Eq, Structural)]
pub struct MeleeAttackEvent {
    pub player: Entity,
    pub enemy: Entity,
}

/// Damage to be dealt, in millionths of a hit point.
#[derive(Debug, Clone, Copy, PartialEq, Eq, Structural)]
pub enum DamageEvent {
    Player { damage: u64 },
    Enemy { entity: Entity, damage: u64 },
}

/// The player has blocked an attack.
#[derive(Debug, Default, Clone, Copy, PartialEq, Eq, Structural)]
pub struct DamageBlockedEvent {}

/// The melee attack that a collision amounts to: the contact has begun, and
/// the player and an enemy take part in it.
pub open spec fn melee_attack_of(collision: CollisionEvent) -> Option<MeleeAttackEvent> {
    if collision.started && collision.spec_find(EntityKind::Player) is Some && collision.spec_find(
        EntityKind::Enemy,
    ) is Some {
        Some(
            MeleeAttackEvent {
                player: collision.spec_find(EntityKind::Player)->0,
                enemy: collision.spec_find(EntityKind::Enemy)->0,
            },
        )
    } else {
        None
    }
}

/// The melee attacks among `collisions`, in their order.
pub open spec fn melee_attacks_of(collisions: Seq<CollisionEvent>) -> Seq<MeleeAttackEvent>
    decreases collisions.len(),
{
    if collisions.len() == 0 {
        Seq::empty()
    } else {
        let before = melee_attacks_of(collisions.drop_last());
        match melee_attack_of(collisions.last()) {
            Some(attack) => before.push(attack),
            None => before,
        }
    }
}

/// Picks the melee attacks out of the tick's collisions: every contact that
/// has begun between the player and an enemy.
pub fn detect_melee_attacks(collisions: &Vec<CollisionEvent>) -> (attacks: Vec<MeleeAttackEvent>)
    ensures
        attacks@ == melee_attacks_of(collisions@),
{
    let mut attacks: Vec<MeleeAttackEvent> = Vec::new();
    let mut index: usize = 0;
    while index < collisions.len()
        invariant
            index <= collisions.len(),
            attacks@ == melee_attacks_of(collisions@.take(index as int)),
        decreases collisions.len() - index,
    {
        proof {
            let taken = collisions@.take(index + 1);
            assert(taken.drop_last() =~= collisions@.take(index as int));
            assert(taken.last() == collisions@[index as int]);
        }
        let collision: &CollisionEvent = &collisions[index];
        if collision.started {
            match collision.find(EntityKind::Player) {
                Some(player) => {
                    match collision.find(EntityKind::Enemy) {
                        Some(enemy) => {
                            attacks.push(MeleeAttackEvent { player, enemy });
                        },
                        None => {},
                    }
                },
                None => {},
            }
        }
        index = index + 1;
    }
    assert(collisions@.take(index as int) =~= collisions@);
    attacks
}

/// Strength of the knockback between two bodies of equal mass, in
/// millionths of an impulse unit.
pub const KNOCKBACK: u64 = 300_000_000;

/// Strength of the knockback that a body of mass `pushing` deals to a body
/// of mass `pushed`: the base strength times the one mass over the other,
/// rounded down. A body without mass is pushed as hard as can be told.
pub open spec fn knockback(pushing: u64, pushed: u64) -> u64 {
    if pushed == 0 || KNOCKBACK * pushing / (pushed as int) > u64::MAX {
        u64::MAX
    } else {
        (KNOCKBACK * pushing / (pushed as int)) as u64
    }
}

/// Strength of the knockback that a body of mass `pushing` deals to a body
/// of mass `pushed`.
pub fn knockback_between(pushing: u64, pushed: u64) -> (strength: u64)
    ensures
        strength == knockback(pushing, pushed),
{
    if pushed == 0 {
        return u64::MAX;
    }
    assert(KNOCKBACK * pushing <= 300_000_000 * 0xffff_ffff_ffff_ffff) by (nonlinear_arith)
        requires
            pushing <= 0xffff_ffff_ffff_ffff,
            KNOCKBACK == 300_000_000,
    ;
    let strength: u128 = (KNOCKBACK as u128) * (pushing as u128) / (pushed as u128);
    if strength > u64::MAX as u128 {
        u64::MAX
    } else {
        strength as u64
    }
}

/// What a melee attack brings about: both sides are knocked back along the
/// line between them, and both take damage.
#[derive(Debug, Clone, Copy, PartialEq, Eq, Structural)]
pub struct MeleeExchange {
    /// Strength of the push on the player, away from the enemy.
    pub player_knockback: u64,
    /// Strength of the push on the enemy, away from the player.
    pub enemy_knockback: u64,
    /// The enemy's melee damage, dealt to the player.
    pub to_player: DamageEvent,
    /// The player's attack damage, dealt to the enemy.
    pub to_enemy: DamageEvent,
}

/// Resolves one melee attack. `player_found` says whether the player of the
/// event is still there, `enemy_stats` holds the stats of the event's enemy
/// if it is still there; an attack of which either side is gone is passed
/// over. The masses are in millionths, and so is the attack damage in hit
/// points.
pub fn resolve_melee_attack(
    attack: &MeleeAttackEvent,
    player_found: bool,
    enemy_stats: Option<&EnemyStats>,
    player_mass: u64,
    attack_damage: u64,
) -> (exchange: Option<MeleeExchange>)
    ensures
        exchange == if player_found && enemy_stats is Some {
            Some(
                MeleeExchange {
                    player_knockback: knockback(enemy_stats->0.mass, player_mass),
                    enemy_knockback: knockback(player_mass, enemy_stats->0.mass),
                    to_player: DamageEvent::Player { damage: enemy_stats->0.spec_melee_damage() },
                    to_enemy: DamageEvent::Enemy { entity: attack.enemy, damage: attack_damage },
                },
            )
        } else {
            None
        },
{
    if !player_found {
        return None;
    }
    match enemy_stats {
        Some(stats) => Some(
            MeleeExchange {
                player_knockback: knockback_between(stats.mass, player_mass),
                enemy_knockback: knockback_between(player_mass, stats.mass),
                to_player: DamageEvent::Player { damage: stats.melee_damage() },
                to_enemy: DamageEvent::Enemy { entity: attack.enemy, damage: attack_damage },
            },
        ),
        None => None,
    }
}

/// What damage to an enemy leaves behind: its health, and its death where
/// the health is used up.
#[derive(Debug, Clone, Copy, PartialEq, Eq, Structural)]
pub struct EnemyDamage {
    pub health: EnemyHealth,
    pub death: Option<EnemyDeathEvent>,
}

/// Deals the damage of one event. Damage to the player is felt by the
/// fraction `damage_taken` (millionths) and taken off the player's health.
/// Damage to an enemy is taken off `enemy_health`, the health of the
/// event's enemy if it is still there, in full; what is left is handed
/// back, together with the enemy's death where nothing is left. An event
/// for an enemy that is gone is passed over.
pub fn handle_damage_event(
    event: &DamageEvent,
    player_health: &mut PlayerHealth,
    damage_taken: u64,
    enemy_health: Option<EnemyHealth>,
) -> (outcome: Option<EnemyDamage>)
    ensures
        match *event {
            DamageEvent::Player { damage } => {
                &&& outcome is None
                &&& final(player_health).maximum == old(player_health).maximum
                &&& final(player_health).current == crate::player::clamp_health(
                    old(player_health).current - crate::player::scale(
                        damage as nat,
                        damage_taken as nat,
                    ),
                )
                &&& final(player_health).dead == (old(player_health).dead
                    || final(player_health).current <= 0)
            },
            DamageEvent::Enemy { entity, damage } => {
                &&& *final(player_health) == *old(player_health)
                &&& outcome == match enemy_health {
                    None => None,
                    Some(health) => Some(
                        EnemyDamage {
                            health: health.after_damage(damage),
                            death: if health.after_damage(damage).current <= 0 {
                                Some(EnemyDeathEvent { entity })
                            } else {
                                None
                            },
                        },
                    ),
                }
            },
        },
{
    match *event {
        DamageEvent::Player { damage } => {
            player_health.take_damage(damage, damage_taken);
            None
        },
        DamageEvent::Enemy { entity, damage } => {
            match enemy_health {
                None => None,
                Some(health) => {
                    let mut health: EnemyHealth = health;
                    let dead: bool = health.take_damage(damage);
                    Some(
                        EnemyDamage {
                            health,
                            death: if dead {
                                Some(EnemyDeathEvent { entity })
                            } else {
                                None
                            },
                        },
                    )
                },
            }
        },
    }
}

} // verus!
