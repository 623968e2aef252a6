//! Projectiles: how they fly, what they hit and how they are thrown back.

use vstd::prelude::*;

use crate::damage::DamageEvent;
use crate::enemy::{EnemyState, EnemyStats, EnemyType};
use crate::geometry::Point;
use crate::physics::{CollisionEvent, Entity};
use crate::rand::GlobalRng;
use crate::skills::{PlayerSkills, Skill};

verus! {

/// A projectile in flight. Speed is in world units per second, damage in
/// millionths of a hit point, the lifetime in microseconds.
#[derive(Debug, Clone, Copy, PartialEq, Eq, Structural)]
pub struct Projectile {
    pub target: Entity,
    pub source: Entity,
    pub speed: u64,
    pub damage: u64,
    pub homing: bool,
    /// How long the projectile flies before it vanishes.
    pub lifetime: u64,
}

/// A projectile has hit something that it can hurt.
#[derive(Debug, Clone, Copy, PartialEq, Eq, Structural)]
pub struct ProjectileHitEvent {
    pub projectile: Projectile,
    pub target: Entity,
}

/// The player has thrown a projectile back.
#[derive(Debug, Clone, Copy, PartialEq, Eq, Structural)]
pub struct ProjectileReflectEvent {
    pub projectile: Projectile,
}

/// A projectile that has hit, and is to be removed.
#[derive(Debug, Clone, Copy, PartialEq, Eq, Structural)]
pub struct ProjectileHit {
    /// The projectile itself.
    pub projectile_entity: Entity,
    pub event: ProjectileHitEvent,
}

/// The hit that a collision amounts to: the contact has begun, and
/// something that can be hurt and a projectile take part in it.
pub open spec fn projectile_hit_of(collision: CollisionEvent) -> Option<ProjectileHit> {
    if collision.started && collision.spec_target() is Some && collision.spec_projectile() is Some {
        Some(
            ProjectileHit {
                projectile_entity: collision.spec_projectile()->0.entity,
                event: ProjectileHitEvent {
                    projectile: collision.spec_projectile()->0.projectile,
                    target: collision.spec_target()->0,
                },
            },
        )
    } else {
        None
    }
}

/// The hits among `collisions`, in their order.
pub open spec fn projectile_hits_of(collisions: Seq<CollisionEvent>) -> Seq<ProjectileHit>
    decreases collisions.len(),
{
    if collisions.len() == 0 {
        Seq::empty()
    } else {
        let before = projectile_hits_of(collisions.drop_last());
        match projectile_hit_of(collisions.last()) {
            Some(hit) => before.push(hit),
            None => before,
        }
    }
}

/// Picks the projectile hits out of the tick's collisions: every contact
/// that has begun between a projectile and the player or an enemy. Each
/// projectile that has hit is to be removed.
pub fn detect_projectile_hits(collisions: &Vec<CollisionEvent>) -> (hits: Vec<ProjectileHit>)
    ensures
        hits@ == projectile_hits_of(collisions@),
{
    let mut hits: Vec<ProjectileHit> = Vec::new();
    let mut index: usize = 0;
    while index < collisions.len()
        invariant
            index <= collisions.len(),
            hits@ == projectile_hits_of(collisions@.take(index as int)),
        decreases collisions.len() - index,
    {
        proof {
            let taken = collisions@.take(index + 1);
            assert(taken.drop_last() =~= collisions@.take(index as int));
            assert(taken.last() == collisions@[index as int]);
        }
        let collision: &CollisionEvent = &collisions[index];
        if collision.started {
            match collision.target() {
                Some(target) => {
                    match collision.projectile() {
                        Some(found) => {
                            hits.push(
                                ProjectileHit {
                                    projectile_entity: found.entity,
                                    event: ProjectileHitEvent { projectile: found.projectile, target },
                                },
                            );
                        },
                        None => {},
                    }
                },
                None => {},
            }
        }
        index = index + 1;
    }
    assert(collisions@.take(index as int) =~= collisions@);
    hits
}

/// What a projectile hit leads to.
#[derive(Debug, Clone, Copy, PartialEq, Eq, Structural)]
pub enum HitOutcome {
    /// The player throws the projectile back and takes no damage.
    Reflected(ProjectileReflectEvent),
    /// The projectile's damage is dealt.
    Damage(DamageEvent),
}

/// What a hit leads to, given whether it is the player who was hit and
/// whether the roll for a reflection came up: the player reflects on a
/// lucky roll and takes the damage otherwise; an enemy always takes it.
pub open spec fn hit_outcome(hit: ProjectileHitEvent, target_is_player: bool, reflected: bool) -> HitOutcome {
    if target_is_player {
        if reflected {
            HitOutcome::Reflected(ProjectileReflectEvent { projectile: hit.projectile })
        } else {
            HitOutcome::Damage(DamageEvent::Player { damage: hit.projectile.damage })
        }
    } else {
        HitOutcome::Damage(DamageEvent::Enemy { entity: hit.target, damage: hit.projectile.damage })
    }
}

/// What a hit leads to, given whether it is the player who was hit and
/// whether the roll for a reflection came up.
pub fn resolve_projectile_hit(hit: &ProjectileHitEvent, target_is_player: bool, reflected: bool) -> (outcome:
    HitOutcome)
    ensures
        outcome == hit_outcome(*hit, target_is_player, reflected),
{
    if target_is_player {
        if reflected {
            HitOutcome::Reflected(ProjectileReflectEvent { projectile: hit.projectile })
        } else {
            HitOutcome::Damage(DamageEvent::Player { damage: hit.projectile.damage })
        }
    } else {
        HitOutcome::Damage(DamageEvent::Enemy { entity: hit.target, damage: hit.projectile.damage })
    }
}

/// Deals with one projectile hit. `player` is the player, if there is one.
/// A hit on the player is rolled for with the player's chance to reflect;
/// whatever the roll, the outcome is what `hit_outcome` gives for it, and
/// while the mirror is locked nothing is reflected. A hit on anything else
/// deals its damage to what was hit.
pub fn handle_projectile_hit(
    hit: &ProjectileHitEvent,
    player: Option<Entity>,
    player_skills: &PlayerSkills,
    rng: &mut GlobalRng,
) -> (outcome: HitOutcome)
    requires
        player_skills.wf(),
    ensures
        player != Some(hit.target) ==> outcome == hit_outcome(*hit, false, false),
        player == Some(hit.target) ==> outcome == hit_outcome(*hit, true, outcome is Reflected),
        !player_skills.is_unlocked(Skill::Mirror) ==> !(outcome is Reflected),
{
    let target_is_player: bool = match player {
        Some(player) => player == hit.target,
        None => false,
    };
    if target_is_player {
        let reflected: bool = rng.roll(player_skills.reflect_chance());
        resolve_projectile_hit(hit, true, reflected)
    } else {
        resolve_projectile_hit(hit, false, false)
    }
}

/// Where a reflected projectile is sent.
#[derive(Debug, Clone, Copy, PartialEq, Eq, Structural)]
pub enum Aim {
    /// At the place where the one who fired it stands.
    At(Point),
    /// Anywhere: the one who fired it is gone.
    Anywhere,
}

/// A projectile that the player throws back.
#[derive(Debug, Clone, Copy, PartialEq, Eq, Structural)]
pub struct ReflectedProjectile {
    pub projectile: Projectile,
    /// Where it starts: where the player stands.
    pub from: Point,
    pub aim: Aim,
}

/// The projectile that the player throws back: it flies from the player
/// towards the one who fired it, with the player as its source, the old
/// source as its target, the player's attack damage as its damage, and its
/// whole lifetime before it; everything else is as it was.
pub fn reflect_projectile(
    event: &ProjectileReflectEvent,
    player_pos: Point,
    source_pos: Option<Point>,
    attack_damage: u64,
) -> (reflected: ReflectedProjectile)
    ensures
        reflected.projectile == (Projectile {
            target: event.projectile.source,
            source: event.projectile.target,
            damage: attack_damage,
            ..event.projectile
        }),
        reflected.from == player_pos,
        reflected.aim == match source_pos {
            Some(place) => Aim::At(place),
            None => Aim::Anywhere,
        },
{
    ReflectedProjectile {
        projectile: Projectile {
            target: event.projectile.source,
            source: event.projectile.target,
            speed: event.projectile.speed,
            damage: attack_damage,
            homing: event.projectile.homing,
            lifetime: event.projectile.lifetime,
        },
        from: player_pos,
        aim: match source_pos {
            Some(place) => Aim::At(place),
            None => Aim::Anywhere,
        },
    }
}

/// What a projectile does in one tick.
#[derive(Debug, Clone, Copy, PartialEq, Eq, Structural)]
pub enum ProjectileStep {
    /// Its lifetime is over: it vanishes.
    Despawn,
    /// It flies on as it flew.
    Fly,
    /// It turns towards the place where its target stands.
    Home { towards: Point },
}

/// What a projectile does in one tick, given whether its lifetime has run
/// out and where its target stands, if the target is still there. Only a
/// homing projectile whose target is there changes its course.
pub fn update_projectile(projectile: &Projectile, timer_finished: bool, target_pos: Option<Point>) -> (step:
    ProjectileStep)
    ensures
        step == if timer_finished {
            ProjectileStep::Despawn
        } else if !projectile.homing {
            ProjectileStep::Fly
        } else {
            match target_pos {
                Some(towards) => ProjectileStep::Home { towards },
                None => ProjectileStep::Fly,
            }
        },
{
    if timer_finished {
        return ProjectileStep::Despawn;
    }
    if !projectile.homing {
        return ProjectileStep::Fly;
    }
    match target_pos {
        Some(towards) => ProjectileStep::Home { towards },
        None => ProjectileStep::Fly,
    }
}

/// What a ranged enemy fires, and how often.
#[derive(Debug, Clone, Copy, PartialEq, Eq, Structural)]
pub struct ProjectileLauncherState {
    /// Time between two shots, in microseconds.
    pub delay: u64,
    pub projectile_speed: u64,
    pub projectile_damage: u64,
    pub projectile_lifetime: u64,
    pub homing: bool,
}

/// The launcher that an enemy of these stats carries: none for a melee
/// enemy.
pub fn add_projectile_launcher_state(enemy_stats: &EnemyStats) -> (launcher: Option<ProjectileLauncherState>)
    ensures
        launcher == match enemy_stats.enemy_type {
            EnemyType::Melee { .. } => None,
            EnemyType::Ranged {
                projectile_damage,
                projectile_speed,
                projectile_lifetime,
                homing,
                delay,
                ..
            } => Some(
                ProjectileLauncherState {
                    delay,
                    projectile_speed,
                    projectile_damage,
                    projectile_lifetime,
                    homing,
                },
            ),
        },
{
    match enemy_stats.enemy_type {
        EnemyType::Melee { .. } => None,
        EnemyType::Ranged {
            projectile_damage,
            projectile_speed,
            projectile_lifetime,
            homing,
            delay,
            ..
        } => Some(
            ProjectileLauncherState {
                delay,
                projectile_speed,
                projectile_damage,
                projectile_lifetime,
                homing,
            },
        ),
    }
}

/// What a launcher does in one tick.
#[derive(Debug, Clone, Copy, PartialEq, Eq, Structural)]
pub enum LauncherStep {
    /// There is no player to fire at: nothing happens.
    Idle,
    /// The enemy wanders: the time to the next shot starts over.
    Rewind { delay: u64 },
    /// The enemy chases, and the time to the next shot is running.
    Wait,
    /// The time is up: the projectile is fired, and the time starts over.
    Launch(Projectile),
}

/// What the launcher of the enemy `enemy` does in one tick. A wandering
/// enemy does not fire, and its time to the next shot starts over. A
/// chasing enemy fires at the player each time that time runs out.
pub fn launch_projectile(
    launcher: &ProjectileLauncherState,
    enemy_state: EnemyState,
    timer_finished: bool,
    enemy: Entity,
    player: Option<Entity>,
) -> (step: LauncherStep)
    ensures
        step == match player {
            None => LauncherStep::Idle,
            Some(target) => match enemy_state {
                EnemyState::Wander => LauncherStep::Rewind { delay: launcher.delay },
                EnemyState::Chase => if timer_finished {
                    LauncherStep::Launch(
                        Projectile {
                            source: enemy,
                            target,
                            speed: launcher.projectile_speed,
                            damage: launcher.projectile_damage,
                            homing: launcher.homing,
                            lifetime: launcher.projectile_lifetime,
                        },
                    )
                } else {
                    LauncherStep::Wait
                },
            },
        },
{
    let target: Entity = match player {
        Some(target) => target,
        None => {
            return LauncherStep::Idle;
        },
    };
    match enemy_state {
        EnemyState::Wander => LauncherStep::Rewind { delay: launcher.delay },
        EnemyState::Chase => {
            if timer_finished {
                LauncherStep::Launch(
                    Projectile {
                        source: enemy,
                        target,
                        speed: launcher.projectile_speed,
                        damage: launcher.projectile_damage,
                        homing: launcher.homing,
                        lifetime: launcher.projectile_lifetime,
                    },
                )
            } else {
                LauncherStep::Wait
            }
        },
    }
}

} // verus!
