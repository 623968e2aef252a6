//! Enemies: their stats, their health and their alert state.

use vstd::prelude::*;

use crate::geometry::{distance_squared, Point};
use crate::physics::Entity;
use crate::player::clamp_health;
use crate::rand::GlobalRng;
use crate::room::{CurrentRoom, PersistentRoomState, RoomStateError, SpawnerIndex};
use crate::skills::{Skill, SkillUnlockedEvent};
use crate::states::GameState;

verus! {

/// What an enemy attacks with. Damage is in millionths of a hit point,
/// projectile speed in world units per second, times in microseconds.
#[derive(Debug, Clone, Copy, PartialEq, Eq, Structural)]
pub enum EnemyType {
    Melee { melee_damage: u64 },
    Ranged {
        melee_damage: u64,
        projectile_damage: u64,
        projectile_speed: u64,
        projectile_lifetime: u64,
        homing: bool,
        delay: u64,
    },
}

/// The stats that an enemy is spawned with.
#[derive(Debug, Clone, Copy, PartialEq, Eq, Structural)]
pub struct EnemyStats {
    /// Melee or ranged.
    pub enemy_type: EnemyType,
    /// Health to start with, in millionths of a hit point.
    pub health: u64,
    /// Movement speed, in world units per second.
    pub speed: u64,
    /// Mass, in millionths: how much knockback the enemy deals and takes.
    pub mass: u64,
    /// The enemy starts to chase a player who comes this close.
    pub alert_radius: u32,
    /// The enemy gives up on a player who gets further away than this.
    pub chase_radius: u32,
    /// How far from the player the enemy tries to stay.
    pub desired_distance: u32,
}

impl EnemyStats {
    /// Damage of the enemy's melee attack, in millionths of a hit point.
    pub open spec fn spec_melee_damage(self) -> u64 {
        match self.enemy_type {
            EnemyType::Melee { melee_damage } => melee_damage,
            EnemyType::Ranged { melee_damage, .. } => melee_damage,
        }
    }

    /// Damage of the enemy's melee attack, in millionths of a hit point.
    pub fn melee_damage(&self) -> (damage: u64)
        ensures
            damage == self.spec_melee_damage(),
    {
        match self.enemy_type {
            EnemyType::Melee { melee_damage } => melee_damage,
            EnemyType::Ranged { melee_damage, .. } => melee_damage,
        }
    }
}

/// The stats of a room's boss.
#[derive(Debug)]
pub struct BossStats {
    /// The boss's name.
    pub name: String,
    /// Which skill, if any, is unlocked by defeating this boss.
    pub skill_unlocked: Option<Skill>,
    /// Factor on the boss's size, in millionths.
    pub scale: u64,
    /// The rest of the stats.
    pub stats: EnemyStats,
}

impl BossStats {
    /// A copy with the same name and numbers.
    pub fn duplicate(&self) -> (copy: BossStats)
        ensures
            copy == *self,
    {
        BossStats {
            name: self.name.clone(),
            skill_unlocked: self.skill_unlocked,
            scale: self.scale,
            stats: self.stats,
        }
    }
}

/// Whether an enemy goes its own way or is after the player.
#[derive(Debug, Default, Clone, Copy, PartialEq, Eq, Structural)]
pub enum EnemyState {
    #[default]
    Wander,
    Chase,
}

/// What an enemy's change of state announces.
#[derive(Debug, Clone, Copy, PartialEq, Eq, Structural)]
pub enum EnemyAlertEventType {
    /// The enemy has noticed the player.
    Alert,
    /// The player has got away.
    TooFar,
}

/// The square of a radius.
pub open spec fn radius_squared(radius: u32) -> nat {
    (radius * radius) as nat
}

/// The state an enemy is in after it has looked for the player, who is at
/// the given squared distance: a wandering enemy starts to chase within the
/// alert radius, a chasing enemy gives up beyond the chase radius.
pub open spec fn alert_step(state: EnemyState, stats: EnemyStats, squared_distance: nat) -> EnemyState {
    match state {
        EnemyState::Wander => if squared_distance <= radius_squared(stats.alert_radius) {
            EnemyState::Chase
        } else {
            EnemyState::Wander
        },
        EnemyState::Chase => if squared_distance > radius_squared(stats.chase_radius) {
            EnemyState::Wander
        } else {
            EnemyState::Chase
        },
    }
}

impl EnemyState {
    /// Looks for the player, who is at the given squared distance, and
    /// changes state where the distance calls for it. Hands back what the
    /// change announces, or nothing where the state stays.
    pub fn alert(&mut self, stats: &EnemyStats, squared_distance: u128) -> (event: Option<
        EnemyAlertEventType,
    >)
        ensures
            *final(self) == alert_step(*old(self), *stats, squared_distance as nat),
            event == if *final(self) == *old(self) {
                None
            } else if *final(self) == EnemyState::Chase {
                Some(EnemyAlertEventType::Alert)
            } else {
                Some(EnemyAlertEventType::TooFar)
            },
    {
        match *self {
            EnemyState::Wander => {
                if squared_distance <= square(stats.alert_radius) as u128 {
                    *self = EnemyState::Chase;
                    Some(EnemyAlertEventType::Alert)
                } else {
                    None
                }
            },
            EnemyState::Chase => {
                if squared_distance > square(stats.chase_radius) as u128 {
                    *self = EnemyState::Wander;
                    Some(EnemyAlertEventType::TooFar)
                } else {
                    None
                }
            },
        }
    }
}

/// The square of a radius.
pub fn square(radius: u32) -> (squared: u64)
    ensures
        squared == radius_squared(radius),
{
    assert(radius * radius <= 0xffff_ffff * 0xffff_ffff) by (nonlinear_arith)
        requires
            radius <= 0xffff_ffff,
    ;
    (radius as u64) * (radius as u64)
}

/// An enemy has died.
#[derive(Debug, Clone, Copy, PartialEq, Eq, Structural)]
pub struct EnemyDeathEvent {
    pub entity: Entity,
}

/// An enemy has changed between wandering and chasing.
#[derive(Debug, Clone, Copy, PartialEq, Eq, Structural)]
pub struct EnemyAlertEvent {
    pub enemy: Entity,
    pub ty: EnemyAlertEventType,
}

/// An enemy's health, in millionths of a hit point.
#[derive(Debug, Clone, Copy, PartialEq, Eq, Structural)]
pub struct EnemyHealth {
    pub maximum: i64,
    pub current: i64,
}

impl EnemyHealth {
    /// Full health of the given maximum.
    pub fn new(max: i64) -> (health: EnemyHealth)
        ensures
            health.maximum == max,
            health.current == max,
    {
        EnemyHealth { maximum: max, current: max }
    }

    /// The health after `damage` has been taken off, as far as it can be
    /// held.
    pub open spec fn after_damage(self, damage: u64) -> EnemyHealth {
        EnemyHealth { maximum: self.maximum, current: clamp_health(self.current - damage) }
    }

    /// Takes `damage` off the health and says whether the enemy is dead:
    /// whether the health is used up.
    pub fn take_damage(&mut self, damage: u64) -> (dead: bool)
        ensures
            *final(self) == old(self).after_damage(damage),
            dead == (final(self).current <= 0),
    {
        let left: i128 = self.current as i128 - damage as i128;
        self.current = if left < i64::MIN as i128 {
            i64::MIN
        } else {
            left as i64
        };
        self.current <= 0
    }
}

/// Has the enemy at `enemy_pos` look for the player. Where there is no
/// player, nothing happens.
pub fn alert_enemy(
    enemy: Entity,
    state: &mut EnemyState,
    stats: &EnemyStats,
    player_pos: Option<Point>,
    enemy_pos: Point,
) -> (event: Option<EnemyAlertEvent>)
    ensures
        *final(state) == match player_pos {
            None => *old(state),
            Some(player) => alert_step(*old(state), *stats, distance_squared(player, enemy_pos)),
        },
        event == if *final(state) == *old(state) {
            None
        } else if *final(state) == EnemyState::Chase {
            Some(EnemyAlertEvent { enemy, ty: EnemyAlertEventType::Alert })
        } else {
            Some(EnemyAlertEvent { enemy, ty: EnemyAlertEventType::TooFar })
        },
{
    match player_pos {
        None => None,
        Some(player) => {
            match state.alert(stats, player.distance_squared(enemy_pos)) {
                Some(ty) => Some(EnemyAlertEvent { enemy, ty }),
                None => None,
            }
        },
    }
}

/// How the death of an enemy was dealt with.
#[derive(Debug, Clone, Copy, PartialEq, Eq, Structural)]
pub enum EnemyDeath {
    /// The room has no layout in this cycle: nothing can be recorded, and
    /// the enemy is left alone.
    RoomNotCached,
    /// The enemy of the event is gone already: the event is passed over.
    StaleEvent,
    /// The enemy names a spawner that its room does not have: nothing is
    /// recorded, and the enemy is left alone.
    NoSuchSpawner,
    /// The enemy's spawner is switched off for the rest of the cycle; the
    /// enemy is to be removed and its corpse laid out.
    Buried,
}

/// Deals with the death of one enemy in the room that the player is in.
/// `spawner_index` is the spawner that the enemy of the event came from, if
/// that enemy is still there. The spawner is switched off in the cycle's
/// layout of the room, so that the enemy does not come back before the
/// cycle ends.
pub fn handle_enemy_death(
    room_state: &mut PersistentRoomState,
    current_room: &CurrentRoom,
    spawner_index: Option<SpawnerIndex>,
) -> (outcome: EnemyDeath)
    requires
        old(room_state).wf(),
    ensures
        final(room_state).wf(),
        outcome == if !old(room_state)@.dom().contains(current_room.info.name@) {
            EnemyDeath::RoomNotCached
        } else if spawner_index is None {
            EnemyDeath::StaleEvent
        } else if spawner_index->0.place() >= old(room_state)@[current_room.info.name@].spawners.len() {
            EnemyDeath::NoSuchSpawner
        } else {
            EnemyDeath::Buried
        },
        outcome != EnemyDeath::Buried ==> final(room_state)@ == old(room_state)@,
        outcome == EnemyDeath::Buried ==> final(room_state)@ == old(room_state)@.insert(
            current_room.info.name@,
            old(room_state)@[current_room.info.name@].with_inactive(spawner_index->0.place() as int),
        ),
{
    if !room_state.contains(current_room.info.name.as_str()) {
        return EnemyDeath::RoomNotCached;
    }
    let place: usize = match spawner_index {
        Some(SpawnerIndex(place)) => place,
        None => {
            return EnemyDeath::StaleEvent;
        },
    };
    match room_state.mark_spawner_inactive(current_room.info.name.as_str(), place) {
        Ok(()) => EnemyDeath::Buried,
        Err(RoomStateError::NoSuchSpawner) => EnemyDeath::NoSuchSpawner,
        Err(_) => EnemyDeath::RoomNotCached,
    }
}

/// What the defeat of a boss brings about.
#[derive(Debug, Clone, Copy, PartialEq, Eq, Structural)]
pub struct BossDefeat {
    /// The skill that the boss held is to be unlocked.
    pub unlock: Option<SkillUnlockedEvent>,
    /// The state that the game goes on to, if the defeat ends the game.
    pub next_state: Option<GameState>,
}

/// What the defeat of a boss brings about: the skill that the boss held, if
/// it held one, is unlocked, and the defeat of the final boss leads to the
/// outro.
pub fn boss_defeated(skill_unlocked: Option<Skill>, final_boss: bool) -> (defeat: BossDefeat)
    ensures
        defeat.unlock == match skill_unlocked {
            Some(skill) => Some(SkillUnlockedEvent { skill }),
            None => None,
        },
        defeat.next_state == if final_boss {
            Some(GameState::Outro)
        } else {
            None
        },
{
    BossDefeat {
        unlock: match skill_unlocked {
            Some(skill) => Some(SkillUnlockedEvent { skill }),
            None => None,
        },
        next_state: if final_boss {
            Some(GameState::Outro)
        } else {
            None
        },
    }
}

/// How far a wandering enemy strays from where it stands when it picks a
/// new place to go to.
pub const WANDER_RADIUS: i32 = 75;

/// How close an enemy has to come to the place it is going to, or to the
/// distance it wants to keep, to stop.
pub const CLOSE_ENOUGH: u32 = 16;

/// How often a place within the wander radius is drawn before the enemy
/// stays where it is.
pub const WANDER_DRAWS: u32 = 32;

/// Where an enemy is to move.
#[derive(Debug, Clone, Copy, PartialEq, Eq, Structural)]
pub enum Steering {
    /// Stand still.
    Stop,
    /// Walk towards the place at half speed.
    Stroll { target: Point },
    /// Run towards the place.
    Approach { target: Point },
    /// Run away from the place.
    Retreat { from: Point },
}

/// What a wandering enemy keeps in mind: how long it waits between two
/// walks (microseconds), and where it is going.
#[derive(Debug, Clone, Copy, PartialEq, Eq, Structural)]
pub struct WanderState {
    /// The wait that is running.
    pub delay: u32,
    pub min_delay: u32,
    pub max_delay: u32,
    pub target: Option<Point>,
}

impl WanderState {
    /// The wait lies between the least and the greatest wait, the greatest
    /// left out; where that leaves nothing to draw from, it is the least.
    pub open spec fn delay_in_range(self) -> bool {
        if self.min_delay < self.max_delay {
            self.min_delay <= self.delay < self.max_delay
        } else {
            self.delay == self.min_delay
        }
    }

    /// An enemy that goes nowhere yet and waits for a time drawn between
    /// `min` and `max`.
    pub fn new(min: u32, max: u32, rng: &mut GlobalRng) -> (wander_state: WanderState)
        ensures
            wander_state.min_delay == min,
            wander_state.max_delay == max,
            wander_state.target is None,
            wander_state.delay_in_range(),
    {
        let mut wander_state = WanderState { min_delay: min, max_delay: max, delay: min, target: None };
        wander_state.reset(rng);
        wander_state
    }

    /// Draws the next wait.
    pub fn reset(&mut self, rng: &mut GlobalRng)
        ensures
            final(self).min_delay == old(self).min_delay,
            final(self).max_delay == old(self).max_delay,
            final(self).target == old(self).target,
            final(self).delay_in_range(),
    {
        self.delay = if self.min_delay < self.max_delay {
            match rng.sample_between(self.min_delay as i64, self.max_delay as i64 - 1) {
                Some(delay) => delay as u32,
                None => self.min_delay,
            }
        } else {
            self.min_delay
        };
    }
}

/// `value` moved by `step`, held within the range of a coordinate.
pub open spec fn shifted(value: i32, step: i32) -> i32 {
    if value + step > i32::MAX {
        i32::MAX
    } else if value + step < i32::MIN {
        i32::MIN
    } else {
        (value + step) as i32
    }
}

/// `value` moved by `step`, held within the range of a coordinate.
fn shift(value: i32, step: i32) -> (moved: i32)
    ensures
        moved == shifted(value, step),
{
    let sum: i64 = value as i64 + step as i64;
    if sum > i32::MAX as i64 {
        i32::MAX
    } else if sum < i32::MIN as i64 {
        i32::MIN
    } else {
        sum as i32
    }
}

/// Draws a step of at most the wander radius: a point of the square around
/// the origin is drawn until one lies within the radius; after a number of
/// draws without luck the step is no step at all.
pub fn wander_offset(rng: &mut GlobalRng) -> (offset: Point)
    ensures
        distance_squared(offset, Point { x: 0, y: 0 }) <= WANDER_RADIUS * WANDER_RADIUS,
{
    let mut draws: u32 = 0;
    while draws < WANDER_DRAWS
        invariant
            draws <= WANDER_DRAWS,
        decreases WANDER_DRAWS - draws,
    {
        let x: i64 = match rng.sample_between(-(WANDER_RADIUS as i64), WANDER_RADIUS as i64) {
            Some(x) => x,
            None => 0,
        };
        let y: i64 = match rng.sample_between(-(WANDER_RADIUS as i64), WANDER_RADIUS as i64) {
            Some(y) => y,
            None => 0,
        };
        match offset_within_radius(x, y) {
            Some(offset) => {
                assert(within_wander_radius(x as int, y as int));
                assert(offset == Point { x: x as i32, y: y as i32 });
                assert(distance_squared(Point { x: x as i32, y: y as i32 }, Point { x: 0, y: 0 })
                    == x * x + y * y) by {
                    assert(0 <= x * x && 0 <= y * y) by (nonlinear_arith);
                }
                return offset;
            },
            None => {},
        }
        draws = draws + 1;
    }
    Point { x: 0, y: 0 }
}

/// Whether a step of `x` and `y` is no longer than the wander radius.
pub open spec fn within_wander_radius(x: int, y: int) -> bool {
    x * x + y * y <= WANDER_RADIUS * WANDER_RADIUS
}

/// Takes a step that has been drawn if it is no longer than the wander
/// radius, and turns it down if it is.
pub fn offset_within_radius(x: i64, y: i64) -> (offset: Option<Point>)
    ensures
        offset == if within_wander_radius(x as int, y as int) {
            Some(Point { x: x as i32, y: y as i32 })
        } else {
            None
        },
{
    let radius: i64 = WANDER_RADIUS as i64;
    if x < -radius || x > radius || y < -radius || y > radius {
        assert(x * x + y * y > 75 * 75) by (nonlinear_arith)
            requires
                x < -75 || x > 75 || y < -75 || y > 75,
        ;
        return None;
    }
    assert(0 <= x * x <= 75 * 75 && 0 <= y * y <= 75 * 75) by (nonlinear_arith)
        requires
            -75 <= x <= 75,
            -75 <= y <= 75,
    ;
    if x * x + y * y <= radius * radius {
        Some(Point { x: x as i32, y: y as i32 })
    } else {
        None
    }
}

/// Where a wandering enemy that stands at `enemy_pos` and is going to
/// `target` is to move: nowhere without a place to go to or close to it,
/// else towards it at half speed.
pub open spec fn wander_steering(target: Option<Point>, enemy_pos: Point) -> Steering {
    match target {
        None => Steering::Stop,
        Some(target) => if distance_squared(target, enemy_pos) < CLOSE_ENOUGH * CLOSE_ENOUGH {
            Steering::Stop
        } else {
            Steering::Stroll { target }
        },
    }
}

/// Moves a wandering enemy for one tick. When its wait has run out, it
/// picks a new place to go to, at most the wander radius away from where it
/// stands, and draws the next wait.
pub fn wander(
    wander_state: &mut WanderState,
    enemy_pos: Point,
    timer_finished: bool,
    rng: &mut GlobalRng,
) -> (steering: Steering)
    ensures
        final(wander_state).min_delay == old(wander_state).min_delay,
        final(wander_state).max_delay == old(wander_state).max_delay,
        !timer_finished ==> *final(wander_state) == *old(wander_state),
        timer_finished ==> final(wander_state).delay_in_range() && final(wander_state).target is Some,
        steering == wander_steering(final(wander_state).target, enemy_pos),
{
    if timer_finished {
        let offset: Point = wander_offset(rng);
        wander_state.target = Some(
            Point { x: shift(enemy_pos.x, offset.x), y: shift(enemy_pos.y, offset.y) },
        );
        wander_state.reset(rng);
    }
    match wander_state.target {
        None => Steering::Stop,
        Some(target) => {
            let reach: u128 = CLOSE_ENOUGH as u128;
            assert(reach * reach == 256) by (nonlinear_arith)
                requires
                    reach == 16,
            ;
            if target.distance_squared(enemy_pos) < reach * reach {
                Steering::Stop
            } else {
                Steering::Stroll { target }
            }
        },
    }
}

/// Whether a distance whose square is `squared_distance` differs from
/// `desired` by less than the stopping distance.
pub open spec fn at_desired_distance(squared_distance: nat, desired: u32) -> bool {
    &&& squared_distance < (desired + CLOSE_ENOUGH) * (desired + CLOSE_ENOUGH)
    &&& (desired < CLOSE_ENOUGH || squared_distance > (desired - CLOSE_ENOUGH) * (desired
        - CLOSE_ENOUGH))
}

/// Where a chasing enemy that stands at `enemy_pos` is to move: nowhere
/// without a player or at about the distance it wants to keep, towards the
/// player from further away, away from the player from closer by.
pub open spec fn chase_steering(stats: EnemyStats, enemy_pos: Point, player_pos: Option<Point>) -> Steering {
    match player_pos {
        None => Steering::Stop,
        Some(player) => {
            let squared = distance_squared(player, enemy_pos);
            if at_desired_distance(squared, stats.desired_distance) {
                Steering::Stop
            } else if squared > stats.desired_distance * stats.desired_distance {
                Steering::Approach { target: player }
            } else {
                Steering::Retreat { from: player }
            }
        },
    }
}

/// Moves a chasing enemy for one tick.
pub fn chase(stats: &EnemyStats, enemy_pos: Point, player_pos: Option<Point>) -> (steering: Steering)
    ensures
        steering == chase_steering(*stats, enemy_pos, player_pos),
{
    match player_pos {
        None => Steering::Stop,
        Some(player) => {
            let squared: u128 = player.distance_squared(enemy_pos);
            let desired: u128 = stats.desired_distance as u128;
            let reach: u128 = CLOSE_ENOUGH as u128;
            assert((desired + reach) * (desired + reach) <= 0x1_0000_000f * 0x1_0000_000f)
                by (nonlinear_arith)
                requires
                    desired + reach <= 0x1_0000_000f,
            ;
            assert(desired * desired <= 0xffff_ffff * 0xffff_ffff) by (nonlinear_arith)
                requires
                    desired <= 0xffff_ffff,
            ;
            let below: bool = squared < (desired + reach) * (desired + reach);
            let above: bool = if desired < reach {
                true
            } else {
                assert((desired - reach) * (desired - reach) <= 0xffff_ffff * 0xffff_ffff)
                    by (nonlinear_arith)
                    requires
                        0 <= desired - reach <= 0xffff_ffff,
                ;
                squared > (desired - reach) * (desired - reach)
            };
            if below && above {
                Steering::Stop
            } else if squared > desired * desired {
                Steering::Approach { target: player }
            } else {
                Steering::Retreat { from: player }
            }
        },
    }
}

/// Moves an enemy for one tick, as its state asks.
pub fn move_enemy(
    state: EnemyState,
    stats: &EnemyStats,
    wander_state: &mut WanderState,
    enemy_pos: Point,
    player_pos: Option<Point>,
    timer_finished: bool,
    rng: &mut GlobalRng,
) -> (steering: Steering)
    ensures
        state == EnemyState::Chase ==> *final(wander_state) == *old(wander_state) && steering
            == chase_steering(*stats, enemy_pos, player_pos),
        state == EnemyState::Wander ==> {
            &&& final(wander_state).min_delay == old(wander_state).min_delay
            &&& final(wander_state).max_delay == old(wander_state).max_delay
            &&& !timer_finished ==> *final(wander_state) == *old(wander_state)
            &&& timer_finished ==> final(wander_state).delay_in_range() && final(wander_state).target is Some
            &&& steering == wander_steering(final(wander_state).target, enemy_pos)
        },
{
    match state {
        EnemyState::Wander => wander(wander_state, enemy_pos, timer_finished, rng),
        EnemyState::Chase => chase(stats, enemy_pos, player_pos),
    }
}

} // verus!
