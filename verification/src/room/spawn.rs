//! Filling a room: its walls, its cached or fresh layout, and its enemies.

use vstd::prelude::*;

use crate::enemy::{BossStats, EnemyHealth, EnemyStats, EnemyType};
use crate::geometry::{Point, Rect};
use crate::numeric::MICRO;
use crate::rand::GlobalRng;
use crate::room::{
    CardinalDirection, CurrentRoom, ObstacleState, PersistentRoomState, RoomInfo, RoomState,
    RoomStateView, Spawner, SpawnerIndex, SpawnerState, SpawnerType,
};

verus! {

/// Share of a room's half size, in hundredths, that is kept free of
/// spawners and obstacles along the walls.
pub const SPAWN_MARGIN_PERCENT: u8 = 20;

/// How far a wall reaches outward from the floor.
pub const WALL_THICKNESS: i32 = 100;

/// Name of the boss whose defeat ends the game.
pub open spec fn final_boss_name() -> Seq<char> {
    "The Wizard"@
}

/// The kind of the spawner at `index`: the melee spawners come first, then
/// the ranged ones, and the boss comes last.
pub open spec fn spawner_type_at(info: RoomInfo, index: int) -> SpawnerType {
    if index < info.num_melee_enemies {
        SpawnerType::Melee
    } else if index < info.num_melee_enemies + info.num_ranged_enemies {
        SpawnerType::Ranged
    } else {
        SpawnerType::Boss
    }
}

/// The part of the room in which spawners and obstacles are placed: the
/// floor, shrunk towards its middle by the margin.
pub open spec fn spawn_area(info: RoomInfo, margin_percent: int) -> Rect {
    info.rect.spec_scaled(100 - margin_percent)
}

/// `state` is a layout as a first visit makes it: one active spawner for
/// each enemy, of the kind that its place calls for, as many obstacles as
/// the room asks for, and all of them within the spawn area.
pub open spec fn is_fresh_layout(info: RoomInfo, margin_percent: int, state: RoomStateView) -> bool {
    &&& state.spawners.len() == info.spawner_count()
    &&& forall|i: int|
        0 <= i < state.spawners.len() ==> {
            &&& (#[trigger] state.spawners[i]).active
            &&& state.spawners[i].ty == spawner_type_at(info, i)
            &&& spawn_area(info, margin_percent).spec_contains(state.spawners[i].position)
        }
    &&& state.obstacles.len() == info.num_obstacles
    &&& forall|j: int|
        0 <= j < state.obstacles.len() ==> spawn_area(info, margin_percent).spec_contains(
            (#[trigger] state.obstacles[j]).position,
        )
}

/// Draws a point of `area`, first its `x`, then its `y`.
fn sample_point(rng: &mut GlobalRng, area: &Rect) -> (point: Point)
    requires
        area.wf(),
    ensures
        area.spec_contains(point),
{
    let x: i32 = match rng.sample_between(area.min.x as i64, area.max.x as i64) {
        Some(x) => x as i32,
        None => area.min.x,
    };
    let y: i32 = match rng.sample_between(area.min.y as i64, area.max.y as i64) {
        Some(y) => y as i32,
        None => area.min.y,
    };
    Point { x, y }
}

/// Lays a room out for the first visit of a cycle: draws a place in the
/// spawn area for each spawner, then for each obstacle. The places are drawn
/// one by one and may coincide.
pub fn generate_room_state(info: &RoomInfo, margin_percent: u8, rng: &mut GlobalRng) -> (state:
    RoomState)
    requires
        info.wf(),
        margin_percent <= 100,
    ensures
        is_fresh_layout(*info, margin_percent as int, state@),
{
    let area: Rect = info.rect.scaled(100 - margin_percent);
    let bosses: usize = if info.boss { 1 } else { 0 };
    let ranged_end: usize = info.num_melee_enemies + info.num_ranged_enemies;
    let count: usize = ranged_end + bosses;
    let mut spawners: Vec<SpawnerState> = Vec::new();
    let mut index: usize = 0;
    while index < count
        invariant
            index <= count,
            area.wf(),
            area == spawn_area(*info, margin_percent as int),
            ranged_end == info.num_melee_enemies + info.num_ranged_enemies,
            spawners.len() == index,
            forall|i: int|
                0 <= i < index ==> {
                    &&& (#[trigger] spawners[i]).active
                    &&& spawners[i].ty == spawner_type_at(*info, i)
                    &&& area.spec_contains(spawners[i].position)
                },
        decreases count - index,
    {
        let ty: SpawnerType = if index < info.num_melee_enemies {
            SpawnerType::Melee
        } else if index < ranged_end {
            SpawnerType::Ranged
        } else {
            SpawnerType::Boss
        };
        let position: Point = sample_point(rng, &area);
        spawners.push(SpawnerState { position, active: true, ty });
        index = index + 1;
    }
    let mut obstacles: Vec<ObstacleState> = Vec::new();
    let mut placed: usize = 0;
    while placed < info.num_obstacles
        invariant
            placed <= info.num_obstacles,
            area.wf(),
            obstacles.len() == placed,
            forall|j: int| 0 <= j < placed ==> area.spec_contains((#[trigger] obstacles[j]).position),
        decreases info.num_obstacles - placed,
    {
        let position: Point = sample_point(rng, &area);
        obstacles.push(ObstacleState { position });
        placed = placed + 1;
    }
    RoomState { obstacles, spawners }
}

/// `after` is what a lookup of the room `info` with creation on demand makes
/// of the cache `before`: a room that is cached stays as it is and nothing
/// is created; a room that is not gets a fresh layout, and the other rooms
/// stay as they are.
pub open spec fn is_get_or_create(
    before: Map<Seq<char>, RoomStateView>,
    after: Map<Seq<char>, RoomStateView>,
    info: RoomInfo,
    margin_percent: int,
    created: bool,
) -> bool {
    &&& created == !before.dom().contains(info.name@)
    &&& after.dom().contains(info.name@)
    &&& !created ==> after == before
    &&& created ==> after == before.insert(info.name@, after[info.name@]) && is_fresh_layout(
        info,
        margin_percent,
        after[info.name@],
    )
}

/// Two lookups of the same room in a row: the second creates nothing and
/// finds the layout that the first one found or made, place by place.
pub proof fn lemma_second_lookup_reuses_layout(
    before: Map<Seq<char>, RoomStateView>,
    between: Map<Seq<char>, RoomStateView>,
    after: Map<Seq<char>, RoomStateView>,
    info: RoomInfo,
    margin_percent: int,
    first_created: bool,
    second_created: bool,
)
    requires
        is_get_or_create(before, between, info, margin_percent, first_created),
        is_get_or_create(between, after, info, margin_percent, second_created),
    ensures
        !second_created,
        after == between,
        after[info.name@].spawners == between[info.name@].spawners,
        after[info.name@].obstacles == between[info.name@].obstacles,
{
}

impl PersistentRoomState {
    /// Looks the room `info` up and lays it out if this is its first visit
    /// of the cycle. Says whether a layout was made. A layout that is there
    /// is never made again: the places of a cycle's first visit hold until
    /// the cycle ends.
    pub fn get_or_create(&mut self, info: &RoomInfo, margin_percent: u8, rng: &mut GlobalRng) -> (created:
        bool)
        requires
            old(self).wf(),
            info.wf(),
            margin_percent <= 100,
        ensures
            final(self).wf(),
            is_get_or_create(old(self)@, final(self)@, *info, margin_percent as int, created),
    {
        if self.contains(info.name.as_str()) {
            return false;
        }
        let fresh: RoomState = generate_room_state(info, margin_percent, rng);
        let stored = self.insert(info.name.clone(), fresh);
        assert(stored is Ok);
        true
    }
}

/// A wall of the room, with the direction it closes off.
#[derive(Debug, Clone, Copy, PartialEq, Eq, Structural)]
pub struct WallPlacement {
    pub direction: CardinalDirection,
    pub rect: Rect,
}

/// The wall that closes `floor` off in `direction`: a strip of the wall
/// thickness along that side, which covers the corners too.
pub open spec fn wall_rect(floor: Rect, direction: CardinalDirection) -> Rect {
    match direction {
        CardinalDirection::West => Rect {
            min: Point { x: (floor.min.x - WALL_THICKNESS) as i32, y: (floor.min.y - WALL_THICKNESS) as i32 },
            max: Point { x: floor.min.x, y: (floor.max.y + WALL_THICKNESS) as i32 },
        },
        CardinalDirection::North => Rect {
            min: Point { x: (floor.min.x - WALL_THICKNESS) as i32, y: floor.max.y },
            max: Point { x: (floor.max.x + WALL_THICKNESS) as i32, y: (floor.max.y + WALL_THICKNESS) as i32 },
        },
        CardinalDirection::East => Rect {
            min: Point { x: floor.max.x, y: (floor.min.y - WALL_THICKNESS) as i32 },
            max: Point { x: (floor.max.x + WALL_THICKNESS) as i32, y: (floor.max.y + WALL_THICKNESS) as i32 },
        },
        CardinalDirection::South => Rect {
            min: Point { x: (floor.min.x - WALL_THICKNESS) as i32, y: (floor.min.y - WALL_THICKNESS) as i32 },
            max: Point { x: (floor.max.x + WALL_THICKNESS) as i32, y: floor.min.y },
        },
    }
}

/// The four walls of `floor`: west, north, east, south.
pub open spec fn wall_placements(floor: Rect) -> Seq<WallPlacement> {
    seq![
        WallPlacement {
            direction: CardinalDirection::West,
            rect: wall_rect(floor, CardinalDirection::West),
        },
        WallPlacement {
            direction: CardinalDirection::North,
            rect: wall_rect(floor, CardinalDirection::North),
        },
        WallPlacement {
            direction: CardinalDirection::East,
            rect: wall_rect(floor, CardinalDirection::East),
        },
        WallPlacement {
            direction: CardinalDirection::South,
            rect: wall_rect(floor, CardinalDirection::South),
        },
    ]
}

/// The wall that closes `floor` off in `direction`.
pub fn wall(floor: &Rect, direction: CardinalDirection) -> (placement: WallPlacement)
    requires
        floor.wf(),
    ensures
        placement.direction == direction,
        placement.rect == wall_rect(*floor, direction),
{
    let low_x: i32 = floor.min.x - WALL_THICKNESS;
    let low_y: i32 = floor.min.y - WALL_THICKNESS;
    let high_x: i32 = floor.max.x + WALL_THICKNESS;
    let high_y: i32 = floor.max.y + WALL_THICKNESS;
    let rect: Rect = match direction {
        CardinalDirection::West => Rect {
            min: Point { x: low_x, y: low_y },
            max: Point { x: floor.min.x, y: high_y },
        },
        CardinalDirection::North => Rect {
            min: Point { x: low_x, y: floor.max.y },
            max: Point { x: high_x, y: high_y },
        },
        CardinalDirection::East => Rect {
            min: Point { x: floor.max.x, y: low_y },
            max: Point { x: high_x, y: high_y },
        },
        CardinalDirection::South => Rect {
            min: Point { x: low_x, y: low_y },
            max: Point { x: high_x, y: floor.min.y },
        },
    };
    WallPlacement { direction, rect }
}

/// The spawners that stand in a room whose remembered spawners are
/// `states`: the same places, kinds and liveness, each with its place in
/// the list.
pub open spec fn spawners_from(states: Seq<SpawnerState>) -> Seq<Spawner> {
    Seq::new(
        states.len(),
        |i: int|
            Spawner { ty: states[i].ty, index: i as usize, active: states[i].active, position: states[i].position },
    )
}

/// Everything that stands in a room once it has been filled, but for the
/// enemies.
#[derive(Debug)]
pub struct RoomLayout {
    /// Extent of the floor along each axis.
    pub floor_size: Point,
    /// The four walls: west, north, east, south.
    pub walls: Vec<WallPlacement>,
    pub spawners: Vec<Spawner>,
    pub obstacles: Vec<ObstacleState>,
}

/// Fills the room that the player enters. The floor and the four walls
/// follow from the room's extent. A room that has been visited in this
/// cycle gets the spawners and obstacles that it had then, and the cache is
/// left alone; a room that has not is laid out afresh, and the new layout is
/// stored for the rest of the cycle.
pub fn spawn_room(
    current_room: &CurrentRoom,
    room_state: &mut PersistentRoomState,
    rng: &mut GlobalRng,
) -> (layout: RoomLayout)
    requires
        current_room.info.wf(),
        old(room_state).wf(),
    ensures
        final(room_state).wf(),
        is_get_or_create(
            old(room_state)@,
            final(room_state)@,
            current_room.info,
            SPAWN_MARGIN_PERCENT as int,
            !old(room_state)@.dom().contains(current_room.info.name@),
        ),
        layout.floor_size.x == current_room.info.rect.max.x - current_room.info.rect.min.x,
        layout.floor_size.y == current_room.info.rect.max.y - current_room.info.rect.min.y,
        layout.walls@ == wall_placements(current_room.info.rect),
        layout.spawners@ == spawners_from(final(room_state)@[current_room.info.name@].spawners),
        layout.obstacles@ == final(room_state)@[current_room.info.name@].obstacles,
{
    let floor: &Rect = &current_room.info.rect;
    let floor_size: Point = Point { x: floor.max.x - floor.min.x, y: floor.max.y - floor.min.y };
    let mut walls: Vec<WallPlacement> = Vec::new();
    walls.push(wall(floor, CardinalDirection::West));
    walls.push(wall(floor, CardinalDirection::North));
    walls.push(wall(floor, CardinalDirection::East));
    walls.push(wall(floor, CardinalDirection::South));
    assert(walls@ =~= wall_placements(*floor));

    let created: bool = room_state.get_or_create(&current_room.info, SPAWN_MARGIN_PERCENT, rng);
    let mut spawners: Vec<Spawner> = Vec::new();
    let mut obstacles: Vec<ObstacleState> = Vec::new();
    match room_state.get(current_room.info.name.as_str()) {
        Some(state) => {
            let mut index: usize = 0;
            while index < state.spawners.len()
                invariant
                    index <= state.spawners.len(),
                    spawners@ == spawners_from(state.spawners@.take(index as int)),
                decreases state.spawners.len() - index,
            {
                let remembered: SpawnerState = state.spawners[index];
                spawners.push(
                    Spawner {
                        ty: remembered.ty,
                        index,
                        active: remembered.active,
                        position: remembered.position,
                    },
                );
                index = index + 1;
                assert(spawners@ =~= spawners_from(state.spawners@.take(index as int)));
            }
            assert(state.spawners@.take(index as int) =~= state.spawners@);
            let mut placed: usize = 0;
            while placed < state.obstacles.len()
                invariant
                    placed <= state.obstacles.len(),
                    obstacles@ == state.obstacles@.take(placed as int),
                decreases state.obstacles.len() - placed,
            {
                obstacles.push(state.obstacles[placed]);
                placed = placed + 1;
                assert(obstacles@ =~= state.obstacles@.take(placed as int));
            }
            assert(state.obstacles@.take(placed as int) =~= state.obstacles@);
        },
        None => {},
    }
    RoomLayout { floor_size, walls, spawners, obstacles }
}

/// An enemy that is to be brought into the room.
#[derive(Debug, Clone, Copy, PartialEq, Eq, Structural)]
pub struct EnemySpawn {
    /// The spawner that the enemy comes from; its death switches that
    /// spawner off.
    pub spawner_index: SpawnerIndex,
    /// Where the enemy appears.
    pub position: Point,
    /// The stats that the enemy is given.
    pub stats: EnemyStats,
    /// The health that the enemy starts with: the health of its stats.
    pub health: EnemyHealth,
    /// Whether the enemy looks like the room's ranged enemies rather than
    /// its melee enemies.
    pub ranged_look: bool,
    /// Factor on the enemy's size, in millionths.
    pub scale: u64,
    /// Whether the enemy is the room's boss.
    pub boss: bool,
    /// Whether the enemy is the boss whose defeat ends the game.
    pub final_boss: bool,
}

/// The health that an enemy of these stats starts with: full health of the
/// stats' health, as far as it can be held.
pub open spec fn full_health(stats: EnemyStats) -> EnemyHealth {
    let health = if stats.health > i64::MAX {
        i64::MAX
    } else {
        stats.health as i64
    };
    EnemyHealth { maximum: health, current: health }
}

/// The health that an enemy of these stats starts with.
fn starting_health(stats: &EnemyStats) -> (health: EnemyHealth)
    ensures
        health == full_health(*stats),
{
    if stats.health > i64::MAX as u64 {
        EnemyHealth::new(i64::MAX)
    } else {
        EnemyHealth::new(stats.health as i64)
    }
}

/// The enemy that `spawner` brings forth in `room`: none where the spawner
/// is inactive, where the room's remembered layout has no such spawner or
/// has it switched off, or where it is a boss spawner in a room without a
/// boss.
pub open spec fn enemy_for(spawner: Spawner, cached: Option<RoomStateView>, room: CurrentRoom) -> Option<
    EnemySpawn,
> {
    if !spawner.active {
        None
    } else if cached is Some && spawner.index >= cached->0.spawners.len() {
        None
    } else if cached is Some && !cached->0.spawners[spawner.index as int].active {
        None
    } else {
        match spawner.ty {
            SpawnerType::Melee => Some(
                EnemySpawn {
                    spawner_index: SpawnerIndex(spawner.index),
                    position: spawner.position,
                    stats: room.melee_enemy_stats,
                    health: full_health(room.melee_enemy_stats),
                    ranged_look: false,
                    scale: MICRO,
                    boss: false,
                    final_boss: false,
                },
            ),
            SpawnerType::Ranged => Some(
                EnemySpawn {
                    spawner_index: SpawnerIndex(spawner.index),
                    position: spawner.position,
                    stats: room.ranged_enemy_stats,
                    health: full_health(room.ranged_enemy_stats),
                    ranged_look: true,
                    scale: MICRO,
                    boss: false,
                    final_boss: false,
                },
            ),
            SpawnerType::Boss => match room.boss_stats {
                None => None,
                Some(boss) => Some(
                    EnemySpawn {
                        spawner_index: SpawnerIndex(spawner.index),
                        position: spawner.position,
                        stats: boss.stats,
                        health: full_health(boss.stats),
                        ranged_look: boss.stats.enemy_type is Ranged,
                        scale: boss.scale,
                        boss: true,
                        final_boss: boss.name@ == final_boss_name(),
                    },
                ),
            },
        }
    }
}

/// The enemies that `spawners` bring forth, in the order of the spawners.
pub open spec fn enemies_for(spawners: Seq<Spawner>, cached: Option<RoomStateView>, room: CurrentRoom) -> Seq<
    EnemySpawn,
>
    decreases spawners.len(),
{
    if spawners.len() == 0 {
        Seq::empty()
    } else {
        let before = enemies_for(spawners.drop_last(), cached, room);
        match enemy_for(spawners.last(), cached, room) {
            Some(enemy) => before.push(enemy),
            None => before,
        }
    }
}

/// The layout that the cache holds for the room `name`, if it holds one.
pub open spec fn cached_layout(cache: Map<Seq<char>, RoomStateView>, name: Seq<char>) -> Option<
    RoomStateView,
> {
    if cache.dom().contains(name) {
        Some(cache[name])
    } else {
        None
    }
}

/// The enemy that `spawner` brings forth, if any.
fn spawn_enemy(spawner: &Spawner, cached: Option<&RoomState>, current_room: &CurrentRoom) -> (enemy:
    Option<EnemySpawn>)
    ensures
        enemy == enemy_for(
            *spawner,
            match cached {
                Some(state) => Some(state@),
                None => None,
            },
            *current_room,
        ),
{
    if !spawner.active {
        return None;
    }
    match cached {
        Some(state) => {
            if spawner.index >= state.spawners.len() {
                return None;
            }
            if !state.spawners[spawner.index].active {
                // this spawner's enemy has been killed in this cycle
                return None;
            }
        },
        None => {},
    }
    match spawner.ty {
        SpawnerType::Melee => Some(
            EnemySpawn {
                spawner_index: SpawnerIndex(spawner.index),
                position: spawner.position,
                stats: current_room.melee_enemy_stats,
                health: starting_health(&current_room.melee_enemy_stats),
                ranged_look: false,
                scale: MICRO,
                boss: false,
                final_boss: false,
            },
        ),
        SpawnerType::Ranged => Some(
            EnemySpawn {
                spawner_index: SpawnerIndex(spawner.index),
                position: spawner.position,
                stats: current_room.ranged_enemy_stats,
                health: starting_health(&current_room.ranged_enemy_stats),
                ranged_look: true,
                scale: MICRO,
                boss: false,
                final_boss: false,
            },
        ),
        SpawnerType::Boss => match &current_room.boss_stats {
            None => None,
            Some(boss) => {
                let ranged_look: bool = match boss.stats.enemy_type {
                    EnemyType::Melee { .. } => false,
                    EnemyType::Ranged { .. } => true,
                };
                let wizard: String = "The Wizard".to_owned();
                Some(
                    EnemySpawn {
                        spawner_index: SpawnerIndex(spawner.index),
                        position: spawner.position,
                        stats: boss.stats,
                        health: starting_health(&boss.stats),
                        ranged_look,
                        scale: boss.scale,
                        boss: true,
                        final_boss: boss.name == wizard,
                    },
                )
            },
        },
    }
}

/// Decides which enemies enter the room: one for each spawner that stands
/// in the room and is active, unless the cycle's remembered layout of the
/// room says that its enemy has been killed.
pub fn spawn_enemies(
    spawners: &Vec<Spawner>,
    room_state: &PersistentRoomState,
    current_room: &CurrentRoom,
) -> (enemies: Vec<EnemySpawn>)
    requires
        room_state.wf(),
    ensures
        enemies@ == enemies_for(
            spawners@,
            cached_layout(room_state@, current_room.info.name@),
            *current_room,
        ),
{
    let cached: Option<&RoomState> = room_state.get(current_room.info.name.as_str());
    let ghost layout = cached_layout(room_state@, current_room.info.name@);
    let mut enemies: Vec<EnemySpawn> = Vec::new();
    let mut index: usize = 0;
    while index < spawners.len()
        invariant
            index <= spawners.len(),
            layout == match cached {
                Some(state) => Some(state@),
                None => None,
            },
            enemies@ == enemies_for(spawners@.take(index as int), layout, *current_room),
        decreases spawners.len() - index,
    {
        let enemy: Option<EnemySpawn> = spawn_enemy(&spawners[index], cached, current_room);
        proof {
            let taken = spawners@.take(index + 1);
            assert(taken.drop_last() =~= spawners@.take(index as int));
            assert(taken.last() == spawners@[index as int]);
        }
        match enemy {
            Some(enemy) => {
                enemies.push(enemy);
            },
            None => {},
        }
        index = index + 1;
    }
    assert(spawners@.take(index as int) =~= spawners@);
    enemies
}

/// Whether one of `enemies` comes from the spawner at `index`.
pub open spec fn spawns_from(enemies: Seq<EnemySpawn>, index: int) -> bool {
    exists|k: int| 0 <= k < enemies.len() && (#[trigger] enemies[k]).spawner_index.0 == index
}

/// A spawner that the remembered layout has switched off brings forth no
/// enemy, whatever the spawners standing in the room say.
pub proof fn lemma_inactive_spawner_stays_empty(
    spawners: Seq<Spawner>,
    state: RoomStateView,
    room: CurrentRoom,
    index: int,
)
    requires
        0 <= index < state.spawners.len(),
        !state.spawners[index].active,
    ensures
        !spawns_from(enemies_for(spawners, Some(state), room), index),
    decreases spawners.len(),
{
    if spawners.len() > 0 {
        lemma_inactive_spawner_stays_empty(spawners.drop_last(), state, room, index);
        let before = enemies_for(spawners.drop_last(), Some(state), room);
        let after = enemies_for(spawners, Some(state), room);
        if spawns_from(after, index) {
            let k = choose|k: int| 0 <= k < after.len() && (#[trigger] after[k]).spawner_index.0 == index;
            if k < before.len() {
                assert(before[k].spawner_index.0 == index);
            }
        }
    }
}

/// Once a spawner has been marked inactive, entering the room again in the
/// same cycle brings forth no enemy from it.
pub proof fn lemma_marked_spawner_stays_empty(state: RoomStateView, room: CurrentRoom, index: int)
    requires
        0 <= index < state.spawners.len(),
    ensures
        !spawns_from(
            enemies_for(
                spawners_from(state.with_inactive(index).spawners),
                Some(state.with_inactive(index)),
                room,
            ),
            index,
        ),
{
    lemma_inactive_spawner_stays_empty(
        spawners_from(state.with_inactive(index).spawners),
        state.with_inactive(index),
        room,
        index,
    );
}

/// An active spawner that stands in the room and is active in the
/// remembered layout brings forth its enemy; a boss spawner does so where
/// the room has a boss.
pub proof fn lemma_active_spawner_spawns(
    spawners: Seq<Spawner>,
    state: RoomStateView,
    room: CurrentRoom,
    place: int,
)
    requires
        0 <= place < spawners.len(),
        spawners[place].active,
        spawners[place].index < state.spawners.len(),
        state.spawners[spawners[place].index as int].active,
        spawners[place].ty == SpawnerType::Boss ==> room.boss_stats is Some,
    ensures
        spawns_from(enemies_for(spawners, Some(state), room), spawners[place].index as int),
    decreases spawners.len(),
{
    let after = enemies_for(spawners, Some(state), room);
    let before = enemies_for(spawners.drop_last(), Some(state), room);
    if place == spawners.len() - 1 {
        let enemy = enemy_for(spawners.last(), Some(state), room);
        assert(enemy is Some);
        assert(after[after.len() - 1].spawner_index.0 == spawners[place].index);
    } else {
        lemma_active_spawner_spawns(spawners.drop_last(), state, room, place);
        let k = choose|k: int|
            0 <= k < before.len() && (#[trigger] before[k]).spawner_index.0 == spawners[place].index;
        assert(after[k].spawner_index.0 == spawners[place].index);
    }
}

/// After the cycle has been reset, a room is laid out afresh, and every
/// spawner of the fresh layout brings forth its enemy again; the boss
/// spawner does so where the room has a boss.
pub proof fn lemma_fresh_layout_spawns_all(
    info: RoomInfo,
    margin_percent: int,
    state: RoomStateView,
    room: CurrentRoom,
    index: int,
)
    requires
        is_fresh_layout(info, margin_percent, state),
        0 <= index < state.spawners.len(),
        state.spawners.len() <= usize::MAX,
        state.spawners[index].ty == SpawnerType::Boss ==> room.boss_stats is Some,
    ensures
        spawns_from(enemies_for(spawners_from(state.spawners), Some(state), room), index),
{
    let spawners = spawners_from(state.spawners);
    assert(spawners[index].index == index);
    lemma_active_spawner_spawns(spawners, state, room, index);
}

} // verus!
