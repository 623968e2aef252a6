//! Rooms: what a room is, which rooms there are, and what each room looks
//! like for as long as the cycle lasts.

use vstd::prelude::*;

use crate::enemy::{BossStats, EnemyStats};
use crate::geometry::{Point, Rect};
use crate::physics::{CollisionEvent, EntityKind};
use crate::states::GameState;

pub mod events;
pub mod spawn;

pub use events::ChangeRoom;

mod name_index;

use name_index::{name_index_entries, NameIndex};

verus! {

/// The four walls of a room, and the four ways out of it.
#[derive(Debug, Clone, Copy, PartialEq, Eq, Structural)]
pub enum CardinalDirection {
    North,
    South,
    East,
    West,
}

impl CardinalDirection {
    /// The direction that faces this one.
    pub open spec fn spec_opposite(self) -> CardinalDirection {
        match self {
            CardinalDirection::North => CardinalDirection::South,
            CardinalDirection::South => CardinalDirection::North,
            CardinalDirection::East => CardinalDirection::West,
            CardinalDirection::West => CardinalDirection::East,
        }
    }

    /// The direction that faces this one.
    #[verifier::when_used_as_spec(spec_opposite)]
    pub fn opposite(self) -> (facing: CardinalDirection)
        ensures
            facing == self.spec_opposite(),
    {
        match self {
            CardinalDirection::North => CardinalDirection::South,
            CardinalDirection::East => CardinalDirection::West,
            CardinalDirection::South => CardinalDirection::North,
            CardinalDirection::West => CardinalDirection::East,
        }
    }
}

/// What a room is made of: its name, its extent, what lives in it and where
/// its walls lead.
#[derive(Debug)]
pub struct RoomInfo {
    /// The name by which rooms refer to one another.
    pub name: String,
    /// The floor of the room.
    pub rect: Rect,
    pub num_melee_enemies: usize,
    pub num_ranged_enemies: usize,
    pub num_obstacles: usize,
    /// Whether a boss lives here.
    pub boss: bool,
    /// The room behind each wall, where there is one.
    pub north: Option<String>,
    pub south: Option<String>,
    pub east: Option<String>,
    pub west: Option<String>,
}

/// A copy of a name that may be missing.
fn duplicate_link(link: &Option<String>) -> (copy: Option<String>)
    ensures
        copy == *link,
{
    match link {
        Some(name) => Some(name.clone()),
        None => None,
    }
}

impl RoomInfo {
    /// How many spawners the room has: one for each enemy, the boss included.
    pub open spec fn spawner_count(self) -> nat {
        (self.num_melee_enemies + self.num_ranged_enemies + if self.boss { 1nat } else { 0nat }) as nat
    }

    /// The floor is a well-formed rectangle and the spawners can be counted.
    pub open spec fn wf(self) -> bool {
        &&& self.rect.wf()
        &&& self.spawner_count() <= usize::MAX
    }

    /// Whether the floor is a well-formed rectangle and the spawners can be
    /// counted.
    pub fn is_valid(&self) -> (valid: bool)
        ensures
            valid == self.wf(),
    {
        let bosses: usize = if self.boss { 1 } else { 0 };
        self.rect.is_valid() && self.num_melee_enemies <= usize::MAX - self.num_ranged_enemies
            && self.num_melee_enemies + self.num_ranged_enemies <= usize::MAX - bosses
    }

    /// The name of the room behind the wall in `direction`, if that wall
    /// leads anywhere.
    pub open spec fn spec_link(self, direction: CardinalDirection) -> Option<String> {
        match direction {
            CardinalDirection::North => self.north,
            CardinalDirection::South => self.south,
            CardinalDirection::East => self.east,
            CardinalDirection::West => self.west,
        }
    }

    /// The name of the room behind the wall in `direction`, if that wall
    /// leads anywhere.
    pub fn link(&self, direction: CardinalDirection) -> (next: &Option<String>)
        ensures
            *next == self.spec_link(direction),
    {
        match direction {
            CardinalDirection::North => &self.north,
            CardinalDirection::South => &self.south,
            CardinalDirection::East => &self.east,
            CardinalDirection::West => &self.west,
        }
    }

    /// A copy with the same name, extent, counts and links.
    pub fn duplicate(&self) -> (copy: RoomInfo)
        ensures
            copy == *self,
    {
        RoomInfo {
            name: self.name.clone(),
            rect: self.rect,
            num_melee_enemies: self.num_melee_enemies,
            num_ranged_enemies: self.num_ranged_enemies,
            num_obstacles: self.num_obstacles,
            boss: self.boss,
            north: duplicate_link(&self.north),
            south: duplicate_link(&self.south),
            east: duplicate_link(&self.east),
            west: duplicate_link(&self.west),
        }
    }
}

/// The room that the player is in, or is about to enter: what it is made
/// of, and the stats of what lives in it.
#[derive(Debug)]
pub struct CurrentRoom {
    pub info: RoomInfo,
    pub melee_enemy_stats: EnemyStats,
    pub ranged_enemy_stats: EnemyStats,
    /// The stats of the room's boss, where the room has one.
    pub boss_stats: Option<BossStats>,
}

/// Which kind of enemy a spawner brings forth.
#[derive(Debug, Default, Clone, Copy, PartialEq, Eq, Structural)]
pub enum SpawnerType {
    #[default]
    Melee,
    Ranged,
    Boss,
}

/// Where an obstacle stands.
#[derive(Debug, Clone, Copy, PartialEq, Eq, Structural)]
pub struct ObstacleState {
    pub position: Point,
}

/// What is remembered of a spawner, so that it behaves the same for the
/// whole cycle.
#[derive(Debug, Clone, Copy, PartialEq, Eq, Structural)]
pub struct SpawnerState {
    /// Where the spawner was placed.
    pub position: Point,
    /// A spawner is active until its enemy has been killed in this cycle.
    pub active: bool,
    /// Which kind of enemy the spawner brings forth.
    pub ty: SpawnerType,
}

/// Place of a spawner in its room's list; every enemy carries the place of
/// the spawner it came from.
#[derive(Debug, Clone, Copy, PartialEq, Eq, Structural)]
pub struct SpawnerIndex(pub usize);

impl SpawnerIndex {
    /// The place as a number.
    pub open spec fn place(self) -> usize {
        self.0
    }
}

/// A spawner as it stands in the room.
#[derive(Debug, Clone, Copy, PartialEq, Eq, Structural)]
pub struct Spawner {
    pub ty: SpawnerType,
    pub index: usize,
    pub active: bool,
    pub position: Point,
}

/// The layout of one room: where its obstacles stand, and where its
/// spawners stand and which of them are still active.
#[derive(Debug)]
pub struct RoomState {
    pub obstacles: Vec<ObstacleState>,
    pub spawners: Vec<SpawnerState>,
}

/// A room's layout as plain sequences.
pub ghost struct RoomStateView {
    pub obstacles: Seq<ObstacleState>,
    pub spawners: Seq<SpawnerState>,
}

impl View for RoomState {
    type V = RoomStateView;

    open spec fn view(&self) -> RoomStateView {
        RoomStateView { obstacles: self.obstacles@, spawners: self.spawners@ }
    }
}

impl RoomStateView {
    /// The same layout with the spawner at `index` switched off.
    pub open spec fn with_inactive(self, index: int) -> RoomStateView {
        RoomStateView {
            obstacles: self.obstacles,
            spawners: self.spawners.update(
                index,
                SpawnerState {
                    position: self.spawners[index].position,
                    active: false,
                    ty: self.spawners[index].ty,
                },
            ),
        }
    }
}

/// Why the cache of room layouts refused an operation.
#[derive(Debug, Clone, Copy, PartialEq, Eq, Structural)]
pub enum RoomStateError {
    /// The room already has a layout in this cycle.
    AlreadyCached,
    /// The room has no layout in this cycle.
    NotCached,
    /// The room's layout has no spawner at that place.
    NoSuchSpawner,
}

/// The layouts of the rooms visited in the running cycle, by room name. A
/// room gets its layout on the first visit of the cycle and keeps it until
/// the cycle ends.
pub struct PersistentRoomState {
    index: NameIndex,
    names: Vec<String>,
    states: Vec<RoomState>,
}

impl View for PersistentRoomState {
    type V = Map<Seq<char>, RoomStateView>;

    closed spec fn view(&self) -> Map<Seq<char>, RoomStateView> {
        Map::new(
            |name: Seq<char>| name_index_entries(self.index).dom().contains(name),
            |name: Seq<char>| self.states[name_index_entries(self.index)[name] as int]@,
        )
    }
}

impl PersistentRoomState {
    /// Every name leads to the slot that holds it, and every slot is led to
    /// by its name.
    pub closed spec fn wf(self) -> bool {
        let entries = name_index_entries(self.index);
        &&& self.names.len() == self.states.len()
        &&& forall|name: Seq<char>| #[trigger]
            entries.dom().contains(name) ==> entries[name] < self.names.len()
                && self.names[entries[name] as int]@ == name
        &&& forall|slot: int|
            0 <= slot < self.names.len() ==> entries.dom().contains(#[trigger] self.names[slot]@)
                && entries[self.names[slot]@] == slot
    }

    /// A cache without layouts.
    pub fn new() -> (cache: PersistentRoomState)
        ensures
            cache.wf(),
            cache@ == Map::<Seq<char>, RoomStateView>::empty(),
    {
        let cache = PersistentRoomState { index: NameIndex::new(), names: Vec::new(), states: Vec::new() };
        assert(cache@ =~= Map::<Seq<char>, RoomStateView>::empty());
        cache
    }

    /// Whether the room of that name has a layout in this cycle.
    pub fn contains(&self, name: &str) -> (cached: bool)
        requires
            self.wf(),
        ensures
            cached == self@.dom().contains(name@),
    {
        self.index.get(name).is_some()
    }

    /// The layout of the room of that name, if it has one in this cycle.
    pub fn get(&self, name: &str) -> (state: Option<&RoomState>)
        requires
            self.wf(),
        ensures
            state is Some <==> self@.dom().contains(name@),
            state matches Some(found) ==> found@ == self@[name@],
    {
        match self.index.get(name) {
            Some(slot) => Some(&self.states[slot]),
            None => None,
        }
    }

    /// Stores `state` as the layout of the room `name`. A room that already
    /// has a layout in this cycle keeps it, and the call is refused.
    pub fn insert(&mut self, name: String, state: RoomState) -> (res: Result<(), RoomStateError>)
        requires
            old(self).wf(),
        ensures
            final(self).wf(),
            res is Err <==> old(self)@.dom().contains(name@),
            res is Err ==> res == Err::<(), RoomStateError>(RoomStateError::AlreadyCached)
                && final(self)@ == old(self)@,
            res is Ok ==> final(self)@ == old(self)@.insert(name@, state@),
    {
        if self.index.get(name.as_str()).is_some() {
            return Err(RoomStateError::AlreadyCached);
        }
        let slot: usize = self.states.len();
        let ghost before = *self;
        self.names.push(name.clone());
        self.states.push(state);
        self.index.insert(name, slot);
        proof {
            let entries = name_index_entries(self.index);
            let old_entries = name_index_entries(before.index);
            assert forall|other: Seq<char>| #[trigger] entries.dom().contains(other) implies entries[other]
                < self.names.len() && self.names[entries[other] as int]@ == other by {
                if other != name@ {
                    assert(old_entries.dom().contains(other));
                }
            }
            assert forall|k: int| 0 <= k < self.names.len() implies entries.dom().contains(
                #[trigger] self.names[k]@,
            ) && entries[self.names[k]@] == k by {
                if k < slot {
                    assert(before.names[k]@ == self.names[k]@);
                    assert(old_entries.dom().contains(before.names[k]@));
                }
            }
            assert(self@ =~= before@.insert(name@, state@)) by {
                assert forall|other: Seq<char>| #[trigger] self@.dom().contains(other) implies self@[other]
                    == before@.insert(name@, state@)[other] by {
                    if other != name@ {
                        assert(old_entries.dom().contains(other));
                    }
                }
            }
        }
        Ok(())
    }

    /// Records that the enemy of the spawner at `spawner_index` in the room
    /// `name` has been killed: that spawner is inactive from now on. The
    /// room need not be the one the player is in. A room without a layout,
    /// and a place without a spawner, leave the cache as it was.
    pub fn mark_spawner_inactive(&mut self, name: &str, spawner_index: usize) -> (res: Result<
        (),
        RoomStateError,
    >)
        requires
            old(self).wf(),
        ensures
            final(self).wf(),
            res == if !old(self)@.dom().contains(name@) {
                Err::<(), RoomStateError>(RoomStateError::NotCached)
            } else if spawner_index >= old(self)@[name@].spawners.len() {
                Err::<(), RoomStateError>(RoomStateError::NoSuchSpawner)
            } else {
                Ok::<(), RoomStateError>(())
            },
            res is Err ==> final(self)@ == old(self)@,
            res is Ok ==> final(self)@ == old(self)@.insert(
                name@,
                old(self)@[name@].with_inactive(spawner_index as int),
            ),
    {
        let slot: usize = match self.index.get(name) {
            Some(slot) => slot,
            None => {
                return Err(RoomStateError::NotCached);
            },
        };
        if spawner_index >= self.states[slot].spawners.len() {
            return Err(RoomStateError::NoSuchSpawner);
        }
        let ghost before = *self;
        self.states[slot].spawners[spawner_index].active = false;
        proof {
            let entries = name_index_entries(self.index);
            assert(self.states[slot as int]@ == before.states[slot as int]@.with_inactive(
                spawner_index as int,
            ));
            assert(self@ =~= before@.insert(
                name@,
                before@[name@].with_inactive(spawner_index as int),
            )) by {
                assert forall|other: Seq<char>| #[trigger] self@.dom().contains(other) implies self@[other]
                    == before@.insert(name@, before@[name@].with_inactive(spawner_index as int))[other] by {
                    if other != name@ {
                        assert(entries[other] != slot);
                    }
                }
            }
        }
        Ok(())
    }

    /// Whether the spawner at `spawner_index` in the room `name` is still
    /// active; nothing where the room has no layout or the layout no such
    /// spawner.
    pub fn is_spawner_active(&self, name: &str, spawner_index: usize) -> (active: Option<bool>)
        requires
            self.wf(),
        ensures
            active == if self@.dom().contains(name@) && spawner_index < self@[name@].spawners.len() {
                Some(self@[name@].spawners[spawner_index as int].active)
            } else {
                None
            },
    {
        match self.index.get(name) {
            Some(slot) => {
                if spawner_index < self.states[slot].spawners.len() {
                    Some(self.states[slot].spawners[spawner_index].active)
                } else {
                    None
                }
            },
            None => None,
        }
    }

    /// Forgets every layout: the next visit of any room lays it out afresh.
    pub fn clear(&mut self)
        ensures
            final(self).wf(),
            final(self)@ == Map::<Seq<char>, RoomStateView>::empty(),
    {
        self.index.clear();
        self.names.clear();
        self.states.clear();
        assert(self@ =~= Map::<Seq<char>, RoomStateView>::empty());
    }
}

/// The stats of a room's boss, as far as they have been loaded.
#[derive(Debug)]
pub enum BossAsset {
    /// The room names no boss.
    Absent,
    /// The room names a boss whose stats have not been loaded.
    Missing,
    /// The room's boss.
    Loaded(BossStats),
}

/// What has been loaded for a room besides what it is made of: the stats of
/// its enemies, where they are there.
#[derive(Debug)]
pub struct RoomAssets {
    pub melee_enemy_stats: Option<EnemyStats>,
    pub ranged_enemy_stats: Option<EnemyStats>,
    pub boss_stats: BossAsset,
}

/// A room of the registry.
#[derive(Debug)]
pub struct RoomEntry {
    pub info: RoomInfo,
    pub assets: RoomAssets,
}

/// Why the registry refused a room.
#[derive(Debug, Clone, Copy, PartialEq, Eq, Structural)]
pub enum RoomsError {
    /// The room's floor is no well-formed rectangle within the world limit,
    /// or it asks for more spawners than can be counted.
    InvalidRoom,
}

/// The registry of all rooms, by name. It is filled while the game loads
/// and only read afterwards.
pub struct Rooms {
    index: NameIndex,
    rooms: Vec<RoomEntry>,
}

impl View for Rooms {
    type V = Map<Seq<char>, RoomEntry>;

    closed spec fn view(&self) -> Map<Seq<char>, RoomEntry> {
        Map::new(
            |name: Seq<char>| name_index_entries(self.index).dom().contains(name),
            |name: Seq<char>| self.rooms[name_index_entries(self.index)[name] as int],
        )
    }
}

impl Rooms {
    /// Every name leads to the slot of the room of that name, every room is
    /// led to by its name, and every room is well-formed.
    pub closed spec fn wf(self) -> bool {
        let entries = name_index_entries(self.index);
        &&& forall|name: Seq<char>| #[trigger]
            entries.dom().contains(name) ==> entries[name] < self.rooms.len()
                && self.rooms[entries[name] as int].info.name@ == name
        &&& forall|slot: int|
            0 <= slot < self.rooms.len() ==> entries.dom().contains(
                #[trigger] self.rooms[slot].info.name@,
            ) && entries[self.rooms[slot].info.name@] == slot && self.rooms[slot].info.wf()
    }

    /// A registry without rooms.
    pub fn new() -> (rooms: Rooms)
        ensures
            rooms.wf(),
            rooms@ == Map::<Seq<char>, RoomEntry>::empty(),
    {
        let rooms = Rooms { index: NameIndex::new(), rooms: Vec::new() };
        assert(rooms@ =~= Map::<Seq<char>, RoomEntry>::empty());
        rooms
    }

    /// Files a room under its name; a room filed under that name before is
    /// replaced. A room that is not well-formed is refused.
    pub fn insert(&mut self, info: RoomInfo, assets: RoomAssets) -> (res: Result<(), RoomsError>)
        requires
            old(self).wf(),
        ensures
            final(self).wf(),
            res is Err <==> !info.wf(),
            res is Err ==> final(self)@ == old(self)@,
            res is Ok ==> final(self)@ == old(self)@.insert(info.name@, RoomEntry { info, assets }),
    {
        if !info.is_valid() {
            return Err(RoomsError::InvalidRoom);
        }
        let ghost before = *self;
        let ghost entry = RoomEntry { info, assets };
        let ghost old_entries = name_index_entries(before.index);
        match self.index.get(info.name.as_str()) {
            Some(slot) => {
                self.rooms[slot] = RoomEntry { info, assets };
                proof {
                    assert(self@ =~= before@.insert(entry.info.name@, entry)) by {
                        assert forall|other: Seq<char>| #[trigger]
                            self@.dom().contains(other) implies self@[other] == before@.insert(
                            entry.info.name@,
                            entry,
                        )[other] by {
                            if other != entry.info.name@ {
                                assert(old_entries[other] != slot);
                            }
                        }
                    }
                }
            },
            None => {
                let slot: usize = self.rooms.len();
                let name: String = info.name.clone();
                self.rooms.push(RoomEntry { info, assets });
                self.index.insert(name, slot);
                proof {
                    let entries = name_index_entries(self.index);
                    assert forall|other: Seq<char>| #[trigger]
                        entries.dom().contains(other) implies entries[other] < self.rooms.len()
                        && self.rooms[entries[other] as int].info.name@ == other by {
                        if other != entry.info.name@ {
                            assert(old_entries.dom().contains(other));
                        }
                    }
                    assert forall|k: int| 0 <= k < self.rooms.len() implies entries.dom().contains(
                        #[trigger] self.rooms[k].info.name@,
                    ) && entries[self.rooms[k].info.name@] == k && self.rooms[k].info.wf() by {
                        if k < slot {
                            assert(before.rooms[k] == self.rooms[k]);
                            assert(old_entries.dom().contains(before.rooms[k].info.name@));
                        }
                    }
                    assert(self@ =~= before@.insert(entry.info.name@, entry)) by {
                        assert forall|other: Seq<char>| #[trigger]
                            self@.dom().contains(other) implies self@[other] == before@.insert(
                            entry.info.name@,
                            entry,
                        )[other] by {
                            if other != entry.info.name@ {
                                assert(old_entries.dom().contains(other));
                            }
                        }
                    }
                }
            },
        }
        Ok(())
    }

    /// The room of that name, if the registry has one.
    pub fn get(&self, name: &str) -> (room: Option<&RoomEntry>)
        requires
            self.wf(),
        ensures
            room is Some <==> self@.dom().contains(name@),
            room matches Some(found) ==> *found == self@[name@] && found.info.name@ == name@
                && found.info.wf(),
    {
        match self.index.get(name) {
            Some(slot) => {
                assert(name_index_entries(self.index).dom().contains(self.rooms[slot as int].info.name@));
                Some(&self.rooms[slot])
            },
            None => None,
        }
    }
}

/// A way out of a room: the name of the room behind a wall, and the side
/// of that wall.
pub ghost struct WallExit {
    pub next_room_name: Seq<char>,
    pub side: CardinalDirection,
}

/// The way out that `collision` takes from the room `info`: the contact has
/// begun, the player takes part in it, so does a wall, and that wall leads
/// somewhere.
pub open spec fn exit_taken(collision: CollisionEvent, info: RoomInfo) -> Option<WallExit> {
    if collision.started && collision.spec_find(EntityKind::Player) is Some && collision.spec_wall() is Some
        && info.spec_link(collision.spec_wall()->0) is Some {
        Some(
            WallExit {
                next_room_name: info.spec_link(collision.spec_wall()->0)->0@,
                side: collision.spec_wall()->0,
            },
        )
    } else {
        None
    }
}

/// Looks through the tick's collisions for the player walking into a wall
/// that leads to another room. The first such collision asks for a change
/// to that room, which the player enters from the side that faces the wall;
/// later ones are not looked at, so that one tick never asks for two rooms.
pub fn detect_wall_collisions(collisions: &Vec<CollisionEvent>, current_room: &CurrentRoom) -> (request:
    Option<ChangeRoom>)
    ensures
        match request {
            Some(change) => exists|i: int|
                {
                    &&& 0 <= i < collisions.len()
                    &&& #[trigger] exit_taken(collisions[i], current_room.info) is Some
                    &&& forall|j: int|
                        0 <= j < i ==> #[trigger] exit_taken(collisions[j], current_room.info) is None
                    &&& change.next_room_name@ == exit_taken(
                        collisions[i],
                        current_room.info,
                    )->0.next_room_name
                    &&& change.coming_from == Some(
                        exit_taken(collisions[i], current_room.info)->0.side.spec_opposite(),
                    )
                },
            None => forall|i: int|
                0 <= i < collisions.len() ==> #[trigger] exit_taken(collisions[i], current_room.info) is None,
        },
{
    let mut index: usize = 0;
    while index < collisions.len()
        invariant
            index <= collisions.len(),
            forall|j: int| 0 <= j < index ==> #[trigger] exit_taken(collisions[j], current_room.info) is None,
        decreases collisions.len() - index,
    {
        let collision: &CollisionEvent = &collisions[index];
        if collision.started && collision.find(EntityKind::Player).is_some() {
            match collision.wall() {
                Some(side) => {
                    match current_room.info.link(side) {
                        Some(next_room_name) => {
                            assert(exit_taken(collisions[index as int], current_room.info) is Some);
                            return Some(
                                ChangeRoom {
                                    next_room_name: next_room_name.clone(),
                                    coming_from: Some(side.opposite()),
                                },
                            );
                        },
                        None => {
                            // a wall that leads nowhere
                        },
                    }
                },
                None => {},
            }
        }
        index = index + 1;
    }
    None
}

/// One step of the change from one room to the next.
#[derive(Debug, Clone, Copy, PartialEq, Eq, Structural)]
pub enum TransitionStep {
    /// Everything that belongs to the old room is removed.
    DestroyRoom,
    /// The player is removed.
    DestroyPlayer,
    /// The camera is removed.
    DestroyCamera,
    /// The floor, the walls, the spawners and the obstacles are set up.
    SpawnRoom,
    /// The player is set up at the place of entry.
    SpawnPlayer,
    /// The camera is set up.
    SpawnCamera,
    /// The enemies of the active spawners are set up.
    SpawnEnemies,
}

/// What the change of rooms goes on with.
#[derive(Debug, Clone, Copy, PartialEq, Eq, Structural)]
pub enum Transition {
    /// This step is to be taken.
    Step(TransitionStep),
    /// All steps have been taken: the game goes on in that state.
    Done(GameState),
}

impl TransitionStep {
    /// Place of the step in the change of rooms, from zero.
    pub open spec fn rank(self) -> nat {
        match self {
            TransitionStep::DestroyRoom => 0,
            TransitionStep::DestroyPlayer => 1,
            TransitionStep::DestroyCamera => 2,
            TransitionStep::SpawnRoom => 3,
            TransitionStep::SpawnPlayer => 4,
            TransitionStep::SpawnCamera => 5,
            TransitionStep::SpawnEnemies => 6,
        }
    }

    /// Whether the step removes something.
    pub open spec fn tears_down(self) -> bool {
        self is DestroyRoom || self is DestroyPlayer || self is DestroyCamera
    }
}

/// What follows in the change of rooms once `done` has been taken, or at
/// its start where nothing has been taken yet.
pub open spec fn transition_after(done: Option<TransitionStep>) -> Transition {
    match done {
        None => Transition::Step(TransitionStep::DestroyRoom),
        Some(TransitionStep::DestroyRoom) => Transition::Step(TransitionStep::DestroyPlayer),
        Some(TransitionStep::DestroyPlayer) => Transition::Step(TransitionStep::DestroyCamera),
        Some(TransitionStep::DestroyCamera) => Transition::Step(TransitionStep::SpawnRoom),
        Some(TransitionStep::SpawnRoom) => Transition::Step(TransitionStep::SpawnPlayer),
        Some(TransitionStep::SpawnPlayer) => Transition::Step(TransitionStep::SpawnCamera),
        Some(TransitionStep::SpawnCamera) => Transition::Step(TransitionStep::SpawnEnemies),
        Some(TransitionStep::SpawnEnemies) => Transition::Done(GameState::InGame),
    }
}

/// Leads through the change of rooms, step by step: first the old room, the
/// player and the camera go, then the new room, the player, the camera and
/// the enemies come, and then the game is on again.
pub fn next_transition_step(done: Option<TransitionStep>) -> (next: Transition)
    ensures
        next == transition_after(done),
{
    match done {
        None => Transition::Step(TransitionStep::DestroyRoom),
        Some(TransitionStep::DestroyRoom) => Transition::Step(TransitionStep::DestroyPlayer),
        Some(TransitionStep::DestroyPlayer) => Transition::Step(TransitionStep::DestroyCamera),
        Some(TransitionStep::DestroyCamera) => Transition::Step(TransitionStep::SpawnRoom),
        Some(TransitionStep::SpawnRoom) => Transition::Step(TransitionStep::SpawnPlayer),
        Some(TransitionStep::SpawnPlayer) => Transition::Step(TransitionStep::SpawnCamera),
        Some(TransitionStep::SpawnCamera) => Transition::Step(TransitionStep::SpawnEnemies),
        Some(TransitionStep::SpawnEnemies) => Transition::Done(GameState::InGame),
    }
}

/// The change of rooms takes its steps in the order of their rank, leaves
/// none out, and sets nothing up before everything has been torn down.
pub proof fn lemma_transition_in_order(done: TransitionStep, other: TransitionStep)
    ensures
        transition_after(None) == Transition::Step(TransitionStep::DestroyRoom),
        match transition_after(Some(done)) {
            Transition::Step(next) => next.rank() == done.rank() + 1,
            Transition::Done(state) => done.rank() == 6 && state == GameState::InGame,
        },
        done.tears_down() && !other.tears_down() ==> done.rank() < other.rank(),
{
}

} // verus!
