//! The request to change rooms, and how it is answered.

use vstd::prelude::*;

use crate::enemy::BossStats;
use crate::geometry::{Point, Rect};
use crate::player::PlayerSpawnPosition;
use crate::room::{BossAsset, CardinalDirection, CurrentRoom, RoomEntry, Rooms};
use crate::states::GameState;

verus! {

/// How far from the wall the player appears after walking through an exit.
pub const DISTANCE_FROM_EXIT: i32 = 50;

/// A request to go to another room.
#[derive(Debug)]
pub struct ChangeRoom {
    /// Which room to go to.
    pub next_room_name: String,
    /// The side of the new room that the player enters from; none to
    /// appear in the middle.
    pub coming_from: Option<CardinalDirection>,
}

impl Default for ChangeRoom {
    fn default() -> (request: ChangeRoom)
        ensures
            request.next_room_name@ == Seq::<char>::empty(),
            request.coming_from is None,
    {
        ChangeRoom { next_room_name: String::new(), coming_from: None }
    }
}

/// Why a room could not be entered. Each of these is a fault of the game's
/// content and ends the game.
#[derive(Debug, Clone, Copy, PartialEq, Eq, Structural)]
pub enum ChangeRoomError {
    /// The registry has no room of that name.
    RoomNotLoaded,
    /// The stats of the room's melee enemies have not been loaded.
    MissingMeleeStats,
    /// The stats of the room's ranged enemies have not been loaded.
    MissingRangedStats,
    /// The room names a boss whose stats have not been loaded.
    MissingBossStats,
}

/// What entering a room brings about.
#[derive(Debug)]
pub struct RoomChange {
    /// The room that is entered.
    pub current_room: CurrentRoom,
    /// Where the player appears in it.
    pub spawn_position: PlayerSpawnPosition,
    /// The state in which the old room is torn down and the new one set up.
    pub next_state: GameState,
}

/// Where the player appears in a room with the floor `floor`: in the
/// middle, or, when entering from a side, moved from the middle towards
/// that side by the half size less the distance from the exit.
pub open spec fn entry_position(floor: Rect, coming_from: Option<CardinalDirection>) -> Point {
    let center = floor.spec_center();
    let half = floor.spec_half_size();
    match coming_from {
        None => center,
        Some(CardinalDirection::North) => Point {
            x: center.x,
            y: (center.y + (half.y - DISTANCE_FROM_EXIT)) as i32,
        },
        Some(CardinalDirection::South) => Point {
            x: center.x,
            y: (center.y - (half.y - DISTANCE_FROM_EXIT)) as i32,
        },
        Some(CardinalDirection::East) => Point {
            x: (center.x + (half.x - DISTANCE_FROM_EXIT)) as i32,
            y: center.y,
        },
        Some(CardinalDirection::West) => Point {
            x: (center.x - (half.x - DISTANCE_FROM_EXIT)) as i32,
            y: center.y,
        },
    }
}

/// Where the player appears in a room with the floor `floor`.
pub fn player_entry(floor: &Rect, coming_from: Option<CardinalDirection>) -> (pos: Point)
    requires
        floor.wf(),
    ensures
        pos == entry_position(*floor, coming_from),
{
    let center: Point = floor.center();
    let half: Point = floor.half_size();
    match coming_from {
        None => center,
        Some(CardinalDirection::North) => Point {
            x: center.x,
            y: center.y + (half.y - DISTANCE_FROM_EXIT),
        },
        Some(CardinalDirection::South) => Point {
            x: center.x,
            y: center.y - (half.y - DISTANCE_FROM_EXIT),
        },
        Some(CardinalDirection::East) => Point {
            x: center.x + (half.x - DISTANCE_FROM_EXIT),
            y: center.y,
        },
        Some(CardinalDirection::West) => Point {
            x: center.x - (half.x - DISTANCE_FROM_EXIT),
            y: center.y,
        },
    }
}

/// What is wrong with entering `room`, if anything is.
pub open spec fn entry_fault(room: RoomEntry) -> Option<ChangeRoomError> {
    if room.assets.melee_enemy_stats is None {
        Some(ChangeRoomError::MissingMeleeStats)
    } else if room.assets.ranged_enemy_stats is None {
        Some(ChangeRoomError::MissingRangedStats)
    } else if room.assets.boss_stats is Missing {
        Some(ChangeRoomError::MissingBossStats)
    } else {
        None
    }
}

/// The boss of `room`, where its stats name one.
pub open spec fn boss_of(room: RoomEntry) -> Option<BossStats> {
    match room.assets.boss_stats {
        BossAsset::Loaded(boss) => Some(boss),
        _ => None,
    }
}

/// Answers the tick's requests to change rooms. Only the first request is
/// answered; the rest are dropped. The room asked for is looked up in the
/// registry together with the stats of its enemies and of its boss, if it
/// has one. Where all are there, the room becomes the room to enter, the
/// player's place of entry is fixed, and the game goes on to the room
/// transition.
pub fn handle_change_room(events: &Vec<ChangeRoom>, rooms: &Rooms) -> (res: Result<
    Option<RoomChange>,
    ChangeRoomError,
>)
    requires
        rooms.wf(),
    ensures
        events.len() == 0 ==> res matches Ok(None),
        events.len() > 0 && !rooms@.dom().contains(events[0].next_room_name@) ==> res == Err::<
            Option<RoomChange>,
            ChangeRoomError,
        >(ChangeRoomError::RoomNotLoaded),
        events.len() > 0 && rooms@.dom().contains(events[0].next_room_name@) ==> {
            let room = rooms@[events[0].next_room_name@];
            match entry_fault(room) {
                Some(fault) => res == Err::<Option<RoomChange>, ChangeRoomError>(fault),
                None => {
                    &&& res matches Ok(Some(change))
                    &&& res->Ok_0->0.current_room.info == room.info
                    &&& res->Ok_0->0.current_room.info.wf()
                    &&& Some(res->Ok_0->0.current_room.melee_enemy_stats)
                        == room.assets.melee_enemy_stats
                    &&& Some(res->Ok_0->0.current_room.ranged_enemy_stats)
                        == room.assets.ranged_enemy_stats
                    &&& res->Ok_0->0.current_room.boss_stats == boss_of(room)
                    &&& res->Ok_0->0.spawn_position.pos == entry_position(
                        room.info.rect,
                        events[0].coming_from,
                    )
                    &&& res->Ok_0->0.next_state == GameState::RoomTransition
                },
            }
        },
{
    // only the first request of a tick is answered
    if events.len() == 0 {
        return Ok(None);
    }
    let request: &ChangeRoom = &events[0];
    let room: &RoomEntry = match rooms.get(request.next_room_name.as_str()) {
        Some(room) => room,
        None => {
            return Err(ChangeRoomError::RoomNotLoaded);
        },
    };
    let melee_enemy_stats = match room.assets.melee_enemy_stats {
        Some(stats) => stats,
        None => {
            return Err(ChangeRoomError::MissingMeleeStats);
        },
    };
    let ranged_enemy_stats = match room.assets.ranged_enemy_stats {
        Some(stats) => stats,
        None => {
            return Err(ChangeRoomError::MissingRangedStats);
        },
    };
    let boss_stats: Option<BossStats> = match &room.assets.boss_stats {
        BossAsset::Absent => None,
        BossAsset::Missing => {
            return Err(ChangeRoomError::MissingBossStats);
        },
        BossAsset::Loaded(boss) => Some(boss.duplicate()),
    };
    let pos: Point = player_entry(&room.info.rect, request.coming_from);
    Ok(
        Some(
            RoomChange {
                current_room: CurrentRoom {
                    info: room.info.duplicate(),
                    melee_enemy_stats,
                    ranged_enemy_stats,
                    boss_stats,
                },
                spawn_position: PlayerSpawnPosition { pos },
                next_state: GameState::RoomTransition,
            },
        ),
    )
}

} // verus!
