//! Loading the rooms, one after the other.

use vstd::prelude::*;

use crate::room::{RoomEntry, Rooms, RoomsError};
use crate::states::{AppState, GameState};

verus! {

/// Where the loading of the rooms stands.
#[derive(Debug)]
pub enum LoadingState {
    /// Loading has not begun.
    Idle,
    /// A room has been loaded, or none yet; the next one is to be picked.
    Waiting,
    /// The room file of that name is being loaded.
    Loading(String),
    /// Every room has been loaded.
    AllFinished,
    /// A room could not be loaded.
    Failed,
}

/// The room files that are still to be loaded; the last one is next.
#[derive(Debug)]
pub struct RoomsToLoad {
    pub rooms: Vec<String>,
}

/// The state in which the loading of the rooms begins.
pub fn start_loading_rooms() -> (state: LoadingState)
    ensures
        state is Waiting,
{
    LoadingState::Waiting
}

/// The states that the application and the game enter once every room has
/// been loaded.
pub fn on_finish() -> (states: (AppState, GameState))
    ensures
        states.0 == AppState::InMenu,
        states.1 == GameState::MainMenu,
{
    (AppState::InMenu, GameState::MainMenu)
}

/// The exit code with which the application ends when a room could not be
/// loaded.
pub fn on_fail() -> (code: u8)
    ensures
        code == 1,
{
    1
}

/// Files the room that has just been loaded, if there is one, and picks the
/// next room file: the last of those that are left, which is taken off the
/// list. When none is left, loading is finished. A room that is not
/// well-formed ends loading in failure.
pub fn queue_next_room(
    rooms: &mut Rooms,
    rooms_to_load: &mut RoomsToLoad,
    loaded: Option<RoomEntry>,
) -> (state: LoadingState)
    requires
        old(rooms).wf(),
    ensures
        final(rooms).wf(),
        match loaded {
            Some(room) => if room.info.wf() {
                final(rooms)@ == old(rooms)@.insert(room.info.name@, room)
            } else {
                final(rooms)@ == old(rooms)@ && state is Failed
            },
            None => final(rooms)@ == old(rooms)@,
        },
        !(state is Failed) ==> {
            if old(rooms_to_load).rooms.len() == 0 {
                &&& state is AllFinished
                &&& final(rooms_to_load).rooms@ == old(rooms_to_load).rooms@
            } else {
                &&& state is Loading
                &&& state->Loading_0 == old(rooms_to_load).rooms@.last()
                &&& final(rooms_to_load).rooms@ == old(rooms_to_load).rooms@.drop_last()
            }
        },
        state is Failed ==> {
            &&& final(rooms_to_load).rooms@ == old(rooms_to_load).rooms@
            &&& loaded is Some
            &&& !loaded->0.info.wf()
        },
{
    match loaded {
        Some(room) => {
            match rooms.insert(room.info, room.assets) {
                Ok(()) => {},
                Err(RoomsError::InvalidRoom) => {
                    return LoadingState::Failed;
                },
            }
        },
        None => {},
    }
    match rooms_to_load.rooms.pop() {
        Some(next) => LoadingState::Loading(next),
        None => LoadingState::AllFinished,
    }
}

} // verus!
