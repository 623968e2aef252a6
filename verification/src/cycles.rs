//! The cycle: one run from the first room to the player's death or victory.

use vstd::prelude::*;

use crate::audio::Muted;
use crate::player::{starting_health, PlayerHealth};
use crate::room::{ChangeRoom, PersistentRoomState, RoomStateView};
use crate::save_data::SaveData;
use crate::skills::player_skills::max_health_at;
use crate::skills::{PlayerSkills, Skill, SkillUnlockedEvent};
use crate::states::GameState;

verus! {

/// How many cycles have ended.
#[derive(Debug, Clone, Copy, PartialEq, Eq, Structural)]
pub struct CycleCounter {
    pub count: u64,
}

impl Default for CycleCounter {
    fn default() -> (counter: CycleCounter)
        ensures
            counter.count == 0,
    {
        CycleCounter { count: 0 }
    }
}

/// Name of the room in which every cycle starts.
pub open spec fn starting_room() -> Seq<char> {
    "Lovely Cottage"@
}

/// The live state to start the game with: what the save describes, or
/// nothing where there is no save or where the player has asked for a new
/// game, in which case the save is left aside.
pub fn start_game(save_data: Option<&SaveData>, new_game: bool) -> (resources: Option<
    (PlayerSkills, CycleCounter, Muted),
>)
    ensures
        resources is Some <==> save_data is Some && !new_game,
        resources matches Some(loaded) ==> {
            &&& loaded.0.wf()
            &&& loaded.0.is_loaded_from(*save_data->0)
            &&& loaded.1.count == save_data->0.cycles
            &&& loaded.2.muted == save_data->0.audio_muted
        },
{
    match save_data {
        None => None,
        Some(save_data) => {
            if new_game {
                None
            } else {
                Some(save_data.to_resources())
            }
        },
    }
}

/// What starts a cycle: the armor skill is unlocked, whatever the ledger
/// said of it, and the player is sent to the middle of the starting room.
pub fn start_cycle() -> (start: (SkillUnlockedEvent, ChangeRoom))
    ensures
        start.0.skill == Skill::Armor,
        start.1.next_room_name@ == starting_room(),
        start.1.coming_from is None,
{
    (
        SkillUnlockedEvent { skill: Skill::Armor },
        ChangeRoom { next_room_name: "Lovely Cottage".to_owned(), coming_from: None },
    )
}

/// The state that a cycle starts from.
pub struct GlobalState {
    pub cycle_counter: CycleCounter,
    pub player_health: PlayerHealth,
    pub player_skills: PlayerSkills,
    pub persistent_room_state: PersistentRoomState,
}

/// Resets the state between two cycles, and sets up what is not there yet.
/// The cycle counter is kept, or starts at zero. The player gets full
/// health: the base health times the health multiplier of the skills, or
/// the base health where there are no skills yet. The skills have their
/// cycle ended, so that what the cycle earned is kept for good; where there
/// are none, a fresh ledger is set up. The layouts of the rooms are
/// forgotten, so that every room is laid out afresh in the new cycle.
pub fn reset_init_global_state(
    cycle_counter: Option<CycleCounter>,
    player_skills: Option<PlayerSkills>,
    persistent_room_state: Option<PersistentRoomState>,
) -> (state: GlobalState)
    requires
        player_skills matches Some(skills) ==> skills.wf(),
    ensures
        state.cycle_counter.count == match cycle_counter {
            Some(counter) => counter.count,
            None => 0,
        },
        state.player_health == match player_skills {
            Some(skills) => {
                let health = starting_health(max_health_at(skills.level(Skill::Pants)));
                PlayerHealth { current: health, maximum: health, dead: health <= 0 }
            },
            None => PlayerHealth {
                current: crate::player::BASE_HEALTH as i64,
                maximum: crate::player::BASE_HEALTH as i64,
                dead: false,
            },
        },
        state.player_skills.wf(),
        match player_skills {
            Some(skills) => state.player_skills.is_cycle_end_of(skills),
            None => state.player_skills.is_fresh(),
        },
        state.persistent_room_state.wf(),
        state.persistent_room_state@ == Map::<Seq<char>, RoomStateView>::empty(),
{
    let cycle_counter: CycleCounter = match cycle_counter {
        Some(counter) => counter,
        None => CycleCounter::default(),
    };
    let player_health: PlayerHealth = match &player_skills {
        Some(skills) => PlayerHealth::for_multiplier(skills.max_health()),
        None => PlayerHealth::default(),
    };
    // what the cycle earned is kept for good
    let player_skills: PlayerSkills = match player_skills {
        Some(skills) => {
            let mut skills: PlayerSkills = skills;
            skills.end_cycle();
            skills
        },
        None => PlayerSkills::default(),
    };
    // the rooms forget their layouts
    let persistent_room_state: PersistentRoomState = match persistent_room_state {
        Some(cache) => {
            let mut cache: PersistentRoomState = cache;
            cache.clear();
            cache
        },
        None => PersistentRoomState::new(),
    };
    GlobalState { cycle_counter, player_health, player_skills, persistent_room_state }
}

/// One step of what happens between two cycles.
#[derive(Debug, Clone, Copy, PartialEq, Eq, Structural)]
pub enum RestartStep {
    /// The skills' cycle is ended, the layouts are forgotten, the player's
    /// health is restored and the cycle counter is set up.
    Reset,
    /// The progress is saved.
    Save,
    /// The armor is unlocked and the player is sent to the starting room.
    StartCycle,
}

/// What follows between two cycles once `done` has been taken, or at the
/// start where nothing has been taken yet. After the last cycle, in the
/// outro, the progress is saved and nothing is started.
pub open spec fn restart_after(state: GameState, done: Option<RestartStep>) -> Option<RestartStep> {
    if state != GameState::RestartCycle && state != GameState::Outro {
        None
    } else {
        match done {
            None => Some(RestartStep::Reset),
            Some(RestartStep::Reset) => Some(RestartStep::Save),
            Some(RestartStep::Save) => if state == GameState::RestartCycle {
                Some(RestartStep::StartCycle)
            } else {
                None
            },
            Some(RestartStep::StartCycle) => None,
        }
    }
}

/// Leads through what happens when the game enters `state`: on the restart
/// of the cycle the state is reset, then saved, then the new cycle starts;
/// in the outro the state is reset and saved. What the cycle earned is thus
/// folded in before it is saved, and saved before a room is entered.
pub fn next_restart_step(state: GameState, done: Option<RestartStep>) -> (next: Option<RestartStep>)
    ensures
        next == restart_after(state, done),
{
    match state {
        GameState::RestartCycle => match done {
            None => Some(RestartStep::Reset),
            Some(RestartStep::Reset) => Some(RestartStep::Save),
            Some(RestartStep::Save) => Some(RestartStep::StartCycle),
            Some(RestartStep::StartCycle) => None,
        },
        GameState::Outro => match done {
            None => Some(RestartStep::Reset),
            Some(RestartStep::Reset) => Some(RestartStep::Save),
            Some(RestartStep::Save) => None,
            Some(RestartStep::StartCycle) => None,
        },
        _ => None,
    }
}

} // verus!
