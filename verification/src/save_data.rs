//! The flat record that a save keeps, and how it is taken from and turned
//! back into the live game state.

use vstd::prelude::*;

use crate::audio::Muted;
use crate::cycles::CycleCounter;
use crate::skills::{PlayerSkills, Skill};

verus! {

/// What is written to the save slot: for each skill the stored level, the
/// stored experience in millionths of a point and the unlock flag, then the
/// number of cycles played and the mute switch.
#[derive(Debug, Clone, Copy, PartialEq, Eq, Structural)]
pub struct SaveData {
    pub audio_muted: bool,
    pub cycles: u64,
    pub armor_level: u64,
    pub armor_xp: u64,
    pub armor_unlocked: bool,
    pub sword_level: u64,
    pub sword_xp: u64,
    pub sword_unlocked: bool,
    pub shield_level: u64,
    pub shield_xp: u64,
    pub shield_unlocked: bool,
    pub pants_level: u64,
    pub pants_xp: u64,
    pub pants_unlocked: bool,
    pub mirror_level: u64,
    pub mirror_xp: u64,
    pub mirror_unlocked: bool,
    pub healing_level: u64,
    pub healing_xp: u64,
    pub healing_unlocked: bool,
    pub speed_level: u64,
    pub speed_xp: u64,
    pub speed_unlocked: bool,
}

/// What the save slot held when it was read.
#[derive(Debug, Clone, Copy, PartialEq, Eq, Structural)]
pub enum SlotRead {
    /// Nothing has been saved yet.
    NotFound,
    /// The slot is there but could not be read.
    Unreadable,
    /// The slot gave its text.
    Found,
}

/// How loading ended. Only `Loaded` carries a save; every other outcome
/// lets the game go on without one.
#[derive(Debug, Clone, Copy, PartialEq, Eq, Structural)]
pub enum LoadOutcome {
    /// The slot held a record that could be read and understood.
    Loaded(SaveData),
    /// There is no save: the ordinary state of a first start.
    NoSaveFound,
    /// The slot could not be read.
    ReadFailed,
    /// The slot was read but its text is no save record.
    ParseFailed,
}

impl LoadOutcome {
    /// The save that was loaded, if one was.
    pub fn save_data(self) -> (save: Option<SaveData>)
        ensures
            save == match self {
                LoadOutcome::Loaded(data) => Some(data),
                _ => None,
            },
    {
        match self {
            LoadOutcome::Loaded(data) => Some(data),
            _ => None,
        }
    }
}

/// Decides how loading ended from what the slot said and, where it gave its
/// text, from what parsing that text gave.
pub fn load_data(slot: SlotRead, parsed: Option<SaveData>) -> (outcome: LoadOutcome)
    ensures
        outcome == match slot {
            SlotRead::NotFound => LoadOutcome::NoSaveFound,
            SlotRead::Unreadable => LoadOutcome::ReadFailed,
            SlotRead::Found => match parsed {
                Some(data) => LoadOutcome::Loaded(data),
                None => LoadOutcome::ParseFailed,
            },
        },
{
    match slot {
        SlotRead::NotFound => LoadOutcome::NoSaveFound,
        SlotRead::Unreadable => LoadOutcome::ReadFailed,
        SlotRead::Found => match parsed {
            Some(data) => LoadOutcome::Loaded(data),
            None => LoadOutcome::ParseFailed,
        },
    }
}

impl SaveData {
    /// The record of the live state: what the ledger has stored for each
    /// skill, the cycle count and the mute switch. What the running cycle
    /// has earned is not recorded; end the cycle first to keep it.
    pub fn from_resources(
        player_skills: &PlayerSkills,
        cycle_counter: &CycleCounter,
        muted: &Muted,
    ) -> (save: SaveData)
        ensures
            save.audio_muted == muted.muted,
            save.cycles == cycle_counter.count,
            forall|skill: Skill|
                #![trigger PlayerSkills::saved_level(save, skill)]
                #![trigger PlayerSkills::saved_xp(save, skill)]
                #![trigger PlayerSkills::saved_unlocked(save, skill)]
                {
                    &&& PlayerSkills::saved_level(save, skill) == player_skills.stored_level(skill)
                    &&& PlayerSkills::saved_xp(save, skill) == player_skills.stored_xp_of(skill)
                    &&& PlayerSkills::saved_unlocked(save, skill) == player_skills.is_unlocked(
                        skill,
                    )
                },
    {
        SaveData {
            audio_muted: muted.muted,
            cycles: cycle_counter.count,
            armor_level: player_skills.get_highest(Skill::Armor),
            armor_xp: player_skills.get_stored_xp(Skill::Armor),
            armor_unlocked: player_skills.get_unlocked(Skill::Armor),
            sword_level: player_skills.get_highest(Skill::Sword),
            sword_xp: player_skills.get_stored_xp(Skill::Sword),
            sword_unlocked: player_skills.get_unlocked(Skill::Sword),
            shield_level: player_skills.get_highest(Skill::Shield),
            shield_xp: player_skills.get_stored_xp(Skill::Shield),
            shield_unlocked: player_skills.get_unlocked(Skill::Shield),
            pants_level: player_skills.get_highest(Skill::Pants),
            pants_xp: player_skills.get_stored_xp(Skill::Pants),
            pants_unlocked: player_skills.get_unlocked(Skill::Pants),
            mirror_level: player_skills.get_highest(Skill::Mirror),
            mirror_xp: player_skills.get_stored_xp(Skill::Mirror),
            mirror_unlocked: player_skills.get_unlocked(Skill::Mirror),
            healing_level: player_skills.get_highest(Skill::Healing),
            healing_xp: player_skills.get_stored_xp(Skill::Healing),
            healing_unlocked: player_skills.get_unlocked(Skill::Healing),
            speed_level: player_skills.get_highest(Skill::Speed),
            speed_xp: player_skills.get_stored_xp(Skill::Speed),
            speed_unlocked: player_skills.get_unlocked(Skill::Speed),
        }
    }

    /// The live state that the record describes: the ledger with the
    /// record's levels, experience and flags as stored, the cycle count and
    /// the mute switch.
    pub fn to_resources(&self) -> (resources: (PlayerSkills, CycleCounter, Muted))
        ensures
            resources.0.wf(),
            resources.0.is_loaded_from(*self),
            resources.1.count == self.cycles,
            resources.2.muted == self.audio_muted,
    {
        (
            PlayerSkills::from_save_data(self),
            CycleCounter { count: self.cycles },
            Muted { muted: self.audio_muted },
        )
    }

    /// A record that is taken from the live state and loaded again gives
    /// the same cycle count and mute switch, and a ledger with the same
    /// stored levels, stored experience and unlock flags and with nothing
    /// in its running cycle: the same ledger, where the running cycle of the
    /// first was empty.
    pub proof fn lemma_round_trip(
        self,
        skills: PlayerSkills,
        cycle_counter: CycleCounter,
        muted: Muted,
        loaded: PlayerSkills,
        loaded_counter: CycleCounter,
        loaded_muted: Muted,
    )
        requires
            self.audio_muted == muted.muted,
            self.cycles == cycle_counter.count,
            loaded_counter.count == self.cycles,
            loaded_muted.muted == self.audio_muted,
            forall|skill: Skill|
                #![trigger PlayerSkills::saved_level(self, skill)]
                {
                    &&& PlayerSkills::saved_level(self, skill) == skills.stored_level(skill)
                    &&& PlayerSkills::saved_xp(self, skill) == skills.stored_xp_of(skill)
                    &&& PlayerSkills::saved_unlocked(self, skill) == skills.is_unlocked(skill)
                },
            loaded.is_loaded_from(self),
        ensures
            loaded_counter == cycle_counter,
            loaded_muted == muted,
            forall|skill: Skill|
                #![trigger loaded.stored_level(skill)]
                #![trigger loaded.stored_xp_of(skill)]
                #![trigger loaded.is_unlocked(skill)]
                #![trigger loaded.delta_level(skill)]
                #![trigger loaded.delta_xp_of(skill)]
                {
                    &&& loaded.stored_level(skill) == skills.stored_level(skill)
                    &&& loaded.stored_xp_of(skill) == skills.stored_xp_of(skill)
                    &&& loaded.is_unlocked(skill) == skills.is_unlocked(skill)
                    &&& loaded.delta_level(skill) == 0
                    &&& loaded.delta_xp_of(skill) == 0
                },
            (forall|skill: Skill|
                #![trigger skills.delta_level(skill)]
                #![trigger skills.delta_xp_of(skill)]
                #![trigger skills.pending_levelups(skill)]
                skills.delta_level(skill) == 0 && skills.delta_xp_of(skill) == 0
                    && skills.pending_levelups(skill) == 0) ==> loaded == skills,
    {
        assert forall|skill: Skill|
            #![trigger loaded.stored_level(skill)]
            #![trigger loaded.stored_xp_of(skill)]
            #![trigger loaded.is_unlocked(skill)]
            #![trigger loaded.delta_level(skill)]
            #![trigger loaded.delta_xp_of(skill)]
            {
                &&& loaded.stored_level(skill) == skills.stored_level(skill)
                &&& loaded.stored_xp_of(skill) == skills.stored_xp_of(skill)
                &&& loaded.is_unlocked(skill) == skills.is_unlocked(skill)
                &&& loaded.delta_level(skill) == 0
                &&& loaded.delta_xp_of(skill) == 0
            } by {
            assert(loaded.skill_loaded(self, skill));
            assert(PlayerSkills::saved_level(self, skill) == skills.stored_level(skill));
        }
        if forall|skill: Skill|
            #![trigger skills.delta_level(skill)]
            #![trigger skills.delta_xp_of(skill)]
            #![trigger skills.pending_levelups(skill)]
            skills.delta_level(skill) == 0 && skills.delta_xp_of(skill) == 0
                && skills.pending_levelups(skill) == 0 {
            assert forall|skill: Skill| #[trigger] loaded.same_skill(skills, skill) by {
                assert(loaded.skill_loaded(self, skill));
                assert(PlayerSkills::saved_level(self, skill) == skills.stored_level(skill));
                assert(skills.delta_level(skill) == 0);
            }
            loaded.lemma_same_skills_equal(skills);
        }
    }
}

} // verus!
