//! The states that the application, the game and its menus can be in.

use vstd::prelude::*;

verus! {

/// What the application as a whole is doing.
#[derive(Debug, Default, Hash, Clone, Copy, PartialEq, Eq, Structural)]
pub enum AppState {
    #[default]
    CoreLoading,
    RoomLoading,
    InMenu,
    AppRunning,
    AppClosing,
}

/// What the game is doing.
#[derive(Debug, Default, Hash, Clone, Copy, PartialEq, Eq, Structural)]
pub enum GameState {
    /// No game is under way.
    #[default]
    Inactive,
    MainMenu,
    InGame,
    RoomTransition,
    RestartCycle,
    Intro,
    Outro,
}

/// Which menu lies over the game.
#[derive(Debug, Default, Hash, Clone, Copy, PartialEq, Eq, Structural)]
pub enum MenuState {
    /// No menu is open.
    #[default]
    Closed,
    SkillsMenu,
}

impl GameState {
    /// The state that the game enters once the application is running.
    pub fn app_running() -> (state: GameState)
        ensures
            state == GameState::InGame,
    {
        GameState::InGame
    }
}

impl MenuState {
    /// The state after the key of the skills menu has been pressed or let
    /// go: the menu is open for as long as the key is held.
    pub fn open_close_skills_menu(self, pressed: bool, released: bool) -> (next: MenuState)
        ensures
            next == match self {
                MenuState::Closed => if pressed {
                    MenuState::SkillsMenu
                } else {
                    MenuState::Closed
                },
                MenuState::SkillsMenu => if released {
                    MenuState::Closed
                } else {
                    MenuState::SkillsMenu
                },
            },
    {
        match self {
            MenuState::Closed => if pressed {
                MenuState::SkillsMenu
            } else {
                MenuState::Closed
            },
            MenuState::SkillsMenu => if released {
                MenuState::Closed
            } else {
                MenuState::SkillsMenu
            },
        }
    }
}

} // verus!
