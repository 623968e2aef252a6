//! The story pages that frame the game.

use vstd::prelude::*;

use crate::states::GameState;

verus! {

/// A story, page by page.
#[derive(Debug, Default)]
pub struct Story {
    pub pages: Vec<String>,
}

/// A story that is being read: the page that is shown, and the states that
/// lie before its first and after its last page.
#[derive(Debug)]
pub struct StoryState<S> {
    pub page: usize,
    pub story: Story,
    pub prev_state: Option<S>,
    pub next_state: S,
}

/// The player has asked for a new game: an existing save is left aside.
#[derive(Debug, Default, Clone, Copy, PartialEq, Eq, Structural)]
pub struct NewGame;

/// What turning a page leads to.
#[derive(Debug, PartialEq, Eq)]
pub enum PageTurn<S> {
    /// The story is left for that state.
    Leave(S),
    /// The page of that number is shown.
    Show(usize),
    /// Nothing changes.
    Stay,
}

impl<S: Copy> StoryState<S> {
    /// Turns to the next page; from the last page the story is left for
    /// the state that follows it.
    pub fn next_page(&mut self) -> (turn: PageTurn<S>)
        ensures
            final(self).story == old(self).story,
            final(self).prev_state == old(self).prev_state,
            final(self).next_state == old(self).next_state,
            old(self).page + 1 >= old(self).story.pages.len() ==> turn == PageTurn::Leave(
                old(self).next_state,
            ) && final(self).page == old(self).page,
            old(self).page + 1 < old(self).story.pages.len() ==> turn == PageTurn::<S>::Show(
                (old(self).page + 1) as usize,
            ) && final(self).page == old(self).page + 1,
    {
        if self.story.pages.len() == 0 || self.page >= self.story.pages.len() - 1 {
            PageTurn::Leave(self.next_state)
        } else {
            self.page = self.page + 1;
            PageTurn::Show(self.page)
        }
    }

    /// Turns to the page before; from the first page the story is left for
    /// the state that lies before it, if there is one.
    pub fn prev_page(&mut self) -> (turn: PageTurn<S>)
        ensures
            final(self).story == old(self).story,
            final(self).prev_state == old(self).prev_state,
            final(self).next_state == old(self).next_state,
            old(self).page == 0 ==> final(self).page == 0 && turn == match old(self).prev_state {
                Some(state) => PageTurn::Leave(state),
                None => PageTurn::Stay,
            },
            old(self).page > 0 ==> turn == PageTurn::<S>::Show((old(self).page - 1) as usize)
                && final(self).page == old(self).page - 1,
    {
        if self.page == 0 {
            match self.prev_state {
                Some(state) => PageTurn::Leave(state),
                None => PageTurn::Stay,
            }
        } else {
            self.page = self.page - 1;
            PageTurn::Show(self.page)
        }
    }
}

/// The state that the game enters when the player goes on with a saved
/// game.
pub fn continue_game() -> (state: GameState)
    ensures
        state == GameState::RestartCycle,
{
    GameState::RestartCycle
}

/// Starts a new game: the intro is read from its first page, between the
/// main menu and the start of the first cycle, and a save that exists is
/// left aside.
pub fn new_game(intro: Story) -> (start: (NewGame, StoryState<GameState>, GameState))
    ensures
        start.1.page == 0,
        start.1.story == intro,
        start.1.prev_state == Some(GameState::MainMenu),
        start.1.next_state == GameState::RestartCycle,
        start.2 == GameState::Intro,
{
    (
        NewGame,
        StoryState {
            page: 0,
            story: intro,
            prev_state: Some(GameState::MainMenu),
            next_state: GameState::RestartCycle,
        },
        GameState::Intro,
    )
}

/// Sets the outro up: it is read from its first page, there is no way back
/// from it, and it leads to the main menu.
pub fn setup_outro(outro: Story) -> (state: StoryState<GameState>)
    ensures
        state.page == 0,
        state.story == outro,
        state.prev_state is None,
        state.next_state == GameState::MainMenu,
{
    StoryState { page: 0, story: outro, prev_state: None, next_state: GameState::MainMenu }
}

/// What the pointer does to a button.
#[derive(Debug, Clone, Copy, PartialEq, Eq, Structural)]
pub enum Interaction {
    /// The button is held down.
    Pressed,
    /// The pointer rests on the button.
    Hovered,
    /// The pointer is elsewhere.
    Away,
}

/// How a button is drawn.
#[derive(Debug, Clone, Copy, PartialEq, Eq, Structural)]
pub enum ButtonLook {
    Base,
    Hovered,
    Pressed,
}

/// What a button does in one tick.
#[derive(Debug, Clone, Copy, PartialEq, Eq, Structural)]
pub struct ButtonStep {
    pub look: ButtonLook,
    /// Whether the button does what it is there for.
    pub fires: bool,
}

/// What a button does in one tick: it is drawn as the pointer treats it,
/// and it fires when it is let go while the pointer still rests on it.
pub fn button_step(previous: Option<Interaction>, interaction: Interaction) -> (step: ButtonStep)
    ensures
        step.look == match interaction {
            Interaction::Pressed => ButtonLook::Pressed,
            Interaction::Hovered => ButtonLook::Hovered,
            Interaction::Away => ButtonLook::Base,
        },
        step.fires == (interaction == Interaction::Hovered && previous == Some(
            Interaction::Pressed,
        )),
{
    match interaction {
        Interaction::Pressed => ButtonStep { look: ButtonLook::Pressed, fires: false },
        Interaction::Hovered => ButtonStep {
            look: ButtonLook::Hovered,
            fires: match previous {
                Some(Interaction::Pressed) => true,
                _ => false,
            },
        },
        Interaction::Away => ButtonStep { look: ButtonLook::Base, fires: false },
    }
}

} // verus!
