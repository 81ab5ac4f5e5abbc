//! The phases a session moves through, from start-up to gameplay.

use vstd::prelude::*;
use crate::text::same_text;

verus! {

/// The phase the game is in. Exactly one phase is current at any time.
#[derive(Clone, Copy, Debug, PartialEq, Eq, Hash, Structural)]
pub enum GameState {
    /// The loading overlay's own font is being fetched.
    PreLoading,
    /// Shared assets are being fetched.
    AssetLoading,
    /// The previous level is torn down and the next one is chosen.
    WorldInit,
    /// Assets of the first level are being fetched.
    World01Loading,
    /// Assets of the third level are being fetched.
    World03Loading,
    /// The menu is shown and waits for the player.
    Menu,
    /// Gameplay.
    Running,
    /// Gameplay is suspended and can resume.
    Paused,
    /// The player character is being set up.
    CharacterLoading,
    /// The level's entities are being spawned and resolved.
    WorldLoading,
    /// The closing credits are shown.
    Credits,
}

/// Where the player is headed.
#[derive(Clone, Copy, Debug, PartialEq, Eq, Structural)]
pub enum WorldChoice {
    World01,
    World03,
    Credits,
}

/// The buttons of the menu.
#[derive(Clone, Copy, Debug, PartialEq, Eq, Structural)]
pub enum MenuButtonWhich {
    PlayWorld01,
    PlayWorld03,
}

/// What can end a phase.
#[derive(Clone, Copy, Debug, PartialEq, Eq, Structural)]
pub enum StateEvent {
    /// The font of the loading overlay has arrived.
    PreLoaded,
    /// The assets that the current phase waits for have arrived.
    AssetsLoaded,
    /// The player chose a level in the menu.
    PlayClicked,
    /// The previous level is gone.
    WorldCleared(WorldChoice),
    /// The player character stands.
    CharacterReady(WorldChoice),
    /// Nothing of the level is pending any more.
    WorldReady,
    /// The player pressed escape while in control.
    EscapePressed,
    /// The player chose to resume.
    ResumeClicked,
    /// The credits have run.
    CreditsOver,
}

/// The destination that the active world's name stands for: the first level
/// unless it names another.
pub open spec fn world_choice_of(name: Seq<char>) -> WorldChoice {
    if name == "credits"@ {
        WorldChoice::Credits
    } else if name == "world03"@ {
        WorldChoice::World03
    } else {
        WorldChoice::World01
    }
}

/// The phase that follows `state` on `event`, where the event ends the phase.
pub open spec fn transition(state: GameState, event: StateEvent) -> Option<GameState> {
    match (state, event) {
        (GameState::PreLoading, StateEvent::PreLoaded) => Some(GameState::AssetLoading),
        (GameState::AssetLoading, StateEvent::AssetsLoaded) => Some(GameState::Menu),
        (GameState::Menu, StateEvent::PlayClicked) => Some(GameState::WorldInit),
        (GameState::WorldInit, StateEvent::WorldCleared(WorldChoice::Credits)) => Some(
            GameState::Credits,
        ),
        (GameState::WorldInit, StateEvent::WorldCleared(_)) => Some(GameState::CharacterLoading),
        (GameState::CharacterLoading, StateEvent::CharacterReady(WorldChoice::Credits)) => Some(
            GameState::Credits,
        ),
        (GameState::CharacterLoading, StateEvent::CharacterReady(WorldChoice::World03)) => Some(
            GameState::World03Loading,
        ),
        (GameState::CharacterLoading, StateEvent::CharacterReady(WorldChoice::World01)) => Some(
            GameState::World01Loading,
        ),
        (GameState::World01Loading, StateEvent::AssetsLoaded) => Some(GameState::WorldLoading),
        (GameState::World03Loading, StateEvent::AssetsLoaded) => Some(GameState::WorldLoading),
        (GameState::WorldLoading, StateEvent::WorldReady) => Some(GameState::Running),
        (GameState::Running, StateEvent::EscapePressed) => Some(GameState::Paused),
        (GameState::Paused, StateEvent::ResumeClicked) => Some(GameState::Running),
        (GameState::Credits, StateEvent::CreditsOver) => Some(GameState::Menu),
        _ => None,
    }
}

impl WorldChoice {
    /// The destination that the active world's name stands for.
    pub fn from_name(name: &str) -> (choice: WorldChoice)
        ensures
            choice == world_choice_of(name@),
    {
        if same_text(name, "credits") {
            WorldChoice::Credits
        } else if same_text(name, "world03") {
            WorldChoice::World03
        } else {
            WorldChoice::World01
        }
    }
}

impl MenuButtonWhich {
    /// The name of the world that the button leads to.
    pub fn world_name(&self) -> (name: &'static str)
        ensures
            name@ == match *self {
                MenuButtonWhich::PlayWorld01 => "world01"@,
                MenuButtonWhich::PlayWorld03 => "world03"@,
            },
    {
        match self {
            MenuButtonWhich::PlayWorld01 => "world01",
            MenuButtonWhich::PlayWorld03 => "world03",
        }
    }
}

impl GameState {
    /// The phase that follows this one on `event`; none where the event does
    /// not end this phase.
    pub fn next(self, event: StateEvent) -> (next: Option<GameState>)
        ensures
            next == transition(self, event),
    {
        match (self, event) {
            (GameState::PreLoading, StateEvent::PreLoaded) => Some(GameState::AssetLoading),
            (GameState::AssetLoading, StateEvent::AssetsLoaded) => Some(GameState::Menu),
            (GameState::Menu, StateEvent::PlayClicked) => Some(GameState::WorldInit),
            (GameState::WorldInit, StateEvent::WorldCleared(WorldChoice::Credits)) => Some(
                GameState::Credits,
            ),
            (GameState::WorldInit, StateEvent::WorldCleared(_)) => Some(GameState::CharacterLoading),
            (GameState::CharacterLoading, StateEvent::CharacterReady(WorldChoice::Credits)) => Some(
                GameState::Credits,
            ),
            (GameState::CharacterLoading, StateEvent::CharacterReady(WorldChoice::World03)) => Some(
                GameState::World03Loading,
            ),
            (GameState::CharacterLoading, StateEvent::CharacterReady(WorldChoice::World01)) => Some(
                GameState::World01Loading,
            ),
            (GameState::World01Loading, StateEvent::AssetsLoaded) => Some(GameState::WorldLoading),
            (GameState::World03Loading, StateEvent::AssetsLoaded) => Some(GameState::WorldLoading),
            (GameState::WorldLoading, StateEvent::WorldReady) => Some(GameState::Running),
            (GameState::Running, StateEvent::EscapePressed) => Some(GameState::Paused),
            (GameState::Paused, StateEvent::ResumeClicked) => Some(GameState::Running),
            (GameState::Credits, StateEvent::CreditsOver) => Some(GameState::Menu),
            _ => None,
        }
    }
}

} // verus!
