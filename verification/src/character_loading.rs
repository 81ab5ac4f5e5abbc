//! Waiting for the player character's scene, and moving on to the level.

use vstd::prelude::*;
use crate::catalog::RenderMode;
use crate::completion::{chosen, pick, too_few, TieBreak};
use crate::entity::EntityId;
use crate::game_state::{transition, GameState, StateEvent, WorldChoice};
use crate::world_state::WorldLoadingState;

verus! {

/// Whether the character stands.
#[derive(Clone, Copy, Debug, Default, PartialEq, Eq)]
pub struct CharacterLoadingState {
    pub done: bool,
}

/// The entity under which the character's animation players hang.
#[derive(Clone, Copy, Debug, Default, PartialEq, Eq)]
pub struct CharacterState {
    pub character_anim_entity: Option<EntityId>,
}

/// The phase that follows once the previous level is gone.
pub open spec fn after_world_init(choice: WorldChoice) -> GameState {
    match choice {
        WorldChoice::Credits => GameState::Credits,
        _ => GameState::CharacterLoading,
    }
}

/// The phase that follows once the character stands.
pub open spec fn after_character(choice: WorldChoice) -> GameState {
    match choice {
        WorldChoice::Credits => GameState::Credits,
        WorldChoice::World03 => GameState::World03Loading,
        WorldChoice::World01 => GameState::World01Loading,
    }
}

/// The phases that follow are those of the game's state machine.
pub proof fn lemma_destinations(choice: WorldChoice)
    ensures
        transition(GameState::WorldInit, StateEvent::WorldCleared(choice)) == Some(
            after_world_init(choice),
        ),
        transition(GameState::CharacterLoading, StateEvent::CharacterReady(choice)) == Some(
            after_character(choice),
        ),
{
}

fn destination(choice: WorldChoice) -> (next: GameState)
    ensures
        next == after_character(choice),
{
    match choice {
        WorldChoice::Credits => GameState::Credits,
        WorldChoice::World03 => GameState::World03Loading,
        WorldChoice::World01 => GameState::World01Loading,
    }
}

impl WorldLoadingState {
    /// The previous level is being torn down: the next phase is yet to be
    /// chosen.
    pub fn setup_world_init(&mut self)
        ensures
            !final(self).inited,
            final(self).done == old(self).done,
            final(self).animatable_scenes == old(self).animatable_scenes,
    {
        self.inited = false;
    }

    /// Chooses the phase that follows the teardown, once: the credits where
    /// the player is headed there, and else the loading of the character.
    pub fn update_world_init(&mut self, choice: WorldChoice) -> (next: Option<GameState>)
        ensures
            final(self).inited,
            final(self).done == old(self).done,
            final(self).animatable_scenes == old(self).animatable_scenes,
            next == if old(self).inited {
                None
            } else {
                Some(after_world_init(choice))
            },
    {
        if self.inited {
            return None;
        }
        self.inited = true;
        match choice {
            WorldChoice::Credits => Some(GameState::Credits),
            _ => Some(GameState::CharacterLoading),
        }
    }
}

impl CharacterLoadingState {
    /// One tick of waiting for the character. Where only colliders are drawn
    /// there is no scene to wait for. Else the character stands once its
    /// scene has produced the entity with the third-lowest ordinal, which is
    /// kept as the root of its animations. Once the character stands the
    /// next phase is chosen, once.
    pub fn update_character_loading(
        &mut self,
        character: &mut CharacterState,
        mode: RenderMode,
        produced: &Vec<EntityId>,
        choice: WorldChoice,
    ) -> (next: Option<GameState>)
        ensures
            ({
                let stands = !old(self).done && (mode == RenderMode::Colliders || !too_few(
                    TieBreak::ThirdLowest,
                    produced@,
                ));
                &&& final(self).done == (old(self).done || stands)
                &&& next == if stands {
                    Some(after_character(choice))
                } else {
                    None
                }
                &&& if stands && mode == RenderMode::Full {
                    &&& final(character).character_anim_entity matches Some(root)
                    &&& chosen(TieBreak::ThirdLowest, produced@, root)
                } else {
                    *final(character) == *old(character)
                }
            }),
    {
        if self.done {
            return None;
        }
        match mode {
            RenderMode::Colliders => {
                self.done = true;
                Some(destination(choice))
            },
            RenderMode::Full => match pick(TieBreak::ThirdLowest, produced) {
                Some(root) => {
                    character.character_anim_entity = Some(root);
                    self.done = true;
                    Some(destination(choice))
                },
                None => None,
            },
        }
    }
}

} // verus!
