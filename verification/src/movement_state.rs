//! How the player character moves and which animation shows it.

use vstd::prelude::*;
use crate::catalog::RenderMode;
use crate::events::SoundsEventAction;
use crate::interactable_state::cooled;
use crate::key_input::KeyInputState;

verus! {

/// The animation of a character at rest.
pub const IDLE_ANIMATION_IDX: usize = 0;

/// The animation of a character that throws a switch.
pub const TOGGLE_SWITCH_ANIMATION_IDX: usize = 4;

/// The animation of a character that walks.
pub const FORWARD_ANIMATION_IDX: usize = 5;

/// The animation of a character that runs.
pub const FORWARD_RUN_ANIMATION_IDX: usize = 2;

/// How the player moves.
#[derive(Clone, Copy, Debug, Default, PartialEq, Eq)]
pub struct MovementState {
    /// The camera flies free and the character stands still.
    pub noclip: bool,
    /// The animation that plays.
    pub playing_animation: Option<usize>,
    /// Microseconds for which the character still throws a switch.
    pub toggle_switch_rmn: u64,
}

/// What to show of the character in one tick: an animation to start, and a
/// request to the channel that plays the steps.
#[derive(Clone, Copy, Debug, PartialEq, Eq)]
pub struct CharacterFrame {
    pub play: Option<usize>,
    pub footsteps: Option<SoundsEventAction>,
}

/// The animation that fits what the character does: throwing a switch comes
/// first, then running and walking, then rest.
pub open spec fn fitting_animation(switching: bool, moving: bool, run: bool) -> usize {
    if switching {
        TOGGLE_SWITCH_ANIMATION_IDX
    } else if moving {
        if run {
            FORWARD_RUN_ANIMATION_IDX
        } else {
            FORWARD_ANIMATION_IDX
        }
    } else {
        IDLE_ANIMATION_IDX
    }
}

/// The request to the steps' channel when `animation` starts: steps sound
/// while the character walks or runs, and stop when it comes to rest.
pub open spec fn steps_for(animation: usize) -> Option<SoundsEventAction> {
    if animation == TOGGLE_SWITCH_ANIMATION_IDX {
        None
    } else if animation == IDLE_ANIMATION_IDX {
        Some(SoundsEventAction::Pause)
    } else {
        Some(SoundsEventAction::Resume)
    }
}

impl MovementState {
    /// Takes in the player's wishes to fly and to change the view, and says
    /// whether the character walks in this tick: not while the camera
    /// flies, and not while the player drives a train.
    pub fn update_movement(
        &mut self,
        third_person: &mut bool,
        keys: &KeyInputState,
        driving: bool,
    ) -> (walks: bool)
        ensures
            final(self).noclip == (old(self).noclip != keys.toggle_fly),
            *final(third_person) == (*old(third_person) != keys.toggle_view),
            final(self).playing_animation == old(self).playing_animation,
            final(self).toggle_switch_rmn == old(self).toggle_switch_rmn,
            walks == (!final(self).noclip && !driving),
    {
        if keys.toggle_fly {
            self.noclip = !self.noclip;
        }
        if keys.toggle_view {
            *third_person = !*third_person;
        }
        !self.noclip && !driving
    }

    /// One tick of the character's looks. While the camera flies nothing
    /// changes. Where only colliders are drawn there is nothing to animate,
    /// and a switch is thrown at once. Else, where the character has an
    /// animation player, the throw of a switch runs down, and the animation
    /// that fits is started unless it plays already.
    pub fn update_character_state(
        &mut self,
        mode: RenderMode,
        has_player: bool,
        moving: bool,
        run: bool,
        elapsed: u64,
    ) -> (frame: CharacterFrame)
        ensures
            final(self).noclip == old(self).noclip,
            if old(self).noclip || (mode == RenderMode::Full && !has_player) {
                &&& *final(self) == *old(self)
                &&& frame == (CharacterFrame { play: None, footsteps: None })
            } else if mode == RenderMode::Colliders {
                &&& final(self).toggle_switch_rmn == 0
                &&& final(self).playing_animation == old(self).playing_animation
                &&& frame == (CharacterFrame { play: None, footsteps: None })
            } else {
                let switching = old(self).toggle_switch_rmn > 0;
                let fitting = fitting_animation(switching, moving, run);
                &&& final(self).toggle_switch_rmn == cooled(old(self).toggle_switch_rmn, elapsed)
                &&& final(self).playing_animation == Some(fitting)
                &&& if old(self).playing_animation == Some(fitting) {
                    frame == (CharacterFrame { play: None, footsteps: None })
                } else {
                    frame == (CharacterFrame { play: Some(fitting), footsteps: steps_for(fitting) })
                }
            },
    {
        let still = CharacterFrame { play: None, footsteps: None };
        if self.noclip {
            return still;
        }
        match mode {
            RenderMode::Colliders => {
                self.toggle_switch_rmn = 0;
                return still;
            },
            RenderMode::Full => {},
        }
        if !has_player {
            return still;
        }
        let fitting = if self.toggle_switch_rmn > 0 {
            self.toggle_switch_rmn = if self.toggle_switch_rmn > elapsed {
                self.toggle_switch_rmn - elapsed
            } else {
                0
            };
            TOGGLE_SWITCH_ANIMATION_IDX
        } else if moving {
            if run {
                FORWARD_RUN_ANIMATION_IDX
            } else {
                FORWARD_ANIMATION_IDX
            }
        } else {
            IDLE_ANIMATION_IDX
        };
        let plays = match self.playing_animation {
            Some(now) => now == fitting,
            None => false,
        };
        if plays {
            return still;
        }
        self.playing_animation = Some(fitting);
        let footsteps = if fitting == TOGGLE_SWITCH_ANIMATION_IDX {
            None
        } else if fitting == IDLE_ANIMATION_IDX {
            Some(SoundsEventAction::Pause)
        } else {
            Some(SoundsEventAction::Resume)
        };
        CharacterFrame { play: Some(fitting), footsteps }
    }
}

} // verus!
