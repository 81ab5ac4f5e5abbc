//! Animatables: visual subtrees that play a clip or leave the world.

use vstd::prelude::*;
use crate::entity::EntityId;
use crate::events::{AnimatableEvent, AnimatableEventAction};
use crate::name_map::NameMap;
use crate::world_state::AnimatableState;

verus! {

/// What to ask of the engine for an animatable.
#[derive(Clone, Debug, PartialEq, Eq)]
pub enum AnimationRequest {
    /// Let the animation players under `root` play `clip` once.
    Play { root: EntityId, clip: String },
    /// Remove `root` and what hangs below it.
    Despawn { root: EntityId },
}

/// Handles a request to an animatable whose root is known. To play, the
/// animatable needs a clip: it plays its first. To leave the world, it is
/// forgotten and its root is handed back for removal. For an animatable
/// that is not known or has no root yet, nothing happens.
pub fn update_animatable_interaction(
    animatables: &mut NameMap<AnimatableState>,
    event: &AnimatableEvent,
) -> (request: Option<AnimationRequest>)
    ensures
        ({
            let known = old(animatables)@.contains_key(event.name@) && old(
                animatables,
            )@[event.name@].scene_entity.is_some();
            let state = old(animatables)@[event.name@];
            match event.action {
                AnimatableEventAction::PlayOnce => {
                    &&& *final(animatables) == *old(animatables)
                    &&& if known && state.clips.len() > 0 {
                        &&& request matches Some(AnimationRequest::Play { root, clip })
                        &&& Some(root) == state.scene_entity
                        &&& clip@ == state.clips[0]@
                    } else {
                        request.is_none()
                    }
                },
                AnimatableEventAction::Despawn => {
                    if known {
                        &&& request matches Some(AnimationRequest::Despawn { root })
                        &&& Some(root) == state.scene_entity
                        &&& final(animatables)@ == old(animatables)@.remove(event.name@)
                    } else {
                        &&& request.is_none()
                        &&& *final(animatables) == *old(animatables)
                    }
                },
            }
        }),
{
    match event.action {
        AnimatableEventAction::PlayOnce => match animatables.get(event.name.as_str()) {
            Some(state) => match state.scene_entity {
                Some(root) => if state.clips.len() > 0 {
                    Some(AnimationRequest::Play { root, clip: state.clips[0].clone() })
                } else {
                    None
                },
                None => None,
            },
            None => None,
        },
        AnimatableEventAction::Despawn => {
            let root = match animatables.get(event.name.as_str()) {
                Some(state) => state.scene_entity,
                None => None,
            };
            match root {
                Some(root) => {
                    animatables.remove(event.name.as_str());
                    Some(AnimationRequest::Despawn { root })
                },
                None => None,
            }
        },
    }
}

} // verus!
