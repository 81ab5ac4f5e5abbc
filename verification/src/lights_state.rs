//! Lights: off or on.

use vstd::prelude::*;
use crate::entity::EntityId;
use crate::events::{LightsEvent, LightsEventAction};
use crate::name_map::NameMap;

verus! {

/// Whether a light shines.
#[derive(Clone, Copy, Debug, PartialEq, Eq, Structural)]
pub enum LightLevel {
    Off,
    On,
}

impl LightLevel {
    /// The level after a toggle of a light that is lit or not.
    pub fn toggled(lit: bool) -> (level: LightLevel)
        ensures
            level == if lit { LightLevel::Off } else { LightLevel::On },
    {
        if lit {
            LightLevel::Off
        } else {
            LightLevel::On
        }
    }

    /// The power of a light at this level, in watts.
    pub fn watts(&self) -> (watts: u32)
        ensures
            watts == match *self {
                LightLevel::Off => 0u32,
                LightLevel::On => 50u32,
            },
    {
        match self {
            LightLevel::Off => 0,
            LightLevel::On => 50,
        }
    }
}

/// Handles a request to a light: the entity of the light to toggle, where the
/// name is known.
pub fn update_light_interaction(lights: &NameMap<EntityId>, event: &LightsEvent) -> (target: Option<
    EntityId,
>)
    ensures
        match target {
            Some(entity) => lights@.contains_key(event.name@) && lights@[event.name@] == entity,
            None => !lights@.contains_key(event.name@),
        },
{
    match event.action {
        LightsEventAction::Toggle => match lights.get(event.name.as_str()) {
            Some(entity) => Some(*entity),
            None => None,
        },
    }
}

} // verus!
