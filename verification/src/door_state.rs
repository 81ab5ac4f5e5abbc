//! Doors: closed or open.

use vstd::prelude::*;
use crate::entity::EntityId;
use crate::events::{DoorEvent, DoorEventAction};
use crate::name_map::NameMap;
use crate::world_state::DoorState;

verus! {

/// Which way a door swings.
#[derive(Clone, Copy, Debug, PartialEq, Eq, Structural)]
pub enum DoorMotion {
    Open,
    Close,
}

/// A door to turn: the entity that carries it and the way it swings.
#[derive(Clone, Copy, Debug, PartialEq, Eq)]
pub struct DoorTurn {
    pub entity: EntityId,
    pub motion: DoorMotion,
}

/// The door after a toggle.
pub open spec fn toggled_door(door: DoorState) -> DoorState {
    DoorState { parent_entity: door.parent_entity, open: !door.open }
}

/// Handles a request to a door. A door that is known and has an entity
/// changes between closed and open, and the caller gets the turn to show.
/// For any other name nothing changes.
pub fn update_door_interaction(doors: &mut NameMap<DoorState>, event: &DoorEvent) -> (turn: Option<
    DoorTurn,
>)
    ensures
        match turn {
            Some(t) => {
                &&& old(doors)@.contains_key(event.door@)
                &&& old(doors)@[event.door@].parent_entity == Some(t.entity)
                &&& t.motion == if old(doors)@[event.door@].open {
                    DoorMotion::Close
                } else {
                    DoorMotion::Open
                }
                &&& final(doors)@ == old(doors)@.insert(
                    event.door@,
                    toggled_door(old(doors)@[event.door@]),
                )
            },
            None => {
                &&& *final(doors) == *old(doors)
                &&& !old(doors)@.contains_key(event.door@) || old(
                    doors,
                )@[event.door@].parent_entity.is_none()
            },
        },
{
    let found = match doors.get(event.door.as_str()) {
        Some(door) => Some(*door),
        None => None,
    };
    match (found, event.action) {
        (Some(door), DoorEventAction::Toggle) => match door.parent_entity {
            Some(entity) => {
                let motion = if door.open {
                    DoorMotion::Close
                } else {
                    DoorMotion::Open
                };
                doors.insert(
                    event.door.clone(),
                    DoorState { parent_entity: door.parent_entity, open: !door.open },
                );
                Some(DoorTurn { entity, motion })
            },
            None => None,
        },
        (None, _) => None,
    }
}

} // verus!
