//! Trains: standing or rolling along their rail.

use vstd::prelude::*;
use crate::entity::EntityId;
use crate::events::{SoundsEvent, SoundsEventAction, TrainsEvent, TrainsEventAction};
use crate::name_map::NameMap;
use crate::world_state::WorldTrainState;

verus! {

/// Which way the driver sends the train.
#[derive(Clone, Copy, Debug, PartialEq, Eq, Structural)]
pub enum TrainDrive {
    Stop,
    Forward,
    Backward,
}

/// A train to move by one step along its rail. The player moves with it.
#[derive(Clone, Copy, Debug, PartialEq, Eq)]
pub struct TrainMove {
    pub train: EntityId,
    pub drive: TrainDrive,
}

/// What a tick of driving asks for: a move, and a request to the channel
/// that plays the rolling.
#[derive(Clone, Debug, PartialEq, Eq)]
pub struct TrainTick {
    pub moved: Option<TrainMove>,
    pub sound: Option<SoundsEvent>,
}

/// The way the train is sent for the keys held: backward wins over forward.
pub open spec fn drive_of(forward: bool, backward: bool) -> TrainDrive {
    if backward {
        TrainDrive::Backward
    } else if forward {
        TrainDrive::Forward
    } else {
        TrainDrive::Stop
    }
}

/// The train that is driven: the active one, where the cursor is locked and
/// the train is known and has an entity.
pub open spec fn driven_train(
    trains: Map<Seq<char>, WorldTrainState>,
    active_train: Option<String>,
    cursor_locked: bool,
) -> Option<Seq<char>> {
    match active_train {
        Some(name) => if cursor_locked && trains.contains_key(name@)
            && trains[name@].parent_entity.is_some() {
            Some(name@)
        } else {
            None
        },
        None => None,
    }
}

/// The request to the rolling channel when a train that was running or not
/// is sent this way: resume when it starts to roll, pause when it stops.
pub open spec fn rolling_change(running: bool, drive: TrainDrive) -> Option<SoundsEventAction> {
    if drive != TrainDrive::Stop && !running {
        Some(SoundsEventAction::Resume)
    } else if drive == TrainDrive::Stop && running {
        Some(SoundsEventAction::Pause)
    } else {
        None
    }
}

/// Handles a request to a train: a train that is known becomes the one the
/// player drives. While the cursor is free, and for any other name, nothing
/// changes.
pub fn update_trains_interaction(
    trains: &NameMap<WorldTrainState>,
    active_train: &mut Option<String>,
    cursor_locked: bool,
    event: &TrainsEvent,
) -> (taken: bool)
    ensures
        taken == (cursor_locked && trains@.contains_key(event.train@)),
        taken ==> *final(active_train) == Some(event.train),
        !taken ==> *final(active_train) == *old(active_train),
{
    if !cursor_locked {
        return false;
    }
    match event.action {
        TrainsEventAction::StartControl => {
            if trains.contains_key(event.train.as_str()) {
                *active_train = Some(event.train.clone());
                true
            } else {
                false
            }
        },
    }
}

/// One tick of driving. Where a train is driven, it moves as the keys say,
/// it counts as running exactly while it moves, and the rolling channel is
/// told when that changes. Else nothing happens.
pub fn update_trains_movement(
    trains: &mut NameMap<WorldTrainState>,
    active_train: &Option<String>,
    cursor_locked: bool,
    forward: bool,
    backward: bool,
) -> (tick: TrainTick)
    ensures
        match driven_train(old(trains)@, *active_train, cursor_locked) {
            Some(name) => {
                let before = old(trains)@[name];
                let drive = drive_of(forward, backward);
                &&& final(trains)@ == old(trains)@.insert(
                    name,
                    WorldTrainState {
                        parent_entity: before.parent_entity,
                        running: drive != TrainDrive::Stop,
                    },
                )
                &&& tick.moved == if drive != TrainDrive::Stop {
                    Some(TrainMove { train: before.parent_entity.unwrap(), drive })
                } else {
                    None
                }
                &&& match rolling_change(before.running, drive) {
                    Some(action) => tick.sound matches Some(e) && e.action == action && e.name@
                        == "train"@,
                    None => tick.sound.is_none(),
                }
            },
            None => {
                &&& *final(trains) == *old(trains)
                &&& tick.moved.is_none()
                &&& tick.sound.is_none()
            },
        },
{
    let idle = TrainTick { moved: None, sound: None };
    if !cursor_locked {
        return idle;
    }
    let name = match active_train {
        Some(name) => name,
        None => {
            return idle;
        },
    };
    let before = match trains.get(name.as_str()) {
        Some(state) => *state,
        None => {
            return idle;
        },
    };
    let train = match before.parent_entity {
        Some(entity) => entity,
        None => {
            return idle;
        },
    };
    let drive = if backward {
        TrainDrive::Backward
    } else if forward {
        TrainDrive::Forward
    } else {
        TrainDrive::Stop
    };
    let moving = backward || forward;
    let moved = if moving {
        Some(TrainMove { train, drive })
    } else {
        None
    };
    let sound = if moving != before.running {
        let action = if moving {
            SoundsEventAction::Resume
        } else {
            SoundsEventAction::Pause
        };
        trains.insert(
            name.clone(),
            WorldTrainState { parent_entity: before.parent_entity, running: moving },
        );
        Some(SoundsEvent { action, name: "train".to_owned() })
    } else {
        assert(trains@ =~= trains@.insert(name@, before));
        None
    };
    TrainTick { moved, sound }
}

} // verus!
