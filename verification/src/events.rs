//! The requests that the parts of the world send one another, and the one
//! queue that carries them in order.

use vstd::prelude::*;
use crate::entity::EntityId;
use crate::inventory_state::{item_or_default, InventoryEvent, InventoryEventAction, InventoryItem};
use crate::schema::name_view;
use crate::text::{head_segment, same_text, second_segment, split_at_dot};
use crate::world_flags::{WorldFlagsEvent, WorldFlagsEventAction};

verus! {

/// What an audio event does.
#[derive(Clone, Copy, Debug, PartialEq, Eq, Structural)]
pub enum AudioEventAction {
    PlayOnce,
}

/// A request to play a clip; `source` names the clip.
#[derive(Clone, Debug, PartialEq, Eq)]
pub struct AudioEvent {
    pub action: AudioEventAction,
    pub source: Option<String>,
}

/// What an animatable event does.
#[derive(Clone, Copy, Debug, PartialEq, Eq, Structural)]
pub enum AnimatableEventAction {
    PlayOnce,
    Despawn,
}

/// A request to an animatable.
#[derive(Clone, Debug, PartialEq, Eq)]
pub struct AnimatableEvent {
    pub action: AnimatableEventAction,
    pub name: String,
    pub animation: String,
}

/// What a door event does.
#[derive(Clone, Copy, Debug, PartialEq, Eq, Structural)]
pub enum DoorEventAction {
    Toggle,
}

/// A request to a door.
#[derive(Clone, Debug, PartialEq, Eq)]
pub struct DoorEvent {
    pub action: DoorEventAction,
    pub door: String,
}

/// What a light event does.
#[derive(Clone, Copy, Debug, PartialEq, Eq, Structural)]
pub enum LightsEventAction {
    Toggle,
}

/// A request to a light.
#[derive(Clone, Debug, PartialEq, Eq)]
pub struct LightsEvent {
    pub action: LightsEventAction,
    pub name: String,
}

/// What a sound event does.
#[derive(Clone, Copy, Debug, PartialEq, Eq, Structural)]
pub enum SoundsEventAction {
    Pause,
    Resume,
    Toggle,
}

/// A request to a sound channel.
#[derive(Clone, Debug, PartialEq, Eq)]
pub struct SoundsEvent {
    pub action: SoundsEventAction,
    pub name: String,
}

/// What a train event does.
#[derive(Clone, Copy, Debug, PartialEq, Eq, Structural)]
pub enum TrainsEventAction {
    StartControl,
}

/// A request to a train.
#[derive(Clone, Debug, PartialEq, Eq)]
pub struct TrainsEvent {
    pub action: TrainsEventAction,
    pub train: String,
}

/// What a loading overlay event does.
#[derive(Clone, Copy, Debug, PartialEq, Eq, Structural)]
pub enum LoadingUiEventAction {
    Hide,
    SetText,
}

/// A request to the loading overlay.
#[derive(Clone, Debug, PartialEq, Eq)]
pub struct LoadingUiEvent {
    pub action: LoadingUiEventAction,
    pub payload: Option<String>,
}

/// A request to one part of the world. The parts take their requests from
/// one queue, each in the order in which they were sent.
#[derive(Clone, Debug, PartialEq, Eq)]
pub enum WorldEvent {
    Audio(AudioEvent),
    Animatable(AnimatableEvent),
    Door(DoorEvent),
    Lights(LightsEvent),
    Sounds(SoundsEvent),
    Inventory(InventoryEvent),
    WorldFlags(WorldFlagsEvent),
    /// Remove this entity from the world.
    Despawn(EntityId),
}

/// What a `WorldEvent` says, character for character.
pub enum EventView {
    Audio { action: AudioEventAction, source: Option<Seq<char>> },
    Animatable { action: AnimatableEventAction, name: Seq<char>, animation: Seq<char> },
    Door { action: DoorEventAction, door: Seq<char> },
    Lights { action: LightsEventAction, name: Seq<char> },
    Sounds { action: SoundsEventAction, name: Seq<char> },
    Inventory { action: InventoryEventAction, item: InventoryItem },
    WorldFlags { action: WorldFlagsEventAction, flag: Seq<char> },
    Despawn { entity: EntityId },
}

impl View for WorldEvent {
    type V = EventView;

    open spec fn view(&self) -> EventView {
        match *self {
            WorldEvent::Audio(e) => EventView::Audio {
                action: e.action,
                source: name_view(e.source),
            },
            WorldEvent::Animatable(e) => EventView::Animatable {
                action: e.action,
                name: e.name@,
                animation: e.animation@,
            },
            WorldEvent::Door(e) => EventView::Door { action: e.action, door: e.door@ },
            WorldEvent::Lights(e) => EventView::Lights { action: e.action, name: e.name@ },
            WorldEvent::Sounds(e) => EventView::Sounds { action: e.action, name: e.name@ },
            WorldEvent::Inventory(e) => EventView::Inventory { action: e.action, item: e.item },
            WorldEvent::WorldFlags(e) => EventView::WorldFlags { action: e.action, flag: e.flag@ },
            WorldEvent::Despawn(entity) => EventView::Despawn { entity },
        }
    }
}

/// A queue of events as what they say.
pub open spec fn events_view(events: Seq<WorldEvent>) -> Seq<EventView> {
    Seq::new(events.len(), |i: int| events[i]@)
}

/// The request that the action `(kind, argument)` of an interactable stands
/// for, where `target` is the interactable's own entity. A kind that is not
/// known stands for none, and so do `animate` without a clip after the dot
/// and `despawn_self` without a target.
pub open spec fn event_of(kind: Seq<char>, argument: Seq<char>, target: Option<EntityId>) -> Option<
    EventView,
> {
    if kind == "audio_playonce"@ {
        Some(EventView::Audio { action: AudioEventAction::PlayOnce, source: Some("big_switch"@) })
    } else if kind == "animate"@ {
        match second_segment(argument) {
            Some(animation) => Some(
                EventView::Animatable {
                    action: AnimatableEventAction::PlayOnce,
                    name: head_segment(argument),
                    animation,
                },
            ),
            None => None,
        }
    } else if kind == "toggle_door"@ {
        Some(EventView::Door { action: DoorEventAction::Toggle, door: argument })
    } else if kind == "toggle_light"@ {
        Some(EventView::Lights { action: LightsEventAction::Toggle, name: argument })
    } else if kind == "toggle_sound"@ {
        Some(EventView::Sounds { action: SoundsEventAction::Toggle, name: argument })
    } else if kind == "consume_item"@ {
        Some(
            EventView::Inventory {
                action: InventoryEventAction::RemoveItem,
                item: item_or_default(argument),
            },
        )
    } else if kind == "pickup_item"@ {
        Some(
            EventView::Inventory {
                action: InventoryEventAction::AddItem,
                item: item_or_default(argument),
            },
        )
    } else if kind == "enable_flag"@ {
        Some(EventView::WorldFlags { action: WorldFlagsEventAction::Enable, flag: argument })
    } else if kind == "hide_prop"@ {
        Some(
            EventView::Animatable {
                action: AnimatableEventAction::Despawn,
                name: argument,
                animation: Seq::empty(),
            },
        )
    } else if kind == "despawn_self"@ {
        match target {
            Some(entity) => Some(EventView::Despawn { entity }),
            None => None,
        }
    } else {
        None
    }
}

/// The requests that the first `n` of `actions` stand for, in their order.
pub open spec fn events_of(
    actions: Seq<(Seq<char>, Seq<char>)>,
    target: Option<EntityId>,
    n: int,
) -> Seq<EventView>
    decreases n,
{
    if n <= 0 {
        Seq::empty()
    } else {
        let before = events_of(actions, target, n - 1);
        match event_of(actions[n - 1].0, actions[n - 1].1, target) {
            Some(event) => before.push(event),
            None => before,
        }
    }
}

/// The actions among the first `n` that stand for no request, by their place.
pub open spec fn skipped_of(
    actions: Seq<(Seq<char>, Seq<char>)>,
    target: Option<EntityId>,
    n: int,
) -> Seq<usize>
    decreases n,
{
    if n <= 0 {
        Seq::empty()
    } else {
        let before = skipped_of(actions, target, n - 1);
        match event_of(actions[n - 1].0, actions[n - 1].1, target) {
            Some(_) => before,
            None => before.push((n - 1) as usize),
        }
    }
}

fn item_for(name: &str) -> (item: InventoryItem)
    ensures
        item == item_or_default(name@),
{
    match InventoryItem::from_name(name) {
        Some(item) => item,
        None => InventoryItem::FuseSmall,
    }
}

/// Reads one action of an interactable.
pub fn parse_action(kind: &str, argument: &str, target: Option<EntityId>) -> (event: Option<
    WorldEvent,
>)
    ensures
        match event {
            Some(e) => event_of(kind@, argument@, target) == Some(e@),
            None => event_of(kind@, argument@, target).is_none(),
        },
{
    if same_text(kind, "audio_playonce") {
        Some(
            WorldEvent::Audio(
                AudioEvent {
                    action: AudioEventAction::PlayOnce,
                    source: Some("big_switch".to_owned()),
                },
            ),
        )
    } else if same_text(kind, "animate") {
        let (name, rest) = split_at_dot(argument);
        match rest {
            Some(rest) => {
                let (animation, _) = split_at_dot(rest);
                Some(
                    WorldEvent::Animatable(
                        AnimatableEvent {
                            action: AnimatableEventAction::PlayOnce,
                            name: name.to_owned(),
                            animation: animation.to_owned(),
                        },
                    ),
                )
            },
            None => None,
        }
    } else if same_text(kind, "toggle_door") {
        Some(WorldEvent::Door(DoorEvent { action: DoorEventAction::Toggle, door: argument.to_owned() }))
    } else if same_text(kind, "toggle_light") {
        Some(
            WorldEvent::Lights(
                LightsEvent { action: LightsEventAction::Toggle, name: argument.to_owned() },
            ),
        )
    } else if same_text(kind, "toggle_sound") {
        Some(
            WorldEvent::Sounds(
                SoundsEvent { action: SoundsEventAction::Toggle, name: argument.to_owned() },
            ),
        )
    } else if same_text(kind, "consume_item") {
        Some(
            WorldEvent::Inventory(
                InventoryEvent { action: InventoryEventAction::RemoveItem, item: item_for(argument) },
            ),
        )
    } else if same_text(kind, "pickup_item") {
        Some(
            WorldEvent::Inventory(
                InventoryEvent { action: InventoryEventAction::AddItem, item: item_for(argument) },
            ),
        )
    } else if same_text(kind, "enable_flag") {
        Some(
            WorldEvent::WorldFlags(
                WorldFlagsEvent { action: WorldFlagsEventAction::Enable, flag: argument.to_owned() },
            ),
        )
    } else if same_text(kind, "hide_prop") {
        Some(
            WorldEvent::Animatable(
                AnimatableEvent {
                    action: AnimatableEventAction::Despawn,
                    name: argument.to_owned(),
                    animation: String::new(),
                },
            ),
        )
    } else if same_text(kind, "despawn_self") {
        match target {
            Some(entity) => Some(WorldEvent::Despawn(entity)),
            None => None,
        }
    } else {
        None
    }
}

} // verus!
