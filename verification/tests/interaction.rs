use std::collections::HashMap;

use grahams_relay::door_state::{update_door_interaction, DoorMotion};
use grahams_relay::entity::EntityId;
use grahams_relay::events::{
    parse_action, AnimatableEvent, AnimatableEventAction, AudioEvent, AudioEventAction, DoorEvent,
    DoorEventAction, LightsEvent, LightsEventAction, SoundsEvent, SoundsEventAction, WorldEvent,
};
use grahams_relay::interactable_state::{
    check_blockers, is_blocking, is_known_blocker, ray_reach, Activation, InteractablesState,
    PromptUpdate, INITIAL_BLOCKED_DURATION, INTERACTION_BLOCKED_DURATION,
};
use grahams_relay::inventory_state::{
    InventoryEvent, InventoryEventAction, InventoryItem, InventoryState,
};
use grahams_relay::name_map::NameMap;
use grahams_relay::schema::WorldInteraction;
use grahams_relay::world_flags::{WorldFlagsEvent, WorldFlagsEventAction, WorldFlagsState};
use grahams_relay::world_state::{DoorState, InteractableState};

fn pair(a: &str, b: &str) -> (String, String) {
    (a.to_string(), b.to_string())
}

fn rule(actions: Vec<(String, String)>, blockers: Vec<(String, String)>) -> WorldInteraction {
    WorldInteraction {
        interaction: "click".to_string(),
        interaction_text: "Use".to_string(),
        actions,
        blockers,
    }
}

fn aimed_at(entity: u64, interaction: WorldInteraction) -> InteractablesState {
    InteractablesState {
        active_interactable: Some(InteractableState { interaction }),
        active_interactable_entity: Some(EntityId { bits: entity }),
        blocked_rmn: 0,
    }
}

fn flags_with(name: &str, value: bool) -> WorldFlagsState {
    let mut flags = WorldFlagsState::new();
    flags.flags.insert(name.to_string(), value);
    flags
}

#[test]
fn the_waits_are_those_of_the_game() {
    assert_eq!(INITIAL_BLOCKED_DURATION, 400_000);
    assert_eq!(INTERACTION_BLOCKED_DURATION, 1_200_000);
    assert_eq!(ray_reach(true), 2500);
    assert_eq!(ray_reach(false), 1700);
}

#[test]
fn holding_blocks_while_nothing_is_carried() {
    let flags = WorldFlagsState::new();
    let empty = InventoryState::new();
    let one = InventoryState { fuse_small_count: 1, bottle_lightfuel_count: 0 };
    assert!(is_blocking("holding.fuse_small", &empty, &flags));
    assert!(!is_blocking("holding.fuse_small", &one, &flags));
    assert!(is_blocking("holding.bottle_lightfuel", &one, &flags));
    assert!(is_blocking("holding.fuse_small.extra", &empty, &flags));
}

#[test]
fn flag_enabled_blocks_until_the_flag_is_set() {
    let inv = InventoryState::new();
    assert!(is_blocking("flag_enabled.power", &inv, &WorldFlagsState::new()));
    assert!(is_blocking("flag_enabled.power", &inv, &flags_with("power", false)));
    assert!(!is_blocking("flag_enabled.power", &inv, &flags_with("power", true)));
    assert!(is_blocking("flag_enabled.power", &inv, &flags_with("light", true)));
}

#[test]
fn a_blocker_that_is_not_understood_never_blocks() {
    let inv = InventoryState::new();
    let flags = WorldFlagsState::new();
    assert!(!is_blocking("holding.crowbar", &inv, &flags));
    assert!(!is_blocking("holding", &inv, &flags));
    assert!(!is_blocking("holdingx.fuse_small", &inv, &flags));
    assert!(!is_blocking("flag_enabled", &inv, &flags));
    assert!(!is_blocking("weather.rain", &inv, &flags));
    assert!(!is_blocking("", &inv, &flags));
}

#[test]
fn check_blockers_keeps_the_active_ones_in_order() {
    let blockers = vec![
        pair("flag_enabled.power", "No power"),
        pair("weather.rain", "It rains"),
        pair("holding.fuse_small", "Needs a fuse"),
        pair("flag_enabled.door_unlocked", "Locked"),
    ];
    let inv = InventoryState::new();
    let flags = flags_with("door_unlocked", true);
    assert_eq!(
        check_blockers(&blockers, &inv, &flags),
        vec![pair("flag_enabled.power", "No power"), pair("holding.fuse_small", "Needs a fuse")]
    );
    assert_eq!(check_blockers(&Vec::new(), &inv, &flags), Vec::new());
}

#[test]
fn every_action_kind_becomes_its_request() {
    let me = Some(EntityId { bits: 77 });
    assert_eq!(
        parse_action("audio_playonce", "", me),
        Some(WorldEvent::Audio(AudioEvent {
            action: AudioEventAction::PlayOnce,
            source: Some("big_switch".to_string()),
        }))
    );
    assert_eq!(
        parse_action("animate", "switch_01.toggle", me),
        Some(WorldEvent::Animatable(AnimatableEvent {
            action: AnimatableEventAction::PlayOnce,
            name: "switch_01".to_string(),
            animation: "toggle".to_string(),
        }))
    );
    assert_eq!(
        parse_action("animate", "switch_01.toggle.fast", me),
        Some(WorldEvent::Animatable(AnimatableEvent {
            action: AnimatableEventAction::PlayOnce,
            name: "switch_01".to_string(),
            animation: "toggle".to_string(),
        }))
    );
    assert_eq!(
        parse_action("toggle_door", "front_door", me),
        Some(WorldEvent::Door(DoorEvent {
            action: DoorEventAction::Toggle,
            door: "front_door".to_string(),
        }))
    );
    assert_eq!(
        parse_action("toggle_light", "lamp", me),
        Some(WorldEvent::Lights(LightsEvent {
            action: LightsEventAction::Toggle,
            name: "lamp".to_string(),
        }))
    );
    assert_eq!(
        parse_action("toggle_sound", "hum", me),
        Some(WorldEvent::Sounds(SoundsEvent {
            action: SoundsEventAction::Toggle,
            name: "hum".to_string(),
        }))
    );
    assert_eq!(
        parse_action("consume_item", "fuse_small", me),
        Some(WorldEvent::Inventory(InventoryEvent {
            action: InventoryEventAction::RemoveItem,
            item: InventoryItem::FuseSmall,
        }))
    );
    assert_eq!(
        parse_action("pickup_item", "bottle_lightfuel", me),
        Some(WorldEvent::Inventory(InventoryEvent {
            action: InventoryEventAction::AddItem,
            item: InventoryItem::BottleLightFuel,
        }))
    );
    assert_eq!(
        parse_action("enable_flag", "power", me),
        Some(WorldEvent::WorldFlags(WorldFlagsEvent {
            action: WorldFlagsEventAction::Enable,
            flag: "power".to_string(),
        }))
    );
    assert_eq!(
        parse_action("hide_prop", "fuse", me),
        Some(WorldEvent::Animatable(AnimatableEvent {
            action: AnimatableEventAction::Despawn,
            name: "fuse".to_string(),
            animation: String::new(),
        }))
    );
    assert_eq!(parse_action("despawn_self", "", me), Some(WorldEvent::Despawn(EntityId { bits: 77 })));
}

#[test]
fn an_item_that_is_not_known_stands_for_the_small_fuse() {
    assert_eq!(
        parse_action("pickup_item", "crowbar", None),
        Some(WorldEvent::Inventory(InventoryEvent {
            action: InventoryEventAction::AddItem,
            item: InventoryItem::FuseSmall,
        }))
    );
    assert_eq!(
        parse_action("consume_item", "", None),
        Some(WorldEvent::Inventory(InventoryEvent {
            action: InventoryEventAction::RemoveItem,
            item: InventoryItem::FuseSmall,
        }))
    );
}

#[test]
fn an_action_that_is_not_understood_stands_for_no_request() {
    let me = Some(EntityId { bits: 77 });
    assert_eq!(parse_action("explode", "now", me), None);
    assert_eq!(parse_action("", "", me), None);
    assert_eq!(parse_action("animate", "switch_01", me), None);
    assert_eq!(parse_action("despawn_self", "", None), None);
    assert_eq!(parse_action("Toggle_Door", "front_door", me), None);
}

#[test]
fn a_click_without_blockers_is_never_refused() {
    let inventories = [
        InventoryState::new(),
        InventoryState { fuse_small_count: 3, bottle_lightfuel_count: 0 },
    ];
    for inv in inventories.iter() {
        for flags in [WorldFlagsState::new(), flags_with("power", true)].iter() {
            let mut state = aimed_at(5, rule(vec![pair("toggle_door", "front_door")], vec![]));
            let done = state.click(true, true, 16_667, inv, flags);
            assert_eq!(
                done,
                Activation::Done {
                    events: vec![WorldEvent::Door(DoorEvent {
                        action: DoorEventAction::Toggle,
                        door: "front_door".to_string(),
                    })],
                    skipped: vec![],
                }
            );
        }
    }
}

#[test]
fn a_fuse_blocker_refuses_until_a_fuse_is_picked_up() {
    let flags = WorldFlagsState::new();
    let mut inv = InventoryState::new();
    let console = rule(
        vec![pair("consume_item", "fuse_small"), pair("enable_flag", "power")],
        vec![pair("holding.fuse_small", "Needs a fuse")],
    );
    let mut interactables: HashMap<u64, InteractableState> = HashMap::new();
    interactables.insert(5, InteractableState { interaction: console.clone() });

    let mut state = InteractablesState::new();
    let prompt = state.retarget(true, Some(EntityId { bits: 5 }), &interactables, &inv, &flags);
    assert_eq!(prompt, PromptUpdate::Show("\n\n\nx\n\nNeeds a fuse".to_string()));
    assert_eq!(state.click(true, true, 16_667, &inv, &flags), Activation::Refused);
    assert_eq!(state.blocked_rmn, 0);

    let pickup = InventoryEvent { action: InventoryEventAction::AddItem, item: InventoryItem::FuseSmall };
    assert!(inv.apply(&pickup));
    assert_eq!(inv.fuse_small_count, 1);

    // the player looks away and back: the target is checked again
    assert_eq!(state.retarget(true, None, &interactables, &inv, &flags), PromptUpdate::Clear);
    let prompt = state.retarget(true, Some(EntityId { bits: 5 }), &interactables, &inv, &flags);
    assert_eq!(prompt, PromptUpdate::Show("\n\n\n.\n\nUse".to_string()));
    match state.click(true, true, 16_667, &inv, &flags) {
        Activation::Done { events, skipped } => {
            assert_eq!(events.len(), 2);
            assert_eq!(skipped, Vec::<usize>::new());
        },
        other => panic!("the interaction is open, yet: {:?}", other),
    }
}

#[test]
fn the_wait_after_an_activation_runs_down_to_zero() {
    let inv = InventoryState::new();
    let flags = WorldFlagsState::new();
    let mut state = aimed_at(5, rule(vec![pair("toggle_light", "lamp")], vec![]));
    assert!(matches!(state.click(true, true, 16_667, &inv, &flags), Activation::Done { .. }));
    assert_eq!(state.blocked_rmn, 1_200_000);

    // half a second on, a click is not taken up
    assert_eq!(state.click(true, true, 500_000, &inv, &flags), Activation::Idle);
    assert_eq!(state.blocked_rmn, 700_000);
    assert_eq!(state.click(true, false, 500_000, &inv, &flags), Activation::Idle);
    assert_eq!(state.blocked_rmn, 200_000);
    // while the cursor is free the wait stands still
    assert_eq!(state.click(false, true, 500_000, &inv, &flags), Activation::Idle);
    assert_eq!(state.blocked_rmn, 200_000);
    // the wait ends at zero, not below, and no click was pending
    assert_eq!(state.click(true, false, 500_000, &inv, &flags), Activation::Idle);
    assert_eq!(state.blocked_rmn, 0);
    // now a click is taken up again
    assert!(matches!(state.click(true, true, 16_667, &inv, &flags), Activation::Done { .. }));
    assert_eq!(state.blocked_rmn, 1_200_000);
}

#[test]
fn a_click_in_the_tick_in_which_the_wait_ends_is_taken_up() {
    let inv = InventoryState::new();
    let flags = WorldFlagsState::new();
    let mut state = aimed_at(5, rule(vec![], vec![]));
    state.blocked_rmn = 10_000;
    assert_eq!(
        state.click(true, true, 10_000, &inv, &flags),
        Activation::Done { events: vec![], skipped: vec![] }
    );
    assert_eq!(state.blocked_rmn, INTERACTION_BLOCKED_DURATION);
}

#[test]
fn a_click_at_nothing_does_nothing() {
    let inv = InventoryState::new();
    let flags = WorldFlagsState::new();
    let mut state = InteractablesState::new();
    assert_eq!(state.click(true, true, 16_667, &inv, &flags), Activation::Idle);
    assert_eq!(state.blocked_rmn, 0);
}

#[test]
fn actions_run_in_order_and_unknown_ones_are_skipped() {
    let inv = InventoryState::new();
    let flags = WorldFlagsState::new();
    let mut state = aimed_at(
        9,
        rule(
            vec![
                pair("audio_playonce", ""),
                pair("explode", "now"),
                pair("toggle_door", "front_door"),
                pair("animate", "no_clip"),
                pair("despawn_self", ""),
            ],
            vec![pair("weather.rain", "It rains")],
        ),
    );
    assert_eq!(
        state.click(true, true, 0, &inv, &flags),
        Activation::Done {
            events: vec![
                WorldEvent::Audio(AudioEvent {
                    action: AudioEventAction::PlayOnce,
                    source: Some("big_switch".to_string()),
                }),
                WorldEvent::Door(DoorEvent {
                    action: DoorEventAction::Toggle,
                    door: "front_door".to_string(),
                }),
                WorldEvent::Despawn(EntityId { bits: 9 }),
            ],
            skipped: vec![1, 3],
        }
    );
}

#[test]
fn a_door_interactable_opens_and_closes_the_front_door() {
    let inv = InventoryState::new();
    let flags = WorldFlagsState::new();
    let mut doors: NameMap<DoorState> = NameMap::new();
    doors.insert(
        "front_door".to_string(),
        DoorState { parent_entity: Some(EntityId { bits: 2 }), open: false },
    );
    let mut interactables: HashMap<u64, InteractableState> = HashMap::new();
    interactables.insert(
        5,
        InteractableState { interaction: rule(vec![pair("toggle_door", "front_door")], vec![]) },
    );
    let mut state = InteractablesState::new();
    state.retarget(true, Some(EntityId { bits: 5 }), &interactables, &inv, &flags);
    assert!(!doors.get("front_door").unwrap().open);

    let mut activate = |state: &mut InteractablesState, doors: &mut NameMap<DoorState>| {
        match state.click(true, true, 16_667, &inv, &flags) {
            Activation::Done { events, .. } => {
                let mut turns = Vec::new();
                for event in events.iter() {
                    if let WorldEvent::Door(door_event) = event {
                        turns.push(update_door_interaction(doors, door_event).unwrap().motion);
                    }
                }
                turns
            },
            _ => Vec::new(),
        }
    };

    assert_eq!(activate(&mut state, &mut doors), vec![DoorMotion::Open]);
    assert!(doors.get("front_door").unwrap().open);

    // during the wait a second click does nothing
    assert_eq!(activate(&mut state, &mut doors), Vec::new());
    assert!(doors.get("front_door").unwrap().open);

    // once the wait is over the door closes again
    assert_eq!(state.click(true, false, 1_200_000, &inv, &flags), Activation::Idle);
    assert_eq!(state.blocked_rmn, 0);
    assert_eq!(activate(&mut state, &mut doors), vec![DoorMotion::Close]);
    assert!(!doors.get("front_door").unwrap().open);
}

#[test]
fn the_target_follows_the_ray() {
    let inv = InventoryState::new();
    let flags = WorldFlagsState::new();
    let mut interactables: HashMap<u64, InteractableState> = HashMap::new();
    let lever = rule(vec![], vec![]);
    interactables.insert(5, InteractableState { interaction: lever.clone() });
    let mut state = InteractablesState::new();

    // nothing hit, nothing aimed at before: no change
    assert_eq!(state.retarget(true, None, &interactables, &inv, &flags), PromptUpdate::Unchanged);
    // an entity that is no interactable is no target
    assert_eq!(
        state.retarget(true, Some(EntityId { bits: 6 }), &interactables, &inv, &flags),
        PromptUpdate::Unchanged
    );
    // a hit
    assert_eq!(
        state.retarget(true, Some(EntityId { bits: 5 }), &interactables, &inv, &flags),
        PromptUpdate::Show("\n\n\n.\n\nUse".to_string())
    );
    assert_eq!(state.active_interactable_entity, Some(EntityId { bits: 5 }));
    assert_eq!(state.active_interactable, Some(InteractableState { interaction: lever }));
    // the same hit again: the prompt is not worked out anew
    assert_eq!(
        state.retarget(true, Some(EntityId { bits: 5 }), &interactables, &inv, &flags),
        PromptUpdate::Unchanged
    );
    // while the cursor is free nothing changes
    assert_eq!(state.retarget(false, None, &interactables, &inv, &flags), PromptUpdate::Unchanged);
    assert_eq!(state.active_interactable_entity, Some(EntityId { bits: 5 }));
    // looking away clears the prompt
    assert_eq!(state.retarget(true, None, &interactables, &inv, &flags), PromptUpdate::Clear);
    assert_eq!(state.active_interactable_entity, None);
    assert_eq!(state.active_interactable, None);
}

#[test]
fn nothing_is_aimed_at_during_a_wait() {
    let inv = InventoryState::new();
    let flags = WorldFlagsState::new();
    let mut interactables: HashMap<u64, InteractableState> = HashMap::new();
    interactables.insert(5, InteractableState { interaction: rule(vec![], vec![]) });
    let mut state = InteractablesState::new();
    state.enter();
    assert_eq!(state.blocked_rmn, 400_000);
    assert_eq!(
        state.retarget(true, Some(EntityId { bits: 5 }), &interactables, &inv, &flags),
        PromptUpdate::Unchanged
    );
    assert_eq!(state.active_interactable_entity, None);

    // a target held when the wait begins is let go
    let mut state = aimed_at(5, rule(vec![], vec![]));
    state.blocked_rmn = 1;
    assert_eq!(
        state.retarget(true, Some(EntityId { bits: 5 }), &interactables, &inv, &flags),
        PromptUpdate::Clear
    );
    assert_eq!(state.active_interactable_entity, None);
}

#[test]
fn the_prompt_shows_the_first_blocker_in_the_way() {
    let inv = InventoryState::new();
    let flags = flags_with("power", true);
    let mut interactables: HashMap<u64, InteractableState> = HashMap::new();
    interactables.insert(
        5,
        InteractableState {
            interaction: rule(
                vec![],
                vec![
                    pair("flag_enabled.power", "No power"),
                    pair("holding.fuse_small", "Needs a fuse"),
                    pair("flag_enabled.key", "Locked"),
                ],
            ),
        },
    );
    let mut state = InteractablesState::new();
    assert_eq!(
        state.retarget(true, Some(EntityId { bits: 5 }), &interactables, &inv, &flags),
        PromptUpdate::Show("\n\n\nx\n\nNeeds a fuse".to_string())
    );
}

#[test]
fn blockers_that_are_understood_are_told_apart_from_the_rest() {
    assert!(is_known_blocker("holding.fuse_small"));
    assert!(is_known_blocker("holding.bottle_lightfuel"));
    assert!(is_known_blocker("flag_enabled.anything"));
    assert!(is_known_blocker("flag_enabled."));
    assert!(!is_known_blocker("holding.crowbar"));
    assert!(!is_known_blocker("holding"));
    assert!(!is_known_blocker("flag_enabled"));
    assert!(!is_known_blocker("weather.rain"));
}
