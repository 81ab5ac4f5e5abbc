use grahams_relay::inventory_state::{
    InventoryEvent, InventoryEventAction, InventoryItem, InventoryState,
};
use grahams_relay::world_flags::{WorldFlagsEvent, WorldFlagsEventAction, WorldFlagsState};

fn add(item: InventoryItem) -> InventoryEvent {
    InventoryEvent { action: InventoryEventAction::AddItem, item }
}

fn remove(item: InventoryItem) -> InventoryEvent {
    InventoryEvent { action: InventoryEventAction::RemoveItem, item }
}

#[test]
fn items_are_known_by_name() {
    assert_eq!(InventoryItem::from_name("fuse_small"), Some(InventoryItem::FuseSmall));
    assert_eq!(InventoryItem::from_name("bottle_lightfuel"), Some(InventoryItem::BottleLightFuel));
    assert_eq!(InventoryItem::from_name("fuse_large"), None);
    assert_eq!(InventoryItem::from_name(""), None);
}

#[test]
fn adding_counts_up_one_item_only() {
    let mut inv = InventoryState::new();
    assert!(inv.apply(&add(InventoryItem::FuseSmall)));
    assert!(inv.apply(&add(InventoryItem::FuseSmall)));
    assert_eq!(inv.fuse_small_count, 2);
    assert_eq!(inv.bottle_lightfuel_count, 0);
    assert_eq!(inv.count_of(InventoryItem::FuseSmall), 2);
    assert!(inv.shows(InventoryItem::FuseSmall));
    assert!(!inv.shows(InventoryItem::BottleLightFuel));
}

#[test]
fn consuming_an_item_that_is_not_carried_leaves_the_count_at_zero() {
    let mut inv = InventoryState::new();
    assert_eq!(inv.fuse_small_count, 0);
    let applied = inv.apply(&remove(InventoryItem::FuseSmall));
    assert!(!applied);
    assert_eq!(inv.fuse_small_count, 0);
    assert_eq!(inv.bottle_lightfuel_count, 0);
}

#[test]
fn removing_counts_down() {
    let mut inv = InventoryState { fuse_small_count: 2, bottle_lightfuel_count: 1 };
    assert!(inv.apply(&remove(InventoryItem::FuseSmall)));
    assert_eq!(inv.fuse_small_count, 1);
    assert!(inv.apply(&remove(InventoryItem::BottleLightFuel)));
    assert_eq!(inv.bottle_lightfuel_count, 0);
    assert!(!inv.apply(&remove(InventoryItem::BottleLightFuel)));
}

#[test]
fn a_full_count_takes_no_more() {
    let mut inv = InventoryState { fuse_small_count: usize::MAX, bottle_lightfuel_count: 0 };
    assert!(!inv.apply(&add(InventoryItem::FuseSmall)));
    assert_eq!(inv.fuse_small_count, usize::MAX);
}

#[test]
fn a_flag_is_set_once_enabled() {
    let mut flags = WorldFlagsState::new();
    assert!(!flags.is_enabled("power_on"));
    flags.apply(&WorldFlagsEvent {
        action: WorldFlagsEventAction::Enable,
        flag: "power_on".to_string(),
    });
    assert!(flags.is_enabled("power_on"));
    assert!(!flags.is_enabled("power_off"));
}

#[test]
fn a_flag_that_was_stored_as_false_is_not_set() {
    let mut flags = WorldFlagsState::new();
    flags.flags.insert("gate".to_string(), false);
    assert!(!flags.is_enabled("gate"));
}
