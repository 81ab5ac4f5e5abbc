//! What the player carries.

use vstd::prelude::*;
use crate::text::same_text;

verus! {

/// The kinds of item that can be carried.
#[derive(Clone, Copy, Debug, PartialEq, Eq, Structural)]
pub enum InventoryItem {
    BottleLightFuel,
    FuseSmall,
}

/// What an inventory event does.
#[derive(Clone, Copy, Debug, PartialEq, Eq, Structural)]
pub enum InventoryEventAction {
    AddItem,
    RemoveItem,
}

/// A request to add or remove one item.
#[derive(Clone, Copy, Debug, PartialEq, Eq, Structural)]
pub struct InventoryEvent {
    pub action: InventoryEventAction,
    pub item: InventoryItem,
}

/// How many of each item the player carries. The counts outlive a level.
#[derive(Clone, Copy, Debug, Default, PartialEq, Eq, Structural)]
pub struct InventoryState {
    pub fuse_small_count: usize,
    pub bottle_lightfuel_count: usize,
}

/// The item that a world file calls `name`.
pub open spec fn item_named(name: Seq<char>) -> Option<InventoryItem> {
    if name == "fuse_small"@ {
        Some(InventoryItem::FuseSmall)
    } else if name == "bottle_lightfuel"@ {
        Some(InventoryItem::BottleLightFuel)
    } else {
        None
    }
}

/// The item that an action on `name` is about: a name that no item goes by
/// stands for the small fuse.
pub open spec fn item_or_default(name: Seq<char>) -> InventoryItem {
    match item_named(name) {
        Some(item) => item,
        None => InventoryItem::FuseSmall,
    }
}

impl InventoryItem {
    /// The item that a world file calls `name`.
    pub fn from_name(name: &str) -> (item: Option<InventoryItem>)
        ensures
            item == item_named(name@),
    {
        if same_text(name, "fuse_small") {
            Some(InventoryItem::FuseSmall)
        } else if same_text(name, "bottle_lightfuel") {
            Some(InventoryItem::BottleLightFuel)
        } else {
            None
        }
    }
}

impl InventoryState {
    /// How many of `item` are carried.
    pub open spec fn count(self, item: InventoryItem) -> usize {
        match item {
            InventoryItem::FuseSmall => self.fuse_small_count,
            InventoryItem::BottleLightFuel => self.bottle_lightfuel_count,
        }
    }

    /// The inventory in which `item` is carried `n` times and the rest is as
    /// before.
    pub open spec fn with_count(self, item: InventoryItem, n: usize) -> InventoryState {
        match item {
            InventoryItem::FuseSmall => InventoryState { fuse_small_count: n, ..self },
            InventoryItem::BottleLightFuel => InventoryState { bottle_lightfuel_count: n, ..self },
        }
    }

    /// Whether `event` can take effect: there is room for one more, or one
    /// to take away.
    pub open spec fn admits(self, event: InventoryEvent) -> bool {
        match event.action {
            InventoryEventAction::AddItem => self.count(event.item) < usize::MAX,
            InventoryEventAction::RemoveItem => self.count(event.item) > 0,
        }
    }

    /// The inventory after `event`. An event that cannot take effect leaves
    /// it as it is: a count neither passes the largest number nor falls below
    /// zero.
    pub open spec fn after(self, event: InventoryEvent) -> InventoryState {
        if self.admits(event) {
            match event.action {
                InventoryEventAction::AddItem => self.with_count(
                    event.item,
                    (self.count(event.item) + 1) as usize,
                ),
                InventoryEventAction::RemoveItem => self.with_count(
                    event.item,
                    (self.count(event.item) - 1) as usize,
                ),
            }
        } else {
            self
        }
    }

    /// The empty inventory.
    pub fn new() -> (inventory: Self)
        ensures
            inventory.fuse_small_count == 0,
            inventory.bottle_lightfuel_count == 0,
    {
        InventoryState { fuse_small_count: 0, bottle_lightfuel_count: 0 }
    }

    /// How many of `item` are carried.
    pub fn count_of(&self, item: InventoryItem) -> (n: usize)
        ensures
            n == self.count(item),
    {
        match item {
            InventoryItem::FuseSmall => self.fuse_small_count,
            InventoryItem::BottleLightFuel => self.bottle_lightfuel_count,
        }
    }

    /// Whether `item` is shown in the inventory overlay: only what is carried.
    pub fn shows(&self, item: InventoryItem) -> (shown: bool)
        ensures
            shown == (self.count(item) > 0),
    {
        self.count_of(item) > 0
    }

    /// Adds or removes one item, and says whether the event took effect.
    /// Removing an item that is not carried leaves the count at zero.
    pub fn apply(&mut self, event: &InventoryEvent) -> (applied: bool)
        ensures
            applied == old(self).admits(*event),
            *final(self) == old(self).after(*event),
    {
        let now = self.count_of(event.item);
        let next = match event.action {
            InventoryEventAction::AddItem => {
                if now == usize::MAX {
                    return false;
                }
                now + 1
            },
            InventoryEventAction::RemoveItem => {
                if now == 0 {
                    return false;
                }
                now - 1
            },
        };
        match event.item {
            InventoryItem::FuseSmall => {
                self.fuse_small_count = next;
            },
            InventoryItem::BottleLightFuel => {
                self.bottle_lightfuel_count = next;
            },
        }
        true
    }
}

} // verus!
