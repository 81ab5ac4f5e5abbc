//! Aiming at interactables, and what happens when the player activates one.

use std::collections::HashMap;
use vstd::prelude::*;
use vstd::string::*;
use crate::entity::EntityId;
use crate::events::{events_of, events_view, parse_action, skipped_of, WorldEvent};
use crate::inventory_state::{
    item_named, InventoryEvent, InventoryEventAction, InventoryItem, InventoryState,
};
use crate::schema::{pairs_view, InteractionView};
use crate::text::{head_segment, same_text, second_segment, split_at_dot};
use crate::world_flags::{flag_enabled, WorldFlagsState};
use crate::world_state::InteractableState;

verus! {

broadcast use vstd::std_specs::hash::group_hash_axioms;

/// For how many microseconds nothing can be aimed at when gameplay begins.
pub const INITIAL_BLOCKED_DURATION: u64 = 400_000;

/// For how many microseconds nothing can be aimed at or activated after an
/// activation.
pub const INTERACTION_BLOCKED_DURATION: u64 = 1_200_000;

/// What is aimed at, and how long the player has to wait.
#[derive(Clone, Debug, Default, PartialEq, Eq)]
pub struct InteractablesState {
    pub active_interactable: Option<InteractableState>,
    pub active_interactable_entity: Option<EntityId>,
    /// Microseconds until the next interaction can begin.
    pub blocked_rmn: u64,
}

/// What to do with the prompt on the screen.
#[derive(Clone, Debug, PartialEq, Eq)]
pub enum PromptUpdate {
    /// Leave it as it is.
    Unchanged,
    /// Show nothing.
    Clear,
    /// Show this text.
    Show(String),
}

/// What came of a click.
#[derive(Clone, Debug, PartialEq, Eq)]
pub enum Activation {
    /// Nothing was activated: no click, nothing aimed at, or still waiting.
    Idle,
    /// The interactable aimed at is blocked.
    Refused,
    /// The interactable was activated. `events` are its requests in the
    /// order of its actions; `skipped` are the places of the actions that
    /// stand for none.
    Done { events: Vec<WorldEvent>, skipped: Vec<usize> },
}

/// Whether a blocker of this kind stands in the way. `holding.<item>` does
/// while none of the item is carried; `flag_enabled.<flag>` does while the
/// flag is not set. Any other kind, and an item that is not known, never
/// does.
pub open spec fn blocker_active(
    kind: Seq<char>,
    inventory: InventoryState,
    flags: Map<Seq<char>, bool>,
) -> bool {
    match second_segment(kind) {
        Some(name) => if head_segment(kind) == "holding"@ {
            match item_named(name) {
                Some(item) => inventory.count(item) == 0,
                None => false,
            }
        } else if head_segment(kind) == "flag_enabled"@ {
            !flag_enabled(flags, name)
        } else {
            false
        },
        None => false,
    }
}

/// Whether a blocker of this kind is understood: `holding.<item>` for an
/// item that is known, or `flag_enabled.<flag>`.
pub open spec fn blocker_known(kind: Seq<char>) -> bool {
    match second_segment(kind) {
        Some(name) => if head_segment(kind) == "holding"@ {
            item_named(name).is_some()
        } else {
            head_segment(kind) == "flag_enabled"@
        },
        None => false,
    }
}

/// The blockers that stand in the way, in their order.
pub open spec fn active_blockers(
    blockers: Seq<(Seq<char>, Seq<char>)>,
    inventory: InventoryState,
    flags: Map<Seq<char>, bool>,
) -> Seq<(Seq<char>, Seq<char>)> {
    blockers.filter(|b: (Seq<char>, Seq<char>)| blocker_active(b.0, inventory, flags))
}

/// Whether an interaction is open to the player: nothing stands in its way.
pub open spec fn available(
    rule: InteractionView,
    inventory: InventoryState,
    flags: Map<Seq<char>, bool>,
) -> bool {
    active_blockers(rule.blockers, inventory, flags).len() == 0
}

/// The prompt for an interaction: the explanation of the first blocker in
/// the way behind the mark of a blocked interaction, or else the
/// interaction's own text behind the mark of an open one.
pub open spec fn prompt_text(
    rule: InteractionView,
    inventory: InventoryState,
    flags: Map<Seq<char>, bool>,
) -> Seq<char> {
    let active = active_blockers(rule.blockers, inventory, flags);
    if active.len() > 0 {
        "\n\n\nx\n\n"@ + active[0].1
    } else {
        "\n\n\n.\n\n"@ + rule.interaction_text
    }
}

/// What the player aims at: the entity that the ray hit, where it is an
/// interactable of the level and the player does not have to wait.
pub open spec fn seen_target(
    blocked_rmn: u64,
    hit: Option<EntityId>,
    interactables: Map<u64, InteractableState>,
) -> Option<EntityId> {
    if blocked_rmn > 0 {
        None
    } else {
        match hit {
            Some(entity) => if interactables.contains_key(entity.bits) {
                Some(entity)
            } else {
                None
            },
            None => None,
        }
    }
}

/// What is left of a wait of `remaining` after `elapsed`, never below zero.
pub open spec fn cooled(remaining: u64, elapsed: u64) -> u64 {
    if remaining > elapsed {
        (remaining - elapsed) as u64
    } else {
        0
    }
}

/// Whether a click is taken up: the cursor is locked, the button was
/// pressed, the wait is over and something is aimed at.
pub open spec fn attempted(cursor_locked: bool, pressed: bool, remaining: u64, aimed: bool) -> bool {
    cursor_locked && pressed && remaining == 0 && aimed
}

/// What is left of a wait of `remaining` after the ticks in `elapsed`, one
/// after the other.
pub open spec fn cooled_over(remaining: u64, elapsed: Seq<u64>) -> u64
    decreases elapsed.len(),
{
    if elapsed.len() == 0 {
        remaining
    } else {
        cooled(cooled_over(remaining, elapsed.drop_last()), elapsed.last())
    }
}

/// The time that the ticks in `elapsed` take together.
pub open spec fn total(elapsed: Seq<u64>) -> int
    decreases elapsed.len(),
{
    if elapsed.len() == 0 {
        0
    } else {
        total(elapsed.drop_last()) + elapsed.last()
    }
}

/// Only a blocker that is understood can stand in the way.
pub proof fn lemma_unknown_blocker_never_blocks(
    kind: Seq<char>,
    inventory: InventoryState,
    flags: Map<Seq<char>, bool>,
)
    requires
        !blocker_known(kind),
    ensures
        !blocker_active(kind, inventory, flags),
{
}

/// Where no blocker of a list stands in the way, the list of those that do
/// is empty.
pub proof fn lemma_none_active(
    blockers: Seq<(Seq<char>, Seq<char>)>,
    inventory: InventoryState,
    flags: Map<Seq<char>, bool>,
)
    requires
        forall|i: int| 0 <= i < blockers.len() ==> !blocker_active(blockers[i].0, inventory, flags),
    ensures
        active_blockers(blockers, inventory, flags).len() == 0,
    decreases blockers.len(),
{
    reveal(Seq::filter);
    if blockers.len() > 0 {
        lemma_none_active(blockers.drop_last(), inventory, flags);
    }
}

/// An interaction without blockers is open whatever the player carries and
/// whatever flags are set: a click on it is never refused.
pub proof fn lemma_no_blockers_never_refused(
    rule: InteractionView,
    inventory: InventoryState,
    flags: Map<Seq<char>, bool>,
)
    requires
        rule.blockers.len() == 0,
    ensures
        available(rule, inventory, flags),
{
    lemma_none_active(rule.blockers, inventory, flags);
}

/// A blocker `holding.<item>` stands in the way while none of the item is
/// carried, so the interaction is refused. Once one was picked up that
/// blocker stands in the way no longer, and where no other blocker does
/// either the interaction is open.
pub proof fn lemma_holding_blocks_until_pickup(
    rule: InteractionView,
    i: int,
    item: InventoryItem,
    inventory: InventoryState,
    flags: Map<Seq<char>, bool>,
)
    requires
        0 <= i < rule.blockers.len(),
        head_segment(rule.blockers[i].0) == "holding"@,
        second_segment(rule.blockers[i].0) matches Some(name) && item_named(name) == Some(item),
        inventory.count(item) == 0,
    ensures
        !available(rule, inventory, flags),
        ({
            let carrying = inventory.after(
                InventoryEvent { action: InventoryEventAction::AddItem, item },
            );
            &&& carrying.count(item) == 1
            &&& !blocker_active(rule.blockers[i].0, carrying, flags)
            &&& (forall|j: int|
                0 <= j < rule.blockers.len() && j != i ==> !blocker_active(
                    rule.blockers[j].0,
                    carrying,
                    flags,
                )) ==> available(rule, carrying, flags)
        }),
{
    let pred = |b: (Seq<char>, Seq<char>)| blocker_active(b.0, inventory, flags);
    assert(pred(rule.blockers[i]));
    rule.blockers.lemma_filter_contains(pred, i);
    let carrying = inventory.after(InventoryEvent { action: InventoryEventAction::AddItem, item });
    if forall|j: int|
        0 <= j < rule.blockers.len() && j != i ==> !blocker_active(
            rule.blockers[j].0,
            carrying,
            flags,
        ) {
        lemma_none_active(rule.blockers, carrying, flags);
    }
}

/// A wait runs down by the time of each tick and stops at zero: it never
/// grows and never falls below zero, and while it lasts no click is taken up.
pub proof fn lemma_cooldown_runs_down(
    remaining: u64,
    elapsed: u64,
    cursor_locked: bool,
    pressed: bool,
    aimed: bool,
)
    ensures
        0 <= cooled(remaining, elapsed) <= remaining,
        cooled(remaining, elapsed) == if remaining >= elapsed {
            remaining - elapsed
        } else {
            0
        },
        cooled(remaining, elapsed) > 0 ==> !attempted(
            cursor_locked,
            pressed,
            cooled(remaining, elapsed),
            aimed,
        ),
{
}

/// Over any number of ticks a wait comes down by the time they take
/// together, and stops at zero.
pub proof fn lemma_cooldown_over_ticks(remaining: u64, elapsed: Seq<u64>)
    ensures
        cooled_over(remaining, elapsed) == if remaining >= total(elapsed) {
            remaining - total(elapsed)
        } else {
            0
        },
        total(elapsed) >= 0,
    decreases elapsed.len(),
{
    if elapsed.len() > 0 {
        lemma_cooldown_over_ticks(remaining, elapsed.drop_last());
    }
}

/// How far the ray from the player's view reaches, in millimetres: further
/// when the camera stands behind the player.
pub fn ray_reach(third_person: bool) -> (reach: u32)
    ensures
        reach == if third_person { 2500u32 } else { 1700u32 },
{
    if third_person {
        2500
    } else {
        1700
    }
}

/// Whether a blocker of this kind stands in the way.
pub fn is_blocking(kind: &str, inventory: &InventoryState, flags: &WorldFlagsState) -> (active: bool)
    ensures
        active == blocker_active(kind@, *inventory, flags.flags@),
{
    let (head, rest) = split_at_dot(kind);
    match rest {
        Some(rest) => {
            let (name, _) = split_at_dot(rest);
            if same_text(head, "holding") {
                match InventoryItem::from_name(name) {
                    Some(item) => inventory.count_of(item) == 0,
                    None => false,
                }
            } else if same_text(head, "flag_enabled") {
                !flags.is_enabled(name)
            } else {
                false
            }
        },
        None => false,
    }
}

/// Whether a blocker of this kind is understood. One that is not never
/// blocks, and is worth a line in the log.
pub fn is_known_blocker(kind: &str) -> (known: bool)
    ensures
        known == blocker_known(kind@),
{
    let (head, rest) = split_at_dot(kind);
    match rest {
        Some(rest) => {
            let (name, _) = split_at_dot(rest);
            if same_text(head, "holding") {
                InventoryItem::from_name(name).is_some()
            } else {
                same_text(head, "flag_enabled")
            }
        },
        None => false,
    }
}

/// The blockers that stand in the way, in their order. The interaction is
/// open exactly when the list is empty.
pub fn check_blockers(
    blockers: &Vec<(String, String)>,
    inventory: &InventoryState,
    flags: &WorldFlagsState,
) -> (active: Vec<(String, String)>)
    ensures
        pairs_view(active@) == active_blockers(pairs_view(blockers@), *inventory, flags.flags@),
{
    let ghost pred = |b: (Seq<char>, Seq<char>)| blocker_active(b.0, *inventory, flags.flags@);
    let mut active: Vec<(String, String)> = Vec::new();
    let mut i: usize = 0;
    proof {
        reveal(Seq::filter);
        assert(pairs_view(blockers@.take(0)) =~= Seq::<(Seq<char>, Seq<char>)>::empty());
        assert(pairs_view(active@) =~= pairs_view(blockers@.take(0)).filter(pred));
    }
    while i < blockers.len()
        invariant
            i <= blockers.len(),
            pred == |b: (Seq<char>, Seq<char>)| blocker_active(b.0, *inventory, flags.flags@),
            pairs_view(active@) == pairs_view(blockers@.take(i as int)).filter(pred),
        decreases blockers.len() - i,
    {
        let ghost before = pairs_view(blockers@.take(i as int));
        let ghost next = pairs_view(blockers@.take(i as int + 1));
        let ghost entry = (blockers[i as int].0@, blockers[i as int].1@);
        proof {
            reveal(Seq::filter);
            assert(next =~= before.push(entry));
            assert(next.drop_last() =~= before);
            assert(next.last() == entry);
        }
        if is_blocking(blockers[i].0.as_str(), inventory, flags) {
            let ghost kept = pairs_view(active@);
            active.push((blockers[i].0.clone(), blockers[i].1.clone()));
            assert(pairs_view(active@) =~= kept.push(entry));
        }
        i += 1;
    }
    assert(blockers@.take(blockers.len() as int) =~= blockers@);
    active
}

impl InteractablesState {
    /// Nothing is aimed at and there is no wait.
    pub fn new() -> (state: Self)
        ensures
            state.active_interactable.is_none(),
            state.active_interactable_entity.is_none(),
            state.blocked_rmn == 0,
    {
        InteractablesState {
            active_interactable: None,
            active_interactable_entity: None,
            blocked_rmn: 0,
        }
    }

    /// Gameplay begins: input is held back for a moment.
    pub fn enter(&mut self)
        ensures
            final(self).blocked_rmn == INITIAL_BLOCKED_DURATION,
            final(self).active_interactable == old(self).active_interactable,
            final(self).active_interactable_entity == old(self).active_interactable_entity,
    {
        self.blocked_rmn = INITIAL_BLOCKED_DURATION;
    }

    /// Takes in what the ray from the player's view hit in this tick. While
    /// the cursor is free nothing happens. Where the target is the same as
    /// before, nothing changes. Where it changed, the new target and its rule
    /// are kept, and the prompt is to show whether the interaction is open.
    pub fn retarget(
        &mut self,
        cursor_locked: bool,
        hit: Option<EntityId>,
        interactables: &HashMap<u64, InteractableState>,
        inventory: &InventoryState,
        flags: &WorldFlagsState,
    ) -> (prompt: PromptUpdate)
        ensures
            final(self).blocked_rmn == old(self).blocked_rmn,
            ({
                let seen = seen_target(old(self).blocked_rmn, hit, interactables@);
                if !cursor_locked || seen == old(self).active_interactable_entity {
                    &&& prompt == PromptUpdate::Unchanged
                    &&& *final(self) == *old(self)
                } else {
                    &&& final(self).active_interactable_entity == seen
                    &&& match seen {
                        Some(entity) => {
                            &&& final(self).active_interactable matches Some(state)
                            &&& state@ == interactables@[entity.bits]@
                            &&& prompt matches PromptUpdate::Show(text)
                            &&& text@ == prompt_text(state@, *inventory, flags.flags@)
                        },
                        None => {
                            &&& final(self).active_interactable.is_none()
                            &&& prompt == PromptUpdate::Clear
                        },
                    }
                }
            }),
    {
        if !cursor_locked {
            return PromptUpdate::Unchanged;
        }
        let seen: Option<EntityId> = if self.blocked_rmn > 0 {
            None
        } else {
            match hit {
                Some(entity) => if interactables.contains_key(&entity.bits) {
                    Some(entity)
                } else {
                    None
                },
                None => None,
            }
        };
        let same = match (seen, self.active_interactable_entity) {
            (Some(a), Some(b)) => a.bits == b.bits,
            (None, None) => true,
            _ => false,
        };
        if same {
            return PromptUpdate::Unchanged;
        }
        match seen {
            Some(entity) => {
                let found = interactables.get(&entity.bits);
                let rule = &found.unwrap().interaction;
                let active = check_blockers(&rule.blockers, inventory, flags);
                let text = if active.len() > 0 {
                    String::from_str("\n\n\nx\n\n").concat(active[0].1.as_str())
                } else {
                    String::from_str("\n\n\n.\n\n").concat(rule.interaction_text.as_str())
                };
                self.active_interactable = Some(InteractableState { interaction: rule.duplicate() });
                self.active_interactable_entity = seen;
                PromptUpdate::Show(text)
            },
            None => {
                self.active_interactable = None;
                self.active_interactable_entity = None;
                PromptUpdate::Clear
            },
        }
    }

    /// Takes in one tick of `elapsed` microseconds and whether the button
    /// was pressed in it. While the cursor is free nothing happens. Else the
    /// wait runs down. A click is taken up once the wait is over and
    /// something is aimed at: where a blocker stands in the way it is
    /// refused; else every action of the rule that is known becomes a
    /// request, in order, and a new wait begins.
    pub fn click(
        &mut self,
        cursor_locked: bool,
        pressed: bool,
        elapsed: u64,
        inventory: &InventoryState,
        flags: &WorldFlagsState,
    ) -> (activation: Activation)
        ensures
            final(self).active_interactable == old(self).active_interactable,
            final(self).active_interactable_entity == old(self).active_interactable_entity,
            !cursor_locked ==> final(self).blocked_rmn == old(self).blocked_rmn,
            ({
                let remaining = cooled(old(self).blocked_rmn, elapsed);
                if attempted(cursor_locked, pressed, remaining, old(self).active_interactable.is_some()) {
                    let rule = old(self).active_interactable.unwrap()@;
                    let target = old(self).active_interactable_entity;
                    if available(rule, *inventory, flags.flags@) {
                        &&& final(self).blocked_rmn == INTERACTION_BLOCKED_DURATION
                        &&& activation matches Activation::Done { events, skipped }
                        &&& events_view(events@) == events_of(
                            rule.actions,
                            target,
                            rule.actions.len() as int,
                        )
                        &&& skipped@ == skipped_of(rule.actions, target, rule.actions.len() as int)
                    } else {
                        &&& final(self).blocked_rmn == 0
                        &&& activation == Activation::Refused
                    }
                } else {
                    &&& activation == Activation::Idle
                    &&& cursor_locked ==> final(self).blocked_rmn == remaining
                }
            }),
    {
        if !cursor_locked {
            return Activation::Idle;
        }
        if self.blocked_rmn > elapsed {
            self.blocked_rmn = self.blocked_rmn - elapsed;
        } else {
            self.blocked_rmn = 0;
        }
        if !pressed || self.blocked_rmn > 0 {
            return Activation::Idle;
        }
        let target = self.active_interactable_entity;
        let activation = match &self.active_interactable {
            Some(state) => {
                let rule = &state.interaction;
                let active = check_blockers(&rule.blockers, inventory, flags);
                if active.len() > 0 {
                    assert(pairs_view(active@).len() > 0);
                    return Activation::Refused;
                }
                assert(pairs_view(active@).len() == 0);
                let ghost actions = pairs_view(rule.actions@);
                let mut events: Vec<WorldEvent> = Vec::new();
                let mut skipped: Vec<usize> = Vec::new();
                let mut i: usize = 0;
                assert(events_view(events@) =~= events_of(actions, target, 0));
                while i < rule.actions.len()
                    invariant
                        i <= rule.actions.len(),
                        actions == pairs_view(rule.actions@),
                        events_view(events@) == events_of(actions, target, i as int),
                        skipped@ == skipped_of(actions, target, i as int),
                    decreases rule.actions.len() - i,
                {
                    let ghost sent = events_view(events@);
                    let action = &rule.actions[i];
                    match parse_action(action.0.as_str(), action.1.as_str(), target) {
                        Some(event) => {
                            events.push(event);
                            assert(events_view(events@) =~= sent.push(event@));
                        },
                        None => {
                            skipped.push(i);
                        },
                    }
                    i += 1;
                }
                Activation::Done { events, skipped }
            },
            None => {
                return Activation::Idle;
            },
        };
        self.blocked_rmn = INTERACTION_BLOCKED_DURATION;
        activation
    }
}

} // verus!
