//! The flags that record what the player has achieved.

use vstd::prelude::*;
use crate::name_map::NameMap;

verus! {

/// What a flag event does.
#[derive(Clone, Copy, Debug, PartialEq, Eq, Structural)]
pub enum WorldFlagsEventAction {
    Enable,
}

/// A request to change a flag.
#[derive(Clone, Debug, PartialEq, Eq)]
pub struct WorldFlagsEvent {
    pub action: WorldFlagsEventAction,
    pub flag: String,
}

/// The flags by name. The flags outlive a level.
pub struct WorldFlagsState {
    pub flags: NameMap<bool>,
}

/// Whether `flag` is set: a flag that was never mentioned is not.
pub open spec fn flag_enabled(flags: Map<Seq<char>, bool>, flag: Seq<char>) -> bool {
    flags.contains_key(flag) && flags[flag]
}

impl WorldFlagsState {
    /// No flag is set.
    pub fn new() -> (state: Self)
        ensures
            state.flags@ == Map::<Seq<char>, bool>::empty(),
    {
        WorldFlagsState { flags: NameMap::new() }
    }

    /// Whether `flag` is set.
    pub fn is_enabled(&self, flag: &str) -> (enabled: bool)
        ensures
            enabled == flag_enabled(self.flags@, flag@),
    {
        match self.flags.get(flag) {
            Some(value) => *value,
            None => false,
        }
    }

    /// Sets the flag that `event` names.
    pub fn apply(&mut self, event: &WorldFlagsEvent)
        ensures
            final(self).flags@ == old(self).flags@.insert(event.flag@, true),
            flag_enabled(final(self).flags@, event.flag@),
    {
        match event.action {
            WorldFlagsEventAction::Enable => {
                self.flags.insert(event.flag.clone(), true);
            },
        }
    }
}

} // verus!
