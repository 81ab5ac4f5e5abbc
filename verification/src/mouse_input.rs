//! Whether the cursor belongs to the game.

use vstd::prelude::*;

verus! {

/// Whether the cursor is locked to the window: only then does input reach
/// the world.
#[derive(Clone, Copy, Debug, Default, PartialEq, Eq, Structural)]
pub struct CursorLockState {
    pub enabled: bool,
}

/// The lock after a tick: escape frees the cursor, and else the left button
/// locks it.
pub open spec fn lock_after(enabled: bool, escape_pressed: bool, left_held: bool) -> bool {
    if escape_pressed {
        false
    } else if left_held {
        true
    } else {
        enabled
    }
}

/// Takes in escape and the left mouse button for one tick. Where either
/// decides, the caller gets the lock to set on the window, set again even
/// where it was set before.
pub fn update_cursor_lock(
    lock: &mut CursorLockState,
    escape_pressed: bool,
    left_held: bool,
) -> (set: Option<bool>)
    ensures
        final(lock).enabled == lock_after(old(lock).enabled, escape_pressed, left_held),
        set == if escape_pressed {
            Some(false)
        } else if left_held {
            Some(true)
        } else {
            None
        },
{
    if escape_pressed {
        lock.enabled = false;
        Some(false)
    } else if left_held {
        lock.enabled = true;
        Some(true)
    } else {
        None
    }
}

} // verus!
