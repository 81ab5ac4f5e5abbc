//! From the keys held to what the player wants.

use vstd::prelude::*;

verus! {

/// What the keyboard says in one tick, by the role of each key.
#[derive(Clone, Copy, Debug, Default, PartialEq, Eq, Structural)]
pub struct KeyReadout {
    pub forward_held: bool,
    pub backward_held: bool,
    pub left_held: bool,
    pub right_held: bool,
    pub run_held: bool,
    pub crouch_held: bool,
    pub jump_held: bool,
    pub jump_pressed: bool,
    pub fly_pressed: bool,
    pub toggleview_pressed: bool,
    pub escape_pressed: bool,
}

/// What the player wants in one tick.
#[derive(Clone, Copy, Debug, Default, PartialEq, Eq, Structural)]
pub struct KeyInputState {
    pub forward: bool,
    pub backward: bool,
    pub left: bool,
    pub right: bool,
    pub run: bool,
    pub up: bool,
    pub down: bool,
    pub jump: bool,
    pub toggle_fly: bool,
    pub toggle_view: bool,
}

/// What the player wants for the keys held: every wish needs the cursor to be
/// locked.
pub open spec fn wishes(keys: KeyReadout, cursor_locked: bool) -> KeyInputState {
    KeyInputState {
        forward: cursor_locked && keys.forward_held,
        backward: cursor_locked && keys.backward_held,
        left: cursor_locked && keys.left_held,
        right: cursor_locked && keys.right_held,
        run: cursor_locked && keys.run_held,
        up: cursor_locked && keys.jump_held,
        down: cursor_locked && keys.crouch_held,
        jump: cursor_locked && keys.jump_pressed,
        toggle_fly: cursor_locked && keys.fly_pressed,
        toggle_view: cursor_locked && keys.toggleview_pressed,
    }
}

/// Reads the keyboard for one tick: what the player wants, and whether the
/// game is to pause, which escape asks for while the cursor is locked.
pub fn input_to_move(keys: &KeyReadout, cursor_locked: bool) -> (read: (KeyInputState, bool))
    ensures
        read.0 == wishes(*keys, cursor_locked),
        read.1 == (cursor_locked && keys.escape_pressed),
{
    let state = KeyInputState {
        forward: cursor_locked && keys.forward_held,
        backward: cursor_locked && keys.backward_held,
        left: cursor_locked && keys.left_held,
        right: cursor_locked && keys.right_held,
        run: cursor_locked && keys.run_held,
        up: cursor_locked && keys.jump_held,
        down: cursor_locked && keys.crouch_held,
        jump: cursor_locked && keys.jump_pressed,
        toggle_fly: cursor_locked && keys.fly_pressed,
        toggle_view: cursor_locked && keys.toggleview_pressed,
    };
    (state, cursor_locked && keys.escape_pressed)
}

} // verus!
