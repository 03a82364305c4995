//! Pointer state as a scene sees it between two simulation steps.

use vstd::prelude::*;

verus! {

/// Snapshot of the pointer: where it was last seen and what the drag button
/// is doing.
///
/// `mouse_rbtn_pressed` is a level: it holds for as long as the button is
/// down. The two `was_*` flags are edges: an input event raises them and the
/// next simulation step lowers them again after acting on them once.
#[derive(Clone, Copy, Debug, PartialEq, Eq, Structural)]
pub struct InputState {
    pub mouse_rbtn_pressed: bool,
    pub mouse_rbtn_was_pressed: bool,
    pub mouse_rbtn_was_released: bool,
    pub mouse_x: i32,
    pub mouse_y: i32,
}

impl InputState {
    /// The state of a pointer that has not been seen yet.
    pub open spec fn initial() -> InputState {
        InputState {
            mouse_rbtn_pressed: false,
            mouse_rbtn_was_pressed: false,
            mouse_rbtn_was_released: false,
            mouse_x: 0,
            mouse_y: 0,
        }
    }

    /// A fresh state: button up, no pending edge, pointer at the origin.
    pub fn default() -> (state: InputState)
        ensures
            state == InputState::initial(),
    {
        InputState {
            mouse_rbtn_pressed: false,
            mouse_rbtn_was_pressed: false,
            mouse_rbtn_was_released: false,
            mouse_x: 0,
            mouse_y: 0,
        }
    }
}

} // verus!
