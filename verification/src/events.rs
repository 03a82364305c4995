//! Raw input events, reduced to what the scenes read from them.

use vstd::prelude::*;

verus! {

/// A button of the pointing device.
#[derive(Clone, Copy, Debug, PartialEq, Eq, Structural)]
pub enum MouseButton {
    Unknown,
    Left,
    Middle,
    Right,
    X1,
    X2,
}

/// One event of the window system.
///
/// Coordinates are those of the window system: the origin is the top left
/// corner of the window and `y` grows downwards.
#[derive(Clone, Copy, Debug, PartialEq, Eq, Structural)]
pub enum Event {
    /// A button went down at `(x, y)`.
    MouseButtonDown { x: i32, y: i32, mouse_btn: MouseButton },
    /// A button came up at `(x, y)`.
    MouseButtonUp { x: i32, y: i32, mouse_btn: MouseButton },
    /// The pointer moved to `(x, y)`.
    MouseMotion { x: i32, y: i32 },
    /// The user asked to leave.
    Quit,
    /// Any other event: keys, window changes and the like.
    Other,
}

} // verus!
