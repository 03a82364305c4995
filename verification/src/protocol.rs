//! Typed messages and actions that cross the boundary between the client's
//! logic and the network.
//!
//! Neither the scenes nor their controller read sockets or encode
//! datagrams. Whoever drives them decodes what arrived into a
//! [`ServerMessage`] and carries out each [`ClientAction`] that is handed
//! back.

use vstd::prelude::*;

verus! {

/// A message from the server, as far as the scenes tell messages apart.
#[derive(Clone, Copy, Debug, PartialEq, Eq, Structural)]
pub enum ServerMessage {
    /// The room with this number is now open (`is_active`) or closed.
    RoomStatus { number: u8, is_active: bool },
    /// The whole lobby is open: every room is active.
    ServerOn,
    /// A message of any other kind.
    Other,
}

/// Something the driver of the client is asked to do.
#[derive(Clone, Copy, Debug, PartialEq, Eq, Structural)]
pub enum ClientAction {
    /// Ask the server to send this client its messages from now on.
    Connect,
    /// Tell the server that this client no longer listens.
    Disconnect,
    /// Tell the server that the player enters the room with this number.
    JoinRoom { number: u8 },
    /// The avatar is dragged along the vector `(dx, dy)`, which is not zero,
    /// for `dt` milliseconds: tell the server the direction, as the unit
    /// vector along `(dx, dy)`, and move the avatar by that unit vector times
    /// `dt`.
    Drag { dx: i64, dy: i64, dt: i64 },
    /// The avatar is dragged while the pointer rests on the origin of the
    /// room, so there is no direction to go: tell the server the zero
    /// direction and leave the avatar where it is.
    DragInPlace,
    /// Tell the server that the avatar has stopped.
    StopMove,
}

} // verus!
