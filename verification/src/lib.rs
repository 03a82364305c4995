//! Client-side scene logic for a lobby of rooms and the room a player joins.
//!
//! A scene is a mode of the user interface: the lobby shows a row of room
//! slots, a room lets the player drag an avatar around. Each scene turns
//! server messages and pointer events into state changes, outbound actions
//! and draw commands; sockets, windows and the graphics backend stay with the
//! caller, which feeds the scenes plain values and carries out what they
//! return.

pub mod context;
pub mod controller;
pub mod events;
pub mod geometry;
pub mod graphics;
pub mod input_state;
pub mod protocol;
pub mod rooms_ui;
pub mod timers;
