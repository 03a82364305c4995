//! Handles of drawable objects and the commands a scene issues to draw a
//! frame.
//!
//! A scene decides what is drawn and in which order; the graphics backend
//! lives with the caller, which owns the programs and buffers that the
//! commands name.

use vstd::prelude::*;

verus! {

/// The buffers of one drawable object on the graphics device.
#[derive(Clone, Copy, Debug, PartialEq, Eq, Structural)]
pub struct Gfx {
    /// The vertex array that is bound to draw the object.
    pub vao: u32,
    /// The buffer that holds the object's vertices.
    pub vbo: u32,
}

/// A shader program of a scene.
#[derive(Clone, Copy, Debug, PartialEq, Eq, Structural)]
pub enum Program {
    /// Paints the animated backdrop of the lobby.
    Background,
    /// Paints rooms and the avatar in one flat colour.
    Shape,
}

/// One step of drawing a frame.
#[derive(Clone, Copy, Debug, PartialEq, Eq, Structural)]
pub enum DrawCommand {
    /// Wipe the frame.
    Clear,
    /// Switch to a program and hand it the projection of its scene.
    UseProgram(Program),
    /// Hand the current program the time since the scene began, in
    /// milliseconds, as the phase of its animation.
    Phase(i64),
    /// Draw the backdrop that fills the window.
    Backdrop,
    /// Draw the rectangle of a room from its vertex array.
    Room { vao: u32 },
    /// Draw the avatar.
    Avatar,
}

} // verus!
