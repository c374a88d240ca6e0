//! The decisions of a small textured-cube scene: which action each window
//! event asks for, how the render mode changes over a frame of events, which
//! camera moves the held keys ask for, and how the interleaved vertex buffer
//! is laid out.

pub mod frame;
pub mod input;
pub mod laws;
pub mod layout;
pub mod movement;

use vstd::prelude::*;

verus! {

/// Width of the window in screen coordinates.
pub const SCR_WIDTH: u32 = 1080;

/// Height of the window in screen coordinates.
pub const SCR_HEIGHT: u32 = 720;

/// Where the cursor is taken to start, before the first cursor event: the
/// centre of the window.
pub fn cursor_origin() -> (origin: (u32, u32))
    ensures
        origin.0 * 2 == SCR_WIDTH,
        origin.1 * 2 == SCR_HEIGHT,
{
    (SCR_WIDTH / 2, SCR_HEIGHT / 2)
}

} // verus!
