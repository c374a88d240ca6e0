//! Window events and what the scene does with each of them.

use vstd::prelude::*;

verus! {

/// The keys the scene reacts to; every other key is `Other`.
#[derive(Clone, Copy, Debug, PartialEq, Eq, Structural)]
pub enum Key {
    Escape,
    Tab,
    Up,
    Down,
    W,
    S,
    A,
    D,
    Space,
    LeftControl,
    Other,
}

/// What happened to a key.
#[derive(Clone, Copy, Debug, PartialEq, Eq, Structural)]
pub enum KeyAction {
    Press,
    Release,
    Repeat,
}

/// A window event, with what the decisions read of it. The cursor's
/// coordinates stay with the caller, which performs the look update.
#[derive(Clone, Copy, Debug, PartialEq, Eq, Structural)]
pub enum InputEvent {
    FramebufferSize { width: i32, height: i32 },
    KeyEvent { key: Key, action: KeyAction },
    CursorPos,
    Other,
}

/// What the caller is to do for one event.
#[derive(Clone, Copy, Debug, PartialEq, Eq, Structural)]
pub enum Command {
    /// Make the viewport cover `(0, 0)` to `(width, height)`.
    Viewport { width: i32, height: i32 },
    /// Ask the window to close.
    Close,
    /// Switch between filled and wireframe drawing.
    ToggleWireframe,
    /// Raise the texture mix by one step.
    RaiseMix,
    /// Lower the texture mix by one step.
    LowerMix,
    /// Turn the camera towards the new cursor position.
    Look,
    /// Do nothing.
    Nothing,
}

/// The command that an event asks for.
pub open spec fn command_of(event: InputEvent) -> Command {
    match event {
        InputEvent::FramebufferSize { width, height } => Command::Viewport { width, height },
        InputEvent::KeyEvent { key, action } => {
            if key == Key::Escape && action == KeyAction::Press {
                Command::Close
            } else if key == Key::Tab && action == KeyAction::Press {
                Command::ToggleWireframe
            } else if key == Key::Up && action == KeyAction::Repeat {
                Command::RaiseMix
            } else if key == Key::Down && action == KeyAction::Repeat {
                Command::LowerMix
            } else {
                Command::Nothing
            }
        },
        InputEvent::CursorPos => Command::Look,
        InputEvent::Other => Command::Nothing,
    }
}

/// Decides what to do for one event.
pub fn command_for(event: InputEvent) -> (cmd: Command)
    ensures
        cmd == command_of(event),
{
    match event {
        InputEvent::FramebufferSize { width, height } => Command::Viewport { width, height },
        InputEvent::KeyEvent { key, action } => {
            match (key, action) {
                (Key::Escape, KeyAction::Press) => Command::Close,
                (Key::Tab, KeyAction::Press) => Command::ToggleWireframe,
                (Key::Up, KeyAction::Repeat) => Command::RaiseMix,
                (Key::Down, KeyAction::Repeat) => Command::LowerMix,
                _ => Command::Nothing,
            }
        },
        InputEvent::CursorPos => Command::Look,
        InputEvent::Other => Command::Nothing,
    }
}

} // verus!
