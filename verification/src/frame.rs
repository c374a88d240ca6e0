//! One frame of input: the render mode it leaves behind and the work it asks
//! the caller to do.

use vstd::prelude::*;
use crate::input::{command_for, command_of, Command, InputEvent};
use crate::movement::{moves_for, moves_of, HeldKeys, Move};

verus! {

/// How the cube's polygons are drawn.
#[derive(Clone, Copy, Debug, PartialEq, Eq, Structural)]
pub enum PolygonMode {
    /// Outlines only.
    Line,
    /// Filled faces.
    Fill,
}

/// The render state that input events change.
#[derive(Clone, Copy, Debug, PartialEq, Eq, Structural)]
pub struct InputState {
    /// Whether the cube is drawn as a wireframe.
    pub wireframe: bool,
}

/// The wireframe flag after one event.
pub open spec fn next_wireframe(wireframe: bool, event: InputEvent) -> bool {
    if command_of(event) == Command::ToggleWireframe {
        !wireframe
    } else {
        wireframe
    }
}

/// The wireframe flag after a sequence of events, taken in order.
pub open spec fn wireframe_after(wireframe: bool, events: Seq<InputEvent>) -> bool
    decreases events.len(),
{
    if events.len() == 0 {
        wireframe
    } else {
        next_wireframe(wireframe_after(wireframe, events.drop_last()), events.last())
    }
}

/// How many events of a sequence toggle the wireframe flag.
pub open spec fn toggle_count(events: Seq<InputEvent>) -> nat
    decreases events.len(),
{
    if events.len() == 0 {
        0
    } else {
        toggle_count(events.drop_last()) + if command_of(events.last()) == Command::ToggleWireframe {
            1nat
        } else {
            0nat
        }
    }
}

/// The polygon mode that a wireframe flag selects.
pub open spec fn mode_of(wireframe: bool) -> PolygonMode {
    if wireframe {
        PolygonMode::Line
    } else {
        PolygonMode::Fill
    }
}

/// What one frame of input asks the caller to do.
pub struct FramePlan {
    /// One command per event, in the order of the events.
    pub commands: Vec<Command>,
    /// The camera moves for the keys held at the end of the frame, in order.
    pub moves: Vec<Move>,
}

impl InputState {
    /// The state the scene starts in: polygons filled.
    pub fn new() -> (s: Self)
        ensures
            !s.wireframe,
    {
        InputState { wireframe: false }
    }

    /// The polygon mode to draw with.
    pub fn polygon_mode(&self) -> (mode: PolygonMode)
        ensures
            mode == mode_of(self.wireframe),
    {
        if self.wireframe {
            PolygonMode::Line
        } else {
            PolygonMode::Fill
        }
    }

    /// Takes one event into account and returns what the caller is to do for it.
    pub fn handle(&mut self, event: InputEvent) -> (cmd: Command)
        ensures
            cmd == command_of(event),
            final(self).wireframe == next_wireframe(old(self).wireframe, event),
    {
        let cmd = command_for(event);
        if let Command::ToggleWireframe = cmd {
            self.wireframe = !self.wireframe;
        }
        cmd
    }
}

/// Takes a frame's events in order, then the keys held at its end, and returns
/// the commands and moves that the caller is to carry out, in that order.
pub fn process_events(state: &mut InputState, events: &Vec<InputEvent>, held: HeldKeys) -> (plan:
    FramePlan)
    ensures
        plan.commands@ == events@.map_values(|e: InputEvent| command_of(e)),
        plan.moves@ == moves_of(held),
        final(state).wireframe == wireframe_after(old(state).wireframe, events@),
{
    let mut commands: Vec<Command> = Vec::new();
    let n = events.len();
    let mut i: usize = 0;
    while i < n
        invariant
            n == events@.len(),
            i <= n,
            commands@ =~= events@.take(i as int).map_values(|e: InputEvent| command_of(e)),
            state.wireframe == wireframe_after(old(state).wireframe, events@.take(i as int)),
        decreases n - i,
    {
        let cmd = state.handle(events[i]);
        commands.push(cmd);
        assert(events@.take(i + 1).drop_last() =~= events@.take(i as int));
        i = i + 1;
    }
    assert(events@.take(n as int) =~= events@);
    FramePlan { commands, moves: moves_for(held) }
}

} // verus!
