//! Camera moves asked for by the keys held down at the end of a frame.

use vstd::prelude::*;

verus! {

/// Which of the movement keys are held down.
#[derive(Clone, Copy, Debug, PartialEq, Eq, Structural)]
pub struct HeldKeys {
    /// `W`: forward along the view direction.
    pub w: bool,
    /// `S`: backward along the view direction.
    pub s: bool,
    /// `A`: strafe left.
    pub a: bool,
    /// `D`: strafe right.
    pub d: bool,
    /// `Space`: up along the camera's up vector.
    pub space: bool,
    /// `LeftControl`: down along the camera's up vector.
    pub left_control: bool,
}

/// One step of camera movement, taken at `speed * delta_time`.
#[derive(Clone, Copy, Debug, PartialEq, Eq, Structural)]
pub enum Move {
    Forward,
    Backward,
    StrafeLeft,
    StrafeRight,
    Rise,
    Sink,
}

/// The direction a move goes along.
#[derive(Clone, Copy, Debug, PartialEq, Eq, Structural)]
pub enum Axis {
    /// The view direction (`front`).
    Front,
    /// The normalised cross product of `front` and `up`.
    Side,
    /// The camera's `up` vector.
    Up,
}

/// The axis a move goes along.
pub open spec fn axis_of(m: Move) -> Axis {
    match m {
        Move::Forward | Move::Backward => Axis::Front,
        Move::StrafeLeft | Move::StrafeRight => Axis::Side,
        Move::Rise | Move::Sink => Axis::Up,
    }
}

/// Whether a move adds its axis to the position (`true`) or subtracts it.
pub open spec fn adds(m: Move) -> bool {
    match m {
        Move::Forward | Move::StrafeRight | Move::Rise => true,
        Move::Backward | Move::StrafeLeft | Move::Sink => false,
    }
}

/// The one-element sequence `[m]` where `held`, else the empty one.
pub open spec fn move_if(held: bool, m: Move) -> Seq<Move> {
    if held {
        seq![m]
    } else {
        Seq::empty()
    }
}

/// The moves for the held keys, in the order W, S, A, D, Space, LeftControl.
pub open spec fn moves_of(held: HeldKeys) -> Seq<Move> {
    move_if(held.w, Move::Forward) + move_if(held.s, Move::Backward) + move_if(held.a, Move::StrafeLeft)
        + move_if(held.d, Move::StrafeRight) + move_if(held.space, Move::Rise)
        + move_if(held.left_control, Move::Sink)
}

impl Move {
    /// The axis this move goes along.
    pub fn axis(self) -> (a: Axis)
        ensures
            a == axis_of(self),
    {
        match self {
            Move::Forward | Move::Backward => Axis::Front,
            Move::StrafeLeft | Move::StrafeRight => Axis::Side,
            Move::Rise | Move::Sink => Axis::Up,
        }
    }

    /// Whether this move adds its axis to the position, rather than subtracts it.
    pub fn adds(self) -> (b: bool)
        ensures
            b == adds(self),
    {
        match self {
            Move::Forward | Move::StrafeRight | Move::Rise => true,
            Move::Backward | Move::StrafeLeft | Move::Sink => false,
        }
    }
}

/// The moves that the held keys ask for, in the order in which they are applied.
pub fn moves_for(held: HeldKeys) -> (moves: Vec<Move>)
    ensures
        moves@ == moves_of(held),
{
    let mut moves: Vec<Move> = Vec::new();
    if held.w {
        moves.push(Move::Forward);
    }
    if held.s {
        moves.push(Move::Backward);
    }
    if held.a {
        moves.push(Move::StrafeLeft);
    }
    if held.d {
        moves.push(Move::StrafeRight);
    }
    if held.space {
        moves.push(Move::Rise);
    }
    if held.left_control {
        moves.push(Move::Sink);
    }
    assert(moves@ =~= moves_of(held));
    moves
}

} // verus!
