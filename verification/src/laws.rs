//! What holds of every event, every frame and every set of held keys.

use vstd::prelude::*;
use crate::frame::{next_wireframe, toggle_count, wireframe_after};
use crate::layout::{layout_fits, sum_components};
use crate::input::{command_of, Command, InputEvent, Key, KeyAction};
use crate::movement::{move_if, moves_of, HeldKeys, Move};

verus! {

/// The position of a move in the order in which moves are applied.
pub open spec fn rank(m: Move) -> int {
    match m {
        Move::Forward => 0,
        Move::Backward => 1,
        Move::StrafeLeft => 2,
        Move::StrafeRight => 3,
        Move::Rise => 4,
        Move::Sink => 5,
    }
}

/// How many of the movement keys are held.
pub open spec fn held_count(held: HeldKeys) -> int {
    (if held.w { 1int } else { 0 }) + (if held.s { 1int } else { 0 }) + (if held.a { 1int } else { 0 })
        + (if held.d { 1int } else { 0 }) + (if held.space { 1int } else { 0 }) + (if held.left_control {
        1int
    } else {
        0
    })
}

/// The key bindings: Escape pressed closes, Tab pressed toggles the wireframe,
/// Up and Down held (repeating) raise and lower the texture mix; a resize
/// always asks for the viewport to follow and a cursor move always turns the
/// camera; nothing else asks for anything.
pub proof fn lemma_key_bindings(event: InputEvent)
    ensures
        (command_of(event) == Command::Close) <==> event == (InputEvent::KeyEvent {
            key: Key::Escape,
            action: KeyAction::Press,
        }),
        (command_of(event) == Command::ToggleWireframe) <==> event == (InputEvent::KeyEvent {
            key: Key::Tab,
            action: KeyAction::Press,
        }),
        (command_of(event) == Command::RaiseMix) <==> event == (InputEvent::KeyEvent {
            key: Key::Up,
            action: KeyAction::Repeat,
        }),
        (command_of(event) == Command::LowerMix) <==> event == (InputEvent::KeyEvent {
            key: Key::Down,
            action: KeyAction::Repeat,
        }),
        (command_of(event) == Command::Look) <==> event == InputEvent::CursorPos,
        forall|w: i32, h: i32|
            (command_of(event) == (Command::Viewport { width: w, height: h })) <==> event == (
            InputEvent::FramebufferSize { width: w, height: h }),
{
}

/// Only a Tab press changes the wireframe flag, and it always flips it, so a
/// second Tab press undoes the first.
pub proof fn lemma_only_tab_press_toggles(wireframe: bool, event: InputEvent)
    ensures
        (next_wireframe(wireframe, event) != wireframe) <==> event == (InputEvent::KeyEvent {
            key: Key::Tab,
            action: KeyAction::Press,
        }),
        next_wireframe(next_wireframe(wireframe, event), event) == wireframe,
{
}

/// After a frame, the wireframe flag has flipped exactly when the frame held
/// an odd number of Tab presses.
pub proof fn lemma_wireframe_parity(wireframe: bool, events: Seq<InputEvent>)
    ensures
        wireframe_after(wireframe, events) == (wireframe != (toggle_count(events) % 2 == 1)),
    decreases events.len(),
{
    if events.len() > 0 {
        lemma_wireframe_parity(wireframe, events.drop_last());
    }
}

/// Taking two batches of events one after the other leaves the same wireframe
/// flag as taking them as one batch.
pub proof fn lemma_frames_compose(wireframe: bool, first: Seq<InputEvent>, second: Seq<InputEvent>)
    ensures
        wireframe_after(wireframe, first + second) == wireframe_after(
            wireframe_after(wireframe, first),
            second,
        ),
    decreases second.len(),
{
    if second.len() == 0 {
        assert(first + second =~= first);
    } else {
        assert((first + second).drop_last() =~= first + second.drop_last());
        lemma_frames_compose(wireframe, first, second.drop_last());
    }
}

/// Each held key gives its move exactly once, no other move is given, and the
/// moves come in the fixed order W, S, A, D, Space, LeftControl.
pub proof fn lemma_moves_follow_keys(held: HeldKeys)
    ensures
        moves_of(held).len() == held_count(held),
        moves_of(held).contains(Move::Forward) <==> held.w,
        moves_of(held).contains(Move::Backward) <==> held.s,
        moves_of(held).contains(Move::StrafeLeft) <==> held.a,
        moves_of(held).contains(Move::StrafeRight) <==> held.d,
        moves_of(held).contains(Move::Rise) <==> held.space,
        moves_of(held).contains(Move::Sink) <==> held.left_control,
        ranked(moves_of(held)),
{
    let p0: Seq<Move> = Seq::empty();
    let p1 = p0 + move_if(held.w, Move::Forward);
    let p2 = p1 + move_if(held.s, Move::Backward);
    let p3 = p2 + move_if(held.a, Move::StrafeLeft);
    let p4 = p3 + move_if(held.d, Move::StrafeRight);
    let p5 = p4 + move_if(held.space, Move::Rise);
    let p6 = p5 + move_if(held.left_control, Move::Sink);
    lemma_append_ranked(p0, held.w, Move::Forward);
    lemma_append_ranked(p1, held.s, Move::Backward);
    lemma_append_ranked(p2, held.a, Move::StrafeLeft);
    lemma_append_ranked(p3, held.d, Move::StrafeRight);
    lemma_append_ranked(p4, held.space, Move::Rise);
    lemma_append_ranked(p5, held.left_control, Move::Sink);
    assert(p6 =~= moves_of(held));
    assert forall|x: Move|
        #[trigger] p6.contains(x) <==> {
            ||| x == Move::Forward && held.w
            ||| x == Move::Backward && held.s
            ||| x == Move::StrafeLeft && held.a
            ||| x == Move::StrafeRight && held.d
            ||| x == Move::Rise && held.space
            ||| x == Move::Sink && held.left_control
        } by {
        // Name each prefix's membership of `x`, so that each step's lemma applies.
        assert(p5.contains(x) || !p5.contains(x));
        assert(p4.contains(x) || !p4.contains(x));
        assert(p3.contains(x) || !p3.contains(x));
        assert(p2.contains(x) || !p2.contains(x));
        assert(p1.contains(x) || !p1.contains(x));
        assert(!p0.contains(x));
    }
}

/// The attributes of an interleaved layout tile a vertex: the first starts at
/// byte 0, each next one starts where the one before it ends, and the last one
/// ends at the stride.
pub proof fn lemma_attributes_tile_vertex(components: Seq<u32>, component_bytes: u32, i: int)
    requires
        0 <= i < components.len(),
    ensures
        sum_components(components.take(0)) * component_bytes == 0,
        sum_components(components.take(i + 1)) * component_bytes == sum_components(
            components.take(i),
        ) * component_bytes + components[i] * component_bytes,
        sum_components(components.take(components.len() as int)) * component_bytes
            == sum_components(components) * component_bytes,
{
    assert(components.take(0) =~= Seq::<u32>::empty());
    assert(components.take(i + 1).drop_last() =~= components.take(i));
    assert(components.take(components.len() as int) =~= components);
    let a = sum_components(components.take(i));
    let c = components[i] as int;
    let b = component_bytes as int;
    assert((a + c) * b == a * b + c * b) by (nonlinear_arith);
}

/// Summing component counts adds up over concatenation: the counts of two
/// runs of attributes sum to the two sums added, a single attribute sums to its
/// own count, and no attributes sum to zero.
pub proof fn lemma_sum_components_adds(first: Seq<u32>, second: Seq<u32>, c: u32)
    ensures
        sum_components(first + second) == sum_components(first) + sum_components(second),
        sum_components(seq![c]) == c,
        sum_components(Seq::<u32>::empty()) == 0,
    decreases second.len(),
{
    assert(seq![c].drop_last() =~= Seq::<u32>::empty());
    assert(sum_components(seq![c]) == sum_components(seq![c].drop_last()) + c);
    if second.len() == 0 {
        assert(first + second =~= first);
    } else {
        assert((first + second).drop_last() =~= first + second.drop_last());
        lemma_sum_components_adds(first, second.drop_last(), c);
    }
}

/// Whether a layout fits depends only on the total component count, never on
/// how many attributes share it or how it is split among them: any list of
/// attributes, of any length, fits exactly when one attribute with the same
/// total would.
pub proof fn lemma_fit_depends_on_total_only(
    components: Seq<u32>,
    other: Seq<u32>,
    component_bytes: u32,
)
    requires
        sum_components(components) == sum_components(other),
    ensures
        layout_fits(components, component_bytes) == layout_fits(other, component_bytes),
{
}

/// A single attribute of `c` components fits exactly when `c` and its byte
/// size `c * component_bytes` are both at most `i32::MAX`; adding attributes
/// without components never changes whether a layout fits.
pub proof fn lemma_fit_of_single_and_empty(components: Seq<u32>, c: u32, component_bytes: u32)
    ensures
        layout_fits(seq![c], component_bytes) <==> (c <= i32::MAX && c * component_bytes
            <= i32::MAX),
        layout_fits(components.push(0), component_bytes) == layout_fits(
            components,
            component_bytes,
        ),
        layout_fits(Seq::<u32>::empty(), component_bytes),
{
    lemma_sum_components_adds(components, seq![0u32], c);
    lemma_sum_components_adds(components, seq![0u32], 0);
    assert(components.push(0) =~= components + seq![0u32]);
}

/// Moves in strictly increasing rank.
pub open spec fn ranked(s: Seq<Move>) -> bool {
    forall|i: int, j: int| 0 <= i < j < s.len() ==> rank(#[trigger] s[i]) < rank(#[trigger] s[j])
}

/// Appending a move of a higher rank than all before it keeps the order, and
/// adds that move and nothing else.
proof fn lemma_append_ranked(prefix: Seq<Move>, held: bool, m: Move)
    requires
        ranked(prefix),
        forall|i: int| 0 <= i < prefix.len() ==> rank(#[trigger] prefix[i]) < rank(m),
    ensures
        ranked(prefix + move_if(held, m)),
        forall|i: int|
            0 <= i < (prefix + move_if(held, m)).len() ==> rank(#[trigger] (prefix + move_if(held, m))[i])
                <= rank(m),
        forall|x: Move|
            (prefix + move_if(held, m)).contains(x) <==> (prefix.contains(x) || (held && x == m)),
        (prefix + move_if(held, m)).len() == prefix.len() + (if held { 1int } else { 0 }),
{
    let s = prefix + move_if(held, m);
    assert forall|x: Move| s.contains(x) implies (prefix.contains(x) || (held && x == m)) by {
        let k = choose|k: int| 0 <= k < s.len() && s[k] == x;
        if k < prefix.len() {
            assert(prefix[k] == x);
        }
    }
    assert forall|x: Move| (prefix.contains(x) || (held && x == m)) implies s.contains(x) by {
        if prefix.contains(x) {
            let k = choose|k: int| 0 <= k < prefix.len() && prefix[k] == x;
            assert(s[k] == x);
        } else {
            assert(s[prefix.len() as int] == x);
        }
    }
}

} // verus!
