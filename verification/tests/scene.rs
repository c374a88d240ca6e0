use cube_scene::frame::{process_events, InputState, PolygonMode};
use cube_scene::input::{command_for, Command, InputEvent, Key, KeyAction};
use cube_scene::layout::{buffer_size, interleaved_layout};
use cube_scene::movement::{moves_for, Axis, HeldKeys, Move};
use cube_scene::{cursor_origin, SCR_HEIGHT, SCR_WIDTH};

fn key(key: Key, action: KeyAction) -> InputEvent {
    InputEvent::KeyEvent { key, action }
}

fn no_keys() -> HeldKeys {
    HeldKeys { w: false, s: false, a: false, d: false, space: false, left_control: false }
}

#[test]
fn escape_press_closes() {
    assert_eq!(command_for(key(Key::Escape, KeyAction::Press)), Command::Close);
    assert_eq!(command_for(key(Key::Escape, KeyAction::Release)), Command::Nothing);
    assert_eq!(command_for(key(Key::Escape, KeyAction::Repeat)), Command::Nothing);
}

#[test]
fn tab_press_toggles_wireframe() {
    assert_eq!(command_for(key(Key::Tab, KeyAction::Press)), Command::ToggleWireframe);
    assert_eq!(command_for(key(Key::Tab, KeyAction::Repeat)), Command::Nothing);
}

#[test]
fn arrows_change_mix_only_on_repeat() {
    assert_eq!(command_for(key(Key::Up, KeyAction::Repeat)), Command::RaiseMix);
    assert_eq!(command_for(key(Key::Down, KeyAction::Repeat)), Command::LowerMix);
    assert_eq!(command_for(key(Key::Up, KeyAction::Press)), Command::Nothing);
    assert_eq!(command_for(key(Key::Down, KeyAction::Press)), Command::Nothing);
}

#[test]
fn resize_and_cursor_events() {
    assert_eq!(
        command_for(InputEvent::FramebufferSize { width: 2160, height: 1440 }),
        Command::Viewport { width: 2160, height: 1440 }
    );
    assert_eq!(command_for(InputEvent::CursorPos), Command::Look);
    assert_eq!(command_for(InputEvent::Other), Command::Nothing);
    assert_eq!(command_for(key(Key::W, KeyAction::Press)), Command::Nothing);
    assert_eq!(command_for(key(Key::Other, KeyAction::Press)), Command::Nothing);
}

#[test]
fn starts_filled_and_second_tab_undoes_first() {
    let mut state = InputState::new();
    assert!(!state.wireframe);
    assert_eq!(state.polygon_mode(), PolygonMode::Fill);
    state.handle(key(Key::Tab, KeyAction::Press));
    assert!(state.wireframe);
    assert_eq!(state.polygon_mode(), PolygonMode::Line);
    state.handle(key(Key::Tab, KeyAction::Press));
    assert!(!state.wireframe);
}

#[test]
fn other_events_leave_wireframe() {
    let mut state = InputState::new();
    for event in [
        key(Key::Escape, KeyAction::Press),
        key(Key::Tab, KeyAction::Release),
        key(Key::Up, KeyAction::Repeat),
        InputEvent::CursorPos,
        InputEvent::FramebufferSize { width: 1, height: 1 },
        InputEvent::Other,
    ] {
        state.handle(event);
        assert!(!state.wireframe);
    }
}

#[test]
fn frame_wireframe_follows_parity_of_tab_presses() {
    let tab = key(Key::Tab, KeyAction::Press);
    let events = vec![tab, InputEvent::CursorPos, tab, tab, key(Key::Tab, KeyAction::Release)];
    let mut state = InputState::new();
    let plan = process_events(&mut state, &events, no_keys());
    assert!(state.wireframe);
    assert_eq!(
        plan.commands,
        vec![
            Command::ToggleWireframe,
            Command::Look,
            Command::ToggleWireframe,
            Command::ToggleWireframe,
            Command::Nothing
        ]
    );
    assert!(plan.moves.is_empty());
}

#[test]
fn two_frames_equal_one() {
    let tab = key(Key::Tab, KeyAction::Press);
    let first = vec![tab, InputEvent::Other];
    let second = vec![tab, tab];
    let mut split = InputState::new();
    process_events(&mut split, &first, no_keys());
    process_events(&mut split, &second, no_keys());
    let mut whole = InputState::new();
    let all: Vec<InputEvent> = first.iter().chain(second.iter()).copied().collect();
    process_events(&mut whole, &all, no_keys());
    assert_eq!(split.wireframe, whole.wireframe);
    assert!(split.wireframe);
}

#[test]
fn empty_frame_changes_nothing() {
    let mut state = InputState { wireframe: true };
    let plan = process_events(&mut state, &Vec::new(), no_keys());
    assert!(state.wireframe);
    assert!(plan.commands.is_empty());
    assert!(plan.moves.is_empty());
}

#[test]
fn all_keys_give_all_moves_in_order() {
    let held = HeldKeys { w: true, s: true, a: true, d: true, space: true, left_control: true };
    assert_eq!(
        moves_for(held),
        vec![Move::Forward, Move::Backward, Move::StrafeLeft, Move::StrafeRight, Move::Rise, Move::Sink]
    );
}

#[test]
fn some_keys_give_their_moves() {
    let held = HeldKeys { w: false, s: true, a: false, d: true, space: false, left_control: true };
    assert_eq!(moves_for(held), vec![Move::Backward, Move::StrafeRight, Move::Sink]);
    assert!(moves_for(no_keys()).is_empty());
}

#[test]
fn move_axes_and_signs() {
    assert_eq!(Move::Forward.axis(), Axis::Front);
    assert!(Move::Forward.adds());
    assert_eq!(Move::Backward.axis(), Axis::Front);
    assert!(!Move::Backward.adds());
    assert_eq!(Move::StrafeLeft.axis(), Axis::Side);
    assert!(!Move::StrafeLeft.adds());
    assert_eq!(Move::StrafeRight.axis(), Axis::Side);
    assert!(Move::StrafeRight.adds());
    assert_eq!(Move::Rise.axis(), Axis::Up);
    assert!(Move::Rise.adds());
    assert_eq!(Move::Sink.axis(), Axis::Up);
    assert!(!Move::Sink.adds());
}

#[test]
fn position_and_texcoord_layout() {
    let layout = interleaved_layout(&vec![3, 2], 4).unwrap();
    assert_eq!(layout.stride, 20);
    assert_eq!(layout.attributes.len(), 2);
    assert_eq!(layout.attributes[0].location, 0);
    assert_eq!(layout.attributes[0].components, 3);
    assert_eq!(layout.attributes[0].offset, 0);
    assert_eq!(layout.attributes[1].location, 1);
    assert_eq!(layout.attributes[1].components, 2);
    assert_eq!(layout.attributes[1].offset, 12);
}

#[test]
fn empty_layout() {
    let layout = interleaved_layout(&Vec::new(), 4).unwrap();
    assert_eq!(layout.stride, 0);
    assert!(layout.attributes.is_empty());
}

#[test]
fn layout_too_wide_is_refused() {
    assert!(interleaved_layout(&vec![0x2000_0000, 0], 4).is_none());
    assert!(interleaved_layout(&vec![0x1fff_ffff], 4).is_some());
    assert!(interleaved_layout(&vec![0x8000_0000], 0).is_none());
    assert!(interleaved_layout(&vec![0x7fff_ffff], 0).is_some());
    assert!(interleaved_layout(&vec![u32::MAX, u32::MAX], u32::MAX).is_none());
}

#[test]
fn cube_buffer_size() {
    assert_eq!(buffer_size(180, 4), Some(720));
    assert_eq!(buffer_size(0, 4), Some(0));
    assert_eq!(buffer_size(usize::MAX, 2), None);
    assert_eq!(buffer_size(isize::MAX as usize, 1), Some(isize::MAX));
    assert_eq!(buffer_size(isize::MAX as usize, 2), None);
}

#[test]
fn cursor_starts_at_window_centre() {
    assert_eq!(cursor_origin(), (540, 360));
    assert_eq!((SCR_WIDTH, SCR_HEIGHT), (1080, 720));
}
