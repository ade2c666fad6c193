use journey::engine::animation::{is_finished_at, next_frame_index};
use journey::engine::input::{
    is_action_just_pressed, just_pressed_actions, rebuild_actions, GameAction, GamepadButton,
    InputMap, Key, MouseBinding,
};
use journey::engine::noise::{fill_row, hex_to_rgb};
use journey::engine::texture_manager::TextureHandle;
use journey::engine::time::{steps_this_frame, FreezeCounter, MAX_STEPS};
use journey::game::input::{setup_default_bindings, JourneyAction};

#[test]
fn test_hex_to_rgb() {
    let result = hex_to_rgb("#FFD300");
    assert_eq!(result, (255, 211, 0));
}

#[test]
fn hex_to_rgb_edge_cases() {
    assert_eq!(hex_to_rgb("ffd300"), (255, 211, 0));
    assert_eq!(hex_to_rgb("##0a0B0c"), (10, 11, 12));
    assert_eq!(hex_to_rgb("#12345"), (0, 0, 0));
    assert_eq!(hex_to_rgb(""), (0, 0, 0));
    assert_eq!(hex_to_rgb("#zz10+F"), (0, 16, 15));
    assert_eq!(hex_to_rgb("#-1A0B0"), (0, 160, 176));
    assert_eq!(hex_to_rgb("#FFFFFFextra"), (255, 255, 255));
}

#[test]
fn fill_row_writes_one_opaque_row() {
    let (w, h) = (3u32, 2u32);
    let mut buf = vec![7u8; (w * h * 4) as usize];
    fill_row(&mut buf, w, 1, (1, 2, 3));
    assert_eq!(&buf[..12], &[7u8; 12]);
    assert_eq!(&buf[12..], &[1, 2, 3, 255, 1, 2, 3, 255, 1, 2, 3, 255]);
}

#[test]
fn animation_frames_wrap_or_hold() {
    assert_eq!(next_frame_index(0, 4, true), 1);
    assert_eq!(next_frame_index(3, 4, true), 0);
    assert_eq!(next_frame_index(3, 4, false), 3);
    assert_eq!(next_frame_index(0, 0, false), 0);
    assert!(is_finished_at(3, 4, false));
    assert!(!is_finished_at(2, 4, false));
    assert!(!is_finished_at(3, 4, true));
    assert!(is_finished_at(0, 0, false));
}

#[test]
fn texture_handles_keep_their_slot() {
    let h = TextureHandle::from_index(7);
    assert_eq!(h.index(), 7);
    assert_eq!(h, TextureHandle(7));
}

#[test]
fn journey_actions_are_numbered() {
    assert_eq!(JourneyAction::count(), 9);
    for i in 0..9 {
        let a = JourneyAction::from_index(i).expect("action in range");
        assert_eq!(a.index(), i);
    }
    assert_eq!(JourneyAction::from_index(9), None);
    assert_eq!(JourneyAction::move_negative_x(), Some(JourneyAction::MoveLeft));
    assert_eq!(JourneyAction::move_positive_y(), Some(JourneyAction::MoveDown));
}

#[test]
fn default_bindings_cover_keyboard_mouse_and_gamepad() {
    let mut map = InputMap::<JourneyAction>::new();
    map.bind_key(Key::Escape, JourneyAction::Block);
    setup_default_bindings(&mut map);
    assert_eq!(map.action_for_key(Key::A), Some(JourneyAction::MoveLeft));
    assert_eq!(map.action_for_key(Key::Right), Some(JourneyAction::MoveRight));
    assert_eq!(map.action_for_key(Key::Space), Some(JourneyAction::Jump));
    assert_eq!(map.action_for_key(Key::Shift), Some(JourneyAction::Dash));
    assert_eq!(map.action_for_key(Key::Alt), Some(JourneyAction::Grapple));
    assert_eq!(map.action_for_key(Key::F12), None);
    assert_eq!(map.action_for_key(Key::Escape), Some(JourneyAction::Block));
    assert_eq!(map.action_for_mouse(MouseBinding::Left), Some(JourneyAction::Attack));
    assert_eq!(map.action_for_mouse(MouseBinding::Right), Some(JourneyAction::Block));
    assert_eq!(map.action_for_mouse(MouseBinding::Middle), None);
    assert_eq!(map.get_action_for_button(GamepadButton::South), Some(JourneyAction::Jump));
    assert_eq!(map.get_action_for_button(GamepadButton::East), Some(JourneyAction::Dash));
    assert_eq!(map.get_action_for_button(GamepadButton::West), Some(JourneyAction::Attack));
    assert_eq!(map.get_action_for_button(GamepadButton::North), Some(JourneyAction::Block));
    assert_eq!(map.get_action_for_button(GamepadButton::RightTrigger2), Some(JourneyAction::Grapple));
    assert_eq!(map.get_action_for_button(GamepadButton::DPadLeft), Some(JourneyAction::MoveLeft));
    assert_eq!(map.get_action_for_button(GamepadButton::Start), None);
}

#[test]
fn rebinding_replaces_the_action() {
    let mut map = InputMap::<JourneyAction>::default();
    map.bind_key(Key::W, JourneyAction::Jump);
    map.bind_key(Key::W, JourneyAction::MoveUp);
    assert_eq!(map.action_for_key(Key::W), Some(JourneyAction::MoveUp));
    map.bind_button(GamepadButton::East, JourneyAction::Dash);
    assert_eq!(map.get_action_for_button(GamepadButton::East), Some(JourneyAction::Dash));
}

#[test]
fn actions_rebuilt_from_raw_inputs() {
    let mut map = InputMap::<JourneyAction>::new();
    setup_default_bindings(&mut map);
    let mut keys = [false; 13];
    keys[Key::Left.slot()] = true;
    keys[Key::Space.slot()] = true;
    let mouse = [false, true, false];
    let mut pad = vec![false; 9];
    pad[JourneyAction::Grapple.index()] = true;
    let mut actions = vec![true; 9];
    rebuild_actions(&map, &keys, &mouse, &pad, &mut actions);
    let held: Vec<usize> = (0..9).filter(|&i| actions[i]).collect();
    assert_eq!(
        held,
        vec![
            JourneyAction::MoveLeft.index(),
            JourneyAction::Jump.index(),
            JourneyAction::Block.index(),
            JourneyAction::Grapple.index(),
        ]
    );
}

#[test]
fn freeze_counter_blocks_steps_then_resumes() {
    let mut f = FreezeCounter::new();
    f.freeze(3);
    assert!(f.is_frozen());
    assert_eq!(steps_this_frame(&mut f, 1), 0);
    assert_eq!(f.remaining(), 2);
    assert_eq!(steps_this_frame(&mut f, 1), 0);
    assert_eq!(steps_this_frame(&mut f, 1), 0);
    assert_eq!(f.remaining(), 0);
    assert!(!f.is_frozen());
    assert_eq!(steps_this_frame(&mut f, 1), 1);
    assert_eq!(steps_this_frame(&mut f, 12), MAX_STEPS);
}

#[test]
fn freeze_counter_keeps_the_longest_freeze() {
    let mut f = FreezeCounter::new();
    f.freeze(3);
    f.freeze(5);
    assert_eq!(f.remaining(), 5);
    f.freeze(2);
    assert_eq!(f.remaining(), 5);
    assert!(!FreezeCounter::new().consume_frame());
}

#[test]
fn just_pressed_is_the_rising_edge() {
    let n = JourneyAction::count();
    let mut prev = vec![false; n];
    let mut now = vec![false; n];
    now[JourneyAction::Jump.index()] = true;
    assert!(is_action_just_pressed(&now, &prev, JourneyAction::Jump));
    assert!(!is_action_just_pressed(&now, &prev, JourneyAction::Attack));
    assert_eq!(just_pressed_actions(&now, &prev), vec![4]);
    // Held on the next frame: no longer a fresh press.
    prev.clone_from(&now);
    now[JourneyAction::Attack.index()] = true;
    assert!(!is_action_just_pressed(&now, &prev, JourneyAction::Jump));
    assert!(is_action_just_pressed(&now, &prev, JourneyAction::Attack));
    assert_eq!(just_pressed_actions(&now, &prev), vec![5]);
    // A release is no press.
    let released = vec![false; n];
    assert_eq!(just_pressed_actions(&released, &now), Vec::<usize>::new());
    assert_eq!(just_pressed_actions(&[true, false, true], &[false, false, false]), vec![0, 2]);
}
