use voxelgfx::game::{
    clamp_pitch, cursor_rotation_delta, cursor_visible, game_tick_moves, mouse_toggle_on_alt,
    movement_for_key, sneak_divisor, window_update_action, CursorAction, GameKey, MouseState,
};

#[test]
fn movement_keys_map_to_axis_steps() {
    assert_eq!(movement_for_key(GameKey::W), Some((0, 0, -1)));
    assert_eq!(movement_for_key(GameKey::S), Some((0, 0, 1)));
    assert_eq!(movement_for_key(GameKey::A), Some((-1, 0, 0)));
    assert_eq!(movement_for_key(GameKey::D), Some((1, 0, 0)));
    assert_eq!(movement_for_key(GameKey::Q), Some((0, -1, 0)));
    assert_eq!(movement_for_key(GameKey::E), Some((0, 1, 0)));
    assert_eq!(movement_for_key(GameKey::LShift), None);
    assert_eq!(movement_for_key(GameKey::Escape), None);
    assert_eq!(movement_for_key(GameKey::Other), None);
}

#[test]
fn tick_collects_pressed_movement_keys_in_order() {
    let keys = vec![
        (GameKey::W, true),
        (GameKey::A, false),
        (GameKey::D, true),
        (GameKey::Other, true),
        (GameKey::Q, true),
    ];
    let (moves, exit) = game_tick_moves(&keys);
    assert_eq!(moves, vec![(0, 0, -1), (1, 0, 0), (0, -1, 0)]);
    assert!(!exit);
}

#[test]
fn tick_stops_at_a_pressed_escape() {
    let keys = vec![
        (GameKey::W, true),
        (GameKey::Escape, true),
        (GameKey::S, true),
    ];
    let (moves, exit) = game_tick_moves(&keys);
    assert_eq!(moves, vec![(0, 0, -1)]);
    assert!(exit);
}

#[test]
fn tick_ignores_a_released_escape() {
    let keys = vec![(GameKey::Escape, false), (GameKey::S, true)];
    let (moves, exit) = game_tick_moves(&keys);
    assert_eq!(moves, vec![(0, 0, 1)]);
    assert!(!exit);
}

#[test]
fn sneaking_quarters_the_speed() {
    assert_eq!(sneak_divisor(&vec![(GameKey::W, true)]), 1);
    assert_eq!(sneak_divisor(&vec![(GameKey::LShift, false)]), 1);
    assert_eq!(
        sneak_divisor(&vec![(GameKey::W, true), (GameKey::LShift, true)]),
        4
    );
}

#[test]
fn alt_toggles_cursor_capture() {
    assert_eq!(
        mouse_toggle_on_alt(MouseState::Unlocked),
        MouseState::NeedsLocked
    );
    assert_eq!(
        mouse_toggle_on_alt(MouseState::NeedsLocked),
        MouseState::Unlocked
    );
    assert_eq!(mouse_toggle_on_alt(MouseState::Locked), MouseState::Unlocked);
}

#[test]
fn window_update_steps_the_capture_state() {
    assert_eq!(
        window_update_action(MouseState::NeedsLocked),
        (MouseState::Locked, CursorAction::Center)
    );
    assert_eq!(
        window_update_action(MouseState::Unlocked),
        (MouseState::Unlocked, CursorAction::Release)
    );
    assert_eq!(
        window_update_action(MouseState::Locked),
        (MouseState::Locked, CursorAction::Keep)
    );
}

#[test]
fn cursor_shown_only_when_free_or_unfocused() {
    assert!(!cursor_visible(true, MouseState::Locked));
    assert!(!cursor_visible(true, MouseState::NeedsLocked));
    assert!(cursor_visible(true, MouseState::Unlocked));
    assert!(cursor_visible(false, MouseState::Locked));
}

#[test]
fn mouse_motion_rotates_against_the_drag() {
    assert_eq!(cursor_rotation_delta(3, -7), (7, -3));
    assert_eq!(cursor_rotation_delta(0, 0), (0, 0));
}

#[test]
fn pitch_is_clamped_at_straight_up_and_down() {
    assert_eq!(clamp_pitch(100), 100);
    assert_eq!(clamp_pitch(151), 150);
    assert_eq!(clamp_pitch(-9000), -150);
    assert_eq!(clamp_pitch(150), 150);
    assert_eq!(clamp_pitch(-150), -150);
}
