use editor_core::CameraMotion;
use editor_core::CursorGrab;
use editor_core::EditorCamera;
use editor_core::MovementKeys;
use editor_core::PlayerCamera;
use editor_core::PlayerInput;
use editor_core::camera_motion_action;
use editor_core::handle_keyboard_input;
use editor_core::movement_step;
use editor_core::orbit_condition;
use editor_core::toggle_cursor;
use editor_core::toggle_cursor_condition;

fn unlocked_cam() -> EditorCamera {
    EditorCamera {
        cursor_lock_toggle_enabled: true,
        cursor_lock_active: false,
    }
}

#[test]
fn chord_toggles_cursor_lock() {
    let mut cam = unlocked_cam();
    assert_eq!(toggle_cursor(&mut cam, true, true), Some(CursorGrab::Locked));
    assert!(cam.cursor_lock_active);
    assert_eq!(toggle_cursor(&mut cam, true, true), Some(CursorGrab::Free));
    assert!(!cam.cursor_lock_active);
}

#[test]
fn partial_chord_only_refreshes_grab() {
    let mut cam = unlocked_cam();
    assert_eq!(toggle_cursor(&mut cam, true, false), Some(CursorGrab::Free));
    assert!(!cam.cursor_lock_active);
}

#[test]
fn no_keypress_leaves_window_alone() {
    let mut cam = unlocked_cam();
    assert_eq!(toggle_cursor(&mut cam, false, true), None);
    assert_eq!(cam, unlocked_cam());
}

#[test]
fn editor_camera_motion_dispatch() {
    let mut cam = unlocked_cam();
    assert_eq!(camera_motion_action(&cam, true, true), CameraMotion::Pan);
    assert_eq!(camera_motion_action(&cam, true, false), CameraMotion::Orbit);
    assert_eq!(camera_motion_action(&cam, false, true), CameraMotion::Scroll);
    cam.cursor_lock_active = true;
    assert_eq!(camera_motion_action(&cam, true, true), CameraMotion::OrbitAndWasd);
}

#[test]
fn conditions_default_to_true_without_a_camera() {
    assert!(toggle_cursor_condition(None));
    assert!(orbit_condition(None));
    let cam = EditorCamera {
        cursor_lock_toggle_enabled: false,
        cursor_lock_active: false,
    };
    assert!(!toggle_cursor_condition(Some(&cam)));
}

#[test]
fn camera_defaults_match_their_programs() {
    // The editor starts free, the game starts captured.
    let editor = EditorCamera::default();
    assert!(editor.cursor_lock_toggle_enabled && !editor.cursor_lock_active);
    let player = PlayerCamera::default();
    assert!(player.cursor_lock_toggle_enabled && player.cursor_lock_active);
}

#[test]
fn player_camera_single_key_toggle() {
    let mut cam = PlayerCamera::default();
    assert!(cam.cursor_lock_active);
    assert_eq!(cam.toggle_cursor(true), CursorGrab::Free);
    assert_eq!(cam.toggle_cursor(false), CursorGrab::Free);
    assert_eq!(cam.toggle_cursor(true), CursorGrab::Locked);
    assert!(orbit_condition(Some(&cam)));
}

fn no_keys() -> MovementKeys {
    MovementKeys {
        forward_pressed: false,
        backward_pressed: false,
        left_pressed: false,
        right_pressed: false,
        just_run_toggle: false,
        just_sneak_toggle: false,
        just_jump: false,
    }
}

fn fresh_input() -> PlayerInput {
    PlayerInput {
        move_x: 0,
        move_y: 0,
        running: false,
        sneaking: false,
        requested_jump: false,
    }
}

#[test]
fn held_keys_add_up_to_a_direction() {
    let mut input = fresh_input();
    let mut keys = no_keys();
    keys.forward_pressed = true;
    keys.right_pressed = true;
    handle_keyboard_input(&mut input, &keys);
    assert_eq!((input.move_x, input.move_y), (1, 1));

    keys.left_pressed = true;
    keys.backward_pressed = true;
    handle_keyboard_input(&mut input, &keys);
    assert_eq!((input.move_x, input.move_y), (0, 0));
}

#[test]
fn run_and_sneak_are_toggles() {
    let mut input = fresh_input();
    let mut keys = no_keys();
    keys.just_run_toggle = true;
    keys.just_sneak_toggle = true;
    handle_keyboard_input(&mut input, &keys);
    assert!(input.running && input.sneaking);
    handle_keyboard_input(&mut input, &keys);
    assert!(!input.running && !input.sneaking);
}

#[test]
fn jump_request_latches_until_consumed() {
    let mut input = fresh_input();
    let mut keys = no_keys();
    keys.just_jump = true;
    handle_keyboard_input(&mut input, &keys);
    assert!(input.requested_jump);
    keys.just_jump = false;
    handle_keyboard_input(&mut input, &keys);
    assert!(input.requested_jump);
}

#[test]
fn landing_plays_the_body_fall_sound() {
    let d = movement_step(true, false, false, false);
    let ev = d.land_sound.unwrap();
    assert_eq!(ev.sound_path, "sounds/bodyfallMED.wav");
    assert!(d.new_was_grounded);
    assert!(d.reset_vertical);
    let again = movement_step(true, true, false, false);
    assert!(again.land_sound.is_none());
}

#[test]
fn jump_starts_only_from_the_ground() {
    let d = movement_step(true, true, true, false);
    assert!(d.start_jump);
    assert!(d.new_requested_jump);

    // An airborne step drops the request before the coyote window is read,
    // so even a live window cannot start a jump in the air.
    let airborne = movement_step(false, true, true, true);
    assert!(!airborne.start_jump);
    assert!(!airborne.new_requested_jump);
    assert!(!airborne.new_was_grounded);
}
