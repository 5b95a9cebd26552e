use emusim::desktop::{CameraPlacement, DesktopFirstPersonController, DesktopKey, DesktopMouseButton, DesktopPlayMode};
use emusim::devices::controller::{RETRO_DEVICE_ID_JOYPAD_A, RETRO_DEVICE_ID_JOYPAD_X, RETRO_DEVICE_ID_JOYPAD_Y, RETRO_DEVICE_ID_JOYPAD_B, RETRO_DEVICE_ID_JOYPAD_START, RETRO_DEVICE_ID_JOYPAD_UP, RETRO_DEVICE_ID_JOYPAD_L};
use emusim::room::SelectedConsole;

#[test]
fn tab_toggles_game_focus_and_back() {
    let mut c = DesktopFirstPersonController::new();
    let start = c;
    assert_eq!(c.handle_keyboard_input(DesktopKey::Tab, true), CameraPlacement::SeatedAtTv);
    assert_eq!(c.mode, DesktopPlayMode::GameFocus);
    assert_eq!(c.handle_keyboard_input(DesktopKey::KeyG, true), CameraPlacement::StandingInRoom);
    assert_eq!(c, start);
    // releasing Tab does nothing
    assert_eq!(c.handle_keyboard_input(DesktopKey::Tab, false), CameraPlacement::Unchanged);
    assert_eq!(c, start);
}

#[test]
fn escape_leaves_game_focus_only() {
    let mut c = DesktopFirstPersonController::new();
    assert_eq!(c.handle_keyboard_input(DesktopKey::Escape, true), CameraPlacement::Unchanged);
    assert_eq!(c.mode, DesktopPlayMode::RoomExploration);
    c.handle_keyboard_input(DesktopKey::Tab, true);
    assert_eq!(c.handle_keyboard_input(DesktopKey::Escape, true), CameraPlacement::SteppedBack);
    assert_eq!(c.mode, DesktopPlayMode::RoomExploration);
}

#[test]
fn arrow_keys_drive_dpad_and_stick_in_both_modes() {
    let mut c = DesktopFirstPersonController::new();
    c.handle_keyboard_input(DesktopKey::ArrowUp, true);
    assert_eq!(c.retro_gamepad.buttons, 1 << RETRO_DEVICE_ID_JOYPAD_UP);
    assert_eq!(c.retro_gamepad.left_analog_y, -32767);
    c.handle_keyboard_input(DesktopKey::ArrowUp, false);
    assert_eq!(c.retro_gamepad.buttons, 0);
    assert_eq!(c.retro_gamepad.left_analog_y, 0);
    c.handle_keyboard_input(DesktopKey::ArrowRight, true);
    assert_eq!(c.retro_gamepad.left_analog_x, 32767);
    c.handle_keyboard_input(DesktopKey::Space, true);
    c.handle_keyboard_input(DesktopKey::Enter, true);
    assert_eq!(
        c.retro_gamepad.buttons,
        (1 << 7) | (1 << RETRO_DEVICE_ID_JOYPAD_B) | (1 << RETRO_DEVICE_ID_JOYPAD_START)
    );
}

#[test]
fn wasd_walks_when_exploring_and_plays_in_focus() {
    let mut c = DesktopFirstPersonController::new();
    c.handle_keyboard_input(DesktopKey::KeyW, true);
    assert!(c.move_forward);
    assert_eq!(c.retro_gamepad.buttons, 0);
    c.handle_keyboard_input(DesktopKey::KeyW, false);
    c.handle_keyboard_input(DesktopKey::KeyE, true);
    assert!(c.is_interact_pressed);
    c.handle_keyboard_input(DesktopKey::KeyE, false);
    c.handle_keyboard_input(DesktopKey::Tab, true);
    c.handle_keyboard_input(DesktopKey::KeyW, true);
    assert!(!c.move_forward);
    assert_eq!(c.retro_gamepad.buttons, 1 << RETRO_DEVICE_ID_JOYPAD_UP);
    assert_eq!(c.retro_gamepad.left_analog_y, -32767);
    c.handle_keyboard_input(DesktopKey::KeyQ, true);
    assert_ne!(c.retro_gamepad.buttons & (1 << RETRO_DEVICE_ID_JOYPAD_L), 0);
    assert!(!c.is_drop_pressed);
}

#[test]
fn number_keys_ask_for_console_swap_on_press() {
    let mut c = DesktopFirstPersonController::new();
    c.handle_keyboard_input(DesktopKey::Digit2, false);
    assert_eq!(c.switch_to_console, None);
    c.handle_keyboard_input(DesktopKey::Digit2, true);
    assert_eq!(c.switch_to_console, Some(SelectedConsole::PlayStation1));
    c.handle_keyboard_input(DesktopKey::Numpad0, true);
    assert_eq!(c.switch_to_console, Some(SelectedConsole::Unwired));
    c.handle_keyboard_input(DesktopKey::Digit3, true);
    assert_eq!(c.switch_to_console, Some(SelectedConsole::PlayStation2));
    c.handle_keyboard_input(DesktopKey::Numpad1, true);
    assert_eq!(c.switch_to_console, Some(SelectedConsole::Nintendo64));
}

#[test]
fn mouse_buttons_hold_interact_and_drop() {
    let mut c = DesktopFirstPersonController::new();
    c.handle_mouse_button(DesktopMouseButton::Left, true);
    assert!(c.is_interact_pressed);
    c.handle_mouse_button(DesktopMouseButton::Right, true);
    assert!(c.is_drop_pressed);
    let before = c;
    c.handle_mouse_button(DesktopMouseButton::Other, false);
    assert_eq!(c, before);
    c.handle_mouse_button(DesktopMouseButton::Left, false);
    assert!(!c.is_interact_pressed);
}

#[test]
fn other_keys_change_nothing() {
    let mut c = DesktopFirstPersonController::new();
    let before = c;
    assert_eq!(c.handle_keyboard_input(DesktopKey::Other, true), CameraPlacement::Unchanged);
    assert_eq!(c, before);
}

#[test]
fn face_buttons_follow_the_controls_help() {
    for (key, bit) in [
        (DesktopKey::KeyJ, RETRO_DEVICE_ID_JOYPAD_A),
        (DesktopKey::KeyK, RETRO_DEVICE_ID_JOYPAD_B),
        (DesktopKey::KeyU, RETRO_DEVICE_ID_JOYPAD_X),
        (DesktopKey::KeyI, RETRO_DEVICE_ID_JOYPAD_Y),
        (DesktopKey::KeyX, RETRO_DEVICE_ID_JOYPAD_A),
        (DesktopKey::KeyZ, RETRO_DEVICE_ID_JOYPAD_B),
        (DesktopKey::KeyV, RETRO_DEVICE_ID_JOYPAD_X),
        (DesktopKey::KeyC, RETRO_DEVICE_ID_JOYPAD_Y),
    ] {
        let mut c = DesktopFirstPersonController::new();
        c.handle_keyboard_input(DesktopKey::Tab, true);
        c.handle_keyboard_input(key, true);
        assert_eq!(c.retro_gamepad.buttons, 1 << bit);
    }
}
