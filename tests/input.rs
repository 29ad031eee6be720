use rising_sun_common::input::{
    is_extended_key, key_event, qt_key_to_scancode, qt_key_to_xt_scancode, InputController,
    KeyAction, QT_KEY_CONTROL,
};
use rising_sun_common::ioctl::{KeyEvent, MouseEvent};

#[test]
fn qt_key_table() {
    assert_eq!(qt_key_to_xt_scancode(0x01000000), (0x01, false));
    assert_eq!(qt_key_to_xt_scancode(0x41), (0x1E, false));
    assert_eq!(qt_key_to_xt_scancode(0x0100003b), (0x58, false));
    assert_eq!(qt_key_to_xt_scancode(0x01000005), (0x1C, false));
    assert_eq!(qt_key_to_xt_scancode(0x01000012), (0x4B, true));
    assert_eq!(qt_key_to_xt_scancode(0x01000027), (0x45, true));
    assert_eq!(qt_key_to_xt_scancode(0x7E), (0, false));
}

#[test]
fn extended_keys() {
    assert!(is_extended_key(0x01000010));
    assert!(is_extended_key(0x01000026));
    assert!(!is_extended_key(0x41));
}

#[test]
fn native_scancodes_take_precedence() {
    // evdev 38 is XT 0x1E (A).
    assert_eq!(qt_key_to_scancode(0x41, 38), (0x1E, false));
    // Codes above 0x7F keep their low seven bits and count as extended.
    assert_eq!(qt_key_to_scancode(0, 8 + 0x9D), (0x1D, true));
    assert_eq!(qt_key_to_scancode(0x01000013, 8 + 0x48), (0x48, true));
    // No native code: the table decides.
    assert_eq!(qt_key_to_scancode(0x41, 0), (0x1E, false));
}

#[test]
fn key_event_flags() {
    assert_eq!(key_event(0x1E, true, false), KeyEvent { scancode: 0x1E, flags: 1 });
    assert_eq!(key_event(0x4B, false, true), KeyEvent { scancode: 0x4B, flags: 2 });
    assert_eq!(key_event(0x4B, true, true).flags, 3);
}

#[test]
fn keys_reach_guest_only_while_captured() {
    let mut input = InputController::new();
    assert_eq!(input.handle_key_press(0x41, 0, 0), KeyAction::Ignored);
    input.toggle_keyboard_capture();
    assert_eq!(input.handle_key_press(0x41, 0, 0), KeyAction::Send(KeyEvent { scancode: 0x1E, flags: 1 }));
    assert!(input.pressed[0x1E]);
    assert_eq!(input.handle_key_release(0x41, 0, 0), Some(KeyEvent { scancode: 0x1E, flags: 0 }));
    assert!(!input.pressed[0x1E]);
    assert_eq!(input.handle_key_press(0x7E, 0, 0), KeyAction::Ignored);
}

#[test]
fn ctrl_alt_then_control_releases_capture() {
    let mut input = InputController::new();
    input.toggle_keyboard_capture();
    input.toggle_mouse_capture();
    input.handle_key_press(QT_KEY_CONTROL, 0, 0);
    assert!(!input.is_release_combo_pressed());
    input.handle_key_press(0x01000023, 0, 0);
    assert!(input.is_release_combo_pressed());
    assert_eq!(input.handle_key_press(QT_KEY_CONTROL, 0, 0), KeyAction::ReleaseCapture);
    assert!(!input.keyboard_captured);
    assert!(!input.mouse_captured);
}

#[test]
fn mouse_events() {
    let mut input = InputController::new();
    assert_eq!(input.handle_mouse_press(1), None);
    assert_eq!(input.handle_mouse_move(3, 4), None);
    input.toggle_mouse_capture();
    assert_eq!(input.handle_mouse_press(1), Some(MouseEvent { dx: 0, dy: 0, dz: 0, buttons: 1 }));
    assert_eq!(input.handle_mouse_press(4), Some(MouseEvent { dx: 0, dy: 0, dz: 0, buttons: 5 }));
    assert_eq!(input.handle_mouse_release(1), Some(MouseEvent { dx: 0, dy: 0, dz: 0, buttons: 4 }));
    assert_eq!(input.handle_mouse_move(-3, 4), Some(MouseEvent { dx: -3, dy: 4, dz: 0, buttons: 4 }));
    assert_eq!(input.handle_mouse_wheel(240).unwrap().dz, 2);
    assert_eq!(input.handle_mouse_wheel(-130).unwrap().dz, -1);
    assert_eq!(input.handle_mouse_wheel(119).unwrap().dz, 0);
    input.release_capture();
    assert_eq!(input.handle_mouse_wheel(240), None);
}

#[test]
fn three_finger_salutes() {
    let input = InputController::new();
    let seq: Vec<(u32, u32)> = input.send_ctrl_alt_del().iter().map(|e| (e.scancode, e.flags)).collect();
    assert_eq!(seq, vec![(0x1D, 1), (0x38, 1), (0x53, 3), (0x53, 2), (0x38, 0), (0x1D, 0)]);
    let seq: Vec<(u32, u32)> = input.send_ctrl_alt_backspace().iter().map(|e| (e.scancode, e.flags)).collect();
    assert_eq!(seq, vec![(0x1D, 1), (0x38, 1), (0x0E, 1), (0x0E, 0), (0x38, 0), (0x1D, 0)]);
}
