//! Translation of host key and mouse input to guest XT keyboard and mouse
//! events, and the capture state that decides which input reaches the guest.
use vstd::prelude::*;
use crate::ioctl::{KeyEvent, MouseEvent, KEY_EXTENDED, KEY_PRESSED, MOUSE_LEFT, MOUSE_MIDDLE, MOUSE_RIGHT};

verus! {

/// Qt code of the Control key, which releases capture while Ctrl+Alt is held.
pub const QT_KEY_CONTROL: i32 = 0x01000021;

/// XT scancode of Ctrl.
pub const XT_CTRL: u32 = 0x1D;

/// XT scancode of Alt.
pub const XT_ALT: u32 = 0x38;

/// XT scancode of Delete (extended).
pub const XT_DELETE: u32 = 0x53;

/// XT scancode of Backspace.
pub const XT_BACKSPACE: u32 = 0x0E;

/// Qt wheel units per notch.
pub const WHEEL_UNITS_PER_NOTCH: i32 = 120;

/// The XT scancode and extended flag of a Qt key code on a US layout;
/// (0, false) for a key without one.
pub open spec fn xt_scancode_for(qt_key: i32) -> (u32, bool) {
    match qt_key {
        0x01000000 => (0x01u32, false),
        0x01000030 => (0x3Bu32, false),
        0x01000031 => (0x3Cu32, false),
        0x01000032 => (0x3Du32, false),
        0x01000033 => (0x3Eu32, false),
        0x01000034 => (0x3Fu32, false),
        0x01000035 => (0x40u32, false),
        0x01000036 => (0x41u32, false),
        0x01000037 => (0x42u32, false),
        0x01000038 => (0x43u32, false),
        0x01000039 => (0x44u32, false),
        0x0100003A => (0x57u32, false),
        0x0100003B => (0x58u32, false),
        0x31 => (0x02u32, false),
        0x32 => (0x03u32, false),
        0x33 => (0x04u32, false),
        0x34 => (0x05u32, false),
        0x35 => (0x06u32, false),
        0x36 => (0x07u32, false),
        0x37 => (0x08u32, false),
        0x38 => (0x09u32, false),
        0x39 => (0x0Au32, false),
        0x30 => (0x0Bu32, false),
        0x2D => (0x0Cu32, false),
        0x3D => (0x0Du32, false),
        0x01000003 => (0x0Eu32, false),
        0x01000001 => (0x0Fu32, false),
        0x01000004 => (0x1Cu32, false),
        0x01000005 => (0x1Cu32, false),
        0x51 => (0x10u32, false),
        0x57 => (0x11u32, false),
        0x45 => (0x12u32, false),
        0x52 => (0x13u32, false),
        0x54 => (0x14u32, false),
        0x59 => (0x15u32, false),
        0x55 => (0x16u32, false),
        0x49 => (0x17u32, false),
        0x4F => (0x18u32, false),
        0x50 => (0x19u32, false),
        0x5B => (0x1Au32, false),
        0x5D => (0x1Bu32, false),
        0x41 => (0x1Eu32, false),
        0x53 => (0x1Fu32, false),
        0x44 => (0x20u32, false),
        0x46 => (0x21u32, false),
        0x47 => (0x22u32, false),
        0x48 => (0x23u32, false),
        0x4A => (0x24u32, false),
        0x4B => (0x25u32, false),
        0x4C => (0x26u32, false),
        0x3B => (0x27u32, false),
        0x27 => (0x28u32, false),
        0x60 => (0x29u32, false),
        0x5C => (0x2Bu32, false),
        0x5A => (0x2Cu32, false),
        0x58 => (0x2Du32, false),
        0x43 => (0x2Eu32, false),
        0x56 => (0x2Fu32, false),
        0x42 => (0x30u32, false),
        0x4E => (0x31u32, false),
        0x4D => (0x32u32, false),
        0x2C => (0x33u32, false),
        0x2E => (0x34u32, false),
        0x2F => (0x35u32, false),
        0x01000020 => (0x2Au32, false),
        0x01000021 => (0x1Du32, false),
        0x01000023 => (0x38u32, false),
        0x01000022 => (0x3Au32, false),
        0x20 => (0x39u32, false),
        0x01000010 => (0x47u32, true),
        0x01000011 => (0x4Fu32, true),
        0x01000016 => (0x49u32, true),
        0x01000017 => (0x51u32, true),
        0x01000012 => (0x4Bu32, true),
        0x01000014 => (0x4Du32, true),
        0x01000013 => (0x48u32, true),
        0x01000015 => (0x50u32, true),
        0x01000006 => (0x52u32, true),
        0x01000007 => (0x53u32, true),
        0x01000024 => (0x45u32, false),
        0x01000025 => (0x37u32, true),
        0x01000026 => (0x46u32, false),
        0x01000027 => (0x45u32, true),
        _ => (0u32, false),
    }
}

/// Qt keys whose XT scancodes carry the 0xE0 extended prefix.
pub open spec fn spec_is_extended_key(qt_key: i32) -> bool {
    qt_key == 0x01000010 || qt_key == 0x01000011 || qt_key == 0x01000012 || qt_key == 0x01000013
        || qt_key == 0x01000014 || qt_key == 0x01000015 || qt_key == 0x01000016 || qt_key
        == 0x01000017 || qt_key == 0x01000006 || qt_key == 0x01000007 || qt_key == 0x01000025
        || qt_key == 0x01000026 || qt_key == 0x01000027
}

/// Whether a Qt key is one of the extended keys: navigation, Insert,
/// Delete, Print, Scroll Lock and Pause.
pub fn is_extended_key(qt_key: i32) -> (r: bool)
    ensures
        r == spec_is_extended_key(qt_key),
{
    qt_key == 0x01000010 || qt_key == 0x01000011 || qt_key == 0x01000012 || qt_key == 0x01000013
        || qt_key == 0x01000014 || qt_key == 0x01000015 || qt_key == 0x01000016 || qt_key
        == 0x01000017 || qt_key == 0x01000006 || qt_key == 0x01000007 || qt_key == 0x01000025
        || qt_key == 0x01000026 || qt_key == 0x01000027
}

/// Maps a Qt key code to its XT scancode and extended flag, for use when
/// the platform gives no native scancode. (0, false) when unmapped.
pub fn qt_key_to_xt_scancode(qt_key: i32) -> (r: (u32, bool))
    ensures
        r == xt_scancode_for(qt_key),
        r.0 < 0x80,
{
    match qt_key {
        0x01000000 => (0x01, false),
        0x01000030 => (0x3B, false),
        0x01000031 => (0x3C, false),
        0x01000032 => (0x3D, false),
        0x01000033 => (0x3E, false),
        0x01000034 => (0x3F, false),
        0x01000035 => (0x40, false),
        0x01000036 => (0x41, false),
        0x01000037 => (0x42, false),
        0x01000038 => (0x43, false),
        0x01000039 => (0x44, false),
        0x0100003A => (0x57, false),
        0x0100003B => (0x58, false),
        0x31 => (0x02, false),
        0x32 => (0x03, false),
        0x33 => (0x04, false),
        0x34 => (0x05, false),
        0x35 => (0x06, false),
        0x36 => (0x07, false),
        0x37 => (0x08, false),
        0x38 => (0x09, false),
        0x39 => (0x0A, false),
        0x30 => (0x0B, false),
        0x2D => (0x0C, false),
        0x3D => (0x0D, false),
        0x01000003 => (0x0E, false),
        0x01000001 => (0x0F, false),
        0x01000004 => (0x1C, false),
        0x01000005 => (0x1C, false),
        0x51 => (0x10, false),
        0x57 => (0x11, false),
        0x45 => (0x12, false),
        0x52 => (0x13, false),
        0x54 => (0x14, false),
        0x59 => (0x15, false),
        0x55 => (0x16, false),
        0x49 => (0x17, false),
        0x4F => (0x18, false),
        0x50 => (0x19, false),
        0x5B => (0x1A, false),
        0x5D => (0x1B, false),
        0x41 => (0x1E, false),
        0x53 => (0x1F, false),
        0x44 => (0x20, false),
        0x46 => (0x21, false),
        0x47 => (0x22, false),
        0x48 => (0x23, false),
        0x4A => (0x24, false),
        0x4B => (0x25, false),
        0x4C => (0x26, false),
        0x3B => (0x27, false),
        0x27 => (0x28, false),
        0x60 => (0x29, false),
        0x5C => (0x2B, false),
        0x5A => (0x2C, false),
        0x58 => (0x2D, false),
        0x43 => (0x2E, false),
        0x56 => (0x2F, false),
        0x42 => (0x30, false),
        0x4E => (0x31, false),
        0x4D => (0x32, false),
        0x2C => (0x33, false),
        0x2E => (0x34, false),
        0x2F => (0x35, false),
        0x01000020 => (0x2A, false),
        0x01000021 => (0x1D, false),
        0x01000023 => (0x38, false),
        0x01000022 => (0x3A, false),
        0x20 => (0x39, false),
        0x01000010 => (0x47, true),
        0x01000011 => (0x4F, true),
        0x01000016 => (0x49, true),
        0x01000017 => (0x51, true),
        0x01000012 => (0x4B, true),
        0x01000014 => (0x4D, true),
        0x01000013 => (0x48, true),
        0x01000015 => (0x50, true),
        0x01000006 => (0x52, true),
        0x01000007 => (0x53, true),
        0x01000024 => (0x45, false),
        0x01000025 => (0x37, true),
        0x01000026 => (0x46, false),
        0x01000027 => (0x45, true),
        _ => (0, false),
    }
}

/// The scancode for a key event: a native evdev scancode (offset by 8 from
/// XT) when there is one, else the Qt key table.
pub open spec fn spec_scancode(qt_key: i32, native_scancode: i32) -> (u32, bool) {
    if native_scancode > 8 {
        let xt = native_scancode - 8;
        ((xt % 128) as u32, xt > 0x7F || spec_is_extended_key(qt_key))
    } else {
        xt_scancode_for(qt_key)
    }
}

/// The XT scancode (below 0x80) and extended flag of a key event.
pub fn qt_key_to_scancode(qt_key: i32, native_scancode: i32) -> (r: (u32, bool))
    ensures
        r == spec_scancode(qt_key, native_scancode),
        r.0 < 0x80,
{
    if native_scancode > 8 {
        let xt: u32 = (native_scancode - 8) as u32;
        let extended = xt > 0x7F || is_extended_key(qt_key);
        let code = xt & 0x7F;
        assert(xt & 0x7F == xt % 128) by (bit_vector);
        return (code, extended);
    }
    qt_key_to_xt_scancode(qt_key)
}

/// The flag bits of a key event.
pub open spec fn key_flags(pressed: bool, extended: bool) -> u32 {
    (if pressed { KEY_PRESSED } else { 0u32 }) | (if extended { KEY_EXTENDED } else { 0u32 })
}

/// A key event for `scancode`.
pub fn key_event(scancode: u32, pressed: bool, extended: bool) -> (r: KeyEvent)
    ensures
        r.scancode == scancode,
        r.flags == key_flags(pressed, extended),
        has_bit(r.flags, KEY_PRESSED) == pressed,
        has_bit(r.flags, KEY_EXTENDED) == extended,
{
    let p: u32 = if pressed { KEY_PRESSED } else { 0 };
    let e: u32 = if extended { KEY_EXTENDED } else { 0 };
    let flags = p | e;
    assert(flags & 1 != 0 <==> p == 1) by (bit_vector)
        requires
            flags == p | e,
            p == 0 || p == 1,
            e == 0 || e == 2,
    ;
    assert(flags & 2 != 0 <==> e == 2) by (bit_vector)
        requires
            flags == p | e,
            p == 0 || p == 1,
            e == 0 || e == 2,
    ;
    KeyEvent { scancode, flags }
}

/// Whether bit `mask` is set in `v`.
pub open spec fn has_bit(v: u32, mask: u32) -> bool {
    v & mask != 0
}

/// The button bit of a Qt mouse button (1 left, 2 right, 4 middle); 0 for
/// any other button.
pub open spec fn button_bit(button: i32) -> u32 {
    if button == 1 {
        MOUSE_LEFT
    } else if button == 2 {
        MOUSE_RIGHT
    } else if button == 4 {
        MOUSE_MIDDLE
    } else {
        0
    }
}

/// Whole wheel notches in a Qt wheel delta, rounded toward zero.
pub open spec fn wheel_notches(delta: int) -> int {
    if delta >= 0 {
        delta / 120
    } else {
        -((-delta) / 120)
    }
}

/// What a key press leads to.
#[derive(Debug, Clone, Copy, PartialEq, Eq, Structural)]
pub enum KeyAction {
    /// The key was not for the guest.
    Ignored,
    /// The release combination was pressed: capture ends.
    ReleaseCapture,
    /// This event goes to the guest.
    Send(KeyEvent),
}

/// Capture and button state of the guest input path.
pub struct InputController {
    pub keyboard_captured: bool,
    pub mouse_captured: bool,
    /// Guest display size, for scaling absolute positions.
    pub guest_width: i32,
    pub guest_height: i32,
    /// Which XT scancodes are held down.
    pub pressed: [bool; 128],
    /// `MOUSE_*` bits of the buttons held down.
    pub buttons: u32,
}

impl InputController {
    /// Nothing captured, nothing held, a 640 by 480 guest display.
    pub fn new() -> (r: Self)
        ensures
            !r.keyboard_captured,
            !r.mouse_captured,
            r.guest_width == 640,
            r.guest_height == 480,
            forall|k: int| 0 <= k < 128 ==> !r.pressed@[k],
            r.buttons == 0,
    {
        InputController {
            keyboard_captured: false,
            mouse_captured: false,
            guest_width: 640,
            guest_height: 480,
            pressed: [false; 128],
            buttons: 0,
        }
    }

    /// Ctrl and Alt are both held.
    pub open spec fn spec_release_combo(&self) -> bool {
        self.pressed@[XT_CTRL as int] && self.pressed@[XT_ALT as int]
    }

    /// Toggles keyboard capture.
    pub fn toggle_keyboard_capture(&mut self)
        ensures
            final(self).keyboard_captured == !old(self).keyboard_captured,
            final(self).mouse_captured == old(self).mouse_captured,
            final(self).pressed == old(self).pressed,
            final(self).buttons == old(self).buttons,
    {
        self.keyboard_captured = !self.keyboard_captured;
    }

    /// Toggles mouse capture.
    pub fn toggle_mouse_capture(&mut self)
        ensures
            final(self).mouse_captured == !old(self).mouse_captured,
            final(self).keyboard_captured == old(self).keyboard_captured,
            final(self).pressed == old(self).pressed,
            final(self).buttons == old(self).buttons,
    {
        self.mouse_captured = !self.mouse_captured;
    }

    /// Ends keyboard and mouse capture.
    pub fn release_capture(&mut self)
        ensures
            !final(self).keyboard_captured,
            !final(self).mouse_captured,
            final(self).pressed == old(self).pressed,
            final(self).buttons == old(self).buttons,
    {
        self.keyboard_captured = false;
        self.mouse_captured = false;
    }

    /// Whether Ctrl and Alt are both held.
    pub fn is_release_combo_pressed(&self) -> (r: bool)
        ensures
            r == self.spec_release_combo(),
    {
        self.pressed[XT_CTRL as usize] && self.pressed[XT_ALT as usize]
    }

    /// Whether a key event is the release combination: Control while Ctrl
    /// and Alt are held.
    pub fn check_release_combo(&self, qt_key: i32, _modifiers: i32) -> (r: bool)
        ensures
            r == (qt_key == QT_KEY_CONTROL && self.spec_release_combo()),
    {
        qt_key == QT_KEY_CONTROL && self.is_release_combo_pressed()
    }

    /// Handles a key press: the release combination ends capture; otherwise
    /// a captured, mapped key is marked held and sent.
    pub fn handle_key_press(&mut self, qt_key: i32, modifiers: i32, native_scancode: i32) -> (r: KeyAction)
        ensures
            ({
                let (code, ext) = spec_scancode(qt_key, native_scancode);
                if qt_key == QT_KEY_CONTROL && old(self).spec_release_combo() {
                    &&& r == KeyAction::ReleaseCapture
                    &&& !final(self).keyboard_captured && !final(self).mouse_captured
                    &&& final(self).pressed == old(self).pressed
                } else if !old(self).keyboard_captured || code == 0 {
                    r == KeyAction::Ignored && *final(self) == *old(self)
                } else {
                    &&& r == KeyAction::Send(
                        KeyEvent { scancode: code, flags: key_flags(true, ext) },
                    )
                    &&& final(self).pressed@ == old(self).pressed@.update(code as int, true)
                    &&& final(self).keyboard_captured == old(self).keyboard_captured
                    &&& final(self).mouse_captured == old(self).mouse_captured
                }
            }),
            final(self).buttons == old(self).buttons,
    {
        if self.check_release_combo(qt_key, modifiers) {
            self.release_capture();
            return KeyAction::ReleaseCapture;
        }
        if !self.keyboard_captured {
            return KeyAction::Ignored;
        }
        let (scancode, extended) = qt_key_to_scancode(qt_key, native_scancode);
        if scancode == 0 {
            return KeyAction::Ignored;
        }
        self.pressed[scancode as usize] = true;
        KeyAction::Send(key_event(scancode, true, extended))
    }

    /// Handles a key release: a captured, mapped key is marked released and
    /// sent.
    pub fn handle_key_release(&mut self, qt_key: i32, _modifiers: i32, native_scancode: i32) -> (r: Option<KeyEvent>)
        ensures
            ({
                let (code, ext) = spec_scancode(qt_key, native_scancode);
                if !old(self).keyboard_captured || code == 0 {
                    r is None && *final(self) == *old(self)
                } else {
                    &&& r == Some(KeyEvent { scancode: code, flags: key_flags(false, ext) })
                    &&& final(self).pressed@ == old(self).pressed@.update(code as int, false)
                    &&& final(self).keyboard_captured == old(self).keyboard_captured
                    &&& final(self).mouse_captured == old(self).mouse_captured
                    &&& final(self).buttons == old(self).buttons
                }
            }),
    {
        if !self.keyboard_captured {
            return None;
        }
        let (scancode, extended) = qt_key_to_scancode(qt_key, native_scancode);
        if scancode == 0 {
            return None;
        }
        self.pressed[scancode as usize] = false;
        Some(key_event(scancode, false, extended))
    }

    /// Handles a mouse button press: while captured, the button is marked
    /// held and the new button state is sent.
    pub fn handle_mouse_press(&mut self, button: i32) -> (r: Option<MouseEvent>)
        ensures
            !old(self).mouse_captured ==> r is None && *final(self) == *old(self),
            old(self).mouse_captured ==> {
                &&& final(self).buttons == old(self).buttons | button_bit(button)
                &&& r == Some(MouseEvent { dx: 0, dy: 0, dz: 0, buttons: final(self).buttons })
            },
            final(self).pressed == old(self).pressed,
            final(self).mouse_captured == old(self).mouse_captured,
            final(self).keyboard_captured == old(self).keyboard_captured,
    {
        if !self.mouse_captured {
            return None;
        }
        let bit: u32 = if button == 1 {
            MOUSE_LEFT
        } else if button == 2 {
            MOUSE_RIGHT
        } else if button == 4 {
            MOUSE_MIDDLE
        } else {
            0
        };
        self.buttons = self.buttons | bit;
        Some(MouseEvent { dx: 0, dy: 0, dz: 0, buttons: self.buttons })
    }

    /// Handles a mouse button release: while captured, the button is marked
    /// released and the new button state is sent.
    pub fn handle_mouse_release(&mut self, button: i32) -> (r: Option<MouseEvent>)
        ensures
            !old(self).mouse_captured ==> r is None && *final(self) == *old(self),
            old(self).mouse_captured ==> {
                &&& final(self).buttons == old(self).buttons & !button_bit(button)
                &&& r == Some(MouseEvent { dx: 0, dy: 0, dz: 0, buttons: final(self).buttons })
            },
            final(self).pressed == old(self).pressed,
            final(self).mouse_captured == old(self).mouse_captured,
            final(self).keyboard_captured == old(self).keyboard_captured,
    {
        if !self.mouse_captured {
            return None;
        }
        let bit: u32 = if button == 1 {
            MOUSE_LEFT
        } else if button == 2 {
            MOUSE_RIGHT
        } else if button == 4 {
            MOUSE_MIDDLE
        } else {
            0
        };
        self.buttons = self.buttons & !bit;
        Some(MouseEvent { dx: 0, dy: 0, dz: 0, buttons: self.buttons })
    }

    /// Handles relative mouse movement while captured.
    pub fn handle_mouse_move(&self, dx: i32, dy: i32) -> (r: Option<MouseEvent>)
        ensures
            r == (if self.mouse_captured {
                Some(MouseEvent { dx, dy, dz: 0, buttons: self.buttons })
            } else {
                None
            }),
    {
        if !self.mouse_captured {
            return None;
        }
        Some(MouseEvent { dx, dy, dz: 0, buttons: self.buttons })
    }

    /// Handles a wheel turn while captured: whole notches of 120 units,
    /// rounded toward zero.
    pub fn handle_mouse_wheel(&self, delta: i32) -> (r: Option<MouseEvent>)
        ensures
            r == (if self.mouse_captured {
                Some(
                    MouseEvent { dx: 0, dy: 0, dz: wheel_notches(delta as int) as i32, buttons: self.buttons },
                )
            } else {
                None
            }),
    {
        if !self.mouse_captured {
            return None;
        }
        let wide: i64 = delta as i64;
        let dz: i64 = if wide >= 0 { wide / 120 } else { -((-wide) / 120) };
        Some(MouseEvent { dx: 0, dy: 0, dz: dz as i32, buttons: self.buttons })
    }

    /// The key events of Ctrl+Alt+Del: three presses, then three releases
    /// in reverse order.
    pub fn send_ctrl_alt_del(&self) -> (r: Vec<KeyEvent>)
        ensures
            r@ == seq![
                KeyEvent { scancode: XT_CTRL, flags: key_flags(true, false) },
                KeyEvent { scancode: XT_ALT, flags: key_flags(true, false) },
                KeyEvent { scancode: XT_DELETE, flags: key_flags(true, true) },
                KeyEvent { scancode: XT_DELETE, flags: key_flags(false, true) },
                KeyEvent { scancode: XT_ALT, flags: key_flags(false, false) },
                KeyEvent { scancode: XT_CTRL, flags: key_flags(false, false) },
            ],
    {
        let mut v: Vec<KeyEvent> = Vec::new();
        v.push(key_event(XT_CTRL, true, false));
        v.push(key_event(XT_ALT, true, false));
        v.push(key_event(XT_DELETE, true, true));
        v.push(key_event(XT_DELETE, false, true));
        v.push(key_event(XT_ALT, false, false));
        v.push(key_event(XT_CTRL, false, false));
        assert(v@ =~= seq![
            KeyEvent { scancode: XT_CTRL, flags: key_flags(true, false) },
            KeyEvent { scancode: XT_ALT, flags: key_flags(true, false) },
            KeyEvent { scancode: XT_DELETE, flags: key_flags(true, true) },
            KeyEvent { scancode: XT_DELETE, flags: key_flags(false, true) },
            KeyEvent { scancode: XT_ALT, flags: key_flags(false, false) },
            KeyEvent { scancode: XT_CTRL, flags: key_flags(false, false) },
        ]);
        v
    }

    /// The key events of Ctrl+Alt+Backspace: three presses, then three
    /// releases in reverse order.
    pub fn send_ctrl_alt_backspace(&self) -> (r: Vec<KeyEvent>)
        ensures
            r@ == seq![
                KeyEvent { scancode: XT_CTRL, flags: key_flags(true, false) },
                KeyEvent { scancode: XT_ALT, flags: key_flags(true, false) },
                KeyEvent { scancode: XT_BACKSPACE, flags: key_flags(true, false) },
                KeyEvent { scancode: XT_BACKSPACE, flags: key_flags(false, false) },
                KeyEvent { scancode: XT_ALT, flags: key_flags(false, false) },
                KeyEvent { scancode: XT_CTRL, flags: key_flags(false, false) },
            ],
    {
        let mut v: Vec<KeyEvent> = Vec::new();
        v.push(key_event(XT_CTRL, true, false));
        v.push(key_event(XT_ALT, true, false));
        v.push(key_event(XT_BACKSPACE, true, false));
        v.push(key_event(XT_BACKSPACE, false, false));
        v.push(key_event(XT_ALT, false, false));
        v.push(key_event(XT_CTRL, false, false));
        assert(v@ =~= seq![
            KeyEvent { scancode: XT_CTRL, flags: key_flags(true, false) },
            KeyEvent { scancode: XT_ALT, flags: key_flags(true, false) },
            KeyEvent { scancode: XT_BACKSPACE, flags: key_flags(true, false) },
            KeyEvent { scancode: XT_BACKSPACE, flags: key_flags(false, false) },
            KeyEvent { scancode: XT_ALT, flags: key_flags(false, false) },
            KeyEvent { scancode: XT_CTRL, flags: key_flags(false, false) },
        ]);
        v
    }
}

} // verus!
