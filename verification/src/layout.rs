use vstd::prelude::*;

verus! {

/// HID modifier bit: no modifier.
pub const NO_MOD: u8 = 0x00;
/// HID modifier bit: left Ctrl.
pub const LEFT_CTRL: u8 = 0x01;
/// HID modifier bit: left Shift.
pub const LEFT_SHIFT: u8 = 0x02;
/// HID modifier bit: left Alt.
pub const LEFT_ALT: u8 = 0x04;
/// HID modifier bit: left GUI (Windows key).
pub const LEFT_GUI: u8 = 0x08;
/// HID modifier bit: right Ctrl.
pub const RIGHT_CTRL: u8 = 0x10;
/// HID modifier bit: right Shift.
pub const RIGHT_SHIFT: u8 = 0x20;
/// HID modifier bit: right Alt (AltGr on QWERTZ hosts).
pub const RIGHT_ALT: u8 = 0x40;
/// HID modifier bit: right GUI (Windows key).
pub const RIGHT_GUI: u8 = 0x80;

/// What a byte of the text becomes on the keyboard.
#[derive(Clone, Copy, Debug, PartialEq, Eq, Structural)]
pub enum KeyCode {
    /// The input byte has no HID mapping.
    Unmapped,
    /// A normal key press: `(modifier_mask, hid_keycode)`.
    Code(u8, u8),
    /// A modifier-only event: `(modifier_mask)`.
    Modifier(u8),
}

} // verus!

verus! {

/// The keyboard layout that is active on the host.  HID keycodes are physical
/// key positions, so the layout must match the host's to produce the right
/// characters.
#[derive(Clone, Copy, Debug, PartialEq, Eq, Structural)]
pub enum Layout {
    /// US/UK QWERTY.
    Qwerty,
    /// German/Austrian QWERTZ (the default build of the firmware).
    Qwertz,
}

/// The key for byte `ch` in `layout`: as a text character when `esc` is
/// false, as the character after a `\` when `esc` is true.
pub open spec fn layout_key(layout: Layout, ch: u8, esc: bool) -> KeyCode {
    match layout {
        Layout::Qwerty => if esc {
            crate::layout_qwerty::qwerty_escape(ch)
        } else {
            crate::layout_qwerty::qwerty_char_key(ch)
        },
        Layout::Qwertz => if esc {
            crate::layout_qwertz::qwertz_escape(ch)
        } else {
            crate::layout_qwertz::qwertz_char_key(ch)
        },
    }
}

/// Convert a byte to a [`KeyCode`] with the given layout's table.
pub fn ascii_to_hid(layout: Layout, ch: u8, esc: bool) -> (r: KeyCode)
    ensures
        r == layout_key(layout, ch, esc),
{
    match layout {
        Layout::Qwerty => crate::layout_qwerty::ascii_to_hid(ch, esc),
        Layout::Qwertz => crate::layout_qwertz::ascii_to_hid(ch, esc),
    }
}

} // verus!

verus! {

/// HID usage ID (keyboard page) of Enter.
pub const KEY_ENTER: u8 = 0x28;
/// HID usage ID of Escape.
pub const KEY_ESCAPE: u8 = 0x29;
/// HID usage ID of Backspace.
pub const KEY_BACKSPACE: u8 = 0x2a;
/// HID usage ID of Tab.
pub const KEY_TAB: u8 = 0x2b;
/// HID usage ID of Caps Lock.
pub const KEY_CAPS_LOCK: u8 = 0x39;
/// HID usage ID of F1; F2 to F12 follow it in order.
pub const KEY_F1: u8 = 0x3a;
/// HID usage ID of Pause/Break.
pub const KEY_PAUSE: u8 = 0x48;
/// HID usage ID of Insert.
pub const KEY_INSERT: u8 = 0x49;
/// HID usage ID of Home.
pub const KEY_HOME: u8 = 0x4a;
/// HID usage ID of Page Up.
pub const KEY_PAGE_UP: u8 = 0x4b;
/// HID usage ID of Delete.
pub const KEY_DELETE: u8 = 0x4c;
/// HID usage ID of End.
pub const KEY_END: u8 = 0x4d;
/// HID usage ID of Page Down.
pub const KEY_PAGE_DOWN: u8 = 0x4e;
/// HID usage ID of Right Arrow.
pub const KEY_RIGHT: u8 = 0x4f;
/// HID usage ID of Left Arrow.
pub const KEY_LEFT: u8 = 0x50;
/// HID usage ID of Down Arrow.
pub const KEY_DOWN: u8 = 0x51;
/// HID usage ID of Up Arrow.
pub const KEY_UP: u8 = 0x52;

/// The character a host with `layout` active produces for a key pressed with
/// the modifiers `modifier` (alone, Shift, or AltGr on QWERTZ).
pub open spec fn host_char(layout: Layout, modifier: u8, keycode: u8) -> Option<u8> {
    match layout {
        Layout::Qwerty => crate::layout_qwerty::us_host_char(modifier, keycode),
        Layout::Qwertz => crate::layout_qwertz::german_host_char(modifier, keycode),
    }
}

/// The characters that have an escape sequence: `\ H n N r t T e b B w W a A s
/// S g G C U i j k l I D ^ $ P p 0-9 - + c d z`.
pub open spec fn is_escape_char(c: u8) -> bool {
    (0x30 <= c <= 0x39) || c == 0x5c || c == 0x48 || c == 0x6e || c == 0x4e || c == 0x72 || c
        == 0x74 || c == 0x54 || c == 0x65 || c == 0x62 || c == 0x42 || c == 0x77 || c == 0x57 || c
        == 0x61 || c == 0x41 || c == 0x73 || c == 0x53 || c == 0x67 || c == 0x47 || c == 0x43 || c
        == 0x55 || c == 0x69 || c == 0x6a || c == 0x6b || c == 0x6c || c == 0x49 || c == 0x44 || c
        == 0x5e || c == 0x24 || c == 0x50 || c == 0x70 || c == 0x2d || c == 0x2b || c == 0x63 || c
        == 0x64 || c == 0x7a
}

/// Each escape sequence presses the key it names, in either layout:
/// `\n` Enter, `\N` Shift+Enter, `\r` Ctrl+Enter, `\t` Tab, `\T` Shift+Tab,
/// `\e` Escape, `\b` Backspace, `\B` Pause, `\w`/`\W` left/right Windows key,
/// `\a`/`\A` left/right Alt, `\s`/`\S` left/right Shift, `\g`/`\G` left/right
/// Ctrl, `\C` and `\U` Caps Lock, `\i` `\k` `\j` `\l` up/down/left/right,
/// `\I` Insert, `\D` Delete, `\^` Home, `\$` End, `\P` Page Up, `\p` Page
/// Down, `\1`-`\9` F1-F9, `\0` F10, `\-` F11, `\+` F12;
/// `\\` types a backslash and `\H` a hash on the host;
/// `\c`, `\d`, `\z` press Ctrl with the key that types c, d, z on the host;
/// any other escape does nothing.
pub proof fn lemma_escapes_press_documented_keys(layout: Layout, c: u8)
    ensures
        c == 0x6e ==> layout_key(layout, c, true) == KeyCode::Code(NO_MOD, KEY_ENTER),
        c == 0x4e ==> layout_key(layout, c, true) == KeyCode::Code(LEFT_SHIFT, KEY_ENTER),
        c == 0x72 ==> layout_key(layout, c, true) == KeyCode::Code(LEFT_CTRL, KEY_ENTER),
        c == 0x74 ==> layout_key(layout, c, true) == KeyCode::Code(NO_MOD, KEY_TAB),
        c == 0x54 ==> layout_key(layout, c, true) == KeyCode::Code(LEFT_SHIFT, KEY_TAB),
        c == 0x65 ==> layout_key(layout, c, true) == KeyCode::Code(NO_MOD, KEY_ESCAPE),
        c == 0x62 ==> layout_key(layout, c, true) == KeyCode::Code(NO_MOD, KEY_BACKSPACE),
        c == 0x42 ==> layout_key(layout, c, true) == KeyCode::Code(NO_MOD, KEY_PAUSE),
        c == 0x77 ==> layout_key(layout, c, true) == KeyCode::Code(LEFT_GUI, 0),
        c == 0x57 ==> layout_key(layout, c, true) == KeyCode::Code(RIGHT_GUI, 0),
        c == 0x61 ==> layout_key(layout, c, true) == KeyCode::Code(LEFT_ALT, 0),
        c == 0x41 ==> layout_key(layout, c, true) == KeyCode::Code(RIGHT_ALT, 0),
        c == 0x73 ==> layout_key(layout, c, true) == KeyCode::Code(LEFT_SHIFT, 0),
        c == 0x53 ==> layout_key(layout, c, true) == KeyCode::Code(RIGHT_SHIFT, 0),
        c == 0x67 ==> layout_key(layout, c, true) == KeyCode::Code(LEFT_CTRL, 0),
        c == 0x47 ==> layout_key(layout, c, true) == KeyCode::Code(RIGHT_CTRL, 0),
        c == 0x43 ==> layout_key(layout, c, true) == KeyCode::Code(NO_MOD, KEY_CAPS_LOCK),
        c == 0x55 ==> layout_key(layout, c, true) == KeyCode::Code(NO_MOD, KEY_CAPS_LOCK),
        c == 0x69 ==> layout_key(layout, c, true) == KeyCode::Code(NO_MOD, KEY_UP),
        c == 0x6b ==> layout_key(layout, c, true) == KeyCode::Code(NO_MOD, KEY_DOWN),
        c == 0x6a ==> layout_key(layout, c, true) == KeyCode::Code(NO_MOD, KEY_LEFT),
        c == 0x6c ==> layout_key(layout, c, true) == KeyCode::Code(NO_MOD, KEY_RIGHT),
        c == 0x49 ==> layout_key(layout, c, true) == KeyCode::Code(NO_MOD, KEY_INSERT),
        c == 0x44 ==> layout_key(layout, c, true) == KeyCode::Code(NO_MOD, KEY_DELETE),
        c == 0x5e ==> layout_key(layout, c, true) == KeyCode::Code(NO_MOD, KEY_HOME),
        c == 0x24 ==> layout_key(layout, c, true) == KeyCode::Code(NO_MOD, KEY_END),
        c == 0x50 ==> layout_key(layout, c, true) == KeyCode::Code(NO_MOD, KEY_PAGE_UP),
        c == 0x70 ==> layout_key(layout, c, true) == KeyCode::Code(NO_MOD, KEY_PAGE_DOWN),
        0x31 <= c <= 0x39 ==> layout_key(layout, c, true) == KeyCode::Code(
            NO_MOD,
            (KEY_F1 + (c - 0x31)) as u8,
        ),
        c == 0x30 ==> layout_key(layout, c, true) == KeyCode::Code(NO_MOD, (KEY_F1 + 9) as u8),
        c == 0x2d ==> layout_key(layout, c, true) == KeyCode::Code(NO_MOD, (KEY_F1 + 10) as u8),
        c == 0x2b ==> layout_key(layout, c, true) == KeyCode::Code(NO_MOD, (KEY_F1 + 11) as u8),
        c == 0x5c ==> (layout_key(layout, c, true) matches KeyCode::Code(m, k) && host_char(
            layout,
            m,
            k,
        ) == Some(0x5cu8)),
        c == 0x48 ==> (layout_key(layout, c, true) matches KeyCode::Code(m, k) && host_char(
            layout,
            m,
            k,
        ) == Some(0x23u8)),
        (c == 0x63 || c == 0x64 || c == 0x7a) ==> (layout_key(layout, c, true) matches KeyCode::Code(
            m,
            k,
        ) && m == LEFT_CTRL && host_char(layout, NO_MOD, k) == Some(c)),
        !is_escape_char(c) ==> layout_key(layout, c, true) == KeyCode::Unmapped,
{
}

} // verus!
