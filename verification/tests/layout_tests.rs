use u2u_keyboard::layout::{
    ascii_to_hid, KeyCode, Layout, LEFT_ALT, LEFT_CTRL, LEFT_GUI, LEFT_SHIFT, NO_MOD, RIGHT_ALT,
    RIGHT_CTRL, RIGHT_GUI, RIGHT_SHIFT,
};
use u2u_keyboard::layout_qwerty;
use u2u_keyboard::layout_qwertz;

#[test]
fn qwerty_letters_and_digits() {
    assert_eq!(layout_qwerty::ascii_to_hid(b'a', false), KeyCode::Code(NO_MOD, 0x04));
    assert_eq!(layout_qwerty::ascii_to_hid(b'y', false), KeyCode::Code(NO_MOD, 0x1c));
    assert_eq!(layout_qwerty::ascii_to_hid(b'z', false), KeyCode::Code(NO_MOD, 0x1d));
    assert_eq!(layout_qwerty::ascii_to_hid(b'A', false), KeyCode::Code(LEFT_SHIFT, 0x04));
    assert_eq!(layout_qwerty::ascii_to_hid(b'Z', false), KeyCode::Code(LEFT_SHIFT, 0x1d));
    assert_eq!(layout_qwerty::ascii_to_hid(b'1', false), KeyCode::Code(NO_MOD, 0x1e));
    assert_eq!(layout_qwerty::ascii_to_hid(b'9', false), KeyCode::Code(NO_MOD, 0x26));
    assert_eq!(layout_qwerty::ascii_to_hid(b'0', false), KeyCode::Code(NO_MOD, 0x27));
}

#[test]
fn qwerty_symbols() {
    assert_eq!(layout_qwerty::ascii_to_hid(b' ', false), KeyCode::Code(NO_MOD, 0x2c));
    assert_eq!(layout_qwerty::ascii_to_hid(b'#', false), KeyCode::Code(LEFT_SHIFT, 0x20));
    assert_eq!(layout_qwerty::ascii_to_hid(b'@', false), KeyCode::Code(LEFT_SHIFT, 0x1f));
    assert_eq!(layout_qwerty::ascii_to_hid(b'\\', false), KeyCode::Code(NO_MOD, 0x31));
    assert_eq!(layout_qwerty::ascii_to_hid(b'~', false), KeyCode::Code(LEFT_SHIFT, 0x35));
    assert_eq!(layout_qwerty::ascii_to_hid(b'"', false), KeyCode::Code(LEFT_SHIFT, 0x34));
}

#[test]
fn qwerty_unmapped_bytes() {
    assert_eq!(layout_qwerty::ascii_to_hid(0x1f, false), KeyCode::Unmapped);
    assert_eq!(layout_qwerty::ascii_to_hid(0x7f, false), KeyCode::Unmapped);
    assert_eq!(layout_qwerty::ascii_to_hid(b'\n', false), KeyCode::Unmapped);
    assert_eq!(layout_qwerty::ascii_to_hid(0xe4, false), KeyCode::Unmapped);
}

#[test]
fn qwerty_escapes() {
    assert_eq!(layout_qwerty::ascii_to_hid(b'n', true), KeyCode::Code(NO_MOD, 0x28));
    assert_eq!(layout_qwerty::esc_sequence(b'N'), KeyCode::Code(LEFT_SHIFT, 0x28));
    assert_eq!(layout_qwerty::esc_sequence(b'r'), KeyCode::Code(LEFT_CTRL, 0x28));
    assert_eq!(layout_qwerty::esc_sequence(b'T'), KeyCode::Code(LEFT_SHIFT, 0x2b));
    assert_eq!(layout_qwerty::esc_sequence(b'H'), KeyCode::Code(LEFT_SHIFT, 0x20));
    assert_eq!(layout_qwerty::esc_sequence(b'\\'), KeyCode::Code(NO_MOD, 0x31));
    assert_eq!(layout_qwerty::esc_sequence(b'w'), KeyCode::Code(LEFT_GUI, 0));
    assert_eq!(layout_qwerty::esc_sequence(b'W'), KeyCode::Code(RIGHT_GUI, 0));
    assert_eq!(layout_qwerty::esc_sequence(b'a'), KeyCode::Code(LEFT_ALT, 0));
    assert_eq!(layout_qwerty::esc_sequence(b'A'), KeyCode::Code(RIGHT_ALT, 0));
    assert_eq!(layout_qwerty::esc_sequence(b's'), KeyCode::Code(LEFT_SHIFT, 0));
    assert_eq!(layout_qwerty::esc_sequence(b'S'), KeyCode::Code(RIGHT_SHIFT, 0));
    assert_eq!(layout_qwerty::esc_sequence(b'g'), KeyCode::Code(LEFT_CTRL, 0));
    assert_eq!(layout_qwerty::esc_sequence(b'G'), KeyCode::Code(RIGHT_CTRL, 0));
    assert_eq!(layout_qwerty::esc_sequence(b'C'), KeyCode::Code(NO_MOD, 0x39));
    assert_eq!(layout_qwerty::esc_sequence(b'1'), KeyCode::Code(NO_MOD, 0x3a));
    assert_eq!(layout_qwerty::esc_sequence(b'9'), KeyCode::Code(NO_MOD, 0x42));
    assert_eq!(layout_qwerty::esc_sequence(b'0'), KeyCode::Code(NO_MOD, 0x43));
    assert_eq!(layout_qwerty::esc_sequence(b'c'), KeyCode::Code(LEFT_CTRL, 0x06));
    assert_eq!(layout_qwerty::esc_sequence(b'd'), KeyCode::Code(LEFT_CTRL, 0x07));
    assert_eq!(layout_qwerty::esc_sequence(b'z'), KeyCode::Code(LEFT_CTRL, 0x1d));
    assert_eq!(layout_qwerty::esc_sequence(b'x'), KeyCode::Unmapped);
    assert_eq!(layout_qwerty::esc_sequence(b'#'), KeyCode::Unmapped);
}

#[test]
fn qwertz_letters_swap_y_and_z() {
    assert_eq!(layout_qwertz::ascii_to_hid(b'y', false), KeyCode::Code(NO_MOD, 0x1d));
    assert_eq!(layout_qwertz::ascii_to_hid(b'z', false), KeyCode::Code(NO_MOD, 0x1c));
    assert_eq!(layout_qwertz::ascii_to_hid(b'Y', false), KeyCode::Code(LEFT_SHIFT, 0x1d));
    assert_eq!(layout_qwertz::ascii_to_hid(b'Z', false), KeyCode::Code(LEFT_SHIFT, 0x1c));
    assert_eq!(layout_qwertz::ascii_to_hid(b'x', false), KeyCode::Code(NO_MOD, 0x1b));
    assert_eq!(layout_qwertz::ascii_to_hid(b'a', false), KeyCode::Code(NO_MOD, 0x04));
}

#[test]
fn qwertz_symbols_and_altgr() {
    assert_eq!(layout_qwertz::ascii_to_hid(b'@', false), KeyCode::Code(RIGHT_ALT, 0x14));
    assert_eq!(layout_qwertz::ascii_to_hid(b'(', false), KeyCode::Code(LEFT_SHIFT, 0x25));
    assert_eq!(layout_qwertz::ascii_to_hid(b'#', false), KeyCode::Code(NO_MOD, 0x32));
    assert_eq!(layout_qwertz::ascii_to_hid(b'\\', false), KeyCode::Code(RIGHT_ALT, 0x2d));
    assert_eq!(layout_qwertz::ascii_to_hid(b'|', false), KeyCode::Code(RIGHT_ALT, 0x64));
    assert_eq!(layout_qwertz::ascii_to_hid(b'<', false), KeyCode::Code(NO_MOD, 0x64));
    assert_eq!(layout_qwertz::ascii_to_hid(b'-', false), KeyCode::Code(NO_MOD, 0x38));
}

#[test]
fn qwertz_german_characters() {
    assert_eq!(layout_qwertz::ascii_to_hid(0xe4, false), KeyCode::Code(NO_MOD, 0x34));
    assert_eq!(layout_qwertz::ascii_to_hid(0xc4, false), KeyCode::Code(LEFT_SHIFT, 0x34));
    assert_eq!(layout_qwertz::ascii_to_hid(0xf6, false), KeyCode::Code(NO_MOD, 0x33));
    assert_eq!(layout_qwertz::ascii_to_hid(0xd6, false), KeyCode::Code(LEFT_SHIFT, 0x33));
    assert_eq!(layout_qwertz::ascii_to_hid(0xfc, false), KeyCode::Code(NO_MOD, 0x2f));
    assert_eq!(layout_qwertz::ascii_to_hid(0xdc, false), KeyCode::Code(LEFT_SHIFT, 0x2f));
    assert_eq!(layout_qwertz::ascii_to_hid(0xdf, false), KeyCode::Code(NO_MOD, 0x2d));
    assert_eq!(layout_qwertz::ascii_to_hid(0xa7, false), KeyCode::Code(LEFT_SHIFT, 0x20));
    assert_eq!(layout_qwertz::ascii_to_hid(0xb0, false), KeyCode::Code(LEFT_SHIFT, 0x35));
    assert_eq!(layout_qwertz::ascii_to_hid(0x80, false), KeyCode::Code(RIGHT_ALT, 0x08));
    assert_eq!(layout_qwertz::ascii_to_hid(0xe9, false), KeyCode::Unmapped);
}

#[test]
fn qwertz_escapes() {
    assert_eq!(layout_qwertz::esc_sequence(b'\\'), KeyCode::Code(RIGHT_ALT, 0x2d));
    assert_eq!(layout_qwertz::esc_sequence(b'H'), KeyCode::Code(NO_MOD, 0x32));
    assert_eq!(layout_qwertz::esc_sequence(b'z'), KeyCode::Code(LEFT_CTRL, 0x1c));
    assert_eq!(layout_qwertz::ascii_to_hid(b'p', true), KeyCode::Code(NO_MOD, 0x4e));
    assert_eq!(layout_qwertz::esc_sequence(b'+'), KeyCode::Code(NO_MOD, 0x45));
    assert_eq!(layout_qwertz::esc_sequence(b'?'), KeyCode::Unmapped);
}

#[test]
fn layout_selects_table() {
    assert_eq!(ascii_to_hid(Layout::Qwerty, b'z', false), KeyCode::Code(NO_MOD, 0x1d));
    assert_eq!(ascii_to_hid(Layout::Qwertz, b'z', false), KeyCode::Code(NO_MOD, 0x1c));
    assert_eq!(ascii_to_hid(Layout::Qwertz, b'\\', true), KeyCode::Code(RIGHT_ALT, 0x2d));
    assert_eq!(ascii_to_hid(Layout::Qwerty, b'\\', true), KeyCode::Code(NO_MOD, 0x31));
}

#[test]
fn every_printable_byte_has_a_key() {
    for ch in 0x20u8..=0x7e {
        assert!(matches!(layout_qwerty::ascii_to_hid(ch, false), KeyCode::Code(_, _)));
        assert!(matches!(layout_qwertz::ascii_to_hid(ch, false), KeyCode::Code(_, _)));
    }
}
