//! US/UK QWERTY keyboard layout: full ASCII 0x20-0x7E mapping.
//!
//! HID keycodes are physical key positions on the QWERTY reference layout,
//! so on a host with QWERTY active the keycode equals the character directly.

use vstd::prelude::*;
use crate::layout::{KeyCode, NO_MOD, LEFT_CTRL, LEFT_SHIFT, LEFT_ALT, LEFT_GUI, RIGHT_CTRL, RIGHT_SHIFT, RIGHT_ALT, RIGHT_GUI};

verus! {

/// The characters a US QWERTY host produces for a key pressed alone
/// (`modifier == NO_MOD`) or together with left Shift.  Keys and modifier
/// combinations that produce no printable character give `None`.
pub open spec fn us_host_char(modifier: u8, keycode: u8) -> Option<u8> {
    if modifier == NO_MOD {
        if 0x04 <= keycode <= 0x1d {
            Some((0x61 + (keycode - 0x04)) as u8)  // a-z
        } else if 0x1e <= keycode <= 0x26 {
            Some((0x31 + (keycode - 0x1e)) as u8)  // 1-9
        } else {
            match keycode {
                0x27 => Some(0x30),  // '0'
                0x2c => Some(0x20),  // ' '
                0x2d => Some(0x2d),  // '-'
                0x2e => Some(0x3d),  // '='
                0x2f => Some(0x5b),  // '['
                0x30 => Some(0x5d),  // ']'
                0x31 => Some(0x5c),  // '\'
                0x33 => Some(0x3b),  // ';'
                0x34 => Some(0x27),  // '''
                0x35 => Some(0x60),  // '`'
                0x36 => Some(0x2c),  // ','
                0x37 => Some(0x2e),  // '.'
                0x38 => Some(0x2f),  // '/'
                _ => None,
            }
        }
    } else if modifier == LEFT_SHIFT {
        if 0x04 <= keycode <= 0x1d {
            Some((0x41 + (keycode - 0x04)) as u8)  // A-Z
        } else {
            match keycode {
                0x1e => Some(0x21),  // '!'
                0x1f => Some(0x40),  // '@'
                0x20 => Some(0x23),  // '#'
                0x21 => Some(0x24),  // '$'
                0x22 => Some(0x25),  // '%'
                0x23 => Some(0x5e),  // '^'
                0x24 => Some(0x26),  // '&'
                0x25 => Some(0x2a),  // '*'
                0x26 => Some(0x28),  // '('
                0x27 => Some(0x29),  // ')'
                0x2c => Some(0x20),  // ' '
                0x2d => Some(0x5f),  // '_'
                0x2e => Some(0x2b),  // '+'
                0x2f => Some(0x7b),  // '{'
                0x30 => Some(0x7d),  // '}'
                0x31 => Some(0x7c),  // '|'
                0x33 => Some(0x3a),  // ':'
                0x34 => Some(0x22),  // '"'
                0x35 => Some(0x7e),  // '~'
                0x36 => Some(0x3c),  // '<'
                0x37 => Some(0x3e),  // '>'
                0x38 => Some(0x3f),  // '?'
                _ => None,
            }
        }
    } else {
        None
    }
}

/// The key that types the printable ASCII character `ch` on a QWERTY host.
pub open spec fn qwerty_char_key(ch: u8) -> KeyCode {
    if 0x61 <= ch <= 0x7a {  // a-z
        KeyCode::Code(NO_MOD, (0x04 + (ch - 0x61)) as u8)
    } else if 0x41 <= ch <= 0x5a {  // A-Z
        KeyCode::Code(LEFT_SHIFT, (0x04 + (ch - 0x41)) as u8)
    } else if 0x31 <= ch <= 0x39 {  // 1-9
        KeyCode::Code(NO_MOD, (0x1e + (ch - 0x31)) as u8)
    } else {
        match ch {
            0x20 => KeyCode::Code(NO_MOD, 0x2c),  // ' '
            0x21 => KeyCode::Code(LEFT_SHIFT, 0x1e),  // '!'
            0x22 => KeyCode::Code(LEFT_SHIFT, 0x34),  // '"'
            0x23 => KeyCode::Code(LEFT_SHIFT, 0x20),  // '#'
            0x24 => KeyCode::Code(LEFT_SHIFT, 0x21),  // '$'
            0x25 => KeyCode::Code(LEFT_SHIFT, 0x22),  // '%'
            0x26 => KeyCode::Code(LEFT_SHIFT, 0x24),  // '&'
            0x27 => KeyCode::Code(NO_MOD, 0x34),  // '''
            0x28 => KeyCode::Code(LEFT_SHIFT, 0x26),  // '('
            0x29 => KeyCode::Code(LEFT_SHIFT, 0x27),  // ')'
            0x2a => KeyCode::Code(LEFT_SHIFT, 0x25),  // '*'
            0x2b => KeyCode::Code(LEFT_SHIFT, 0x2e),  // '+'
            0x2c => KeyCode::Code(NO_MOD, 0x36),  // ','
            0x2d => KeyCode::Code(NO_MOD, 0x2d),  // '-'
            0x2e => KeyCode::Code(NO_MOD, 0x37),  // '.'
            0x2f => KeyCode::Code(NO_MOD, 0x38),  // '/'
            0x30 => KeyCode::Code(NO_MOD, 0x27),  // '0'
            0x3a => KeyCode::Code(LEFT_SHIFT, 0x33),  // ':'
            0x3b => KeyCode::Code(NO_MOD, 0x33),  // ';'
            0x3c => KeyCode::Code(LEFT_SHIFT, 0x36),  // '<'
            0x3d => KeyCode::Code(NO_MOD, 0x2e),  // '='
            0x3e => KeyCode::Code(LEFT_SHIFT, 0x37),  // '>'
            0x3f => KeyCode::Code(LEFT_SHIFT, 0x38),  // '?'
            0x40 => KeyCode::Code(LEFT_SHIFT, 0x1f),  // '@'
            0x5b => KeyCode::Code(NO_MOD, 0x2f),  // '['
            0x5c => KeyCode::Code(NO_MOD, 0x31),  // '\'
            0x5d => KeyCode::Code(NO_MOD, 0x30),  // ']'
            0x5e => KeyCode::Code(LEFT_SHIFT, 0x23),  // '^'
            0x5f => KeyCode::Code(LEFT_SHIFT, 0x2d),  // '_'
            0x60 => KeyCode::Code(NO_MOD, 0x35),  // '`'
            0x7b => KeyCode::Code(LEFT_SHIFT, 0x2f),  // '{'
            0x7c => KeyCode::Code(LEFT_SHIFT, 0x31),  // '|'
            0x7d => KeyCode::Code(LEFT_SHIFT, 0x30),  // '}'
            0x7e => KeyCode::Code(LEFT_SHIFT, 0x35),  // '~'
            _ => KeyCode::Unmapped,
        }
    }
}

/// Typing the key of any printable ASCII character on a US QWERTY host
/// produces exactly that character.
pub proof fn lemma_qwerty_key_types_char(ch: u8)
    requires
        0x20 <= ch <= 0x7e,
    ensures
        qwerty_char_key(ch) matches KeyCode::Code(m, k) && us_host_char(m, k) == Some(ch),
{
}

/// Convert a byte to a [`KeyCode`].
///
/// When `esc` is `false` the byte is treated as a printable ASCII character
/// (0x20-0x7E).  When `esc` is `true` the byte is the character that followed
/// a `\` and is looked up in the escape-sequence table instead.
pub fn ascii_to_hid(ch: u8, esc: bool) -> (r: KeyCode)
    ensures
        r == (if esc { qwerty_escape(ch) } else { qwerty_char_key(ch) }),
{
    if esc {
        return esc_sequence(ch);
    }
    match ch {
        0x20 => KeyCode::Code(NO_MOD, 0x2c),  // ' '
        0x21 => KeyCode::Code(LEFT_SHIFT, 0x1e),  // '!'
        0x22 => KeyCode::Code(LEFT_SHIFT, 0x34),  // '"'
        0x23 => KeyCode::Code(LEFT_SHIFT, 0x20),  // '#'
        0x24 => KeyCode::Code(LEFT_SHIFT, 0x21),  // '$'
        0x25 => KeyCode::Code(LEFT_SHIFT, 0x22),  // '%'
        0x26 => KeyCode::Code(LEFT_SHIFT, 0x24),  // '&'
        0x27 => KeyCode::Code(NO_MOD, 0x34),  // '''
        0x28 => KeyCode::Code(LEFT_SHIFT, 0x26),  // '('
        0x29 => KeyCode::Code(LEFT_SHIFT, 0x27),  // ')'
        0x2a => KeyCode::Code(LEFT_SHIFT, 0x25),  // '*'
        0x2b => KeyCode::Code(LEFT_SHIFT, 0x2e),  // '+'
        0x2c => KeyCode::Code(NO_MOD, 0x36),  // ','
        0x2d => KeyCode::Code(NO_MOD, 0x2d),  // '-'
        0x2e => KeyCode::Code(NO_MOD, 0x37),  // '.'
        0x2f => KeyCode::Code(NO_MOD, 0x38),  // '/'
        0x30 => KeyCode::Code(NO_MOD, 0x27),  // '0'
        0x31..=0x39 => KeyCode::Code(NO_MOD, 0x1e + (ch - 0x31)),  // '1'..='9'
        0x3a => KeyCode::Code(LEFT_SHIFT, 0x33),  // ':'
        0x3b => KeyCode::Code(NO_MOD, 0x33),  // ';'
        0x3c => KeyCode::Code(LEFT_SHIFT, 0x36),  // '<'
        0x3d => KeyCode::Code(NO_MOD, 0x2e),  // '='
        0x3e => KeyCode::Code(LEFT_SHIFT, 0x37),  // '>'
        0x3f => KeyCode::Code(LEFT_SHIFT, 0x38),  // '?'
        0x40 => KeyCode::Code(LEFT_SHIFT, 0x1f),  // '@'
        0x41..=0x5a => KeyCode::Code(LEFT_SHIFT, 0x04 + (ch - 0x41)),  // 'A'..='Z'
        0x5b => KeyCode::Code(NO_MOD, 0x2f),  // '['
        0x5c => KeyCode::Code(NO_MOD, 0x31),  // '\'
        0x5d => KeyCode::Code(NO_MOD, 0x30),  // ']'
        0x5e => KeyCode::Code(LEFT_SHIFT, 0x23),  // '^'
        0x5f => KeyCode::Code(LEFT_SHIFT, 0x2d),  // '_'
        0x60 => KeyCode::Code(NO_MOD, 0x35),  // '`'
        0x61..=0x7a => KeyCode::Code(NO_MOD, 0x04 + (ch - 0x61)),  // 'a'..='z'
        0x7b => KeyCode::Code(LEFT_SHIFT, 0x2f),  // '{'
        0x7c => KeyCode::Code(LEFT_SHIFT, 0x31),  // '|'
        0x7d => KeyCode::Code(LEFT_SHIFT, 0x30),  // '}'
        0x7e => KeyCode::Code(LEFT_SHIFT, 0x35),  // '~'
        _ => KeyCode::Unmapped,
    }
}

/// The escape-sequence table: the key for the character that follows a `\`.
pub open spec fn qwerty_escape(ch: u8) -> KeyCode {
    if 0x31 <= ch <= 0x39 {  // 1-9
        KeyCode::Code(NO_MOD, (0x3a + (ch - 0x31)) as u8)
    } else {
        match ch {
            0x5c => KeyCode::Code(NO_MOD, 0x31),  // '\'
            0x48 => KeyCode::Code(LEFT_SHIFT, 0x20),  // 'H'
            0x6e => KeyCode::Code(NO_MOD, 0x28),  // 'n'
            0x4e => KeyCode::Code(LEFT_SHIFT, 0x28),  // 'N'
            0x72 => KeyCode::Code(LEFT_CTRL, 0x28),  // 'r'
            0x74 => KeyCode::Code(NO_MOD, 0x2b),  // 't'
            0x54 => KeyCode::Code(LEFT_SHIFT, 0x2b),  // 'T'
            0x65 => KeyCode::Code(NO_MOD, 0x29),  // 'e'
            0x62 => KeyCode::Code(NO_MOD, 0x2a),  // 'b'
            0x42 => KeyCode::Code(NO_MOD, 0x48),  // 'B'
            0x77 => KeyCode::Code(LEFT_GUI, 0x00),  // 'w'
            0x57 => KeyCode::Code(RIGHT_GUI, 0x00),  // 'W'
            0x61 => KeyCode::Code(LEFT_ALT, 0x00),  // 'a'
            0x41 => KeyCode::Code(RIGHT_ALT, 0x00),  // 'A'
            0x73 => KeyCode::Code(LEFT_SHIFT, 0x00),  // 's'
            0x53 => KeyCode::Code(RIGHT_SHIFT, 0x00),  // 'S'
            0x67 => KeyCode::Code(LEFT_CTRL, 0x00),  // 'g'
            0x47 => KeyCode::Code(RIGHT_CTRL, 0x00),  // 'G'
            0x43 => KeyCode::Code(NO_MOD, 0x39),  // 'C'
            0x55 => KeyCode::Code(NO_MOD, 0x39),  // 'U'
            0x69 => KeyCode::Code(NO_MOD, 0x52),  // 'i'
            0x6a => KeyCode::Code(NO_MOD, 0x50),  // 'j'
            0x6b => KeyCode::Code(NO_MOD, 0x51),  // 'k'
            0x6c => KeyCode::Code(NO_MOD, 0x4f),  // 'l'
            0x49 => KeyCode::Code(NO_MOD, 0x49),  // 'I'
            0x44 => KeyCode::Code(NO_MOD, 0x4c),  // 'D'
            0x5e => KeyCode::Code(NO_MOD, 0x4a),  // '^'
            0x24 => KeyCode::Code(NO_MOD, 0x4d),  // '$'
            0x50 => KeyCode::Code(NO_MOD, 0x4b),  // 'P'
            0x70 => KeyCode::Code(NO_MOD, 0x4e),  // 'p'
            0x30 => KeyCode::Code(NO_MOD, 0x43),  // '0'
            0x2d => KeyCode::Code(NO_MOD, 0x44),  // '-'
            0x2b => KeyCode::Code(NO_MOD, 0x45),  // '+'
            0x63 => KeyCode::Code(LEFT_CTRL, 0x06),  // 'c'
            0x64 => KeyCode::Code(LEFT_CTRL, 0x07),  // 'd'
            0x7a => KeyCode::Code(LEFT_CTRL, 0x1d),  // 'z'
            _ => KeyCode::Unmapped,
        }
    }
}

/// Map an escape-sequence character (the byte after `\`) to a [`KeyCode`].
pub fn esc_sequence(ch: u8) -> (r: KeyCode)
    ensures
        r == qwerty_escape(ch),
{
    match ch {
        0x5c => KeyCode::Code(NO_MOD, 0x31),  // \\  backslash
        0x48 => KeyCode::Code(LEFT_SHIFT, 0x20),  // \H  # (Shift+3)
        0x6e => KeyCode::Code(NO_MOD, 0x28),  // \n  Enter
        0x4e => KeyCode::Code(LEFT_SHIFT, 0x28),  // \N  Shift+Enter
        0x72 => KeyCode::Code(LEFT_CTRL, 0x28),  // \r  Ctrl+Enter
        0x74 => KeyCode::Code(NO_MOD, 0x2b),  // \t  Tab
        0x54 => KeyCode::Code(LEFT_SHIFT, 0x2b),  // \T  Shift+Tab
        0x65 => KeyCode::Code(NO_MOD, 0x29),  // \e  Escape
        0x62 => KeyCode::Code(NO_MOD, 0x2a),  // \b  Backspace
        0x42 => KeyCode::Code(NO_MOD, 0x48),  // \B  Pause/Break
        0x77 => KeyCode::Code(LEFT_GUI, 0x00),  // \w  Windows key (left)
        0x57 => KeyCode::Code(RIGHT_GUI, 0x00),  // \W  Windows key (right)
        0x61 => KeyCode::Code(LEFT_ALT, 0x00),  // \a  Alt (left)
        0x41 => KeyCode::Code(RIGHT_ALT, 0x00),  // \A  Alt (right)
        0x73 => KeyCode::Code(LEFT_SHIFT, 0x00),  // \s  Shift (left)
        0x53 => KeyCode::Code(RIGHT_SHIFT, 0x00),  // \S  Shift (right)
        0x67 => KeyCode::Code(LEFT_CTRL, 0x00),  // \g  Ctrl (left)
        0x47 => KeyCode::Code(RIGHT_CTRL, 0x00),  // \G  Ctrl (right)
        0x43 => KeyCode::Code(NO_MOD, 0x39),  // \C  Caps Lock
        0x55 => KeyCode::Code(NO_MOD, 0x39),  // \U  Caps Lock
        0x69 => KeyCode::Code(NO_MOD, 0x52),  // \i  Cursor up
        0x6a => KeyCode::Code(NO_MOD, 0x50),  // \j  Cursor left
        0x6b => KeyCode::Code(NO_MOD, 0x51),  // \k  Cursor down
        0x6c => KeyCode::Code(NO_MOD, 0x4f),  // \l  Cursor right
        0x49 => KeyCode::Code(NO_MOD, 0x49),  // \I  Insert
        0x44 => KeyCode::Code(NO_MOD, 0x4c),  // \D  Delete
        0x5e => KeyCode::Code(NO_MOD, 0x4a),  // \^  Home (Pos1)
        0x24 => KeyCode::Code(NO_MOD, 0x4d),  // \$  End
        0x50 => KeyCode::Code(NO_MOD, 0x4b),  // \P  Page Up
        0x70 => KeyCode::Code(NO_MOD, 0x4e),  // \p  Page Down
        0x31..=0x39 => KeyCode::Code(NO_MOD, 0x3a + (ch - 0x31)),  // \1-\9  F1-F9
        0x30 => KeyCode::Code(NO_MOD, 0x43),  // \0  F10
        0x2d => KeyCode::Code(NO_MOD, 0x44),  // \-  F11
        0x2b => KeyCode::Code(NO_MOD, 0x45),  // \+  F12
        0x63 => KeyCode::Code(LEFT_CTRL, 0x06),  // \c  Ctrl+C
        0x64 => KeyCode::Code(LEFT_CTRL, 0x07),  // \d  Ctrl+D
        0x7a => KeyCode::Code(LEFT_CTRL, 0x1d),  // \z  Ctrl+Z
        _ => KeyCode::Unmapped,
    }
}

} // verus!

verus! {

/// A byte has a key exactly when it is printable ASCII, and a text byte is
/// never a modifier-only event.
pub proof fn lemma_qwerty_key_exists_iff_printable(ch: u8)
    ensures
        (qwerty_char_key(ch) is Code) == (0x20 <= ch <= 0x7e),
        !(qwerty_char_key(ch) is Modifier),
{
}

} // verus!
