//! German/Austrian QWERTZ keyboard layout.
//!
//! Covers ASCII 0x20-0x7E plus the Latin-9 (ISO-8859-15) German characters
//! ä Ä ö Ö ü Ü ß § ° and €, which arrive here as single Latin-9 bytes (€ as 0x80).
//!
//! HID keycodes are physical key positions (QWERTY reference).  To produce a
//! given character on a host with QWERTZ active we must send the keycode of
//! the physical key that QWERTZ maps to that character.
//!
//! Notable differences from QWERTY:
//!   y and z swapped;
//!   many symbols shifted, e.g. ( is Shift+8 and ) is Shift+9;
//!   AltGr needed for @ [ ] { } \ | ~;
//!   ^ (0x35) and ` (Shift+0x2e) are dead keys on most QWERTZ hosts and may
//!   need a following space to produce a standalone character.

use vstd::prelude::*;
use crate::layout::{KeyCode, NO_MOD, LEFT_CTRL, LEFT_SHIFT, LEFT_ALT, LEFT_GUI, RIGHT_CTRL, RIGHT_SHIFT, RIGHT_ALT, RIGHT_GUI};

verus! {

/// The Latin-9 bytes of the German characters that this layout types, besides
/// printable ASCII: ä Ä ö Ö ü Ü ß § ° and € (carried as 0x80).
pub open spec fn is_german_extra(ch: u8) -> bool {
    ch == 0xe4 || ch == 0xc4 || ch == 0xf6 || ch == 0xd6 || ch == 0xfc || ch == 0xdc
        || ch == 0xdf || ch == 0xa7 || ch == 0xb0 || ch == 0x80
}

/// The bytes this layout can type: printable ASCII and the German extras.
pub open spec fn qwertz_typable(ch: u8) -> bool {
    (0x20 <= ch <= 0x7e) || is_german_extra(ch)
}

/// The character (as a Latin-9 byte, € as 0x80) that a German QWERTZ host
/// produces for a key pressed alone, with left Shift, or with AltGr (right Alt).
/// Dead keys are taken as their standalone character.  Other keys and
/// combinations give `None`.
pub open spec fn german_host_char(modifier: u8, keycode: u8) -> Option<u8> {
    if modifier == NO_MOD {
        if 0x04 <= keycode <= 0x1b {
            Some((0x61 + (keycode - 0x04)) as u8)  // a-z
        } else if 0x1e <= keycode <= 0x26 {
            Some((0x31 + (keycode - 0x1e)) as u8)  // 1-9
        } else {
            match keycode {
                0x1c => Some(0x7a),  // 'z'
                0x1d => Some(0x79),  // 'y'
                0x27 => Some(0x30),  // '0'
                0x2c => Some(0x20),  // ' '
                0x2d => Some(0xdf),
                0x2f => Some(0xfc),
                0x30 => Some(0x2b),  // '+'
                0x32 => Some(0x23),  // '#'
                0x33 => Some(0xf6),
                0x34 => Some(0xe4),
                0x35 => Some(0x5e),  // '^'
                0x36 => Some(0x2c),  // ','
                0x37 => Some(0x2e),  // '.'
                0x38 => Some(0x2d),  // '-'
                0x64 => Some(0x3c),  // '<'
                _ => None,
            }
        }
    } else if modifier == LEFT_SHIFT {
        if 0x04 <= keycode <= 0x1b {
            Some((0x41 + (keycode - 0x04)) as u8)  // A-Z
        } else {
            match keycode {
                0x1c => Some(0x5a),  // 'Z'
                0x1d => Some(0x59),  // 'Y'
                0x1e => Some(0x21),  // '!'
                0x1f => Some(0x22),  // '"'
                0x20 => Some(0xa7),
                0x21 => Some(0x24),  // '$'
                0x22 => Some(0x25),  // '%'
                0x23 => Some(0x26),  // '&'
                0x24 => Some(0x2f),  // '/'
                0x25 => Some(0x28),  // '('
                0x26 => Some(0x29),  // ')'
                0x27 => Some(0x3d),  // '='
                0x2c => Some(0x20),  // ' '
                0x2d => Some(0x3f),  // '?'
                0x2e => Some(0x60),  // '`'
                0x2f => Some(0xdc),
                0x30 => Some(0x2a),  // '*'
                0x32 => Some(0x27),  // '''
                0x33 => Some(0xd6),
                0x34 => Some(0xc4),
                0x35 => Some(0xb0),
                0x36 => Some(0x3b),  // ';'
                0x37 => Some(0x3a),  // ':'
                0x38 => Some(0x5f),  // '_'
                0x64 => Some(0x3e),  // '>'
                _ => None,
            }
        }
    } else if modifier == RIGHT_ALT {
        match keycode {
            0x08 => Some(0x80),
            0x14 => Some(0x40),  // '@'
            0x24 => Some(0x7b),  // '{'
            0x25 => Some(0x5b),  // '['
            0x26 => Some(0x5d),  // ']'
            0x27 => Some(0x7d),  // '}'
            0x2d => Some(0x5c),  // '\'
            0x30 => Some(0x7e),  // '~'
            0x64 => Some(0x7c),  // '|'
            _ => None,
        }
    } else {
        None
    }
}

/// The physical key of letter number `i` (0 for a) on a QWERTZ keyboard:
/// alphabetical order, with y and z swapped.
pub open spec fn qwertz_letter_key(i: u8) -> u8 {
    if i == 24 {
        0x1d
    } else if i == 25 {
        0x1c
    } else {
        (0x04 + i) as u8
    }
}

/// The key that types `ch` (printable ASCII or a German Latin-9 byte) on a
/// QWERTZ host.
pub open spec fn qwertz_char_key(ch: u8) -> KeyCode {
    if 0x61 <= ch <= 0x7a {  // a-z
        KeyCode::Code(NO_MOD, qwertz_letter_key((ch - 0x61) as u8))
    } else if 0x41 <= ch <= 0x5a {  // A-Z
        KeyCode::Code(LEFT_SHIFT, qwertz_letter_key((ch - 0x41) as u8))
    } else if 0x31 <= ch <= 0x39 {  // 1-9
        KeyCode::Code(NO_MOD, (0x1e + (ch - 0x31)) as u8)
    } else {
        match ch {
            0x20 => KeyCode::Code(NO_MOD, 0x2c),  // ' '
            0x21 => KeyCode::Code(LEFT_SHIFT, 0x1e),  // '!'
            0x22 => KeyCode::Code(LEFT_SHIFT, 0x1f),  // '"'
            0x23 => KeyCode::Code(NO_MOD, 0x32),  // '#'
            0x24 => KeyCode::Code(LEFT_SHIFT, 0x21),  // '$'
            0x25 => KeyCode::Code(LEFT_SHIFT, 0x22),  // '%'
            0x26 => KeyCode::Code(LEFT_SHIFT, 0x23),  // '&'
            0x27 => KeyCode::Code(LEFT_SHIFT, 0x32),  // '''
            0x28 => KeyCode::Code(LEFT_SHIFT, 0x25),  // '('
            0x29 => KeyCode::Code(LEFT_SHIFT, 0x26),  // ')'
            0x2a => KeyCode::Code(LEFT_SHIFT, 0x30),  // '*'
            0x2b => KeyCode::Code(NO_MOD, 0x30),  // '+'
            0x2c => KeyCode::Code(NO_MOD, 0x36),  // ','
            0x2d => KeyCode::Code(NO_MOD, 0x38),  // '-'
            0x2e => KeyCode::Code(NO_MOD, 0x37),  // '.'
            0x2f => KeyCode::Code(LEFT_SHIFT, 0x24),  // '/'
            0x30 => KeyCode::Code(NO_MOD, 0x27),  // '0'
            0x3a => KeyCode::Code(LEFT_SHIFT, 0x37),  // ':'
            0x3b => KeyCode::Code(LEFT_SHIFT, 0x36),  // ';'
            0x3c => KeyCode::Code(NO_MOD, 0x64),  // '<'
            0x3d => KeyCode::Code(LEFT_SHIFT, 0x27),  // '='
            0x3e => KeyCode::Code(LEFT_SHIFT, 0x64),  // '>'
            0x3f => KeyCode::Code(LEFT_SHIFT, 0x2d),  // '?'
            0x40 => KeyCode::Code(RIGHT_ALT, 0x14),  // '@'
            0x5b => KeyCode::Code(RIGHT_ALT, 0x25),  // '['
            0x5c => KeyCode::Code(RIGHT_ALT, 0x2d),  // '\'
            0x5d => KeyCode::Code(RIGHT_ALT, 0x26),  // ']'
            0x5e => KeyCode::Code(NO_MOD, 0x35),  // '^'
            0x5f => KeyCode::Code(LEFT_SHIFT, 0x38),  // '_'
            0x60 => KeyCode::Code(LEFT_SHIFT, 0x2e),  // '`'
            0x7b => KeyCode::Code(RIGHT_ALT, 0x24),  // '{'
            0x7c => KeyCode::Code(RIGHT_ALT, 0x64),  // '|'
            0x7d => KeyCode::Code(RIGHT_ALT, 0x27),  // '}'
            0x7e => KeyCode::Code(RIGHT_ALT, 0x30),  // '~'
            0xe4 => KeyCode::Code(NO_MOD, 0x34),  // ä
            0xc4 => KeyCode::Code(LEFT_SHIFT, 0x34),  // Ä
            0xf6 => KeyCode::Code(NO_MOD, 0x33),  // ö
            0xd6 => KeyCode::Code(LEFT_SHIFT, 0x33),  // Ö
            0xfc => KeyCode::Code(NO_MOD, 0x2f),  // ü
            0xdc => KeyCode::Code(LEFT_SHIFT, 0x2f),  // Ü
            0xdf => KeyCode::Code(NO_MOD, 0x2d),  // ß
            0xa7 => KeyCode::Code(LEFT_SHIFT, 0x20),  // § (Shift+3)
            0xb0 => KeyCode::Code(LEFT_SHIFT, 0x35),  // ° (Shift+^)
            0x80 => KeyCode::Code(RIGHT_ALT, 0x08),  // € (AltGr+e)
            _ => KeyCode::Unmapped,
        }
    }
}

/// Typing the key of any byte this layout supports on a German QWERTZ host
/// produces exactly that byte's character.
pub proof fn lemma_qwertz_key_types_char(ch: u8)
    requires
        qwertz_typable(ch),
    ensures
        qwertz_char_key(ch) matches KeyCode::Code(m, k) && german_host_char(m, k) == Some(ch),
{
}

/// The escape-sequence table: the key for the character that follows a `\`.
pub open spec fn qwertz_escape(ch: u8) -> KeyCode {
    if 0x31 <= ch <= 0x39 {  // 1-9
        KeyCode::Code(NO_MOD, (0x3a + (ch - 0x31)) as u8)
    } else {
        match ch {
            0x5c => KeyCode::Code(RIGHT_ALT, 0x2d),  // '\'
            0x48 => KeyCode::Code(NO_MOD, 0x32),  // 'H'
            0x6e => KeyCode::Code(NO_MOD, 0x28),  // 'n'
            0x4e => KeyCode::Code(LEFT_SHIFT, 0x28),  // 'N'
            0x72 => KeyCode::Code(LEFT_CTRL, 0x28),  // 'r'
            0x74 => KeyCode::Code(NO_MOD, 0x2b),  // 't'
            0x54 => KeyCode::Code(LEFT_SHIFT, 0x2b),  // 'T'
            0x65 => KeyCode::Code(NO_MOD, 0x29),  // 'e'
            0x62 => KeyCode::Code(NO_MOD, 0x2a),  // 'b'
            0x42 => KeyCode::Code(NO_MOD, 0x48),  // 'B'
            0x77 => KeyCode::Code(LEFT_GUI, 0x00),  // 'w'
            0x57 => KeyCode::Code(RIGHT_GUI, 0x00),  // 'W'
            0x61 => KeyCode::Code(LEFT_ALT, 0x00),  // 'a'
            0x41 => KeyCode::Code(RIGHT_ALT, 0x00),  // 'A'
            0x73 => KeyCode::Code(LEFT_SHIFT, 0x00),  // 's'
            0x53 => KeyCode::Code(RIGHT_SHIFT, 0x00),  // 'S'
            0x67 => KeyCode::Code(LEFT_CTRL, 0x00),  // 'g'
            0x47 => KeyCode::Code(RIGHT_CTRL, 0x00),  // 'G'
            0x43 => KeyCode::Code(NO_MOD, 0x39),  // 'C'
            0x55 => KeyCode::Code(NO_MOD, 0x39),  // 'U'
            0x69 => KeyCode::Code(NO_MOD, 0x52),  // 'i'
            0x6a => KeyCode::Code(NO_MOD, 0x50),  // 'j'
            0x6b => KeyCode::Code(NO_MOD, 0x51),  // 'k'
            0x6c => KeyCode::Code(NO_MOD, 0x4f),  // 'l'
            0x49 => KeyCode::Code(NO_MOD, 0x49),  // 'I'
            0x44 => KeyCode::Code(NO_MOD, 0x4c),  // 'D'
            0x5e => KeyCode::Code(NO_MOD, 0x4a),  // '^'
            0x24 => KeyCode::Code(NO_MOD, 0x4d),  // '$'
            0x50 => KeyCode::Code(NO_MOD, 0x4b),  // 'P'
            0x70 => KeyCode::Code(NO_MOD, 0x4e),  // 'p'
            0x30 => KeyCode::Code(NO_MOD, 0x43),  // '0'
            0x2d => KeyCode::Code(NO_MOD, 0x44),  // '-'
            0x2b => KeyCode::Code(NO_MOD, 0x45),  // '+'
            0x63 => KeyCode::Code(LEFT_CTRL, 0x06),  // 'c'
            0x64 => KeyCode::Code(LEFT_CTRL, 0x07),  // 'd'
            0x7a => KeyCode::Code(LEFT_CTRL, 0x1c),  // 'z'
            _ => KeyCode::Unmapped,
        }
    }
}

/// The physical key of letter number `i` (0 for a, 25 for z).
fn letter_key(i: u8) -> (k: u8)
    requires
        i < 26,
    ensures
        k == qwertz_letter_key(i),
{
    if i == 24 {
        0x1d  // y
    } else if i == 25 {
        0x1c  // z
    } else {
        0x04 + i
    }
}

/// Convert a Latin-9 byte to a [`KeyCode`].
/// Covers printable ASCII (0x20-0x7E) plus German-specific Latin-9 characters.
/// Returns [`KeyCode::Unmapped`] for bytes outside the supported set.
/// When `esc` is `true` the byte is the character that followed a `\` and is
/// looked up in the escape-sequence table instead.
pub fn ascii_to_hid(ch: u8, esc: bool) -> (r: KeyCode)
    ensures
        r == (if esc { qwertz_escape(ch) } else { qwertz_char_key(ch) }),
{
    if esc {
        return esc_sequence(ch);
    }
    match ch {
        0x20 => KeyCode::Code(NO_MOD, 0x2c),  // ' ' Space bar
        0x21 => KeyCode::Code(LEFT_SHIFT, 0x1e),  // '!' Shift+1
        0x22 => KeyCode::Code(LEFT_SHIFT, 0x1f),  // '"' Shift+2
        0x23 => KeyCode::Code(NO_MOD, 0x32),  // '#' # key (ISO key right of Ä)
        0x24 => KeyCode::Code(LEFT_SHIFT, 0x21),  // '$' Shift+4
        0x25 => KeyCode::Code(LEFT_SHIFT, 0x22),  // '%' Shift+5
        0x26 => KeyCode::Code(LEFT_SHIFT, 0x23),  // '&' Shift+6
        0x27 => KeyCode::Code(LEFT_SHIFT, 0x32),  // ''' Shift+#
        0x28 => KeyCode::Code(LEFT_SHIFT, 0x25),  // '(' Shift+8
        0x29 => KeyCode::Code(LEFT_SHIFT, 0x26),  // ')' Shift+9
        0x2a => KeyCode::Code(LEFT_SHIFT, 0x30),  // '*' Shift++ key
        0x2b => KeyCode::Code(NO_MOD, 0x30),  // '+' + key
        0x2c => KeyCode::Code(NO_MOD, 0x36),  // ',' ,
        0x2d => KeyCode::Code(NO_MOD, 0x38),  // '-' - key
        0x2e => KeyCode::Code(NO_MOD, 0x37),  // '.' .
        0x2f => KeyCode::Code(LEFT_SHIFT, 0x24),  // '/' Shift+7
        0x30 => KeyCode::Code(NO_MOD, 0x27),  // '0' 0
        0x31..=0x39 => KeyCode::Code(NO_MOD, 0x1e + (ch - 0x31)),  // 1-9
        0x3a => KeyCode::Code(LEFT_SHIFT, 0x37),  // ':' Shift+.
        0x3b => KeyCode::Code(LEFT_SHIFT, 0x36),  // ';' Shift+,
        0x3c => KeyCode::Code(NO_MOD, 0x64),  // '<' ISO extra key (between left Shift and Y)
        0x3d => KeyCode::Code(LEFT_SHIFT, 0x27),  // '=' Shift+0
        0x3e => KeyCode::Code(LEFT_SHIFT, 0x64),  // '>' Shift+ISO key
        0x3f => KeyCode::Code(LEFT_SHIFT, 0x2d),  // '?' Shift+ß
        0x40 => KeyCode::Code(RIGHT_ALT, 0x14),  // '@' AltGr+q
        0x41..=0x5a => KeyCode::Code(LEFT_SHIFT, letter_key(ch - 0x41)),  // A-Z
        0x5b => KeyCode::Code(RIGHT_ALT, 0x25),  // '[' AltGr+8
        0x5c => KeyCode::Code(RIGHT_ALT, 0x2d),  // '\' AltGr+ß
        0x5d => KeyCode::Code(RIGHT_ALT, 0x26),  // ']' AltGr+9
        0x5e => KeyCode::Code(NO_MOD, 0x35),  // '^' ^ key (dead key on most hosts)
        0x5f => KeyCode::Code(LEFT_SHIFT, 0x38),  // '_' Shift+-
        0x60 => KeyCode::Code(LEFT_SHIFT, 0x2e),  // '`' Shift+´ key (dead key on most hosts)
        0x61..=0x7a => KeyCode::Code(NO_MOD, letter_key(ch - 0x61)),  // a-z
        0x7b => KeyCode::Code(RIGHT_ALT, 0x24),  // '{' AltGr+7
        0x7c => KeyCode::Code(RIGHT_ALT, 0x64),  // '|' AltGr+ISO key
        0x7d => KeyCode::Code(RIGHT_ALT, 0x27),  // '}' AltGr+0
        0x7e => KeyCode::Code(RIGHT_ALT, 0x30),  // '~' AltGr++ key
        0xe4 => KeyCode::Code(NO_MOD, 0x34),  // ä
        0xc4 => KeyCode::Code(LEFT_SHIFT, 0x34),  // Ä
        0xf6 => KeyCode::Code(NO_MOD, 0x33),  // ö
        0xd6 => KeyCode::Code(LEFT_SHIFT, 0x33),  // Ö
        0xfc => KeyCode::Code(NO_MOD, 0x2f),  // ü
        0xdc => KeyCode::Code(LEFT_SHIFT, 0x2f),  // Ü
        0xdf => KeyCode::Code(NO_MOD, 0x2d),  // ß
        0xa7 => KeyCode::Code(LEFT_SHIFT, 0x20),  // § (Shift+3)
        0xb0 => KeyCode::Code(LEFT_SHIFT, 0x35),  // ° (Shift+^)
        0x80 => KeyCode::Code(RIGHT_ALT, 0x08),  // € (AltGr+e)
        _ => KeyCode::Unmapped,
    }
}

/// Map an escape-sequence character (the byte after `\`) to a [`KeyCode`].
pub fn esc_sequence(ch: u8) -> (r: KeyCode)
    ensures
        r == qwertz_escape(ch),
{
    match ch {
        0x5c => KeyCode::Code(RIGHT_ALT, 0x2d),  // \\  AltGr+ß
        0x48 => KeyCode::Code(NO_MOD, 0x32),  // \H  # key (ISO key right of Ä)
        0x6e => KeyCode::Code(NO_MOD, 0x28),  // \n  Enter
        0x4e => KeyCode::Code(LEFT_SHIFT, 0x28),  // \N  Shift+Enter
        0x72 => KeyCode::Code(LEFT_CTRL, 0x28),  // \r  Ctrl+Enter
        0x74 => KeyCode::Code(NO_MOD, 0x2b),  // \t  Tab
        0x54 => KeyCode::Code(LEFT_SHIFT, 0x2b),  // \T  Shift+Tab
        0x65 => KeyCode::Code(NO_MOD, 0x29),  // \e  Escape
        0x62 => KeyCode::Code(NO_MOD, 0x2a),  // \b  Backspace
        0x42 => KeyCode::Code(NO_MOD, 0x48),  // \B  Pause/Break
        0x77 => KeyCode::Code(LEFT_GUI, 0x00),  // \w  Windows key (left)
        0x57 => KeyCode::Code(RIGHT_GUI, 0x00),  // \W  Windows key (right)
        0x61 => KeyCode::Code(LEFT_ALT, 0x00),  // \a  Alt (left)
        0x41 => KeyCode::Code(RIGHT_ALT, 0x00),  // \A  Alt (right)
        0x73 => KeyCode::Code(LEFT_SHIFT, 0x00),  // \s  Shift (left)
        0x53 => KeyCode::Code(RIGHT_SHIFT, 0x00),  // \S  Shift (right)
        0x67 => KeyCode::Code(LEFT_CTRL, 0x00),  // \g  Ctrl (left)
        0x47 => KeyCode::Code(RIGHT_CTRL, 0x00),  // \G  Ctrl (right)
        0x43 => KeyCode::Code(NO_MOD, 0x39),  // \C  Caps Lock
        0x55 => KeyCode::Code(NO_MOD, 0x39),  // \U  Caps Lock
        0x69 => KeyCode::Code(NO_MOD, 0x52),  // \i  Cursor up
        0x6a => KeyCode::Code(NO_MOD, 0x50),  // \j  Cursor left
        0x6b => KeyCode::Code(NO_MOD, 0x51),  // \k  Cursor down
        0x6c => KeyCode::Code(NO_MOD, 0x4f),  // \l  Cursor right
        0x49 => KeyCode::Code(NO_MOD, 0x49),  // \I  Insert
        0x44 => KeyCode::Code(NO_MOD, 0x4c),  // \D  Delete
        0x5e => KeyCode::Code(NO_MOD, 0x4a),  // \^  Home (Pos1)
        0x24 => KeyCode::Code(NO_MOD, 0x4d),  // \$  End
        0x50 => KeyCode::Code(NO_MOD, 0x4b),  // \P  Page Up
        0x70 => KeyCode::Code(NO_MOD, 0x4e),  // \p  Page Down
        0x31..=0x39 => KeyCode::Code(NO_MOD, 0x3a + (ch - 0x31)),  // \1-\9  F1-F9
        0x30 => KeyCode::Code(NO_MOD, 0x43),  // \0  F10
        0x2d => KeyCode::Code(NO_MOD, 0x44),  // \-  F11
        0x2b => KeyCode::Code(NO_MOD, 0x45),  // \+  F12
        0x63 => KeyCode::Code(LEFT_CTRL, 0x06),  // \c  Ctrl+C
        0x64 => KeyCode::Code(LEFT_CTRL, 0x07),  // \d  Ctrl+D
        0x7a => KeyCode::Code(LEFT_CTRL, 0x1c),  // \z  Ctrl+Z (z sits on key 0x1c)
        _ => KeyCode::Unmapped,
    }
}

} // verus!

verus! {

/// A byte has a key exactly when this layout can type it, and a text byte is
/// never a modifier-only event.
pub proof fn lemma_qwertz_key_exists_iff_typable(ch: u8)
    ensures
        (qwertz_char_key(ch) is Code) == qwertz_typable(ch),
        !(qwertz_char_key(ch) is Modifier),
{
}

} // verus!
