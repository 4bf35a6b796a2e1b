use u2u_keyboard::decimal::{fmt_u32, parse_u32};
use u2u_keyboard::hid::{key_down_report, key_up_report};
use u2u_keyboard::latin9::utf8_to_latin9;
use u2u_keyboard::layout::Layout;
use u2u_keyboard::typing::local_keystrokes;

#[test]
fn parse_u32_accepts_decimal_numbers() {
    assert_eq!(parse_u32(b"0"), Some(0));
    assert_eq!(parse_u32(b"255"), Some(255));
    assert_eq!(parse_u32(b"007"), Some(7));
    assert_eq!(parse_u32(b"4294967295"), Some(4294967295));
}

#[test]
fn parse_u32_rejects_bad_input() {
    assert_eq!(parse_u32(b""), None);
    assert_eq!(parse_u32(b"12a"), None);
    assert_eq!(parse_u32(b"-1"), None);
    assert_eq!(parse_u32(b" 1"), None);
    assert_eq!(parse_u32(b"4294967296"), None);
    assert_eq!(parse_u32(b"99999999999x"), None);
}

#[test]
fn fmt_u32_writes_digits() {
    let mut buf = [0xffu8; 6];
    assert_eq!(fmt_u32(&mut buf, 254), 3);
    assert_eq!(buf, [b'2', b'5', b'4', 0xff, 0xff, 0xff]);
    let mut buf = [0xffu8; 2];
    assert_eq!(fmt_u32(&mut buf, 0), 1);
    assert_eq!(buf, [b'0', 0xff]);
    let mut buf = [0u8; 10];
    assert_eq!(fmt_u32(&mut buf, 4294967295), 10);
    assert_eq!(&buf, b"4294967295");
}

#[test]
fn fmt_u32_truncates_to_buffer() {
    let mut buf = [0u8; 2];
    assert_eq!(fmt_u32(&mut buf, 12345), 2);
    assert_eq!(buf, [b'1', b'2']);
    let mut empty: [u8; 0] = [];
    assert_eq!(fmt_u32(&mut empty, 0), 0);
    assert_eq!(fmt_u32(&mut empty, 7), 0);
}

#[test]
fn latin9_converts_german_characters() {
    let mut out = [0u8; 32];
    let input = "Grüße § 20° Äpfel €".as_bytes();
    let r = utf8_to_latin9(input, &mut out).to_vec();
    assert_eq!(
        r,
        vec![b'G', b'r', 0xfc, 0xdf, b'e', b' ', 0xa7, b' ', b'2', b'0', 0xb0, b' ', 0xc4, b'p', b'f', b'e', b'l', b' ', 0x80]
    );
}

#[test]
fn latin9_drops_other_sequences() {
    let mut out = [0u8; 16];
    // U+0100 (two bytes), U+4E2D (three bytes), U+1F600 (four bytes), a stray
    // continuation byte and a truncated two-byte sequence.
    let input = [b'a', 0xc4, 0x80, b'b', 0xe4, 0xb8, 0xad, b'c', 0xf0, 0x9f, 0x98, 0x80, 0xbf, b'd', 0xc3];
    let r = utf8_to_latin9(&input, &mut out).to_vec();
    assert_eq!(r, vec![b'a', b'b', b'c', b'd']);
}

#[test]
fn latin9_keeps_ascii_after_unfinished_sequences() {
    let mut out = [0u8; 256];
    assert_eq!(utf8_to_latin9(&[0xc3, 0x41], &mut out).to_vec(), vec![0x41]);
    let mut out = [0u8; 256];
    assert_eq!(utf8_to_latin9(&[0xe2, 0x41, 0x42], &mut out).to_vec(), vec![0x41, 0x42]);
    let mut out = [0u8; 256];
    assert_eq!(utf8_to_latin9(&[0xe2, 0x82, 0x41, 0xc3, 0xa4], &mut out).to_vec(), vec![0x41, 0xe4]);
}

#[test]
fn latin9_stops_at_end_of_output() {
    let mut out = [0xeeu8; 3];
    let r = utf8_to_latin9(b"hello", &mut out).to_vec();
    assert_eq!(r, b"hel".to_vec());
    let mut out = [0xeeu8; 4];
    let r = utf8_to_latin9(b"hi", &mut out).to_vec();
    assert_eq!(r, b"hi".to_vec());
    assert_eq!(out, [b'h', b'i', 0xee, 0xee]);
}

#[test]
fn keystrokes_for_plain_text() {
    assert_eq!(
        local_keystrokes(Layout::Qwerty, b"Hi!\n"),
        vec![(0x02, 0x0b), (0x00, 0x0c), (0x02, 0x1e)]
    );
    assert_eq!(
        local_keystrokes(Layout::Qwertz, b"zy\r"),
        vec![(0x00, 0x1c), (0x00, 0x1d)]
    );
}

#[test]
fn keystrokes_strip_only_one_line_ending() {
    assert_eq!(local_keystrokes(Layout::Qwerty, b"a\n\n"), vec![(0x00, 0x04)]);
    assert_eq!(local_keystrokes(Layout::Qwerty, b""), vec![]);
    assert_eq!(local_keystrokes(Layout::Qwerty, b"\n"), vec![]);
}

#[test]
fn keystrokes_for_escapes() {
    // Open the Run dialog example: \w then "notepad" then Enter.
    let keys = local_keystrokes(Layout::Qwertz, b"\\wnotepad\\n\n");
    assert_eq!(keys.len(), 9);
    assert_eq!(keys[0], (0x08, 0x00));
    assert_eq!(keys[1], (0x00, 0x11));
    assert_eq!(keys[8], (0x00, 0x28));
    // Hash via escape, backslash via escape, unknown escape dropped.
    assert_eq!(
        local_keystrokes(Layout::Qwertz, b"\\H3\\\\\\x"),
        vec![(0x00, 0x32), (0x00, 0x20), (0x40, 0x2d)]
    );
    // A trailing backslash is dropped.
    assert_eq!(local_keystrokes(Layout::Qwerty, b"a\\\n"), vec![(0x00, 0x04)]);
    // Ctrl+C.
    assert_eq!(local_keystrokes(Layout::Qwerty, b"\\c"), vec![(0x01, 0x06)]);
}

#[test]
fn keystrokes_for_utf8_umlauts_on_qwertz() {
    assert_eq!(
        local_keystrokes(Layout::Qwertz, "äÖ€\n".as_bytes()),
        vec![(0x00, 0x34), (0x02, 0x33), (0x40, 0x08)]
    );
    // QWERTY has no keys for them: the bytes are dropped.
    assert_eq!(local_keystrokes(Layout::Qwerty, "ä".as_bytes()), vec![]);
}

#[test]
fn hid_reports() {
    assert_eq!(key_down_report(0x02, 0x04), [0x02, 0, 0x04, 0, 0, 0, 0, 0]);
    assert_eq!(key_up_report(), [0u8; 8]);
}
