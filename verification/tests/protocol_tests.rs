use u2u_keyboard::assembler::{ByteEvent, LineAssembler, MAX_LINE_LEN};
use u2u_keyboard::layout::Layout;
use u2u_keyboard::node::respond_to_line;
use u2u_keyboard::protocol::{
    frame_line, handle_line, Dispatch, LED_PULSE_ADDRESSED_MS, LED_PULSE_CHAR_MS,
};

#[test]
fn dst_one_is_delivered_here() {
    assert_eq!(handle_line(b"#1:Hello\n"), Dispatch::Deliver { text_start: 3 });
}

#[test]
fn dst_two_is_forwarded_decremented() {
    assert_eq!(handle_line(b"#2:ping\n"), Dispatch::Forward { dst: 1, text_start: 3 });
    assert_eq!(handle_line(b"#254:x\n"), Dispatch::Forward { dst: 253, text_start: 5 });
}

#[test]
fn dst_zero_is_forwarded_unchanged() {
    assert_eq!(handle_line(b"#0:ignored\n"), Dispatch::Forward { dst: 0, text_start: 3 });
}

#[test]
fn dst_255_is_broadcast() {
    assert_eq!(handle_line(b"#255:hello\n"), Dispatch::Broadcast { text_start: 5 });
}

#[test]
fn dst_above_255_is_dropped() {
    assert_eq!(handle_line(b"#256:x\n"), Dispatch::OutOfRange(256));
    assert_eq!(handle_line(b"#4294967295:x\n"), Dispatch::OutOfRange(4294967295));
}

#[test]
fn malformed_lines_are_dropped() {
    assert_eq!(handle_line(b"#1:"), Dispatch::Malformed);
    assert_eq!(handle_line(b"1:ab\n"), Dispatch::Malformed);
    assert_eq!(handle_line(b"#12ab\n"), Dispatch::Malformed);
    assert_eq!(handle_line(b"#:abc\n"), Dispatch::Malformed);
    assert_eq!(handle_line(b"#x1:ab\n"), Dispatch::Malformed);
    assert_eq!(handle_line(b"#4294967296:x\n"), Dispatch::Malformed);
    // The minimal line is accepted.
    assert_eq!(handle_line(b"#0:\n"), Dispatch::Forward { dst: 0, text_start: 3 });
    // DST ends at the first colon; later colons belong to the text.
    assert_eq!(handle_line(b"#1:a:b\n"), Dispatch::Deliver { text_start: 3 });
}

#[test]
fn led_pulses() {
    assert_eq!(Dispatch::Deliver { text_start: 3 }.led_pulse_ms(), Some(LED_PULSE_ADDRESSED_MS));
    assert_eq!(Dispatch::Broadcast { text_start: 5 }.led_pulse_ms(), Some(100));
    assert_eq!(Dispatch::Forward { dst: 0, text_start: 3 }.led_pulse_ms(), None);
    assert_eq!(Dispatch::Malformed.led_pulse_ms(), None);
    assert_eq!(LED_PULSE_CHAR_MS, 20);
}

#[test]
fn framing() {
    assert_eq!(frame_line(1, b"ping\n"), b"#1:ping\n".to_vec());
    assert_eq!(frame_line(255, b"hello\n"), b"#255:hello\n".to_vec());
    assert_eq!(frame_line(0, b""), b"#0:".to_vec());
    assert_eq!(frame_line(9999, b"x"), b"#9999:x".to_vec());
}

#[test]
fn node_forwards_decremented_line() {
    let r = respond_to_line(Layout::Qwertz, b"#2:ping\n");
    assert_eq!(r.dispatch, Dispatch::Forward { dst: 1, text_start: 3 });
    assert_eq!(r.forward, Some(b"#1:ping\n".to_vec()));
    assert_eq!(r.led_pulse_ms, None);
    assert!(r.keystrokes.is_empty());
}

#[test]
fn node_types_its_own_lines() {
    let r = respond_to_line(Layout::Qwerty, b"#1:Hi\n");
    assert_eq!(r.forward, None);
    assert_eq!(r.led_pulse_ms, Some(100));
    assert_eq!(r.keystrokes, vec![(0x02, 0x0b), (0x00, 0x0c)]);
}

#[test]
fn node_broadcast_forwards_unchanged_and_types() {
    let line = b"#255:echo 'Hi'\n";
    let r = respond_to_line(Layout::Qwertz, line);
    assert_eq!(r.forward, Some(line.to_vec()));
    assert_eq!(r.led_pulse_ms, Some(100));
    assert_eq!(r.keystrokes.len(), 9);
}

#[test]
fn node_drops_bad_lines() {
    let r = respond_to_line(Layout::Qwertz, b"#300:x\n");
    assert_eq!(r.dispatch, Dispatch::OutOfRange(300));
    assert_eq!(r.forward, None);
    assert!(r.keystrokes.is_empty());
}

fn feed(a: &mut LineAssembler, bytes: &[u8]) -> Vec<Vec<u8>> {
    let mut lines = Vec::new();
    for &b in bytes {
        if let ByteEvent::Line(l) = a.push_byte(b) {
            lines.push(l);
        }
    }
    lines
}

#[test]
fn assembler_collects_lines() {
    let mut a = LineAssembler::new();
    let lines = feed(&mut a, b"noise#1:Hello\n#2:ping\r");
    assert_eq!(lines, vec![b"#1:Hello\n".to_vec(), b"#2:ping\r".to_vec()]);
}

#[test]
fn assembler_hash_restarts_line() {
    let mut a = LineAssembler::new();
    let lines = feed(&mut a, b"#1:abc#3:x\n");
    assert_eq!(lines, vec![b"#3:x\n".to_vec()]);
}

#[test]
fn assembler_discards_bytes_outside_lines() {
    let mut a = LineAssembler::new();
    assert!(feed(&mut a, b"hello\n\r").is_empty());
    a.push_byte(b'#');
    a.reset();
    assert!(feed(&mut a, b"1:x\n").is_empty());
}

#[test]
fn assembler_drops_long_lines() {
    let mut a = LineAssembler::new();
    let mut line = vec![b'#'];
    line.extend(std::iter::repeat(b'a').take(MAX_LINE_LEN - 2));
    line.push(b'\n');
    assert_eq!(line.len(), 256);
    assert_eq!(feed(&mut a, &line), vec![line.clone()]);

    let mut too_long = vec![b'#'];
    too_long.extend(std::iter::repeat(b'a').take(MAX_LINE_LEN - 1));
    let mut too_long_seen = false;
    for &b in too_long.iter().chain(b"b\n".iter()) {
        match a.push_byte(b) {
            ByteEvent::TooLong => too_long_seen = true,
            ByteEvent::Line(_) => panic!("a too long line was produced"),
            ByteEvent::Nothing => {}
        }
    }
    assert!(too_long_seen);
}
