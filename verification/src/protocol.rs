//! The `#<DST>:<TEXT>\n` line protocol: routing a received line, and framing
//! a line for the next node.

use vstd::prelude::*;
use crate::ascii::{COLON, FRAME_START};
use crate::decimal::{decimal_digits, parse_u32, parse_u32_spec, fmt_u32};

verus! {

/// LED pulse duration (ms) for a line addressed to this node (DST 1 or 255).
pub const LED_PULSE_ADDRESSED_MS: u32 = 100;

/// LED pulse duration (ms) for a single received character.
pub const LED_PULSE_CHAR_MS: u32 = 20;

/// What to do with a complete received line.
#[derive(Clone, Copy, Debug, PartialEq, Eq, Structural)]
pub enum Dispatch {
    /// Not of the form `#<DST>:<TEXT>`: dropped.
    Malformed,
    /// DST is above 255: dropped.
    OutOfRange(u32),
    /// Retransmit `#<dst>:` and the text (from `text_start` on) to the next node.
    Forward { dst: u32, text_start: usize },
    /// Addressed to this node: pulse the LED and type the text.
    Deliver { text_start: usize },
    /// Broadcast: pulse the LED, retransmit the line unchanged (DST 255) and
    /// type the text.
    Broadcast { text_start: usize },
}

/// The index of the first `:` in `line` at or after `from`.
pub open spec fn first_colon_from(line: Seq<u8>, from: int) -> Option<int>
    decreases line.len() - from,
{
    if from < 0 || from >= line.len() {
        None
    } else if line[from] == COLON {
        Some(from)
    } else {
        first_colon_from(line, from + 1)
    }
}

/// DST and the start of TEXT of a line `#<DST>:<TEXT>` at least 4 bytes long,
/// where DST is the decimal number between the `#` and the first `:`.
pub open spec fn parsed_line(line: Seq<u8>) -> Option<(u32, int)> {
    if line.len() < 4 || line[0] != FRAME_START {
        None
    } else {
        match first_colon_from(line, 1) {
            None => None,
            Some(c) => match parse_u32_spec(line.subrange(1, c)) {
                None => None,
                Some(dst) => Some((dst, c + 1)),
            },
        }
    }
}

/// The routing rule for a line with destination `dst`:
/// 0 is forwarded unchanged, 1 is delivered here, 2-254 are forwarded with
/// DST decremented, 255 is forwarded unchanged and delivered here, anything
/// larger is dropped.
pub open spec fn route(dst: u32, text_start: usize) -> Dispatch {
    if dst == 0 {
        Dispatch::Forward { dst: 0, text_start }
    } else if dst == 1 {
        Dispatch::Deliver { text_start }
    } else if dst <= 254 {
        Dispatch::Forward { dst: (dst - 1) as u32, text_start }
    } else if dst == 255 {
        Dispatch::Broadcast { text_start }
    } else {
        Dispatch::OutOfRange(dst)
    }
}

/// What [`handle_line`] decides for `line`.
pub open spec fn dispatch_spec(line: Seq<u8>) -> Dispatch {
    match parsed_line(line) {
        None => Dispatch::Malformed,
        Some((dst, text_start)) => route(dst, text_start as usize),
    }
}

/// Parse and route a complete line of the form `#<DST>:<TEXT>\n`.
pub fn handle_line(line: &[u8]) -> (r: Dispatch)
    ensures
        r == dispatch_spec(line@),
{
    // Minimum valid line: "#0:\n", 4 bytes.
    if line.len() < 4 || line[0] != FRAME_START {
        return Dispatch::Malformed;
    }
    // Locate the ':' that separates the DST field from the TEXT field.
    let mut i: usize = 1;
    while i < line.len() && line[i] != COLON
        invariant
            1 <= i <= line@.len(),
            first_colon_from(line@, 1) == first_colon_from(line@, i as int),
        decreases line@.len() - i,
    {
        i = i + 1;
    }
    if i == line.len() {
        return Dispatch::Malformed;
    }
    let colon = i;
    let dst = match parse_u32(&line[1..colon]) {
        Some(v) => v,
        None => {
            return Dispatch::Malformed;
        },
    };
    let text_start = colon + 1;
    if dst == 0 {
        Dispatch::Forward { dst: 0, text_start }
    } else if dst == 1 {
        Dispatch::Deliver { text_start }
    } else if dst <= 254 {
        Dispatch::Forward { dst: dst - 1, text_start }
    } else if dst == 255 {
        Dispatch::Broadcast { text_start }
    } else {
        Dispatch::OutOfRange(dst)
    }
}

impl Dispatch {
    /// The LED pulse (ms) that a line with this dispatch triggers: a long one
    /// when the line is addressed to this node.
    pub fn led_pulse_ms(&self) -> (r: Option<u32>)
        ensures
            r == (match *self {
                Dispatch::Deliver { .. } | Dispatch::Broadcast { .. } => Some(LED_PULSE_ADDRESSED_MS),
                _ => None,
            }),
    {
        match self {
            Dispatch::Deliver { .. } | Dispatch::Broadcast { .. } => Some(LED_PULSE_ADDRESSED_MS),
            _ => None,
        }
    }
}

/// The bytes of the line `#<dst>:<text>`.
pub open spec fn frame_spec(dst: nat, text: Seq<u8>) -> Seq<u8> {
    seq![FRAME_START] + decimal_digits(dst) + seq![COLON] + text
}

/// Serialize `#<dst>:<text>` for transmission to the next node.
/// `text` is expected to include its trailing `'\n'`.  The header has room
/// for four digits of `dst`.
pub fn frame_line(dst: u32, text: &[u8]) -> (r: Vec<u8>)
    requires
        dst <= 9999,
    ensures
        r@ == frame_spec(dst as nat, text@),
{
    let mut digits = [0u8; 5];
    proof {
        crate::decimal::lemma_parse_fmt_round_trip(dst);
        crate::decimal::lemma_digit_count(dst as nat);
    }
    let n = fmt_u32(&mut digits, dst);
    let mut r: Vec<u8> = Vec::new();
    r.push(FRAME_START);
    let mut i: usize = 0;
    while i < n
        invariant
            0 <= i <= n,
            n == decimal_digits(dst as nat).len(),
            n <= digits@.len(),
            digits@.take(n as int) == decimal_digits(dst as nat),
            r@ == seq![FRAME_START] + digits@.take(i as int),
        decreases n - i,
    {
        r.push(digits[i]);
        assert(digits@.take(i + 1) =~= digits@.take(i as int).push(digits@[i as int]));
        i = i + 1;
    }
    r.push(COLON);
    let mut k: usize = 0;
    while k < text.len()
        invariant
            0 <= k <= text@.len(),
            r@ == seq![FRAME_START] + decimal_digits(dst as nat) + seq![COLON] + text@.take(k as int),
        decreases text@.len() - k,
    {
        r.push(text[k]);
        assert(text@.take(k + 1) =~= text@.take(k as int).push(text@[k as int]));
        k = k + 1;
    }
    assert(text@.take(text@.len() as int) =~= text@);
    r
}

} // verus!

verus! {

proof fn lemma_first_colon_at(line: Seq<u8>, from: int, c: int)
    requires
        0 <= from <= c < line.len(),
        line[c] == COLON,
        forall|k: int| from <= k < c ==> #[trigger] line[k] != COLON,
    ensures
        first_colon_from(line, from) == Some(c),
    decreases c - from,
{
    if from < c {
        lemma_first_colon_at(line, from + 1, c);
    }
}

/// A framed line reads back as what was framed: its DST is `dst` and its
/// TEXT is `text` (which must not be empty, as a line is at least 4 bytes).
pub proof fn lemma_frame_parse_round_trip(dst: u32, text: Seq<u8>)
    requires
        text.len() >= 1,
    ensures
        parsed_line(frame_spec(dst as nat, text)) == Some(
            (dst, decimal_digits(dst as nat).len() + 2int),
        ),
        frame_spec(dst as nat, text).skip(decimal_digits(dst as nat).len() + 2int) == text,
{
    crate::decimal::lemma_parse_fmt_round_trip(dst);
    let d = decimal_digits(dst as nat);
    let line = frame_spec(dst as nat, text);
    let c: int = d.len() as int + 1;
    assert(line[c] == COLON);
    assert forall|k: int| 1 <= k < c implies #[trigger] line[k] != COLON by {
        assert(line[k] == d[k - 1]);
        assert(crate::decimal::is_digit(d[k - 1]));
    }
    lemma_first_colon_at(line, 1, c);
    assert(line.subrange(1, c) =~= d);
    assert(line.skip(c + 1) =~= text);
}

/// A line framed for destination `dst` is routed by the rule for `dst`,
/// with its TEXT starting where the framed text starts.
pub proof fn lemma_framed_line_is_routed(dst: u32, text: Seq<u8>)
    requires
        text.len() >= 1,
    ensures
        dispatch_spec(frame_spec(dst as nat, text)) == route(
            dst,
            (decimal_digits(dst as nat).len() + 2) as usize,
        ),
{
    lemma_frame_parse_round_trip(dst, text);
}

/// Daisy-chain delivery: a text sent as `#<d>:<text>` with 1 <= d <= 254 is
/// relayed, unchanged and with DST one lower, by each of the first d-1 nodes
/// without being delivered there, and is delivered (and not relayed) by node d.
pub proof fn lemma_daisy_chain_delivery(d: u32, text: Seq<u8>, k: u32)
    requires
        1 <= d <= 254,
        k < d,
        text.len() >= 1,
    ensures
        k + 1 < d ==> (dispatch_spec(frame_spec((d - k) as nat, text)) matches Dispatch::Forward {
            dst,
            text_start,
        } && dst == d - k - 1 && frame_spec((d - k) as nat, text).skip(text_start as int) == text),
        k + 1 == d ==> (dispatch_spec(frame_spec((d - k) as nat, text)) matches Dispatch::Deliver {
            text_start,
        } && frame_spec((d - k) as nat, text).skip(text_start as int) == text),
{
    let hop = (d - k) as u32;
    crate::decimal::lemma_parse_fmt_round_trip(hop);
    lemma_frame_parse_round_trip(hop, text);
}

/// A broadcast line (DST 255) is delivered here and forwarded unchanged: the
/// forwarded frame is the received line itself.
pub proof fn lemma_broadcast_forwards_unchanged(text: Seq<u8>)
    requires
        text.len() >= 1,
    ensures
        dispatch_spec(frame_spec(255, text)) matches Dispatch::Broadcast { text_start }
            && frame_spec(255, frame_spec(255, text).skip(text_start as int)) == frame_spec(255, text),
{
    crate::decimal::lemma_parse_fmt_round_trip(255);
    lemma_frame_parse_round_trip(255, text);
}

} // verus!

verus! {

proof fn lemma_first_colon_in_line(line: Seq<u8>, from: int)
    ensures
        first_colon_from(line, from) matches Some(c) ==> from <= c < line.len() && line[c] == COLON,
    decreases line.len() - from,
{
    if 0 <= from < line.len() && line[from] != COLON {
        lemma_first_colon_in_line(line, from + 1);
    }
}

/// The TEXT of a routed line starts within the line, and a forwarded DST is
/// at most 254.
pub proof fn lemma_dispatch_bounds(line: Seq<u8>)
    ensures
        dispatch_spec(line) matches Dispatch::Forward { dst, text_start } ==> dst <= 254
            && text_start <= line.len(),
        dispatch_spec(line) matches Dispatch::Deliver { text_start } ==> text_start <= line.len(),
        dispatch_spec(line) matches Dispatch::Broadcast { text_start } ==> text_start <= line.len(),
{
    lemma_first_colon_in_line(line, 1);
}

} // verus!

verus! {

/// A framed line whose DST is above 255 is dropped as out of range.
pub proof fn lemma_large_dst_dropped(dst: u32, text: Seq<u8>)
    requires
        dst > 255,
        text.len() >= 1,
    ensures
        dispatch_spec(frame_spec(dst as nat, text)) == Dispatch::OutOfRange(dst),
{
    lemma_frame_parse_round_trip(dst, text);
}

/// A line that does not start with `#`, or is shorter than 4 bytes, or has no
/// `:` after its first byte, is dropped as malformed.
pub proof fn lemma_malformed_lines_dropped(line: Seq<u8>)
    ensures
        (line.len() < 4 || line[0] != 0x23) ==> dispatch_spec(line) == Dispatch::Malformed,
        (forall|k: int| 1 <= k < line.len() ==> #[trigger] line[k] != 0x3a) ==> dispatch_spec(line)
            == Dispatch::Malformed,
{
    if forall|k: int| 1 <= k < line.len() ==> #[trigger] line[k] != 0x3a {
        lemma_first_colon_in_line(line, 1);
    }
}

} // verus!
