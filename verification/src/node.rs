//! What a node does with a complete received line.

use vstd::prelude::*;
use crate::layout::Layout;
use crate::protocol::{Dispatch, LED_PULSE_ADDRESSED_MS, dispatch_spec, frame_line, frame_spec, handle_line};
use crate::typing::{local_keystrokes, local_keystrokes_spec};

verus! {

/// Everything a node does in answer to one received line, in this order:
/// pulse the LED, transmit `forward` to the next node, type `keystrokes`.
pub struct LineResponse {
    /// How the line was routed (also tells why a line was dropped).
    pub dispatch: Dispatch,
    /// LED pulse duration (ms), for lines addressed to this node.
    pub led_pulse_ms: Option<u32>,
    /// The line to transmit to the next node, if any.
    pub forward: Option<Vec<u8>>,
    /// The keystrokes `(modifier, keycode)` to type on the host.
    pub keystrokes: Vec<(u8, u8)>,
}

/// The line forwarded for a dispatch of `line`, if any.
pub open spec fn forward_spec(line: Seq<u8>, d: Dispatch) -> Option<Seq<u8>> {
    match d {
        Dispatch::Forward { dst, text_start } => Some(frame_spec(dst as nat, line.skip(text_start as int))),
        Dispatch::Broadcast { text_start } => Some(frame_spec(255, line.skip(text_start as int))),
        _ => None,
    }
}

/// The keystrokes typed for a dispatch of `line`.
pub open spec fn keystrokes_spec(layout: Layout, line: Seq<u8>, d: Dispatch) -> Seq<(u8, u8)> {
    match d {
        Dispatch::Deliver { text_start } | Dispatch::Broadcast { text_start } => local_keystrokes_spec(
            layout,
            line.skip(text_start as int),
        ),
        _ => Seq::empty(),
    }
}

/// The view of an optional byte vector.
pub open spec fn opt_bytes(v: Option<Vec<u8>>) -> Option<Seq<u8>> {
    match v {
        Some(b) => Some(b@),
        None => None,
    }
}

/// Decide everything a node does in answer to the complete line `line`.
pub fn respond_to_line(layout: Layout, line: &[u8]) -> (r: LineResponse)
    ensures
        r.dispatch == dispatch_spec(line@),
        r.led_pulse_ms == (match r.dispatch {
            Dispatch::Deliver { .. } | Dispatch::Broadcast { .. } => Some(LED_PULSE_ADDRESSED_MS),
            _ => None,
        }),
        opt_bytes(r.forward) == forward_spec(line@, r.dispatch),
        r.keystrokes@ == keystrokes_spec(layout, line@, r.dispatch),
{
    let dispatch = handle_line(line);
    proof {
        crate::protocol::lemma_dispatch_bounds(line@);
    }
    let led_pulse_ms = dispatch.led_pulse_ms();
    let (forward, keystrokes) = match dispatch {
        Dispatch::Forward { dst, text_start } => {
            let text = &line[text_start..line.len()];
            assert(text@ =~= line@.skip(text_start as int));
            (Some(frame_line(dst, text)), Vec::new())
        },
        Dispatch::Deliver { text_start } => {
            let text = &line[text_start..line.len()];
            assert(text@ =~= line@.skip(text_start as int));
            (None, local_keystrokes(layout, text))
        },
        Dispatch::Broadcast { text_start } => {
            let text = &line[text_start..line.len()];
            assert(text@ =~= line@.skip(text_start as int));
            (Some(frame_line(255, text)), local_keystrokes(layout, text))
        },
        _ => (None, Vec::new()),
    };
    LineResponse { dispatch, led_pulse_ms, forward, keystrokes }
}

} // verus!

verus! {

/// A line with DST 0 passes through a node unchanged: it is forwarded as it
/// was received, with no LED pulse and nothing typed.
pub proof fn lemma_dst_zero_passes_through(layout: Layout, text: Seq<u8>)
    requires
        text.len() >= 1,
    ensures
        forward_spec(frame_spec(0, text), dispatch_spec(frame_spec(0, text))) == Some(
            frame_spec(0, text),
        ),
        keystrokes_spec(layout, frame_spec(0, text), dispatch_spec(frame_spec(0, text))) == Seq::<
            (u8, u8),
        >::empty(),
        dispatch_spec(frame_spec(0, text)) is Forward,
{
    crate::protocol::lemma_frame_parse_round_trip(0, text);
}

/// A broadcast line is forwarded as it was received, and its text is typed.
pub proof fn lemma_broadcast_response(layout: Layout, text: Seq<u8>)
    requires
        text.len() >= 1,
    ensures
        forward_spec(frame_spec(255, text), dispatch_spec(frame_spec(255, text))) == Some(
            frame_spec(255, text),
        ),
        keystrokes_spec(layout, frame_spec(255, text), dispatch_spec(frame_spec(255, text)))
            == local_keystrokes_spec(layout, text),
{
    crate::protocol::lemma_frame_parse_round_trip(255, text);
    crate::decimal::lemma_parse_fmt_round_trip(255);
    let line = frame_spec(255, text);
    let ts = crate::decimal::decimal_digits(255).len() + 2int;
    assert(3 <= ts <= 12);
    assert((ts as usize) as int == ts);
    assert(dispatch_spec(line) == Dispatch::Broadcast { text_start: ts as usize });
    assert(line.skip((ts as usize) as int) == text);
}

} // verus!

verus! {

/// Whenever a line is delivered to this node, its keystrokes are those that
/// type its TEXT in the node's own layout, and nothing is forwarded.
pub proof fn lemma_delivered_text_typed_in_own_layout(layout: Layout, line: Seq<u8>)
    ensures
        dispatch_spec(line) matches Dispatch::Deliver { text_start } ==> keystrokes_spec(
            layout,
            line,
            dispatch_spec(line),
        ) == local_keystrokes_spec(layout, line.skip(text_start as int)) && forward_spec(
            line,
            dispatch_spec(line),
        ) is None,
{
}

/// A line framed for DST 1 is typed here from its text in the node's own
/// layout; on a QWERTZ node, printable ASCII text without escapes (and with a
/// line ending) is typed as itself, one keystroke per character.
pub proof fn lemma_dst_one_is_typed(layout: Layout, text: Seq<u8>)
    requires
        text.len() >= 1,
    ensures
        keystrokes_spec(layout, frame_spec(1, text), dispatch_spec(frame_spec(1, text)))
            == local_keystrokes_spec(layout, text),
        forward_spec(frame_spec(1, text), dispatch_spec(frame_spec(1, text))) is None,
{
    crate::protocol::lemma_frame_parse_round_trip(1, text);
    crate::decimal::lemma_parse_fmt_round_trip(1);
    let line = frame_spec(1, text);
    let ts = crate::decimal::decimal_digits(1).len() + 2int;
    assert((ts as usize) as int == ts);
    assert(dispatch_spec(line) == Dispatch::Deliver { text_start: ts as usize });
}

/// On a QWERTZ node, a line `#1:<text>` whose text is printable ASCII without
/// `\` (before its line ending, at most 256 bytes) is typed as exactly that
/// text on a German host.
pub proof fn lemma_qwertz_node_types_delivered_text(text: Seq<u8>)
    requires
        text.len() >= 1,
        crate::typing::strip_line_ending(text).len() <= crate::typing::TEXT_BUF_LEN,
        forall|i: int|
            0 <= i < crate::typing::strip_line_ending(text).len() ==> 0x20
                <= #[trigger] crate::typing::strip_line_ending(text)[i] <= 0x7e
                && crate::typing::strip_line_ending(text)[i] != 0x5c,
    ensures
        ({
            let keys = keystrokes_spec(
                Layout::Qwertz,
                frame_spec(1, text),
                dispatch_spec(frame_spec(1, text)),
            );
            &&& keys.len() == crate::typing::strip_line_ending(text).len()
            &&& forall|i: int|
                0 <= i < keys.len() ==> crate::layout_qwertz::german_host_char(
                    #[trigger] keys[i].0,
                    keys[i].1,
                ) == Some(crate::typing::strip_line_ending(text)[i])
        }),
{
    lemma_dst_one_is_typed(Layout::Qwertz, text);
    crate::typing::lemma_qwertz_ascii_text_is_typed(text);
}

} // verus!
