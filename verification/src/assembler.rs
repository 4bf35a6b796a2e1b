//! Assembling received UART bytes into lines.

use vstd::prelude::*;
use crate::ascii::{CR, FRAME_START, LF};

verus! {

/// Maximum length of a single received line (including `#`, DST, `:`, TEXT
/// and the line ending).
pub const MAX_LINE_LEN: usize = 256;

/// What the assembler holds: the line received so far and whether a line
/// has been started by a `#`.
pub struct AssemblerState {
    pub line: Seq<u8>,
    pub in_line: bool,
}

/// What one received byte produces, in terms of sequences.
pub enum LineEvent {
    Nothing,
    TooLong,
    Line(Seq<u8>),
}

/// What one received byte produces.
#[derive(Debug)]
pub enum ByteEvent {
    /// Nothing to do yet.
    Nothing,
    /// The line grew past [`MAX_LINE_LEN`] and was discarded.
    TooLong,
    /// A complete line, from its `#` to its line ending included.
    Line(Vec<u8>),
}

impl View for ByteEvent {
    type V = LineEvent;

    open spec fn view(&self) -> LineEvent {
        match self {
            ByteEvent::Nothing => LineEvent::Nothing,
            ByteEvent::TooLong => LineEvent::TooLong,
            ByteEvent::Line(v) => LineEvent::Line(v@),
        }
    }
}

/// The state with no line started.
pub open spec fn idle() -> AssemblerState {
    AssemblerState { line: Seq::empty(), in_line: false }
}

/// `b` ends a line.
pub open spec fn is_line_end(b: u8) -> bool {
    b == LF || b == CR
}

/// One received byte:
/// - `#` starts a new line, discarding any partial one;
/// - within a line, a byte that would make it longer than [`MAX_LINE_LEN`]
///   discards the line;
/// - otherwise it is appended, and a `\n` or `\r` completes the line;
/// - bytes received outside a line are discarded.
pub open spec fn assembler_step(s: AssemblerState, b: u8) -> (AssemblerState, LineEvent) {
    if b == FRAME_START {
        (AssemblerState { line: seq![FRAME_START], in_line: true }, LineEvent::Nothing)
    } else if s.in_line {
        if s.line.len() >= MAX_LINE_LEN {
            (idle(), LineEvent::TooLong)
        } else if is_line_end(b) {
            (idle(), LineEvent::Line(s.line.push(b)))
        } else {
            (AssemblerState { line: s.line.push(b), in_line: true }, LineEvent::Nothing)
        }
    } else {
        (s, LineEvent::Nothing)
    }
}

/// The state after, and the events of, receiving `bytes` from state `s`.
pub open spec fn feed(s: AssemblerState, bytes: Seq<u8>) -> (AssemblerState, Seq<LineEvent>)
    decreases bytes.len(),
{
    if bytes.len() == 0 {
        (s, Seq::empty())
    } else {
        let (s1, e) = assembler_step(s, bytes[0]);
        let (s2, es) = feed(s1, bytes.skip(1));
        (s2, seq![e] + es)
    }
}

/// Collects received bytes into `#<DST>:<TEXT>\n` lines.
pub struct LineAssembler {
    line: Vec<u8>,
    in_line: bool,
}

impl View for LineAssembler {
    type V = AssemblerState;

    closed spec fn view(&self) -> AssemblerState {
        AssemblerState { line: self.line@, in_line: self.in_line }
    }
}

impl LineAssembler {
    #[verifier::type_invariant]
    spec fn inv(self) -> bool {
        &&& self.line@.len() <= MAX_LINE_LEN
        &&& !self.in_line ==> self.line@.len() == 0
    }

    /// An assembler with no line started.
    pub fn new() -> (r: Self)
        ensures
            r@ == idle(),
    {
        LineAssembler { line: Vec::new(), in_line: false }
    }

    /// Forget any partial line (after a receive error).
    pub fn reset(&mut self)
        ensures
            final(self)@ == idle(),
    {
        *self = LineAssembler::new();
    }

    /// Take one received byte.
    pub fn push_byte(&mut self, b: u8) -> (r: ByteEvent)
        ensures
            (final(self)@, r@) == assembler_step(old(self)@, b),
    {
        proof {
            use_type_invariant(&*self);
        }
        if b == FRAME_START {
            // Start of a new line; '#' mid-stream also resets any partial line.
            let mut line = Vec::new();
            line.push(FRAME_START);
            *self = LineAssembler { line, in_line: true };
            assert(self@.line =~= seq![FRAME_START]);
            return ByteEvent::Nothing;
        }
        if !self.in_line {
            // Bytes received before the first '#' are discarded.
            return ByteEvent::Nothing;
        }
        if self.line.len() >= MAX_LINE_LEN {
            *self = LineAssembler::new();
            return ByteEvent::TooLong;
        }
        let mut line = Vec::new();
        std::mem::swap(&mut line, &mut self.line);
        line.push(b);
        if b == LF || b == CR {
            *self = LineAssembler::new();
            ByteEvent::Line(line)
        } else {
            *self = LineAssembler { line, in_line: true };
            ByteEvent::Nothing
        }
    }
}

} // verus!

verus! {

/// `n` events of nothing to do.
pub open spec fn nothing_events(n: nat) -> Seq<LineEvent> {
    Seq::new(n, |i: int| LineEvent::Nothing)
}

/// `line` is a well-formed frame: it starts with `#`, ends with its only line
/// ending, holds no other `#`, and fits in [`MAX_LINE_LEN`].
pub open spec fn is_frame(line: Seq<u8>) -> bool {
    &&& 2 <= line.len() <= MAX_LINE_LEN
    &&& line[0] == FRAME_START
    &&& is_line_end(line.last())
    &&& forall|i: int| 1 <= i < line.len() - 1 ==> #[trigger] line[i] != FRAME_START && !is_line_end(line[i])
}

proof fn lemma_frame_rest(line: Seq<u8>, k: int)
    requires
        is_frame(line),
        1 <= k < line.len(),
    ensures
        feed(AssemblerState { line: line.take(k), in_line: true }, line.skip(k)) == (
            idle(),
            nothing_events((line.len() - 1 - k) as nat).push(LineEvent::Line(line)),
        ),
    decreases line.len() - k,
{
    let s = AssemblerState { line: line.take(k), in_line: true };
    let rest = line.skip(k);
    assert(rest[0] == line[k]);
    assert(line.take(k).push(line[k]) =~= line.take(k + 1));
    let (s1, e) = assembler_step(s, rest[0]);
    let (s2, es) = feed(s1, rest.skip(1));
    assert(feed(s, rest) == (s2, seq![e] + es));
    if k == line.len() - 1 {
        assert(line.take(k + 1) =~= line);
        assert(s1 == idle());
        assert(e == LineEvent::Line(line));
        assert(rest.skip(1) =~= Seq::<u8>::empty());
        assert(seq![e] + es =~= nothing_events(0).push(LineEvent::Line(line)));
    } else {
        assert(line[k] != FRAME_START && !is_line_end(line[k]));
        assert(s1.line =~= line.take(k + 1));
        assert(s1 == AssemblerState { line: line.take(k + 1), in_line: true });
        assert(e == LineEvent::Nothing);
        assert(rest.skip(1) =~= line.skip(k + 1));
        lemma_frame_rest(line, k + 1);
        assert(seq![e] + es =~= nothing_events((line.len() - 1 - k) as nat).push(
            LineEvent::Line(line),
        ));
    }
}

/// Whatever was received before, a well-formed frame is received as exactly
/// that line, at its line ending and at no earlier byte, and leaves the
/// assembler with no line started.
pub proof fn lemma_frame_is_received(s: AssemblerState, line: Seq<u8>)
    requires
        is_frame(line),
    ensures
        feed(s, line) == (idle(), nothing_events((line.len() - 1) as nat).push(LineEvent::Line(line))),
{
    assert(line.take(1) =~= seq![FRAME_START]);
    lemma_frame_rest(line, 1);
    assert(seq![LineEvent::Nothing] + nothing_events((line.len() - 2) as nat).push(
        LineEvent::Line(line),
    ) =~= nothing_events((line.len() - 1) as nat).push(LineEvent::Line(line)));
}

/// Bytes received before the first `#` are discarded: they produce nothing
/// and leave no line started.
pub proof fn lemma_noise_is_discarded(bytes: Seq<u8>)
    requires
        forall|i: int| 0 <= i < bytes.len() ==> #[trigger] bytes[i] != FRAME_START,
    ensures
        feed(idle(), bytes) == (idle(), nothing_events(bytes.len())),
    decreases bytes.len(),
{
    if bytes.len() > 0 {
        let rest = bytes.skip(1);
        assert forall|i: int| 0 <= i < rest.len() implies #[trigger] rest[i] != FRAME_START by {
            assert(rest[i] == bytes[i + 1]);
        }
        lemma_noise_is_discarded(rest);
        assert(seq![LineEvent::Nothing] + nothing_events(rest.len()) =~= nothing_events(
            bytes.len(),
        ));
    }
}

proof fn lemma_long_rest(bytes: Seq<u8>, k: int)
    requires
        bytes.len() == MAX_LINE_LEN + 1,
        bytes[0] == FRAME_START,
        forall|i: int| 1 <= i < MAX_LINE_LEN ==> #[trigger] bytes[i] != FRAME_START && !is_line_end(bytes[i]),
        bytes[MAX_LINE_LEN as int] != FRAME_START,
        1 <= k <= MAX_LINE_LEN,
    ensures
        feed(AssemblerState { line: bytes.take(k), in_line: true }, bytes.skip(k)) == (
            idle(),
            nothing_events((MAX_LINE_LEN - k) as nat).push(LineEvent::TooLong),
        ),
    decreases MAX_LINE_LEN - k,
{
    let s = AssemblerState { line: bytes.take(k), in_line: true };
    let rest = bytes.skip(k);
    assert(rest[0] == bytes[k]);
    let (s1, e) = assembler_step(s, rest[0]);
    let (s2, es) = feed(s1, rest.skip(1));
    assert(feed(s, rest) == (s2, seq![e] + es));
    if k == MAX_LINE_LEN {
        assert(s1 == idle());
        assert(e == LineEvent::TooLong);
        assert(rest.skip(1) =~= Seq::<u8>::empty());
        assert(seq![e] + es =~= nothing_events(0).push(LineEvent::TooLong));
    } else {
        assert(bytes.take(k).push(bytes[k]) =~= bytes.take(k + 1));
        assert(s1.line =~= bytes.take(k + 1));
        assert(s1 == AssemblerState { line: bytes.take(k + 1), in_line: true });
        assert(e == LineEvent::Nothing);
        assert(rest.skip(1) =~= bytes.skip(k + 1));
        lemma_long_rest(bytes, k + 1);
        assert(seq![e] + es =~= nothing_events((MAX_LINE_LEN - k) as nat).push(
            LineEvent::TooLong,
        ));
    }
}

/// A line that grows past [`MAX_LINE_LEN`] bytes without a line ending is
/// dropped: the byte after the 256th reports it as too long and leaves no line
/// started, and no line is produced.
pub proof fn lemma_long_line_is_dropped(s: AssemblerState, bytes: Seq<u8>)
    requires
        bytes.len() == MAX_LINE_LEN + 1,
        bytes[0] == FRAME_START,
        forall|i: int| 1 <= i < MAX_LINE_LEN ==> #[trigger] bytes[i] != FRAME_START && !is_line_end(bytes[i]),
        bytes[MAX_LINE_LEN as int] != FRAME_START,
    ensures
        feed(s, bytes) == (idle(), nothing_events(MAX_LINE_LEN as nat).push(LineEvent::TooLong)),
{
    assert(bytes.take(1) =~= seq![FRAME_START]);
    lemma_long_rest(bytes, 1);
    assert(seq![LineEvent::Nothing] + nothing_events((MAX_LINE_LEN - 1) as nat).push(
        LineEvent::TooLong,
    ) =~= nothing_events(MAX_LINE_LEN as nat).push(LineEvent::TooLong));
}

} // verus!

verus! {

/// Within a started line that has room, every byte other than `#`, `\n` and
/// `\r` is appended to the line and completes nothing; `\n` and `\r` complete
/// the line with themselves appended.
pub proof fn lemma_only_newlines_end_lines(s: AssemblerState, b: u8)
    requires
        s.in_line,
        s.line.len() < MAX_LINE_LEN,
        b != FRAME_START,
    ensures
        b != 0x0a && b != 0x0d ==> assembler_step(s, b) == (
            AssemblerState { line: s.line.push(b), in_line: true },
            LineEvent::Nothing,
        ),
        (b == 0x0a || b == 0x0d) ==> assembler_step(s, b) == (idle(), LineEvent::Line(s.line.push(b))),
{
}

/// `#`, then any text free of `#`, `\n` and `\r` (at most 254 bytes), then a
/// `\n` or `\r`, is received, whatever came before, as exactly that line at its
/// last byte, with nothing at any earlier byte.
pub proof fn lemma_text_line_is_received(s: AssemblerState, text: Seq<u8>, end: u8)
    requires
        text.len() <= MAX_LINE_LEN - 2,
        forall|i: int| 0 <= i < text.len() ==> #[trigger] text[i] != 0x23 && text[i] != 0x0a && text[i] != 0x0d,
        end == 0x0a || end == 0x0d,
    ensures
        ({
            let line = seq![0x23u8] + text + seq![end];
            feed(s, line) == (idle(), nothing_events(text.len() + 1).push(LineEvent::Line(line)))
        }),
{
    let line = seq![0x23u8] + text + seq![end];
    assert forall|i: int| 1 <= i < line.len() - 1 implies #[trigger] line[i] != FRAME_START
        && !is_line_end(line[i]) by {
        assert(line[i] == text[i - 1]);
    }
    assert(is_frame(line));
    lemma_frame_is_received(s, line);
}

} // verus!
