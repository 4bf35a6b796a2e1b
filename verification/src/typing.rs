//! Turning text addressed to this node into keystrokes.

use vstd::prelude::*;
use crate::ascii::{BACKSLASH, CR, LF};
use crate::layout::{KeyCode, Layout, ascii_to_hid, layout_key};
use crate::latin9::{latin9, truncate, utf8_to_latin9};

verus! {

/// Size of the buffer that receives the Latin-9 conversion of a text; the
/// same as the longest line the node accepts.
pub const TEXT_BUF_LEN: usize = 256;

/// `text` without one trailing line ending (`\n` or `\r`).
pub open spec fn strip_line_ending(text: Seq<u8>) -> Seq<u8> {
    if text.len() > 0 && (text.last() == LF || text.last() == CR) {
        text.drop_last()
    } else {
        text
    }
}

/// The bytes that are looked up in the layout: the text without its line
/// ending, converted from UTF-8 to Latin-9 for the QWERTZ layout (at most
/// [`TEXT_BUF_LEN`] bytes of conversion).
pub open spec fn key_input(layout: Layout, text: Seq<u8>) -> Seq<u8> {
    match layout {
        Layout::Qwerty => strip_line_ending(text),
        Layout::Qwertz => truncate(latin9(strip_line_ending(text)), TEXT_BUF_LEN as int),
    }
}

/// One byte of typing: from whether the previous byte was a `\` and the
/// latched modifiers, to the next such state and the keystroke sent, if any.
///
/// After a `\` the byte is looked up in the escape table: a key is sent with
/// the latched modifiers added and the latch cleared; a modifier-only event
/// is added to the latch; an unknown escape is dropped.  Otherwise a `\`
/// starts an escape, and a byte with a key is sent with the latched
/// modifiers, clearing the latch; other bytes are dropped.
pub open spec fn typing_step(layout: Layout, escape: bool, latched: u8, ch: u8) -> (
    bool,
    u8,
    Option<(u8, u8)>,
) {
    if escape {
        match layout_key(layout, ch, true) {
            KeyCode::Code(m, k) => (false, 0, Some(((latched | m) as u8, k))),
            KeyCode::Modifier(m) => (false, (latched | m) as u8, None),
            KeyCode::Unmapped => (false, latched, None),
        }
    } else if ch == BACKSLASH {
        (true, latched, None)
    } else {
        match layout_key(layout, ch, false) {
            KeyCode::Code(m, k) => (false, 0, Some(((latched | m) as u8, k))),
            _ => (false, latched, None),
        }
    }
}

/// The keystrokes `(modifier, keycode)` sent for `bytes`, starting from the
/// given escape state and latched modifiers.
pub open spec fn keystrokes_from(layout: Layout, bytes: Seq<u8>, escape: bool, latched: u8) -> Seq<
    (u8, u8),
>
    decreases bytes.len(),
{
    if bytes.len() == 0 {
        Seq::empty()
    } else {
        let (e, l, out) = typing_step(layout, escape, latched, bytes[0]);
        let rest = keystrokes_from(layout, bytes.skip(1), e, l);
        match out {
            Some(key) => seq![key] + rest,
            None => rest,
        }
    }
}

/// The keystrokes for text addressed to this node.
pub open spec fn local_keystrokes_spec(layout: Layout, text: Seq<u8>) -> Seq<(u8, u8)> {
    keystrokes_from(layout, key_input(layout, text), false, 0)
}

/// The keystrokes `(modifier, keycode)` that type `text` (the TEXT field of a
/// line addressed to this node, usually with its line ending) on the host.
pub fn local_keystrokes(layout: Layout, text: &[u8]) -> (r: Vec<(u8, u8)>)
    ensures
        r@ == local_keystrokes_spec(layout, text@),
{
    let n = text.len();
    let end = if n > 0 && (text[n - 1] == LF || text[n - 1] == CR) {
        n - 1
    } else {
        n
    };
    let stripped = &text[0..end];
    assert(stripped@ =~= strip_line_ending(text@));
    let mut buf = [0u8; 256];
    let bytes: &[u8] = match layout {
        Layout::Qwerty => stripped,
        Layout::Qwertz => utf8_to_latin9(stripped, &mut buf),
    };
    assert(bytes@ == key_input(layout, text@));

    let mut keys: Vec<(u8, u8)> = Vec::new();
    let mut escape = false;
    let mut latched: u8 = 0;
    let mut i: usize = 0;
    assert(bytes@.skip(0) =~= bytes@);
    while i < bytes.len()
        invariant
            0 <= i <= bytes@.len(),
            keys@ + keystrokes_from(layout, bytes@.skip(i as int), escape, latched)
                == keystrokes_from(layout, bytes@, false, 0),
        decreases bytes@.len() - i,
    {
        let ch = bytes[i];
        let ghost rest = bytes@.skip(i as int);
        assert(rest.skip(1) =~= bytes@.skip(i + 1));
        assert(rest[0] == ch);
        let ghost before = keys@;
        if escape {
            escape = false;
            match ascii_to_hid(layout, ch, true) {
                KeyCode::Code(modifier, keycode) => {
                    keys.push((latched | modifier, keycode));
                    latched = 0;
                },
                KeyCode::Modifier(modifier) => {
                    latched = latched | modifier;
                },
                KeyCode::Unmapped => {},
            }
        } else if ch == BACKSLASH {
            escape = true;
        } else {
            match ascii_to_hid(layout, ch, false) {
                KeyCode::Code(modifier, keycode) => {
                    keys.push((latched | modifier, keycode));
                    latched = 0;
                },
                KeyCode::Unmapped | KeyCode::Modifier(_) => {},
            }
        }
        proof {
            if keys@.len() > before.len() {
                assert(keys@ =~= before + seq![keys@.last()]);
                assert(before + seq![keys@.last()] + keystrokes_from(
                    layout,
                    bytes@.skip(i + 1),
                    escape,
                    latched,
                ) =~= before + (seq![keys@.last()] + keystrokes_from(
                    layout,
                    bytes@.skip(i + 1),
                    escape,
                    latched,
                )));
            }
        }
        i = i + 1;
    }
    assert(bytes@.skip(i as int) =~= Seq::<u8>::empty());
    assert(keys@ =~= keys@ + Seq::<(u8, u8)>::empty());
    keys
}

} // verus!

verus! {

/// The `(modifier, keycode)` pair of a key press.
pub open spec fn key_pair(k: KeyCode) -> (u8, u8) {
    match k {
        KeyCode::Code(m, c) => (m, c),
        _ => (0, 0),
    }
}

/// `s` holds no `\` and every byte of it has a key in `layout`.
pub open spec fn plain_typable(layout: Layout, s: Seq<u8>) -> bool {
    forall|i: int| 0 <= i < s.len() ==> #[trigger] s[i] != BACKSLASH && layout_key(layout, s[i], false) is Code
}

/// Text without escapes is typed one keystroke per byte, each the byte's key.
pub proof fn lemma_plain_text_keystrokes(layout: Layout, s: Seq<u8>)
    requires
        plain_typable(layout, s),
    ensures
        keystrokes_from(layout, s, false, 0) == Seq::new(
            s.len(),
            |i: int| key_pair(layout_key(layout, s[i], false)),
        ),
    decreases s.len(),
{
    if s.len() > 0 {
        let rest = s.skip(1);
        assert(s[0] != BACKSLASH && layout_key(layout, s[0], false) is Code);
        assert forall|i: int| 0 <= i < rest.len() implies #[trigger] rest[i] != BACKSLASH
            && layout_key(layout, rest[i], false) is Code by {
            assert(rest[i] == s[i + 1]);
        }
        lemma_plain_text_keystrokes(layout, rest);
        if let KeyCode::Code(m, k) = layout_key(layout, s[0], false) {
            assert((0u8 | m) == m) by (bit_vector);
        }
        assert(keystrokes_from(layout, s, false, 0) =~= Seq::new(
            s.len(),
            |i: int| key_pair(layout_key(layout, s[i], false)),
        ));
    }
}

/// On a QWERTY host, printable ASCII text without escapes is typed exactly:
/// one keystroke per character (the line ending aside), and each keystroke
/// produces its character.
pub proof fn lemma_qwerty_text_is_typed(text: Seq<u8>)
    requires
        forall|i: int|
            0 <= i < strip_line_ending(text).len() ==> 0x20 <= #[trigger] strip_line_ending(text)[i]
                <= 0x7e && strip_line_ending(text)[i] != BACKSLASH,
    ensures
        local_keystrokes_spec(Layout::Qwerty, text).len() == strip_line_ending(text).len(),
        forall|i: int|
            0 <= i < strip_line_ending(text).len() ==> crate::layout_qwerty::us_host_char(
                #[trigger] local_keystrokes_spec(Layout::Qwerty, text)[i].0,
                local_keystrokes_spec(Layout::Qwerty, text)[i].1,
            ) == Some(strip_line_ending(text)[i]),
{
    let s = strip_line_ending(text);
    assert forall|i: int| 0 <= i < s.len() implies #[trigger] s[i] != BACKSLASH && layout_key(
        Layout::Qwerty,
        s[i],
        false,
    ) is Code by {
        crate::layout_qwerty::lemma_qwerty_key_types_char(s[i]);
    }
    lemma_plain_text_keystrokes(Layout::Qwerty, s);
    assert forall|i: int| 0 <= i < s.len() implies crate::layout_qwerty::us_host_char(
        #[trigger] local_keystrokes_spec(Layout::Qwerty, text)[i].0,
        local_keystrokes_spec(Layout::Qwerty, text)[i].1,
    ) == Some(s[i]) by {
        crate::layout_qwerty::lemma_qwerty_key_types_char(s[i]);
    }
}

/// On a QWERTZ host, printable ASCII text without escapes (up to the
/// conversion buffer's length) is typed exactly: one keystroke per
/// character (the line ending aside), and each keystroke produces its
/// character.
pub proof fn lemma_qwertz_ascii_text_is_typed(text: Seq<u8>)
    requires
        strip_line_ending(text).len() <= TEXT_BUF_LEN,
        forall|i: int|
            0 <= i < strip_line_ending(text).len() ==> 0x20 <= #[trigger] strip_line_ending(text)[i]
                <= 0x7e && strip_line_ending(text)[i] != BACKSLASH,
    ensures
        local_keystrokes_spec(Layout::Qwertz, text).len() == strip_line_ending(text).len(),
        forall|i: int|
            0 <= i < strip_line_ending(text).len() ==> crate::layout_qwertz::german_host_char(
                #[trigger] local_keystrokes_spec(Layout::Qwertz, text)[i].0,
                local_keystrokes_spec(Layout::Qwertz, text)[i].1,
            ) == Some(strip_line_ending(text)[i]),
{
    let s = strip_line_ending(text);
    crate::latin9::lemma_latin9_ascii_unchanged(s);
    assert(key_input(Layout::Qwertz, text) == s);
    assert forall|i: int| 0 <= i < s.len() implies #[trigger] s[i] != BACKSLASH && layout_key(
        Layout::Qwertz,
        s[i],
        false,
    ) is Code by {
        crate::layout_qwertz::lemma_qwertz_key_types_char(s[i]);
    }
    lemma_plain_text_keystrokes(Layout::Qwertz, s);
    assert forall|i: int| 0 <= i < s.len() implies crate::layout_qwertz::german_host_char(
        #[trigger] local_keystrokes_spec(Layout::Qwertz, text)[i].0,
        local_keystrokes_spec(Layout::Qwertz, text)[i].1,
    ) == Some(s[i]) by {
        crate::layout_qwertz::lemma_qwertz_key_types_char(s[i]);
    }
}

} // verus!

verus! {

/// The keystrokes an escape `\c` sends: the key of `c` in the escape table, or
/// nothing for an unknown escape.
pub open spec fn escape_keystrokes(layout: Layout, c: u8) -> Seq<(u8, u8)> {
    match layout_key(layout, c, true) {
        KeyCode::Code(m, k) => seq![(m, k)],
        _ => Seq::empty(),
    }
}

/// A `\` and the character after it are not typed literally: together they
/// send the escape's key (nothing for an unknown escape), and typing goes on
/// after them as from the start.
pub proof fn lemma_escape_sends_its_key(layout: Layout, c: u8, rest: Seq<u8>)
    ensures
        keystrokes_from(layout, seq![BACKSLASH, c] + rest, false, 0) == escape_keystrokes(layout, c)
            + keystrokes_from(layout, rest, false, 0),
{
    let s = seq![BACKSLASH, c] + rest;
    assert(s.skip(1) =~= seq![c] + rest);
    assert((seq![c] + rest).skip(1) =~= rest);
    assert(s[0] == BACKSLASH);
    assert((seq![c] + rest)[0] == c);
    reveal_with_fuel(keystrokes_from, 2);
    assert(!(layout_key(layout, c, true) is Modifier));
    if let KeyCode::Code(m, k) = layout_key(layout, c, true) {
        assert((0u8 | m) == m) by (bit_vector);
    }
    assert(keystrokes_from(layout, s, false, 0) =~= escape_keystrokes(layout, c) + keystrokes_from(
        layout,
        rest,
        false,
        0,
    ));
}

} // verus!

verus! {

proof fn lemma_single_char_keystroke(c: u8)
    requires
        crate::layout_qwertz::is_german_extra(c),
    ensures
        keystrokes_from(Layout::Qwertz, seq![c], false, 0) == seq![
            key_pair(layout_key(Layout::Qwertz, c, false)),
        ],
        crate::layout_qwertz::german_host_char(
            key_pair(layout_key(Layout::Qwertz, c, false)).0,
            key_pair(layout_key(Layout::Qwertz, c, false)).1,
        ) == Some(c),
{
    crate::layout_qwertz::lemma_qwertz_key_types_char(c);
    let s = seq![c];
    assert(s.skip(1) =~= Seq::<u8>::empty());
    reveal_with_fuel(keystrokes_from, 2);
    if let KeyCode::Code(m, k) = layout_key(Layout::Qwertz, c, false) {
        assert((0u8 | m) == m) by (bit_vector);
    }
    assert(keystrokes_from(Layout::Qwertz, s, false, 0) =~= seq![
        key_pair(layout_key(Layout::Qwertz, c, false)),
    ]);
}

/// On a QWERTZ host, each German character sent UTF-8 encoded (ä Ä ö Ö ü Ü ß §
/// ° as two bytes, € as three) is typed as one keystroke that produces it.
pub proof fn lemma_qwertz_german_char_is_typed(c: u8)
    requires
        crate::layout_qwertz::is_german_extra(c),
    ensures
        ({
            let text = if c == 0x80 {
                crate::latin9::utf8_euro()
            } else {
                crate::latin9::utf8_two_byte(c)
            };
            let keys = local_keystrokes_spec(Layout::Qwertz, text);
            keys.len() == 1 && crate::layout_qwertz::german_host_char(keys[0].0, keys[0].1) == Some(
                c,
            )
        }),
{
    let text = if c == 0x80 {
        crate::latin9::utf8_euro()
    } else {
        crate::latin9::utf8_two_byte(c)
    };
    assert(strip_line_ending(text) == text);
    if c == 0x80 {
        crate::latin9::lemma_latin9_euro(Seq::empty());
        assert(text + Seq::<u8>::empty() =~= text);
    } else {
        crate::latin9::lemma_latin9_two_byte(c, Seq::empty());
        assert(text + Seq::<u8>::empty() =~= text);
    }
    assert(latin9(Seq::<u8>::empty()) =~= Seq::<u8>::empty());
    assert(latin9(text) =~= seq![c]);
    assert(key_input(Layout::Qwertz, text) == seq![c]);
    lemma_single_char_keystroke(c);
}

} // verus!

verus! {

/// A byte that is not a `\` and has no key in the layout is dropped: it sends
/// nothing, starts no escape and keeps the latched modifiers, so the text
/// around it is typed as if it were not there.
pub proof fn lemma_unmapped_byte_dropped(layout: Layout, b: u8, rest: Seq<u8>, latched: u8)
    requires
        b != 0x5c,
        !(layout_key(layout, b, false) is Code),
    ensures
        keystrokes_from(layout, seq![b] + rest, false, latched) == keystrokes_from(
            layout,
            rest,
            false,
            latched,
        ),
{
    let s = seq![b] + rest;
    assert(s.skip(1) =~= rest);
    assert(s[0] == b);
}

} // verus!

verus! {

/// The line ending of a text is not typed: a text followed by `\n` or `\r`
/// gives the same keystrokes as the text alone (when the text does not itself
/// end with a line ending).
pub proof fn lemma_line_ending_not_typed(layout: Layout, text: Seq<u8>, end: u8)
    requires
        end == 0x0a || end == 0x0d,
        text.len() == 0 || (text.last() != 0x0a && text.last() != 0x0d),
    ensures
        local_keystrokes_spec(layout, text.push(end)) == local_keystrokes_spec(layout, text),
{
    assert(text.push(end).drop_last() =~= text);
}

} // verus!
