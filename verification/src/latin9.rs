//! UTF-8 to Latin-9 conversion of received text.

use vstd::prelude::*;

verus! {

/// `b` is a UTF-8 continuation byte (`10xxxxxx`).
pub open spec fn is_continuation(b: u8) -> bool {
    0x80 <= b <= 0xbf
}

/// The Latin-9 rendering of UTF-8 text:
/// - ASCII bytes (< 0x80) pass through unchanged;
/// - a two-byte sequence (lead byte 0xC0-0xDF and a continuation byte) whose
///   code point lies in 0x80-0xFF becomes that byte (covers ä Ä ö Ö ü Ü ß §
///   °); other two-byte sequences are dropped;
/// - a three-byte sequence (lead byte 0xE0-0xEF and two continuation bytes)
///   becomes 0x80 when it is U+20AC (€, E2 82 AC) and is dropped otherwise;
/// - any other byte (start of a four-byte sequence, a stray continuation byte,
///   or a lead byte whose continuation bytes are missing) is skipped on its
///   own, so that the bytes after it are read afresh.
pub open spec fn latin9(input: Seq<u8>) -> Seq<u8>
    decreases input.len(),
{
    if input.len() == 0 {
        Seq::empty()
    } else {
        let b = input[0];
        if b < 0x80 {
            seq![b] + latin9(input.skip(1))
        } else if 0xc0 <= b <= 0xdf && 1 < input.len() && is_continuation(input[1]) {
            let b2 = input[1];
            let head = if b == 0xc2 || b == 0xc3 {
                seq![((b - 0xc0) * 64 + (b2 - 0x80)) as u8]
            } else {
                Seq::empty()
            };
            head + latin9(input.skip(2))
        } else if 0xe0 <= b <= 0xef && 2 < input.len() && is_continuation(input[1])
            && is_continuation(input[2]) {
            let head = if b == 0xe2 && input[1] == 0x82 && input[2] == 0xac {
                seq![0x80u8]
            } else {
                Seq::empty()
            };
            head + latin9(input.skip(3))
        } else {
            latin9(input.skip(1))
        }
    }
}

/// `s` truncated to at most `n` bytes.
pub open spec fn truncate(s: Seq<u8>, n: int) -> Seq<u8> {
    if s.len() <= n {
        s
    } else {
        s.take(n)
    }
}

/// Convert UTF-8 encoded text to Latin-9 (ISO-8859-15), writing into `out`.
///
/// Returns the converted sub-slice of `out`: the conversion of `input`,
/// cut to `out`'s length.  Bytes of `out` past it are left unchanged.
pub fn utf8_to_latin9<'a>(input: &[u8], out: &'a mut [u8]) -> (r: &'a [u8])
    ensures
        r@ == truncate(latin9(input@), old(out)@.len() as int),
        final(out)@ == r@ + old(out)@.skip(r@.len() as int),
{
    let mut i: usize = 0;
    let mut j: usize = 0;
    assert(input@.skip(0) =~= input@);
    assert(out@.take(0) =~= Seq::<u8>::empty());
    assert(out@.skip(0) =~= out@);
    while i < input.len() && j < out.len()
        invariant
            0 <= i <= input@.len(),
            0 <= j <= out@.len(),
            out@.len() == old(out)@.len(),
            out@.skip(j as int) == old(out)@.skip(j as int),
            latin9(input@) == out@.take(j as int) + latin9(input@.skip(i as int)),
        decreases input@.len() - i,
    {
        let ghost before = out@;
        let ghost j0 = j as int;
        let ghost rest = input@.skip(i as int);
        let b = input[i];
        if b < 0x80 {
            assert(rest.skip(1) =~= input@.skip(i + 1));
            out[j] = b;
            j = j + 1;
            i = i + 1;
            assert(out@.take(j as int) =~= before.take(j - 1) + seq![b]);
        } else if 0xc0 <= b && b <= 0xdf && input.len() - i > 1 && 0x80 <= input[i + 1]
            && input[i + 1] <= 0xbf {
            assert(rest.skip(2) =~= input@.skip(i + 2));
            let b2 = input[i + 1];
            if b == 0xc2 || b == 0xc3 {
                let c: u8 = (b - 0xc0) * 64 + (b2 - 0x80);
                out[j] = c;
                j = j + 1;
                assert(out@.take(j as int) =~= before.take(j - 1) + seq![c]);
            } else {
                assert(latin9(rest) =~= latin9(rest.skip(2)));
            }
            i = i + 2;
        } else if 0xe0 <= b && b <= 0xef && input.len() - i > 2 && 0x80 <= input[i + 1]
            && input[i + 1] <= 0xbf && 0x80 <= input[i + 2] && input[i + 2] <= 0xbf {
            assert(rest.skip(3) =~= input@.skip(i + 3));
            if b == 0xe2 && input[i + 1] == 0x82 && input[i + 2] == 0xac {
                out[j] = 0x80;
                j = j + 1;
                assert(out@.take(j as int) =~= before.take(j - 1) + seq![0x80u8]);
            } else {
                assert(latin9(rest) =~= latin9(rest.skip(3)));
            }
            i = i + 3;
        } else {
            assert(rest.skip(1) =~= input@.skip(i + 1));
            i = i + 1;
        }
        assert forall|k: int| 0 <= k < out@.len() - j implies #[trigger] out@.skip(j as int)[k]
            == old(out)@.skip(j as int)[k] by {
            assert(before.skip(j0)[k + j - j0] == old(out)@.skip(j0)[k + j - j0]);
        }
        assert(out@.skip(j as int) =~= old(out)@.skip(j as int));
    }
    proof {
        if i >= input.len() {
            assert(input@.skip(i as int) =~= Seq::<u8>::empty());
            assert(latin9(input@) =~= out@.take(j as int));
        }
    }
    &out[0..j]
}

} // verus!

verus! {

/// The UTF-8 encoding of a code point in 0x80-0xFF.
pub open spec fn utf8_two_byte(cp: u8) -> Seq<u8> {
    seq![(0xc0 + cp / 64) as u8, (0x80 + cp % 64) as u8]
}

/// The UTF-8 encoding of U+20AC (€).
pub open spec fn utf8_euro() -> Seq<u8> {
    seq![0xe2u8, 0x82u8, 0xacu8]
}

/// ASCII text passes through the conversion unchanged.
pub proof fn lemma_latin9_ascii_unchanged(s: Seq<u8>)
    requires
        forall|i: int| 0 <= i < s.len() ==> #[trigger] s[i] < 0x80,
    ensures
        latin9(s) == s,
    decreases s.len(),
{
    if s.len() > 0 {
        lemma_latin9_ascii_unchanged(s.skip(1));
        assert(s =~= seq![s[0]] + s.skip(1));
    }
}

/// A code point in 0x80-0xFF, UTF-8 encoded in front of any text, becomes its
/// single Latin-9 byte.
pub proof fn lemma_latin9_two_byte(cp: u8, rest: Seq<u8>)
    requires
        cp >= 0x80,
    ensures
        latin9(utf8_two_byte(cp) + rest) == seq![cp] + latin9(rest),
{
    let s = utf8_two_byte(cp) + rest;
    assert(s.skip(2) =~= rest);
    assert(s[0] == 0xc0 + cp / 64 && s[1] == 0x80 + cp % 64);
}

/// The euro sign, UTF-8 encoded in front of any text, becomes 0x80.
pub proof fn lemma_latin9_euro(rest: Seq<u8>)
    ensures
        latin9(utf8_euro() + rest) == seq![0x80u8] + latin9(rest),
{
    let s = utf8_euro() + rest;
    assert(s.skip(3) =~= rest);
}

/// The conversion is never longer than its input.
pub proof fn lemma_latin9_not_longer(s: Seq<u8>)
    ensures
        latin9(s).len() <= s.len(),
    decreases s.len(),
{
    if s.len() > 0 {
        lemma_latin9_not_longer(s.skip(1));
        if s.len() > 1 {
            lemma_latin9_not_longer(s.skip(2));
        }
        if s.len() > 2 {
            lemma_latin9_not_longer(s.skip(3));
        }
    }
}

} // verus!

verus! {

/// A non-ASCII byte that is not followed by a continuation byte (such as a
/// lead byte whose sequence is cut short by ASCII) is skipped on its own: the
/// text after it is converted as if it were not there.
pub proof fn lemma_latin9_unfinished_lead_skipped(b: u8, rest: Seq<u8>)
    requires
        b >= 0x80,
        rest.len() == 0 || !is_continuation(rest[0]),
    ensures
        latin9(seq![b] + rest) == latin9(rest),
{
    let s = seq![b] + rest;
    assert(s.skip(1) =~= rest);
    if rest.len() > 0 {
        assert(s[1] == rest[0]);
    }
}

} // verus!

verus! {

/// A well-formed three-byte UTF-8 sequence other than the euro sign's
/// (E2 82 AC) converts to nothing: the text after it converts on its own.
pub proof fn lemma_latin9_other_three_byte_dropped(b1: u8, b2: u8, b3: u8, rest: Seq<u8>)
    requires
        0xe0 <= b1 <= 0xef,
        0x80 <= b2 <= 0xbf,
        0x80 <= b3 <= 0xbf,
        !(b1 == 0xe2 && b2 == 0x82 && b3 == 0xac),
    ensures
        latin9(seq![b1, b2, b3] + rest) == latin9(rest),
{
    let s = seq![b1, b2, b3] + rest;
    assert(s.skip(3) =~= rest);
    assert(s[0] == b1 && s[1] == b2 && s[2] == b3);
    assert(Seq::<u8>::empty() + latin9(rest) =~= latin9(rest));
}

/// A well-formed two-byte UTF-8 sequence whose code point is above 0xFF (lead
/// byte 0xC4-0xDF) converts to nothing: the text after it converts on its own.
pub proof fn lemma_latin9_wide_two_byte_dropped(b1: u8, b2: u8, rest: Seq<u8>)
    requires
        0xc4 <= b1 <= 0xdf,
        0x80 <= b2 <= 0xbf,
    ensures
        latin9(seq![b1, b2] + rest) == latin9(rest),
{
    let s = seq![b1, b2] + rest;
    assert(s.skip(2) =~= rest);
    assert(s[0] == b1 && s[1] == b2);
    assert(Seq::<u8>::empty() + latin9(rest) =~= latin9(rest));
}

} // verus!
