//! ASCII decimal parsing and formatting.

use vstd::prelude::*;

verus! {

/// `b` is an ASCII digit `0`-`9`.
pub open spec fn is_digit(b: u8) -> bool {
    0x30 <= b <= 0x39
}

/// Every byte of `s` is an ASCII digit.
pub open spec fn all_digits(s: Seq<u8>) -> bool {
    forall|i: int| 0 <= i < s.len() ==> is_digit(#[trigger] s[i])
}

/// The number that the ASCII digits `s` spell in decimal (0 for no digits).
pub open spec fn decimal_value(s: Seq<u8>) -> nat
    decreases s.len(),
{
    if s.len() == 0 {
        0
    } else {
        decimal_value(s.drop_last()) * 10 + (s.last() - 0x30) as nat
    }
}

/// What `parse_u32` gives for `s`: the value of a non-empty run of digits
/// that fits in a `u32`, else `None`.
pub open spec fn parse_u32_spec(s: Seq<u8>) -> Option<u32> {
    if s.len() > 0 && all_digits(s) && decimal_value(s) <= u32::MAX {
        Some(decimal_value(s) as u32)
    } else {
        None
    }
}

/// The digits of `v` without leading zeros; empty for 0.
pub open spec fn significant_digits(v: nat) -> Seq<u8>
    decreases v,
{
    if v == 0 {
        Seq::empty()
    } else {
        significant_digits(v / 10).push((0x30 + v % 10) as u8)
    }
}

/// The decimal representation of `v`: `0` for zero, else its digits without
/// leading zeros.
pub open spec fn decimal_digits(v: nat) -> Seq<u8> {
    if v == 0 {
        seq![0x30u8]
    } else {
        significant_digits(v)
    }
}

/// The value of a prefix of a run of digits is at most the value of the run.
proof fn lemma_prefix_value_le(s: Seq<u8>, j: int)
    requires
        all_digits(s),
        0 <= j <= s.len(),
    ensures
        decimal_value(s.take(j)) <= decimal_value(s),
    decreases s.len(),
{
    if j < s.len() {
        assert(s.drop_last().take(j) =~= s.take(j));
        lemma_prefix_value_le(s.drop_last(), j);
    } else {
        assert(s.take(j) =~= s);
    }
}

/// Parse a non-empty ASCII decimal byte slice into a `u32`.
/// Returns `None` if the slice is empty, contains non-digit bytes, or overflows.
pub fn parse_u32(s: &[u8]) -> (r: Option<u32>)
    ensures
        r == parse_u32_spec(s@),
{
    if s.len() == 0 {
        return None;
    }
    let mut val: u32 = 0;
    let mut i: usize = 0;
    while i < s.len()
        invariant
            0 <= i <= s.len(),
            all_digits(s@.take(i as int)),
            val == decimal_value(s@.take(i as int)),
        decreases s.len() - i,
    {
        let b = s[i];
        assert(s@.take(i + 1).drop_last() =~= s@.take(i as int));
        if !(0x30 <= b && b <= 0x39) {
            assert(!is_digit(s@[i as int]));
            return None;
        }
        let next = match val.checked_mul(10) {
            Some(t) => t.checked_add((b - 0x30) as u32),
            None => None,
        };
        match next {
            Some(v) => {
                val = v;
            },
            None => {
                proof {
                    if all_digits(s@) {
                        lemma_prefix_value_le(s@, i + 1);
                    }
                }
                return None;
            },
        }
        i = i + 1;
    }
    assert(s@.take(s.len() as int) =~= s@);
    Some(val)
}

/// The significant digits of `v`, as a vector.
fn significant_digits_vec(v: u32) -> (r: Vec<u8>)
    ensures
        r@ == significant_digits(v as nat),
    decreases v,
{
    if v == 0 {
        Vec::new()
    } else {
        let mut r = significant_digits_vec(v / 10);
        r.push(0x30 + (v % 10) as u8);
        r
    }
}

/// Write `val` as ASCII decimal into `buf`. Returns the number of bytes written.
/// Where `buf` is shorter than the representation, only its leading digits
/// are written.
pub fn fmt_u32(buf: &mut [u8], val: u32) -> (n: usize)
    ensures
        n == if decimal_digits(val as nat).len() <= old(buf)@.len() {
            decimal_digits(val as nat).len()
        } else {
            old(buf)@.len()
        },
        final(buf)@ == decimal_digits(val as nat).take(n as int) + old(buf)@.skip(n as int),
{
    if val == 0 {
        if buf.len() == 0 {
            assert(buf@.skip(0) =~= buf@);
            return 0;
        }
        buf[0] = 0x30;
        assert(buf@ =~= decimal_digits(0).take(1) + old(buf)@.skip(1));
        return 1;
    }
    let digits = significant_digits_vec(val);
    let out = if digits.len() <= buf.len() { digits.len() } else { buf.len() };
    let mut i: usize = 0;
    while i < out
        invariant
            0 <= i <= out,
            out <= digits@.len(),
            out <= old(buf)@.len(),
            digits@ == decimal_digits(val as nat),
            buf@ == digits@.take(i as int) + old(buf)@.skip(i as int),
        decreases out - i,
    {
        buf[i] = digits[i];
        assert(buf@ =~= digits@.take(i + 1) + old(buf)@.skip(i + 1));
        i = i + 1;
    }
    out
}

} // verus!

verus! {

proof fn lemma_significant_digits_value(v: nat)
    ensures
        all_digits(significant_digits(v)),
        decimal_value(significant_digits(v)) == v,
        v > 0 ==> significant_digits(v).len() > 0,
    decreases v,
{
    if v > 0 {
        lemma_significant_digits_value(v / 10);
        let s = significant_digits(v);
        assert(s.drop_last() =~= significant_digits(v / 10));
        assert forall|i: int| 0 <= i < s.len() implies is_digit(#[trigger] s[i]) by {
            if i < s.len() - 1 {
                assert(s[i] == significant_digits(v / 10)[i]);
            }
        }
    }
}

/// Parsing the decimal representation of any `u32` gives that number back.
pub proof fn lemma_parse_fmt_round_trip(v: u32)
    ensures
        parse_u32_spec(decimal_digits(v as nat)) == Some(v),
        all_digits(decimal_digits(v as nat)),
        1 <= decimal_digits(v as nat).len() <= 10,
{
    lemma_significant_digits_value(v as nat);
    lemma_digit_count(v as nat);
    if v == 0 {
        let s = decimal_digits(0);
        assert(s.drop_last() =~= Seq::<u8>::empty());
    }
}

/// Numbers below 10^k have at most k significant digits.
pub proof fn lemma_digit_count(v: nat)
    ensures
        v < 10 ==> significant_digits(v).len() <= 1,
        v < 100 ==> significant_digits(v).len() <= 2,
        v < 1000 ==> significant_digits(v).len() <= 3,
        v < 10000 ==> significant_digits(v).len() <= 4,
        v < 100000 ==> significant_digits(v).len() <= 5,
        v < 1000000 ==> significant_digits(v).len() <= 6,
        v < 10000000 ==> significant_digits(v).len() <= 7,
        v < 100000000 ==> significant_digits(v).len() <= 8,
        v < 1000000000 ==> significant_digits(v).len() <= 9,
        v < 10000000000 ==> significant_digits(v).len() <= 10,
    decreases v,
{
    if v > 0 {
        lemma_digit_count(v / 10);
    }
}

} // verus!
