//! Decimal numbers as they appear in header values: whole numbers, and seconds
//! with an optional fraction, read as milliseconds.

use vstd::prelude::*;

verus! {

/// Whether a byte is an ASCII decimal digit.
pub open spec fn is_digit(b: u8) -> bool {
    0x30 <= b <= 0x39
}

/// Whether every byte of `s` is a decimal digit.
pub open spec fn all_digits(s: Seq<u8>) -> bool {
    forall|i: int| 0 <= i < s.len() ==> is_digit(#[trigger] s[i])
}

/// The number that a digit string denotes, most significant digit first; 0
/// for the empty string.
pub open spec fn digits_value(s: Seq<u8>) -> nat
    decreases s.len(),
{
    if s.len() == 0 {
        0
    } else {
        digits_value(s.drop_last()) * 10 + (s.last() - 0x30) as nat
    }
}

/// What a header value denotes as a `u32`: one or more decimal digits whose
/// value fits; anything else denotes nothing.
pub open spec fn u32_of(s: Seq<u8>) -> Option<u32> {
    if s.len() > 0 && all_digits(s) && digits_value(s) <= u32::MAX {
        Some(digits_value(s) as u32)
    } else {
        None
    }
}

/// The position of the first `.` in `s`, or the length of `s` if there is
/// none.
pub open spec fn dot_position(s: Seq<u8>) -> int
    decreases s.len(),
{
    if s.len() == 0 {
        0
    } else if s[0] == 0x2e {
        0
    } else {
        1 + dot_position(s.skip(1))
    }
}

/// The digit at position `i` of a fraction, 0 beyond its end.
pub open spec fn fraction_digit(frac: Seq<u8>, i: int) -> nat {
    if 0 <= i < frac.len() {
        (frac[i] - 0x30) as nat
    } else {
        0
    }
}

/// Whether a fraction has a non-zero digit after its third.
pub open spec fn fraction_has_remainder(frac: Seq<u8>) -> bool {
    exists|i: int| 3 <= i < frac.len() && #[trigger] frac[i] != 0x30
}

/// The milliseconds in a fraction of a second, rounded up: a wait computed
/// from it never ends early.
pub open spec fn fraction_millis(frac: Seq<u8>) -> nat {
    fraction_digit(frac, 0) * 100 + fraction_digit(frac, 1) * 10 + fraction_digit(frac, 2)
        + (if fraction_has_remainder(
        frac,
    ) {
        1nat
    } else {
        0nat
    })
}

/// The whole-seconds part of a decimal number: what stands before the first
/// `.`.
pub open spec fn whole_part(s: Seq<u8>) -> Seq<u8> {
    s.subrange(0, dot_position(s))
}

/// The fraction of a decimal number: what stands after the first `.`, empty
/// if there is none.
pub open spec fn fraction_part(s: Seq<u8>) -> Seq<u8> {
    if dot_position(s) < s.len() {
        s.subrange(dot_position(s) + 1, s.len() as int)
    } else {
        Seq::empty()
    }
}

/// Whether `s` is a decimal number of seconds: digits, optionally a `.` and
/// more digits, with at least one digit in all.
pub open spec fn is_seconds(s: Seq<u8>) -> bool {
    &&& all_digits(whole_part(s))
    &&& all_digits(fraction_part(s))
    &&& whole_part(s).len() + fraction_part(s).len() > 0
}

/// The milliseconds that a well-formed number of seconds denotes, rounded up
/// to the next millisecond.
pub open spec fn seconds_millis(s: Seq<u8>) -> nat {
    digits_value(whole_part(s)) * 1000 + fraction_millis(fraction_part(s))
}

/// What a header value denotes as a duration in milliseconds: a well-formed
/// number of seconds whose milliseconds fit in a `u64`; anything else denotes
/// nothing.
pub open spec fn millis_of(s: Seq<u8>) -> Option<u64> {
    if is_seconds(s) && seconds_millis(s) <= u64::MAX {
        Some(seconds_millis(s) as u64)
    } else {
        None
    }
}

/// The value of a digit string is at least the value of any of its prefixes.
pub proof fn lemma_digits_value_prefix(s: Seq<u8>, n: int)
    requires
        0 <= n <= s.len(),
    ensures
        digits_value(s.subrange(0, n)) <= digits_value(s),
    decreases s.len() - n,
{
    if n == s.len() {
        assert(s.subrange(0, n) =~= s);
    } else {
        lemma_digits_value_prefix(s, n + 1);
        assert(s.subrange(0, n + 1).drop_last() =~= s.subrange(0, n));
    }
}

/// Where the first `.` stands: within the string, with no `.` before it, and
/// on a `.` unless it is the end.
pub proof fn lemma_dot_position(s: Seq<u8>)
    ensures
        0 <= dot_position(s) <= s.len(),
        forall|i: int| 0 <= i < dot_position(s) ==> #[trigger] s[i] != 0x2e,
        dot_position(s) < s.len() ==> s[dot_position(s)] == 0x2e,
    decreases s.len(),
{
    if s.len() > 0 && s[0] != 0x2e {
        lemma_dot_position(s.skip(1));
        assert forall|i: int| 0 <= i < dot_position(s) implies #[trigger] s[i] != 0x2e by {
            if i > 0 {
                assert(s.skip(1)[i - 1] == s[i]);
            }
        }
    }
}

/// A position with no `.` before it that holds a `.`, or is the end, is the
/// position of the first `.`.
pub proof fn lemma_dot_position_is(s: Seq<u8>, p: int)
    requires
        0 <= p <= s.len(),
        forall|i: int| 0 <= i < p ==> #[trigger] s[i] != 0x2e,
        p < s.len() ==> s[p] == 0x2e,
    ensures
        dot_position(s) == p,
{
    lemma_dot_position(s);
    let d = dot_position(s);
    if d < p {
        assert(s[d] != 0x2e);
    } else if p < d {
        assert(s[p] != 0x2e);
    }
}

/// What a text denotes as a number up to `max`: one or more decimal digits
/// whose value is at most `max`; anything else denotes nothing.
pub open spec fn bounded_of(s: Seq<u8>, max: u64) -> Option<u64> {
    if s.len() > 0 && all_digits(s) && digits_value(s) <= max {
        Some(digits_value(s) as u64)
    } else {
        None
    }
}

/// What a text denotes as an `i64`: decimal digits, with `-` before them for
/// a negative number, whose value fits; anything else denotes nothing.
pub open spec fn i64_of(s: Seq<u8>) -> Option<i64> {
    if s.len() > 0 && s[0] == 0x2d {
        match bounded_of(s.skip(1), 0x8000_0000_0000_0000) {
            Some(m) => Some((0 - m) as i64),
            None => None,
        }
    } else {
        match bounded_of(s, 0x7fff_ffff_ffff_ffff) {
            Some(m) => Some(m as i64),
            None => None,
        }
    }
}

/// Reads a text as a number up to `max`.
pub fn parse_bounded(s: &[u8], max: u64) -> (r: Option<u64>)
    ensures
        r == bounded_of(s@, max),
{
    if s.len() == 0 {
        return None;
    }
    let mut acc: u128 = 0;
    let mut i: usize = 0;
    while i < s.len()
        invariant
            0 <= i <= s.len(),
            all_digits(s@.subrange(0, i as int)),
            acc == digits_value(s@.subrange(0, i as int)),
            acc <= max,
        decreases s.len() - i,
    {
        let b: u8 = s[i];
        if b < 0x30 || b > 0x39 {
            assert(!is_digit(s@[i as int]));
            return None;
        }
        proof {
            assert(s@.subrange(0, i + 1).drop_last() =~= s@.subrange(0, i as int));
            assert(s@.subrange(0, i + 1).last() == b);
            assert forall|j: int| 0 <= j < i + 1 implies is_digit(
                #[trigger] s@.subrange(0, i + 1)[j],
            ) by {
                if j < i {
                    assert(s@.subrange(0, i as int)[j] == s@[j]);
                }
            }
        }
        let next: u128 = acc * 10 + (b - 0x30) as u128;
        if next > max as u128 {
            proof {
                lemma_digits_value_prefix(s@, i + 1);
            }
            return None;
        }
        acc = next;
        i += 1;
    }
    assert(s@.subrange(0, i as int) =~= s@);
    Some(acc as u64)
}

/// Reads a text as an `i64`.
pub fn parse_i64(s: &[u8]) -> (r: Option<i64>)
    ensures
        r == i64_of(s@),
{
    if s.len() > 0 && s[0] == 0x2d {
        let digits = vstd::slice::slice_subrange(s, 1, s.len());
        assert(digits@ =~= s@.skip(1));
        match parse_bounded(digits, 0x8000_0000_0000_0000) {
            Some(m) => {
                if m == 0x8000_0000_0000_0000 {
                    Some(i64::MIN)
                } else {
                    Some(0 - (m as i64))
                }
            },
            None => None,
        }
    } else {
        match parse_bounded(s, 0x7fff_ffff_ffff_ffff) {
            Some(m) => Some(m as i64),
            None => None,
        }
    }
}

/// Reads a header value as a `u32`.
pub fn parse_u32(s: &[u8]) -> (r: Option<u32>)
    ensures
        r == u32_of(s@),
{
    match parse_bounded(s, 0xffff_ffff) {
        Some(n) => Some(n as u32),
        None => None,
    }
}

/// The largest number of whole seconds whose milliseconds fit in a `u64`.
pub const MAX_WHOLE_SECONDS: u64 = 18_446_744_073_709_551;

/// The milliseconds that the first `k` digits of a fraction contribute.
pub open spec fn leading_millis(frac: Seq<u8>, k: int) -> nat {
    (if k > 0 {
        fraction_digit(frac, 0) * 100
    } else {
        0
    }) + (if k > 1 {
        fraction_digit(frac, 1) * 10
    } else {
        0
    }) + (if k > 2 {
        fraction_digit(frac, 2)
    } else {
        0
    })
}

/// Reads a header value as a number of seconds and gives it in milliseconds,
/// rounded up.
pub fn parse_millis(s: &[u8]) -> (r: Option<u64>)
    ensures
        r == millis_of(s@),
{
    let mut whole: u64 = 0;
    let mut i: usize = 0;
    while i < s.len() && s[i] != 0x2e
        invariant
            0 <= i <= s.len(),
            all_digits(s@.subrange(0, i as int)),
            whole == digits_value(s@.subrange(0, i as int)),
            whole <= MAX_WHOLE_SECONDS,
        decreases s.len() - i,
    {
        let b: u8 = s[i];
        proof {
            lemma_dot_position(s@);
            let d = dot_position(s@);
            if d <= i {
                assert(s@.subrange(0, i as int)[d] == s@[d]);
            }
            assert(d > i);
            assert(whole_part(s@)[i as int] == b);
            assert(whole_part(s@).subrange(0, i + 1) =~= s@.subrange(0, i + 1));
        }
        if b < 0x30 || b > 0x39 {
            return None;
        }
        proof {
            assert(s@.subrange(0, i + 1).drop_last() =~= s@.subrange(0, i as int));
            assert(s@.subrange(0, i + 1).last() == b);
            assert forall|j: int| 0 <= j < i + 1 implies is_digit(
                #[trigger] s@.subrange(0, i + 1)[j],
            ) by {
                if j < i {
                    assert(s@.subrange(0, i as int)[j] == s@[j]);
                }
            }
        }
        let next: u64 = whole * 10 + (b - 0x30) as u64;
        if next > MAX_WHOLE_SECONDS {
            proof {
                lemma_digits_value_prefix(whole_part(s@), i + 1);
            }
            return None;
        }
        whole = next;
        i += 1;
    }
    proof {
        assert forall|j: int| 0 <= j < i implies #[trigger] s@[j] != 0x2e by {
            assert(s@.subrange(0, i as int)[j] == s@[j]);
        }
        lemma_dot_position_is(s@, i as int);
    }
    let ghost frac = fraction_part(s@);
    let start: usize = if i < s.len() {
        i + 1
    } else {
        i
    };
    assert(frac =~= s@.subrange(start as int, s.len() as int));
    let mut j: usize = start;
    let mut millis: u64 = 0;
    let mut remainder: bool = false;
    while j < s.len()
        invariant
            start <= j <= s.len(),
            frac == fraction_part(s@),
            frac == s@.subrange(start as int, s.len() as int),
            all_digits(frac.subrange(0, j - start)),
            millis == leading_millis(frac, j - start),
            millis <= 999,
            remainder <==> exists|x: int| 3 <= x < j - start && #[trigger] frac[x] != 0x30,
        decreases s.len() - j,
    {
        let b: u8 = s[j];
        assert(frac[j - start] == b);
        if b < 0x30 || b > 0x39 {
            return None;
        }
        let k: usize = j - start;
        let d: u64 = (b - 0x30) as u64;
        if k == 0 {
            millis = millis + d * 100;
        } else if k == 1 {
            millis = millis + d * 10;
        } else if k == 2 {
            millis = millis + d;
        } else if d != 0 {
            remainder = true;
        }
        proof {
            assert forall|x: int| 0 <= x < k + 1 implies is_digit(
                #[trigger] frac.subrange(0, k + 1)[x],
            ) by {
                if x < k {
                    assert(frac.subrange(0, k as int)[x] == frac[x]);
                }
            }
        }
        j += 1;
    }
    assert(frac.subrange(0, j - start) =~= frac);
    assert(s@.subrange(0, i as int) =~= whole_part(s@));
    if i == 0 && j == start {
        return None;
    }
    assert(remainder == fraction_has_remainder(frac));
    assert(millis + (if remainder { 1nat } else { 0nat }) == fraction_millis(frac));
    let extra: u128 = if remainder {
        1
    } else {
        0
    };
    let total: u128 = (whole as u128) * 1000 + (millis as u128) + extra;
    if total > u64::MAX as u128 {
        None
    } else {
        Some(total as u64)
    }
}

} // verus!
