//! Text that the dispatcher writes into paths, queries and headers: decimal
//! numbers, truth values and percent-encoded strings.

use vstd::prelude::*;
use vstd::string::StringSliceAdditionalSpecFns;

verus! {

/// The character of a decimal digit.
pub open spec fn digit_char(d: nat) -> char {
    (0x30 + d) as u8 as char
}

/// The decimal digits of a number, without leading zeros; `0` for zero.
pub open spec fn decimal(n: nat) -> Seq<char>
    decreases n,
{
    if n < 10 {
        seq![digit_char(n)]
    } else {
        decimal(n / 10).push(digit_char(n % 10))
    }
}

/// How a truth value is written in a query.
pub open spec fn truth(b: bool) -> Seq<char> {
    if b {
        seq!['t', 'r', 'u', 'e']
    } else {
        seq!['f', 'a', 'l', 's', 'e']
    }
}

/// Whether a byte is an ASCII letter or digit.
pub open spec fn is_alphanumeric(b: u8) -> bool {
    ||| 0x30 <= b <= 0x39
    ||| 0x41 <= b <= 0x5a
    ||| 0x61 <= b <= 0x7a
}

/// The character of a hexadecimal digit, in upper case.
pub open spec fn hex_upper(d: nat) -> char {
    if d < 10 {
        (0x30 + d) as u8 as char
    } else {
        (0x37 + d) as u8 as char
    }
}

/// One byte, percent-encoded: ASCII letters and digits stand for themselves,
/// every other byte becomes `%` and its two hexadecimal digits.
pub open spec fn percent_encoded_byte(b: u8) -> Seq<char> {
    if is_alphanumeric(b) {
        seq![b as char]
    } else {
        seq!['%', hex_upper((b / 16) as nat), hex_upper((b % 16) as nat)]
    }
}

/// A byte string, percent-encoded byte by byte.
pub open spec fn percent_encoded(bytes: Seq<u8>) -> Seq<char>
    decreases bytes.len(),
{
    if bytes.len() == 0 {
        Seq::empty()
    } else {
        percent_encoded(bytes.drop_last()) + percent_encoded_byte(bytes.last())
    }
}

/// Whether a character may stand in a header value as it is: visible ASCII.
pub open spec fn is_visible_ascii(c: char) -> bool {
    0x21 <= c as u32 <= 0x7e
}

/// Every character of a percent-encoded string is visible ASCII, so the
/// string can stand in a header value.
pub proof fn lemma_percent_encoded_is_visible(bytes: Seq<u8>)
    ensures
        forall|i: int|
            0 <= i < percent_encoded(bytes).len()
                ==> is_visible_ascii(#[trigger] percent_encoded(bytes)[i]),
    decreases bytes.len(),
{
    if bytes.len() > 0 {
        lemma_percent_encoded_is_visible(bytes.drop_last());
        let head = percent_encoded(bytes.drop_last());
        let tail = percent_encoded_byte(bytes.last());
        let b = bytes.last();
        assert(forall|d: nat| d < 16 ==> is_visible_ascii(#[trigger] hex_upper(d)));
        assert((b / 16) < 16 && (b % 16) < 16);
        assert(forall|j: int| 0 <= j < tail.len() ==> is_visible_ascii(#[trigger] tail[j]));
        assert forall|i: int| 0 <= i < percent_encoded(bytes).len() implies is_visible_ascii(
            #[trigger] percent_encoded(bytes)[i],
        ) by {
            if i < head.len() {
                assert(percent_encoded(bytes)[i] == head[i]);
            } else {
                assert(percent_encoded(bytes)[i] == tail[i - head.len()]);
            }
        }
    }
}

/// Writes a number in decimal.
///
/// Calls `to_arraystring` of the crate `to_arraystring` on a `u64`, which
/// formats as `to_string` does: the decimal digits without leading zeros.
#[verifier::external_body]
pub(crate) fn decimal_u64(n: u64) -> (s: String)
    ensures
        s@ == decimal(n as nat),
{
    to_arraystring::ToArrayString::to_arraystring(n).as_str().to_owned()
}

/// Writes a truth value as `true` or `false`.
///
/// Calls `to_arraystring` of the crate `to_arraystring` on a `bool`, which
/// gives one of these two words.
#[verifier::external_body]
pub(crate) fn truth_text(b: bool) -> (s: String)
    ensures
        s@ == truth(b),
{
    to_arraystring::ToArrayString::to_arraystring(b).as_str().to_owned()
}

/// Percent-encodes the UTF-8 bytes of a string, leaving only ASCII letters
/// and digits as they are.
///
/// Calls `utf8_percent_encode` of the crate `percent_encoding` with the set
/// `NON_ALPHANUMERIC`: each byte that is not an ASCII letter or digit comes
/// out as `%` and two upper-case hexadecimal digits, in the order of the
/// input.
#[verifier::external_body]
pub(crate) fn percent_encode(text: &str) -> (s: String)
    ensures
        s@ == percent_encoded(text.spec_bytes()),
{
    std::borrow::Cow::from(
        percent_encoding::utf8_percent_encode(text, percent_encoding::NON_ALPHANUMERIC),
    ).into_owned()
}

} // verus!
