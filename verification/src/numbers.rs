//! Reading of decimal numbers and booleans from configuration text.

use vstd::prelude::*;
use crate::text::str_equal;

verus! {

/// Whether `c` is a decimal digit.
pub open spec fn is_digit(c: char) -> bool {
    '0' <= c <= '9'
}

/// Whether `s` is made of decimal digits only.
pub open spec fn all_digits(s: Seq<char>) -> bool {
    forall|i: int| 0 <= i < s.len() ==> is_digit(#[trigger] s[i])
}

/// The number that the digits of `s` denote, most significant first.
pub open spec fn digits_value(s: Seq<char>) -> nat
    decreases s.len(),
{
    if s.len() == 0 {
        0
    } else {
        (digits_value(s.drop_last()) * 10 + (s.last() as int - '0' as int)) as nat
    }
}

/// The digits of a number text: the text itself, or what follows one leading `+`.
pub open spec fn unsigned_digits(s: Seq<char>) -> Seq<char> {
    if s.len() > 0 && s[0] == '+' {
        s.drop_first()
    } else {
        s
    }
}

/// The number that `s` denotes: one or more decimal digits, optionally after
/// a single `+`. Anything else, blank or signed text included, denotes none.
pub open spec fn decimal(s: Seq<char>) -> Option<nat> {
    let digits = unsigned_digits(s);
    if digits.len() > 0 && all_digits(digits) {
        Some(digits_value(digits))
    } else {
        None
    }
}

/// The number that `s` denotes, if it is at most `max`.
pub open spec fn decimal_up_to(s: Seq<char>, max: nat) -> Option<nat> {
    match decimal(s) {
        Some(v) => if v <= max {
            Some(v)
        } else {
            None
        },
        None => None,
    }
}

/// The boolean that `s` denotes: exactly `true` or `false`.
pub open spec fn boolean(s: Seq<char>) -> Option<bool> {
    if s == "true"@ {
        Some(true)
    } else if s == "false"@ {
        Some(false)
    } else {
        None
    }
}

/// More digits never denote less: the value of a prefix of a digit text is at
/// most the value of the whole.
pub proof fn lemma_prefix_value(s: Seq<char>, k: int)
    requires
        0 <= k <= s.len(),
        all_digits(s),
    ensures
        digits_value(s.subrange(0, k)) <= digits_value(s),
    decreases s.len() - k,
{
    if k == s.len() {
        assert(s.subrange(0, k) == s);
    } else {
        lemma_prefix_value(s, k + 1);
        let longer = s.subrange(0, k + 1);
        assert(longer.drop_last() == s.subrange(0, k));
    }
}

/// Reads a decimal number of at most `max` from `s`.
pub fn parse_decimal(s: &str, max: u64) -> (out: Option<u64>)
    ensures
        out matches Some(v) ==> decimal_up_to(s@, max as nat) == Some(v as nat),
        out is None ==> decimal_up_to(s@, max as nat) is None,
{
    let n = s.unicode_len();
    if n == 0 {
        return None;
    }
    let start: usize = if s.get_char(0) == '+' {
        1
    } else {
        0
    };
    if start == n {
        return None;
    }
    let ghost digits = unsigned_digits(s@);
    let mut acc: u64 = 0;
    let mut i: usize = start;
    while i < n
        invariant
            start <= i <= n,
            n == s@.len(),
            digits == s@.subrange(start as int, n as int),
            digits == unsigned_digits(s@),
            all_digits(digits.subrange(0, i - start)),
            acc == digits_value(digits.subrange(0, i - start)),
            acc <= max,
        decreases n - i,
    {
        let c = s.get_char(i);
        assert(digits.subrange(0, i - start + 1).drop_last() == digits.subrange(0, i - start));
        if !('0' <= c && c <= '9') {
            assert(!is_digit(digits[i - start]));
            return None;
        }
        let d: u64 = (c as u8 - '0' as u8) as u64;
        let next: u128 = acc as u128 * 10 + d as u128;
        if next > max as u128 {
            proof {
                if all_digits(digits) {
                    lemma_prefix_value(digits, i - start + 1);
                }
            }
            return None;
        }
        acc = next as u64;
        i = i + 1;
    }
    assert(digits.subrange(0, n - start) == digits);
    Some(acc)
}

/// Reads a 16-bit number.
pub fn parse_u16(s: &str) -> (out: Option<u16>)
    ensures
        out matches Some(v) ==> decimal_up_to(s@, 0xffff) == Some(v as nat),
        out is None ==> decimal_up_to(s@, 0xffff) is None,
{
    match parse_decimal(s, 0xffff) {
        Some(v) => Some(v as u16),
        None => None,
    }
}

/// Reads a 32-bit number.
pub fn parse_u32(s: &str) -> (out: Option<u32>)
    ensures
        out matches Some(v) ==> decimal_up_to(s@, 0xffff_ffff) == Some(v as nat),
        out is None ==> decimal_up_to(s@, 0xffff_ffff) is None,
{
    match parse_decimal(s, 0xffff_ffff) {
        Some(v) => Some(v as u32),
        None => None,
    }
}

/// Reads a 64-bit number.
pub fn parse_u64(s: &str) -> (out: Option<u64>)
    ensures
        out matches Some(v) ==> decimal_up_to(s@, 0xffff_ffff_ffff_ffff) == Some(v as nat),
        out is None ==> decimal_up_to(s@, 0xffff_ffff_ffff_ffff) is None,
{
    parse_decimal(s, 0xffff_ffff_ffff_ffff)
}

/// Reads a boolean: `true` or `false`, spelled exactly so.
pub fn parse_bool(s: &str) -> (out: Option<bool>)
    ensures
        out == boolean(s@),
{
    if str_equal(s, "true") {
        Some(true)
    } else if str_equal(s, "false") {
        Some(false)
    } else {
        None
    }
}

} // verus!
