//! Text helpers shared by the request planners: trimming of trailing
//! separators and case-insensitive comparison of header names.

use vstd::prelude::*;
use vstd::string::StringSliceAdditionalSpecFns;
use vstd::utf8::encode_utf8_decode_utf8;

verus! {

/// `s` without its trailing run of `c`.
pub open spec fn trim_trailing(s: Seq<char>, c: char) -> Seq<char>
    decreases s.len(),
{
    if s.len() > 0 && s.last() == c {
        trim_trailing(s.drop_last(), c)
    } else {
        s
    }
}

/// Whether `s` does not end in `c`.
pub open spec fn ends_without(s: Seq<char>, c: char) -> bool {
    s.len() == 0 || s.last() != c
}

/// The lower-case form of an ASCII letter; every other character is itself.
pub open spec fn ascii_lower(c: char) -> char {
    if 'A' <= c <= 'Z' {
        ((c as u8) + 32u8) as char
    } else {
        c
    }
}

/// Whether two texts are equal up to the case of their ASCII letters.
pub open spec fn same_ignoring_ascii_case(a: Seq<char>, b: Seq<char>) -> bool {
    &&& a.len() == b.len()
    &&& forall|i: int| 0 <= i < a.len() ==> ascii_lower(#[trigger] a[i]) == ascii_lower(b[i])
}

/// Trimming leaves a prefix of the text that does not end in `c`, and all
/// that was cut is `c`.
pub proof fn lemma_trim_trailing(s: Seq<char>, c: char)
    ensures
        trim_trailing(s, c).len() <= s.len(),
        trim_trailing(s, c) == s.subrange(0, trim_trailing(s, c).len() as int),
        ends_without(trim_trailing(s, c), c),
        forall|i: int| trim_trailing(s, c).len() <= i < s.len() ==> s[i] == c,
    decreases s.len(),
{
    if s.len() > 0 && s.last() == c {
        lemma_trim_trailing(s.drop_last(), c);
        let t = trim_trailing(s, c);
        assert(t == s.subrange(0, t.len() as int));
    } else {
        assert(s == s.subrange(0, s.len() as int));
    }
}

/// A text that does not end in `c` is left as it is, so trimming twice is
/// trimming once.
pub proof fn lemma_trim_trailing_idempotent(s: Seq<char>, c: char)
    ensures
        ends_without(s, c) ==> trim_trailing(s, c) == s,
        trim_trailing(trim_trailing(s, c), c) == trim_trailing(s, c),
    decreases s.len(),
{
    if s.len() > 0 && s.last() == c {
        lemma_trim_trailing_idempotent(s.drop_last(), c);
    }
}

/// Strips every trailing `/` from `s`.
pub fn trim_end_slashes(s: &str) -> (out: String)
    ensures
        out@ == trim_trailing(s@, '/'),
        ends_without(out@, '/'),
{
    proof {
        lemma_trim_trailing(s@, '/');
    }
    let n = s.unicode_len();
    let mut end: usize = n;
    assert(s@.subrange(0, end as int) == s@);
    while end > 0 && s.get_char(end - 1) == '/'
        invariant
            end <= n,
            n == s@.len(),
            trim_trailing(s@, '/') == trim_trailing(s@.subrange(0, end as int), '/'),
        decreases end,
    {
        assert(s@.subrange(0, end as int).drop_last() == s@.subrange(0, end - 1));
        end = end - 1;
    }
    let kept = s.substring_char(0, end);
    String::from_str(kept)
}

/// Whether two texts are the same sequence of characters.
pub fn str_equal(a: &str, b: &str) -> (same: bool)
    ensures
        same == (a@ == b@),
{
    let x = a.as_bytes();
    let y = b.as_bytes();
    proof {
        encode_utf8_decode_utf8(a@);
        encode_utf8_decode_utf8(b@);
    }
    if x.len() != y.len() {
        return false;
    }
    let mut i: usize = 0;
    while i < x.len()
        invariant
            i <= x.len(),
            x.len() == y.len(),
            x@ == a.spec_bytes(),
            y@ == b.spec_bytes(),
            forall|j: int| 0 <= j < i ==> x@[j] == y@[j],
        decreases x.len() - i,
    {
        if x[i] != y[i] {
            return false;
        }
        i = i + 1;
    }
    assert(x@ =~= y@);
    true
}

/// Lower-cases one ASCII letter.
pub fn to_ascii_lower(c: char) -> (out: char)
    ensures
        out == ascii_lower(c),
{
    if 'A' <= c && c <= 'Z' {
        ((c as u8) + 32u8) as char
    } else {
        c
    }
}

/// Compares two texts without regard to the case of ASCII letters.
pub fn eq_ignore_ascii_case(a: &str, b: &str) -> (same: bool)
    ensures
        same == same_ignoring_ascii_case(a@, b@),
{
    let n = a.unicode_len();
    if n != b.unicode_len() {
        return false;
    }
    let mut i: usize = 0;
    while i < n
        invariant
            i <= n,
            n == a@.len(),
            n == b@.len(),
            forall|j: int| 0 <= j < i ==> ascii_lower(#[trigger] a@[j]) == ascii_lower(b@[j]),
        decreases n - i,
    {
        if to_ascii_lower(a.get_char(i)) != to_ascii_lower(b.get_char(i)) {
            return false;
        }
        i = i + 1;
    }
    true
}

} // verus!
