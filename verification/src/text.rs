//! Small text utilities: the two places where the library leans on std
//! string operations that vstd leaves unspecified, and verified helpers
//! built on top of them.

use vstd::prelude::*;

verus! {

/// Relies on `String::push`: appends the given character to the end of
/// the string.
pub assume_specification[ String::push ](s: &mut String, c: char)
    ensures
        final(s)@ == old(s)@ + seq![c],
;

/// Relies on `str`'s `PartialEq`: two string slices compare equal exactly
/// when they consist of the same characters in the same order.
#[verifier::external_body]
pub fn str_eq(a: &str, b: &str) -> (r: bool)
    ensures
        r == (a@ == b@),
{
    a == b
}

/// Whether `p` is a prefix of `s`.
pub open spec fn spec_has_prefix(s: Seq<char>, p: Seq<char>) -> bool {
    p.len() <= s.len() && s.subrange(0, p.len() as int) == p
}

/// Whether `p` is a suffix of `s`.
pub open spec fn spec_has_suffix(s: Seq<char>, p: Seq<char>) -> bool {
    p.len() <= s.len() && s.subrange(s.len() - p.len(), s.len() as int) == p
}

/// Whether the character `c` occurs in `s`.
pub open spec fn spec_contains_char(s: Seq<char>, c: char) -> bool {
    exists|i: int| 0 <= i < s.len() && s[i] == c
}

/// Whether `p` is a prefix of `s`, character by character.
pub fn has_prefix(s: &str, p: &str) -> (r: bool)
    ensures
        r == spec_has_prefix(s@, p@),
{
    let slen = s.unicode_len();
    let plen = p.unicode_len();
    if plen > slen {
        return false;
    }
    let mut j: usize = 0;
    while j < plen
        invariant
            j <= plen,
            plen == p@.len(),
            slen == s@.len(),
            plen <= slen,
            forall|k: int| 0 <= k < j ==> s@[k] == p@[k],
        decreases plen - j,
    {
        if s.get_char(j) != p.get_char(j) {
            proof {
                assert(s@.subrange(0, plen as int)[j as int] != p@[j as int]);
            }
            return false;
        }
        j = j + 1;
    }
    proof {
        assert(s@.subrange(0, plen as int) =~= p@);
    }
    true
}

/// Whether `p` is a suffix of `s`, character by character.
pub fn has_suffix(s: &str, p: &str) -> (r: bool)
    ensures
        r == spec_has_suffix(s@, p@),
{
    let slen = s.unicode_len();
    let plen = p.unicode_len();
    if plen > slen {
        return false;
    }
    let off = slen - plen;
    let mut j: usize = 0;
    while j < plen
        invariant
            j <= plen,
            plen == p@.len(),
            slen == s@.len(),
            plen <= slen,
            off == slen - plen,
            forall|k: int| 0 <= k < j ==> s@[off + k] == p@[k],
        decreases plen - j,
    {
        if s.get_char(off + j) != p.get_char(j) {
            proof {
                assert(s@.subrange(off as int, slen as int)[j as int] != p@[j as int]);
            }
            return false;
        }
        j = j + 1;
    }
    proof {
        assert(s@.subrange(off as int, slen as int) =~= p@);
    }
    true
}

/// Whether the character `c` occurs in `s`.
pub fn contains_char(s: &str, c: char) -> (r: bool)
    ensures
        r == spec_contains_char(s@, c),
{
    let slen = s.unicode_len();
    let mut i: usize = 0;
    while i < slen
        invariant
            i <= slen,
            slen == s@.len(),
            forall|k: int| 0 <= k < i ==> s@[k] != c,
        decreases slen - i,
    {
        if s.get_char(i) == c {
            return true;
        }
        i = i + 1;
    }
    false
}

/// A name with the raw-identifier prefix `r#` stripped, when it
/// carries one.
pub open spec fn spec_clean_name_text(s: Seq<char>) -> Seq<char> {
    if spec_has_prefix(s, "r#"@) {
        s.skip(2)
    } else {
        s
    }
}

/// The character of one decimal digit.
pub open spec fn spec_digit_char(d: int) -> char {
    if d == 0 {
        '0'
    } else if d == 1 {
        '1'
    } else if d == 2 {
        '2'
    } else if d == 3 {
        '3'
    } else if d == 4 {
        '4'
    } else if d == 5 {
        '5'
    } else if d == 6 {
        '6'
    } else if d == 7 {
        '7'
    } else if d == 8 {
        '8'
    } else {
        '9'
    }
}

/// The decimal text of a number, most significant digit first and
/// without leading zeros (`0` itself renders as `0`).
pub open spec fn spec_dec_digits(n: nat) -> Seq<char>
    decreases n,
{
    if n < 10 {
        seq![spec_digit_char(n as int)]
    } else {
        spec_dec_digits(n / 10).push(spec_digit_char((n % 10) as int))
    }
}

/// The character of one decimal digit.
pub fn digit_char(d: usize) -> (r: char)
    requires
        d < 10,
    ensures
        r == spec_digit_char(d as int),
{
    if d == 0 {
        '0'
    } else if d == 1 {
        '1'
    } else if d == 2 {
        '2'
    } else if d == 3 {
        '3'
    } else if d == 4 {
        '4'
    } else if d == 5 {
        '5'
    } else if d == 6 {
        '6'
    } else if d == 7 {
        '7'
    } else if d == 8 {
        '8'
    } else {
        '9'
    }
}

/// The decimal text of a number, as [`spec_dec_digits`] describes.
pub fn dec_string(n: usize) -> (r: String)
    ensures
        r@ == spec_dec_digits(n as nat),
    decreases n,
{
    if n < 10 {
        let mut s = String::new();
        s.push(digit_char(n));
        proof {
            assert(s@ =~= spec_dec_digits(n as nat));
        }
        s
    } else {
        let mut s = dec_string(n / 10);
        s.push(digit_char(n % 10));
        proof {
            assert(s@ =~= spec_dec_digits(n as nat));
        }
        s
    }
}

} // verus!
