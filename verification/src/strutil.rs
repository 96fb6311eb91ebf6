//! Small verified string helpers: prefix and substring tests over character
//! sequences, and decimal formatting.

use vstd::prelude::*;
use crate::hexstr::{hex_digit_char, hex_digit_str};

verus! {

/// Whether `p` is a prefix of `s`.
pub open spec fn starts_with_chars(s: Seq<char>, p: Seq<char>) -> bool {
    p.len() <= s.len() && s.take(p.len() as int) == p
}

/// Whether `p` occurs anywhere in `s`.
pub open spec fn contains_chars(s: Seq<char>, p: Seq<char>) -> bool {
    exists|k: int| 0 <= k <= s.len() - p.len() && #[trigger] s.subrange(k, k + p.len()) == p
}

/// Whether `p` occurs in `s` at position `k`.
fn match_at(s: &str, p: &str, k: usize) -> (r: bool)
    requires
        k + p@.len() <= s@.len(),
        s@.len() <= usize::MAX,
    ensures
        r == (s@.subrange(k as int, k as int + p@.len()) == p@),
{
    let m = p.unicode_len();
    let mut i: usize = 0;
    while i < m
        invariant
            i <= m,
            m == p@.len(),
            k + p@.len() <= s@.len(),
            s@.len() <= usize::MAX,
            forall|j: int| 0 <= j < i ==> s@[k + j] == p@[j],
        decreases m - i,
    {
        if s.get_char(k + i) != p.get_char(i) {
            proof {
                assert(s@.subrange(k as int, k as int + p@.len())[i as int] != p@[i as int]);
            }
            return false;
        }
        i = i + 1;
    }
    proof {
        assert(s@.subrange(k as int, k as int + p@.len()) =~= p@);
    }
    true
}

/// Whether `s` starts with `p`.
pub fn starts_with_str(s: &str, p: &str) -> (r: bool)
    ensures
        r == starts_with_chars(s@, p@),
{
    let n = s.unicode_len();
    let m = p.unicode_len();
    if m > n {
        return false;
    }
    let r = match_at(s, p, 0);
    proof {
        assert(s@.subrange(0, p@.len() as int) == s@.take(p@.len() as int));
    }
    r
}

/// Whether `p` occurs anywhere in `s`.
pub fn contains_str(s: &str, p: &str) -> (r: bool)
    ensures
        r == contains_chars(s@, p@),
{
    let n = s.unicode_len();
    let m = p.unicode_len();
    if m > n {
        return false;
    }
    if m == 0 {
        proof {
            assert(s@.subrange(0, 0 + p@.len() as int) =~= p@);
            assert(contains_chars(s@, p@));
        }
        return true;
    }
    let mut k: usize = 0;
    while n - k >= m
        invariant
            1 <= m <= n,
            n == s@.len(),
            m == p@.len(),
            k <= n - m + 1,
            forall|j: int| 0 <= j < k ==> #[trigger] s@.subrange(j, j + p@.len()) != p@,
        decreases n - k,
    {
        if match_at(s, p, k) {
            return true;
        }
        k = k + 1;
    }
    false
}

/// The decimal text of a nonnegative number.
pub open spec fn dec_str_spec(n: int) -> Seq<char>
    decreases n,
{
    if n < 10 {
        seq![hex_digit_char(n)]
    } else {
        dec_str_spec(n / 10) + seq![hex_digit_char(n % 10)]
    }
}

/// Formats a 16-bit number in decimal.
pub fn u16_dec_string(n: u16) -> (r: String)
    ensures
        r@ == dec_str_spec(n as int),
    decreases n,
{
    if n < 10 {
        hex_digit_str(n as u8).to_owned()
    } else {
        let mut s = u16_dec_string(n / 10);
        s.append(hex_digit_str((n % 10) as u8));
        s
    }
}

} // verus!
