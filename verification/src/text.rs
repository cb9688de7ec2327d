//! Substring search over strings, used to recognise network URLs.

use vstd::prelude::*;
use vstd::string::*;

verus! {

/// The pattern `pat` occurs in `s` starting at position `k`.
pub open spec fn is_match_at(s: Seq<char>, pat: Seq<char>, k: int) -> bool {
    0 <= k && k + pat.len() <= s.len() && s.subrange(k, k + pat.len() as int) == pat
}

/// The pattern `pat` occurs somewhere in `s`.
pub open spec fn contains_pattern(s: Seq<char>, pat: Seq<char>) -> bool {
    exists|k: int| is_match_at(s, pat, k)
}

/// Does `pat` occur in `s` starting at position `k`?
fn match_at(s: &str, pat: &str, k: usize, n: usize, m: usize) -> (b: bool)
    requires
        n == s@.len(),
        m == pat@.len(),
        k + m <= n,
    ensures
        b == is_match_at(s@, pat@, k as int),
{
    let mut i: usize = 0;
    while i < m
        invariant
            0 <= i <= m,
            n == s@.len(),
            m == pat@.len(),
            k + m <= n,
            forall|j: int| 0 <= j < i ==> s@[k + j] == pat@[j],
        decreases m - i,
    {
        let sc = s.get_char(k + i);
        let pc = pat.get_char(i);
        if sc != pc {
            proof {
                assert(s@.subrange(k as int, k + m) != pat@) by {
                    assert(s@.subrange(k as int, k + m)[i as int] == s@[k + i]);
                }
            }
            return false;
        }
        i += 1;
    }
    proof {
        assert(s@.subrange(k as int, k + m) =~= pat@);
    }
    true
}

/// Does `pat` occur anywhere in `s`?
pub fn contains_str(s: &str, pat: &str) -> (b: bool)
    ensures
        b == contains_pattern(s@, pat@),
{
    let n: usize = s.unicode_len();
    let m: usize = pat.unicode_len();
    if m == 0 {
        proof {
            assert(is_match_at(s@, pat@, 0)) by {
                assert(s@.subrange(0, 0) =~= pat@);
            }
        }
        return true;
    }
    if m > n {
        proof {
            assert(forall|k: int| !is_match_at(s@, pat@, k));
        }
        return false;
    }
    let mut k: usize = 0;
    while k <= n - m
        invariant
            1 <= m <= n,
            n == s@.len(),
            m == pat@.len(),
            0 <= k <= n - m + 1,
            forall|k2: int| 0 <= k2 < k ==> !is_match_at(s@, pat@, k2),
        decreases n - m + 1 - k,
    {
        if match_at(s, pat, k, n, m) {
            return true;
        }
        k += 1;
    }
    proof {
        assert(forall|k2: int| !is_match_at(s@, pat@, k2));
    }
    false
}

/// Are two strings the same text?
pub fn str_equal(a: &str, b: &str) -> (r: bool)
    ensures
        r == (a@ == b@),
{
    let n: usize = a.unicode_len();
    let m: usize = b.unicode_len();
    if n != m {
        return false;
    }
    let mut i: usize = 0;
    while i < n
        invariant
            n == a@.len(),
            n == b@.len(),
            0 <= i <= n,
            forall|j: int| 0 <= j < i ==> a@[j] == b@[j],
        decreases n - i,
    {
        let ca = a.get_char(i);
        let cb = b.get_char(i);
        if ca != cb {
            return false;
        }
        i += 1;
    }
    proof {
        assert(a@ =~= b@);
    }
    true
}

} // verus!
