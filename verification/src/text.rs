//! Verified character-level text operations: substring containment,
//! non-overlapping replacement, trailing-newline stripping, and equality.

use vstd::prelude::*;
use vstd::string::*;

verus! {

/// `pat` occurs in `s` starting at position `i`.
pub open spec fn spec_contains_at(s: Seq<char>, pat: Seq<char>, i: int) -> bool {
    0 <= i && i + pat.len() <= s.len() && s.subrange(i, i + pat.len()) == pat
}

/// `pat` occurs somewhere in `s`.
pub open spec fn spec_contains(s: Seq<char>, pat: Seq<char>) -> bool {
    exists|i: int| spec_contains_at(s, pat, i)
}

/// All leftmost, non-overlapping occurrences of `pat` in `s` replaced by
/// `rep`; `s` unchanged when `pat` is empty.
pub open spec fn spec_replace(s: Seq<char>, pat: Seq<char>, rep: Seq<char>) -> Seq<char>
    decreases s.len(),
{
    if pat.len() == 0 || s.len() < pat.len() {
        s
    } else if s.subrange(0, pat.len() as int) == pat {
        rep + spec_replace(s.subrange(pat.len() as int, s.len() as int), pat, rep)
    } else {
        seq![s[0]] + spec_replace(s.subrange(1, s.len() as int), pat, rep)
    }
}

/// `s` with one trailing line feed removed, if it ends in one.
pub open spec fn strip_newline(s: Seq<char>) -> Seq<char> {
    if s.len() > 0 && s.last() == '\n' {
        s.drop_last()
    } else {
        s
    }
}

/// Whether `pat` occurs in `s` at position `i`.
fn match_at(s: &str, pat: &str, i: usize) -> (b: bool)
    requires
        i + pat@.len() <= s@.len(),
    ensures
        b == spec_contains_at(s@, pat@, i as int),
{
    let m = pat.unicode_len();
    let n = s.unicode_len();
    let mut j: usize = 0;
    while j < m
        invariant
            m == pat@.len(),
            n == s@.len(),
            i + m <= s@.len(),
            0 <= j <= m,
            forall|k: int| 0 <= k < j ==> s@[i + k] == pat@[k],
        decreases m - j,
    {
        if s.get_char(i + j) != pat.get_char(j) {
            assert(s@.subrange(i as int, i + m) != pat@) by {
                assert(s@.subrange(i as int, i + m)[j as int] != pat@[j as int]);
            }
            return false;
        }
        j += 1;
    }
    assert(s@.subrange(i as int, i + m) =~= pat@);
    true
}

/// Whether `pat` occurs anywhere in `s`.
pub fn contains_sub(s: &str, pat: &str) -> (b: bool)
    ensures
        b == spec_contains(s@, pat@),
{
    let n = s.unicode_len();
    let m = pat.unicode_len();
    if m > n {
        assert(forall|i: int| !spec_contains_at(s@, pat@, i));
        return false;
    }
    if m == 0 {
        assert(s@.subrange(0, 0) =~= pat@);
        assert(spec_contains_at(s@, pat@, 0));
        return true;
    }
    let mut i: usize = 0;
    while i <= n - m
        invariant
            n == s@.len(),
            m == pat@.len(),
            0 < m <= n,
            0 <= i <= n - m + 1,
            forall|k: int| 0 <= k < i ==> !spec_contains_at(s@, pat@, k),
        decreases n - i,
    {
        if match_at(s, pat, i) {
            assert(spec_contains(s@, pat@));
            return true;
        }
        i += 1;
    }
    assert(forall|k: int| !spec_contains_at(s@, pat@, k));
    false
}

/// `s` with every leftmost, non-overlapping occurrence of `pat` replaced by
/// `rep`.
pub fn replace_sub(s: &str, pat: &str, rep: &str) -> (r: String)
    ensures
        r@ == spec_replace(s@, pat@, rep@),
{
    let n = s.unicode_len();
    let m = pat.unicode_len();
    if m == 0 {
        return String::from_str(s);
    }
    let mut out = String::new();
    proof {
        assert(s@.subrange(0, n as int) =~= s@);
        assert(Seq::<char>::empty() + spec_replace(s@, pat@, rep@) =~= spec_replace(
            s@,
            pat@,
            rep@,
        ));
    }
    let mut i: usize = 0;
    while i < n
        invariant
            n == s@.len(),
            m == pat@.len(),
            m > 0,
            0 <= i <= n,
            out@ + spec_replace(s@.subrange(i as int, n as int), pat@, rep@) == spec_replace(
                s@,
                pat@,
                rep@,
            ),
        decreases n - i,
    {
        let ghost tail = s@.subrange(i as int, n as int);
        if m <= n - i && match_at(s, pat, i) {
            proof {
                assert(tail.subrange(0, m as int) =~= s@.subrange(i as int, i + m));
                assert(tail.subrange(m as int, tail.len() as int) =~= s@.subrange(
                    (i + m) as int,
                    n as int,
                ));
                assert(out@ + (rep@ + spec_replace(
                    s@.subrange((i + m) as int, n as int),
                    pat@,
                    rep@,
                )) =~= (out@ + rep@) + spec_replace(
                    s@.subrange((i + m) as int, n as int),
                    pat@,
                    rep@,
                ));
            }
            out.append(rep);
            i += m;
        } else {
            proof {
                if m <= n - i {
                    assert(tail.subrange(0, m as int) =~= s@.subrange(i as int, i + m));
                }
                assert(tail.subrange(1, tail.len() as int) =~= s@.subrange(i + 1, n as int));
                assert(seq![s@[i as int]] =~= s@.subrange(i as int, i + 1));
                assert(out@ + (s@.subrange(i as int, i + 1) + spec_replace(
                    s@.subrange(i + 1, n as int),
                    pat@,
                    rep@,
                )) =~= (out@ + s@.subrange(i as int, i + 1)) + spec_replace(
                    s@.subrange(i + 1, n as int),
                    pat@,
                    rep@,
                ));
            }
            let c = s.substring_char(i, i + 1);
            out.append(c);
            i += 1;
        }
    }
    proof {
        assert(s@.subrange(n as int, n as int) =~= Seq::<char>::empty());
        assert(out@ + Seq::<char>::empty() =~= out@);
    }
    out
}

/// `s` with one trailing line feed removed, if it ends in one.
pub fn strip_trailing_newline(s: &str) -> (r: String)
    ensures
        r@ == strip_newline(s@),
{
    let n = s.unicode_len();
    if n > 0 && s.get_char(n - 1) == '\n' {
        let t = s.substring_char(0, n - 1);
        proof {
            assert(s@.subrange(0, n - 1) =~= s@.drop_last());
        }
        String::from_str(t)
    } else {
        String::from_str(s)
    }
}

/// Character-for-character equality of two text slices.
pub fn eq_str(a: &str, b: &str) -> (r: bool)
    ensures
        r == (a@ == b@),
{
    let n = a.unicode_len();
    if n != b.unicode_len() {
        return false;
    }
    let mut i: usize = 0;
    while i < n
        invariant
            n == a@.len(),
            n == b@.len(),
            0 <= i <= n,
            forall|k: int| 0 <= k < i ==> a@[k] == b@[k],
        decreases n - i,
    {
        if a.get_char(i) != b.get_char(i) {
            return false;
        }
        i += 1;
    }
    assert(a@ =~= b@);
    true
}

} // verus!
