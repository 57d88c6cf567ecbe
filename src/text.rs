//! Substring search on strings, as sequences of characters.
use vstd::prelude::*;
use vstd::string::*;

verus! {

/// `pat` occurs in `s` starting at position `i`.
pub open spec fn occurs_at(s: Seq<char>, pat: Seq<char>, i: int) -> bool {
    0 <= i && i + pat.len() <= s.len() && s.subrange(i, i + pat.len()) == pat
}

/// `pat` occurs somewhere in `s`.
pub open spec fn has_substring(s: Seq<char>, pat: Seq<char>) -> bool {
    exists|i: int| occurs_at(s, pat, i)
}

/// Whether `pat` occurs in `s` at `start`.
fn matches_at(s: &str, s_len: usize, pat: &str, p_len: usize, start: usize) -> (r: bool)
    requires
        s_len == s@.len(),
        p_len == pat@.len(),
        start + p_len <= s_len,
    ensures
        r == occurs_at(s@, pat@, start as int),
{
    let mut j: usize = 0;
    while j < p_len
        invariant
            s_len == s@.len(),
            p_len == pat@.len(),
            start + p_len <= s_len,
            j <= p_len,
            forall|k: int| 0 <= k < j ==> s@[start + k] == pat@[k],
        decreases p_len - j,
    {
        if s.get_char(start + j) != pat.get_char(j) {
            assert(s@.subrange(start as int, start + p_len)[j as int] != pat@[j as int]);
            return false;
        }
        j = j + 1;
    }
    assert(s@.subrange(start as int, start + p_len) =~= pat@);
    true
}

/// Whether `pat` occurs in `s`.
pub fn contains_str(s: &str, pat: &str) -> (r: bool)
    ensures
        r == has_substring(s@, pat@),
{
    let s_len = s.unicode_len();
    let p_len = pat.unicode_len();
    if p_len > s_len {
        assert forall|i: int| !occurs_at(s@, pat@, i) by {}
        return false;
    }
    if p_len == 0 {
        assert(s@.subrange(0, 0) =~= pat@);
        assert(occurs_at(s@, pat@, 0));
        return true;
    }
    let mut start: usize = 0;
    while start <= s_len - p_len
        invariant
            s_len == s@.len(),
            p_len == pat@.len(),
            0 < p_len <= s_len,
            start <= s_len - p_len + 1,
            forall|i: int| 0 <= i < start ==> !occurs_at(s@, pat@, i),
        decreases s_len + 1 - start,
    {
        if matches_at(s, s_len, pat, p_len, start) {
            return true;
        }
        start = start + 1;
    }
    assert forall|i: int| !occurs_at(s@, pat@, i) by {}
    false
}

} // verus!
