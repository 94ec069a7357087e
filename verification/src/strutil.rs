//! Small verified helpers on strings: appending a character, equality and
//! substring search over the character view.

use vstd::prelude::*;
use vstd::string::StrSliceExecFns;

verus! {

/// Relies on `String::push`: appends exactly the given character.
pub assume_specification[ String::push ](s: &mut String, ch: char)
    ensures
        final(s)@ == old(s)@.push(ch),
;

/// Character-wise string equality.
pub fn str_eq(a: &str, b: &str) -> (r: bool)
    ensures
        r == (a@ == b@),
{
    let a_len = a.unicode_len();
    let b_len = b.unicode_len();
    if a_len != b_len {
        return false;
    }
    let mut i: usize = 0;
    while i < a_len
        invariant
            i <= a_len,
            a_len == a@.len(),
            a@.len() == b@.len(),
            forall|k: int| 0 <= k < i ==> a@[k] == b@[k],
        decreases a_len - i,
    {
        if a.get_char(i) != b.get_char(i) {
            return false;
        }
        i = i + 1;
    }
    proof {
        assert(a@ =~= b@);
    }
    true
}

/// The pattern `pat` occurs in `t` starting at position `i`.
pub open spec fn occurs_at(t: Seq<char>, pat: Seq<char>, i: int) -> bool {
    0 <= i && i + pat.len() <= t.len() && t.subrange(i, i + pat.len() as int) == pat
}

/// The pattern `pat` occurs somewhere in `t`.
pub open spec fn contains_seq(t: Seq<char>, pat: Seq<char>) -> bool {
    exists|i: int| occurs_at(t, pat, i)
}

/// Whether `pat` occurs in `t` starting exactly at position `i`.
fn match_at(t: &str, pat: &str, i: usize) -> (r: bool)
    requires
        i + pat@.len() <= t@.len(),
    ensures
        r == occurs_at(t@, pat@, i as int),
{
    let t_len = t.unicode_len();
    let p_len = pat.unicode_len();
    let mut k: usize = 0;
    while k < p_len
        invariant
            p_len == pat@.len(),
            t_len == t@.len(),
            i + p_len <= t_len,
            k <= p_len,
            forall|m: int| 0 <= m < k ==> t@[i + m] == pat@[m],
        decreases p_len - k,
    {
        if t.get_char(i + k) != pat.get_char(k) {
            proof {
                if occurs_at(t@, pat@, i as int) {
                    assert(t@.subrange(i as int, i + p_len as int)[k as int] == t@[i + k]);
                }
            }
            return false;
        }
        k = k + 1;
    }
    proof {
        assert(t@.subrange(i as int, i + p_len as int) =~= pat@);
    }
    true
}

/// Whether `pat` occurs in `t` as a contiguous run of characters.
pub fn str_contains(t: &str, pat: &str) -> (r: bool)
    ensures
        r == contains_seq(t@, pat@),
{
    let t_len = t.unicode_len();
    let p_len = pat.unicode_len();
    if p_len > t_len {
        assert(forall|i: int| !occurs_at(t@, pat@, i));
        return false;
    }
    if p_len == 0 {
        proof {
            assert(t@.subrange(0, 0) =~= pat@);
            assert(occurs_at(t@, pat@, 0));
        }
        return true;
    }
    let mut i: usize = 0;
    while i <= t_len - p_len
        invariant
            p_len == pat@.len(),
            t_len == t@.len(),
            1 <= p_len <= t_len,
            i <= t_len - p_len + 1,
            forall|j: int| 0 <= j < i ==> !occurs_at(t@, pat@, j),
        decreases t_len - i,
    {
        if match_at(t, pat, i) {
            return true;
        }
        i = i + 1;
    }
    proof {
        assert forall|j: int| !occurs_at(t@, pat@, j) by {
            if occurs_at(t@, pat@, j) {
                assert(0 <= j < i);
            }
        }
    }
    false
}

} // verus!
