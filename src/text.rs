use vstd::prelude::*;
use vstd::string::StrSliceExecFns;

verus! {

/// Compares two strings character by character.
pub fn text_eq(a: &str, b: &str) -> (r: bool)
    ensures
        r == (a@ == b@),
{
    let la = a.unicode_len();
    let lb = b.unicode_len();
    if la != lb {
        return false;
    }
    let mut i: usize = 0;
    while i < la
        invariant
            la == a@.len(),
            lb == b@.len(),
            la == lb,
            i <= la,
            forall|k: int| 0 <= k < i ==> a@[k] == b@[k],
        decreases la - i,
    {
        if a.get_char(i) != b.get_char(i) {
            return false;
        }
        i = i + 1;
    }
    assert(a@ =~= b@);
    true
}

/// Tells whether `s` is `head` followed by `tail`.
pub fn is_concat(s: &str, head: &str, tail: &str) -> (r: bool)
    ensures
        r == (s@ == head@ + tail@),
{
    let ls = s.unicode_len();
    let lh = head.unicode_len();
    let lt = tail.unicode_len();
    if lh > ls || ls - lh != lt {
        return false;
    }
    let mut i: usize = 0;
    while i < ls
        invariant
            ls == s@.len(),
            lh == head@.len(),
            lt == tail@.len(),
            ls == lh + lt,
            i <= ls,
            forall|k: int| 0 <= k < i ==> s@[k] == (head@ + tail@)[k],
        decreases ls - i,
    {
        let c = if i < lh { head.get_char(i) } else { tail.get_char(i - lh) };
        if s.get_char(i) != c {
            assert(s@[i as int] != (head@ + tail@)[i as int]);
            return false;
        }
        i = i + 1;
    }
    assert(s@ =~= head@ + tail@);
    true
}

/// Tells whether `s` ends with `suffix`.
pub fn ends_with(s: &str, suffix: &str) -> (r: bool)
    ensures
        r == (suffix@.len() <= s@.len() && s@.subrange(s@.len() - suffix@.len(), s@.len() as int)
            == suffix@),
{
    let ls = s.unicode_len();
    let lx = suffix.unicode_len();
    if lx > ls {
        return false;
    }
    let start = ls - lx;
    let mut i: usize = 0;
    while i < lx
        invariant
            ls == s@.len(),
            lx == suffix@.len(),
            start == ls - lx,
            i <= lx,
            forall|k: int| 0 <= k < i ==> s@[start + k] == suffix@[k],
        decreases lx - i,
    {
        if s.get_char(start + i) != suffix.get_char(i) {
            assert(s@.subrange(start as int, ls as int)[i as int] != suffix@[i as int]);
            return false;
        }
        i = i + 1;
    }
    assert(s@.subrange(start as int, ls as int) =~= suffix@);
    true
}

} // verus!
