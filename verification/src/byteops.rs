//! Byte-slice comparisons used by the signature check and the branch filter.

use vstd::prelude::*;
use vstd::slice::slice_subrange;

verus! {

/// Byte-for-byte equality of two slices.
pub fn bytes_eq(a: &[u8], b: &[u8]) -> (r: bool)
    ensures
        r == (a@ == b@),
{
    if a.len() != b.len() {
        return false;
    }
    let mut i: usize = 0;
    while i < a.len()
        invariant
            i <= a@.len(),
            a@.len() == b@.len(),
            forall|j: int| 0 <= j < i ==> a@[j] == b@[j],
        decreases a@.len() - i,
    {
        if a[i] != b[i] {
            return false;
        }
        i = i + 1;
    }
    proof {
        assert(a@ =~= b@);
    }
    true
}

/// Whether `s` begins with `pre`.
pub fn starts_with(s: &[u8], pre: &[u8]) -> (r: bool)
    ensures
        r == pre@.is_prefix_of(s@),
{
    if pre.len() > s.len() {
        return false;
    }
    let head = slice_subrange(s, 0, pre.len());
    let r = bytes_eq(head, pre);
    proof {
        if head@ == pre@ {
            assert(pre@ =~= s@.subrange(0, pre@.len() as int));
        }
    }
    r
}

/// Whether `s` ends with `suf`.
pub fn ends_with(s: &[u8], suf: &[u8]) -> (r: bool)
    ensures
        r == suf@.is_suffix_of(s@),
{
    if suf.len() > s.len() {
        return false;
    }
    let tail = slice_subrange(s, s.len() - suf.len(), s.len());
    let r = bytes_eq(tail, suf);
    proof {
        if tail@ == suf@ {
            assert(suf@ =~= s@.subrange(
                s@.len() - suf@.len(),
                s@.len() as int,
            ));
        }
    }
    r
}

} // verus!
