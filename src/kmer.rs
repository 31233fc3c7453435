//! Sliding-window decomposition of a residue string into k-mers.
use vstd::prelude::*;
use vstd::string::StrSliceExecFns;

verus! {

/// Number of windows of width `k` that fit in a sequence of length `len`.
pub open spec fn window_count(len: nat, k: nat) -> nat {
    if len >= k {
        (len - k + 1) as nat
    } else {
        0
    }
}

/// The k-mers of `s` in ascending offset order, each with its start offset.
pub open spec fn kmers_of(s: Seq<char>, k: nat) -> Seq<(Seq<char>, nat)> {
    Seq::new(window_count(s.len(), k), |i: int| (s.subrange(i, i + k), i as nat))
}

/// Every contiguous substring of `seq` of `k` characters, paired with its
/// 0-based start offset, in ascending offset order. A sequence shorter than
/// `k` yields no k-mers.
pub fn split_sequence(seq: &str, k: usize) -> (r: Vec<(String, usize)>)
    ensures
        r@.len() == window_count(seq@.len(), k as nat),
        forall|i: int|
            0 <= i < r@.len() ==> (#[trigger] r@[i]).0@ == kmers_of(seq@, k as nat)[i].0 && r@[
                i
            ].1 == i,
{
    let len = seq.unicode_len();
    let ascii = seq.is_ascii();
    let mut kmers: Vec<(String, usize)> = Vec::new();
    let mut i: usize = 0;
    let mut more = k <= len;
    while more
        invariant
            len == seq@.len(),
            ascii == seq.is_ascii(),
            more ==> i + k <= len && kmers@.len() == i,
            !more ==> kmers@.len() == window_count(len as nat, k as nat),
            forall|j: int|
                0 <= j < kmers@.len() ==> (#[trigger] kmers@[j]).0@ == seq@.subrange(j, j + k)
                    && kmers@[j].1 == j,
        decreases len - i + (if more { 1int } else { 0int }),
    {
        let piece = if ascii {
            seq.substring_ascii(i, i + k)
        } else {
            seq.substring_char(i, i + k)
        };
        kmers.push((piece.to_owned(), i));
        if k < len - i {
            i = i + 1;
        } else {
            more = false;
        }
    }
    kmers
}

} // verus!
