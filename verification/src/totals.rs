//! The mathematical total of a stream of byte counts.
//!
//! A run reports its progress as a sequence of `u64` byte counts whose
//! arrival order is not deterministic. The totals here are therefore stated
//! so that only the multiset of counts matters: any two arrival orders of
//! the same counts have the same total.

use vstd::prelude::*;
use vstd::seq_lib::commutative_foldr;
use vstd::seq_lib::lemma_fold_right_permutation;

verus! {

/// The exact (unbounded) total of a sequence of byte counts.
pub open spec fn total_of(s: Seq<u64>) -> int
    decreases s.len(),
{
    if s.len() == 0 {
        0
    } else {
        total_of(s.drop_last()) + s.last()
    }
}

/// An exact total clamped into `u64`: totals beyond `u64::MAX` saturate.
pub open spec fn saturate(n: int) -> u64 {
    if n >= u64::MAX {
        u64::MAX
    } else if n <= 0 {
        0u64
    } else {
        n as u64
    }
}

/// Appending one count adds exactly that count to the total.
pub proof fn lemma_total_push(s: Seq<u64>, v: u64)
    ensures
        total_of(s.push(v)) == total_of(s) + v,
{
    assert(s.push(v).drop_last() =~= s);
    assert(s.push(v).last() == v);
}

/// A total of byte counts is never negative.
pub proof fn lemma_total_nonneg(s: Seq<u64>)
    ensures
        total_of(s) >= 0,
    decreases s.len(),
{
    if s.len() > 0 {
        lemma_total_nonneg(s.drop_last());
    }
}

/// Totals add up across concatenation.
pub proof fn lemma_total_concat(a: Seq<u64>, b: Seq<u64>)
    ensures
        total_of(a.add(b)) == total_of(a) + total_of(b),
    decreases b.len(),
{
    if b.len() == 0 {
        assert(a.add(b) =~= a);
    } else {
        assert(a.add(b).drop_last() =~= a.add(b.drop_last()));
        assert(a.add(b).last() == b.last());
        lemma_total_concat(a, b.drop_last());
    }
}

proof fn lemma_total_is_fold(s: Seq<u64>, b: int)
    ensures
        s.fold_right(|v: u64, acc: int| acc + v, b) == total_of(s) + b,
    decreases s.len(),
{
    if s.len() > 0 {
        lemma_total_is_fold(s.drop_last(), b + s.last());
    }
}

/// The order in which counts arrive does not change the total: two runs
/// that produce the same counts, however interleaved by the worker pool,
/// report the same number of bytes.
pub proof fn lemma_total_permutation(s1: Seq<u64>, s2: Seq<u64>)
    requires
        s1.to_multiset() == s2.to_multiset(),
    ensures
        total_of(s1) == total_of(s2),
{
    let f = |v: u64, acc: int| acc + v;
    assert(commutative_foldr(f));
    lemma_fold_right_permutation(s1, s2, f, 0);
    lemma_total_is_fold(s1, 0);
    lemma_total_is_fold(s2, 0);
}

} // verus!
