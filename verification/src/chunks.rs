//! The chunk model of a warming read.
//!
//! Warming reads one file sequentially in fixed-size chunks and emits one
//! byte count per chunk actually read, the last chunk possibly smaller.
//! [`warm_chunks`] is the sequence of counts such a pass emits over a file
//! whose whole `size` bytes are readable; the lemmas below pin down the
//! count and the total of that sequence.

use crate::totals::lemma_total_concat;
use crate::totals::total_of;
use vstd::prelude::*;

verus! {

/// The size of one read chunk, in bytes.
pub const CHUNK_LEN: usize = 1024;

/// The byte counts emitted by a warming read of a fully readable file of
/// `size` bytes: full chunks of `CHUNK_LEN` bytes, then the remainder.
pub open spec fn warm_chunks(size: u64) -> Seq<u64>
    decreases size,
{
    if size == 0 {
        Seq::empty()
    } else if size <= CHUNK_LEN as u64 {
        seq![size]
    } else {
        seq![CHUNK_LEN as u64].add(warm_chunks((size - CHUNK_LEN) as u64))
    }
}

proof fn lemma_total_singleton(v: u64)
    ensures
        total_of(seq![v]) == v,
{
    assert(seq![v].drop_last() =~= Seq::<u64>::empty());
    assert(total_of(Seq::<u64>::empty()) == 0);
}

/// Warming a fully readable file counts every byte of it exactly once:
/// the emitted chunk counts sum to the file's size.
pub proof fn lemma_warm_chunks_total(size: u64)
    ensures
        total_of(warm_chunks(size)) == size,
    decreases size,
{
    if size == 0 {
        assert(total_of(Seq::<u64>::empty()) == 0);
    } else if size <= CHUNK_LEN as u64 {
        lemma_total_singleton(size);
    } else {
        lemma_warm_chunks_total((size - CHUNK_LEN) as u64);
        lemma_total_concat(seq![CHUNK_LEN as u64], warm_chunks((size - CHUNK_LEN) as u64));
        lemma_total_singleton(CHUNK_LEN as u64);
    }
}

/// Warming a fully readable file of `size` bytes emits exactly
/// `size / CHUNK_LEN`, rounded up, chunk counts; an empty file emits none.
pub proof fn lemma_warm_chunks_count(size: u64)
    ensures
        warm_chunks(size).len() == (size as int + CHUNK_LEN as int - 1) / (CHUNK_LEN as int),
    decreases size,
{
    if size > CHUNK_LEN as u64 {
        lemma_warm_chunks_count((size - CHUNK_LEN) as u64);
    }
}

/// Every emitted chunk count is between 1 and `CHUNK_LEN`, and every chunk
/// before the last is full.
pub proof fn lemma_warm_chunks_shape(size: u64)
    ensures
        forall|i: int|
            0 <= i < warm_chunks(size).len() ==> 1 <= #[trigger] warm_chunks(size)[i]
                <= CHUNK_LEN as u64,
        forall|i: int|
            0 <= i < warm_chunks(size).len() - 1 ==> #[trigger] warm_chunks(size)[i]
                == CHUNK_LEN as u64,
    decreases size,
{
    if size > CHUNK_LEN as u64 {
        let rest = warm_chunks((size - CHUNK_LEN) as u64);
        let whole = warm_chunks(size);
        lemma_warm_chunks_shape((size - CHUNK_LEN) as u64);
        assert(whole == seq![CHUNK_LEN as u64].add(rest));
        assert forall|i: int| 0 <= i < whole.len() implies 1 <= #[trigger] whole[i]
            <= CHUNK_LEN as u64 by {
            if i > 0 {
                assert(whole[i] == rest[i - 1]);
            }
        }
        assert forall|i: int| 0 <= i < whole.len() - 1 implies #[trigger] whole[i]
            == CHUNK_LEN as u64 by {
            if i > 0 {
                assert(whole[i] == rest[i - 1]);
            }
        }
    }
}

} // verus!
