//! The result stream of one run.
//!
//! A run reports progress as a finite stream of `u64` byte counts: one per
//! file when estimating, one per chunk actually read when warming. The
//! stream ends once the coordinator has submitted every job and every job
//! has finished and released its sending handle. An [`Iter`] is single-use:
//! it is created by starting a run and consumed by draining it.

use crate::ext::recv_count;
use crate::totals::lemma_total_nonneg;
use crate::totals::lemma_total_push;
use crate::totals::saturate;
use crate::totals::total_of;
use std::sync::mpsc::Receiver;
use vstd::prelude::*;

verus! {

/// Iterator over the size estimation / file reading byte counts of one run.
///
/// Its view is the sequence of counts it has yielded so far, in arrival
/// order.
pub struct Iter {
    rx: Receiver<u64>,
    yielded: Ghost<Seq<u64>>,
    done: bool,
}

/// Wraps the receiving end of a freshly started run into a stream that has
/// yielded nothing yet.
pub(crate) fn new_run(rx: Receiver<u64>) -> (run: Iter)
    ensures
        run@ == Seq::<u64>::empty(),
        !run.is_done(),
{
    Iter { rx, yielded: Ghost(Seq::empty()), done: false }
}

impl View for Iter {
    type V = Seq<u64>;

    closed spec fn view(&self) -> Seq<u64> {
        self.yielded@
    }
}

impl Iter {
    /// Whether the stream has reported its end: every job of the run has
    /// finished, released its sending handle, and no counts were left.
    pub closed spec fn is_done(&self) -> bool {
        self.done
    }

    /// Yields the next estimated / read byte count, blocking until one
    /// arrives, or `None` once the run has completed and no counts are
    /// left. A stream is single-use: once it has reported its end it
    /// stays ended and yields nothing more.
    pub fn next(&mut self) -> (count: Option<u64>)
        ensures
            old(self).is_done() ==> count is None,
            (match count {
                Some(v) => final(self)@ == old(self)@.push(v) && final(self).is_done()
                    == old(self).is_done(),
                None => final(self)@ == old(self)@ && final(self).is_done(),
            }),
    {
        if self.done {
            return None;
        }
        let received = recv_count(&self.rx);
        match received {
            Some(v) => {
                proof {
                    self.yielded@ = self.yielded@.push(v);
                }
                Some(v)
            },
            None => {
                self.done = true;
                None
            },
        }
    }

    /// Drains the stream until it reports its end and returns the total of
    /// every count it yielded, saturating at `u64::MAX`. (A stream so long
    /// that `u64::MAX` counts arrive is left undrained rather than looping
    /// without a bound.)
    pub fn drain_total(&mut self) -> (total: u64)
        ensures
            old(self)@.is_prefix_of(final(self)@),
            total == saturate(total_of(final(self)@.skip(old(self)@.len() as int))),
            final(self).is_done() || final(self)@.len() == old(self)@.len() + u64::MAX,
    {
        let ghost start = self@;
        let mut acc: u64 = 0;
        let mut fuel: u64 = u64::MAX;
        proof {
            assert(self@.skip(start.len() as int) =~= Seq::<u64>::empty());
        }
        while fuel > 0
            invariant_except_break
                self@.len() == start.len() + (u64::MAX - fuel),
            invariant
                start.is_prefix_of(self@),
                acc == saturate(total_of(self@.skip(start.len() as int))),
            ensures
                start.is_prefix_of(self@),
                acc == saturate(total_of(self@.skip(start.len() as int))),
                self.is_done() || self@.len() == start.len() + u64::MAX,
            decreases fuel,
        {
            fuel = fuel - 1;
            let ghost before = self@;
            match self.next() {
                None => {
                    break;
                },
                Some(v) => {
                    proof {
                        assert(self@ == before.push(v));
                        assert(self@.skip(start.len() as int) =~= before.skip(
                            start.len() as int,
                        ).push(v));
                        lemma_total_push(before.skip(start.len() as int), v);
                        lemma_total_nonneg(before.skip(start.len() as int));
                    }
                    if v <= u64::MAX - acc {
                        acc = acc + v;
                    } else {
                        acc = u64::MAX;
                    }
                },
            }
        }
        acc
    }
}

} // verus!
