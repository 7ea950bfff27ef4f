//! Throughput gauge: a sliding one-second window of capture timestamps.
//!
//! Timestamps are whole microseconds on a clock chosen by the caller. The
//! number of timestamps inside the window is the frames-per-second estimate.

use vstd::prelude::*;

verus! {

/// Width of the window, in microseconds.
pub const WINDOW_MICROS: u64 = 1_000_000;

/// A capture at `stamp` is recent at `now` when it is at most one window
/// older than `now`. A stamp exactly one window old is still recent, and so
/// is one that lies ahead of `now`.
pub open spec fn is_recent(stamp: u64, now: u64) -> bool {
    now - stamp <= WINDOW_MICROS
}

/// `is_recent` with the observation time fixed, as a predicate on stamps.
pub open spec fn recent_at(now: u64) -> spec_fn(u64) -> bool {
    |stamp: u64| is_recent(stamp, now)
}

/// Executable form of `is_recent`.
pub fn stamp_is_recent(stamp: u64, now: u64) -> (r: bool)
    ensures
        r == is_recent(stamp, now),
{
    now <= stamp || now - stamp <= WINDOW_MICROS
}

/// The recorded capture timestamps, oldest first.
pub struct FpsWindow {
    stamps: Vec<u64>,
}

impl View for FpsWindow {
    type V = Seq<u64>;

    closed spec fn view(&self) -> Seq<u64> {
        self.stamps@
    }
}

impl FpsWindow {
    /// An empty window.
    pub fn new() -> (w: FpsWindow)
        ensures
            w@ == Seq::<u64>::empty(),
    {
        FpsWindow { stamps: Vec::new() }
    }

    /// Number of timestamps held.
    pub fn len(&self) -> (n: usize)
        ensures
            n == self@.len(),
    {
        self.stamps.len()
    }

    /// Records one capture at the end of the window.
    pub fn push(&mut self, stamp: u64)
        ensures
            final(self)@ == old(self)@.push(stamp),
    {
        self.stamps.push(stamp);
    }

    /// Drops every timestamp that is no longer recent at `now`, keeping the
    /// others in their order.
    pub fn prune(&mut self, now: u64)
        ensures
            final(self)@ == old(self)@.filter(recent_at(now)),
            forall|i: int| 0 <= i < final(self)@.len() ==> is_recent(#[trigger] final(self)@[i], now),
    {
        let mut kept: Vec<u64> = Vec::new();
        let mut i: usize = 0;
        proof {
            reveal(Seq::filter);
            assert(self.stamps@.take(0) =~= Seq::<u64>::empty());
        }
        while i < self.stamps.len()
            invariant
                i <= self.stamps.len(),
                kept@ == self.stamps@.take(i as int).filter(recent_at(now)),
                forall|j: int| 0 <= j < kept@.len() ==> is_recent(#[trigger] kept@[j], now),
            decreases self.stamps.len() - i,
        {
            let stamp = self.stamps[i];
            proof {
                reveal(Seq::filter);
                assert(self.stamps@.take(i + 1).drop_last() =~= self.stamps@.take(i as int));
            }
            if stamp_is_recent(stamp, now) {
                kept.push(stamp);
            }
            i += 1;
        }
        proof {
            assert(self.stamps@.take(i as int) =~= self.stamps@);
        }
        self.stamps = kept;
    }

    /// Prunes the window at `now` and reports how many captures remain: the
    /// frames seen in the trailing second.
    pub fn observe(&mut self, now: u64) -> (fps: usize)
        ensures
            final(self)@ == old(self)@.filter(recent_at(now)),
            fps == final(self)@.len(),
            forall|i: int| 0 <= i < final(self)@.len() ==> is_recent(#[trigger] final(self)@[i], now),
    {
        self.prune(now);
        self.stamps.len()
    }
}

/// A capture observed exactly one window after it was recorded is still
/// counted; one microsecond later it is not.
pub proof fn lemma_window_boundary(stamp: u64)
    requires
        stamp + WINDOW_MICROS + 1 <= u64::MAX,
    ensures
        seq![stamp].filter(recent_at((stamp + WINDOW_MICROS) as u64)) == seq![stamp],
        seq![stamp].filter(recent_at((stamp + WINDOW_MICROS + 1) as u64)) == Seq::<u64>::empty(),
{
    reveal_with_fuel(Seq::filter, 2);
    assert(seq![stamp].drop_last() =~= Seq::<u64>::empty());
    assert(seq![stamp].filter(recent_at((stamp + WINDOW_MICROS) as u64)) =~= seq![stamp]);
    assert(seq![stamp].filter(recent_at((stamp + WINDOW_MICROS + 1) as u64)) =~= Seq::<u64>::empty());
}

} // verus!
