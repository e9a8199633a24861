//! How often a schedule has run in each of the latest frames.

use std::collections::VecDeque;
use vstd::prelude::*;

verus! {

/// The number of frames that a history keeps.
pub const MAX_HISTORY_LENGTH: usize = 120;

/// How many times one schedule has run in each of the latest frames, the
/// oldest frame first. The last entry is the frame in progress.
pub struct UpdateCounts {
    counts: VecDeque<u32>,
}

impl View for UpdateCounts {
    type V = Seq<u32>;

    closed spec fn view(&self) -> Seq<u32> {
        self.counts@
    }
}

/// The history after a frame has ended: the oldest frame is dropped if the
/// history is full, and a new frame begins at zero runs.
pub open spec fn flushed(counts: Seq<u32>) -> Seq<u32> {
    if counts.len() >= MAX_HISTORY_LENGTH {
        counts.drop_first().push(0)
    } else {
        counts.push(0)
    }
}

/// The history after the schedule has run once more in the frame in
/// progress. The count stops at the largest number it can hold.
pub open spec fn counted(counts: Seq<u32>) -> Seq<u32> {
    if counts.len() == 0 || counts.last() == u32::MAX {
        counts
    } else {
        counts.update(counts.len() - 1, (counts.last() + 1) as u32)
    }
}

/// Whether `most` is the largest entry of the history, or zero for an empty
/// history.
pub open spec fn is_max(counts: Seq<u32>, most: u32) -> bool {
    &&& forall|i: int| 0 <= i < counts.len() ==> counts[i] <= most
    &&& counts.len() == 0 ==> most == 0
    &&& counts.len() > 0 ==> exists|i: int| 0 <= i < counts.len() && counts[i] == most
}

/// A history never grows beyond the frames it keeps: counting a run leaves
/// its length as it is, and ending a frame leaves it between one and the
/// maximum.
pub proof fn lemma_history_stays_bounded(counts: Seq<u32>)
    requires
        counts.len() <= MAX_HISTORY_LENGTH,
    ensures
        counted(counts).len() == counts.len(),
        1 <= flushed(counts).len() <= MAX_HISTORY_LENGTH,
        flushed(counts).last() == 0,
{
}

impl UpdateCounts {
    /// An empty history: no frame has begun.
    pub fn new() -> (r: UpdateCounts)
        ensures
            r@ == Seq::<u32>::empty(),
    {
        UpdateCounts { counts: VecDeque::new() }
    }

    /// How many frames the history holds.
    pub fn len(&self) -> (n: usize)
        ensures
            n == self@.len(),
    {
        self.counts.len()
    }

    /// Records one more run of the schedule in the frame in progress. Before
    /// the first frame has begun there is nothing to count in.
    pub fn update_count(&mut self)
        ensures
            final(self)@ == counted(old(self)@),
    {
        match self.counts.pop_back() {
            Some(count) => {
                let next = if count == u32::MAX {
                    count
                } else {
                    count + 1
                };
                self.counts.push_back(next);
                assert(final(self)@ =~= counted(old(self)@));
            },
            None => {},
        }
    }

    /// Ends the frame in progress and begins the next one.
    pub fn flush_counts(&mut self)
        ensures
            final(self)@ == flushed(old(self)@),
            final(self)@.len() >= 1,
    {
        if self.counts.len() >= MAX_HISTORY_LENGTH {
            let _ = self.counts.pop_front();
        }
        self.counts.push_back(0);
        assert(final(self)@ =~= flushed(old(self)@));
    }

    /// The most runs that any frame of the history has seen; zero for an
    /// empty history.
    pub fn max_updates(&self) -> (most: u32)
        ensures
            is_max(self@, most),
    {
        let mut most: u32 = 0;
        let mut i: usize = 0;
        while i < self.counts.len()
            invariant
                i <= self.counts@.len(),
                forall|j: int| 0 <= j < i ==> self.counts@[j] <= most,
                i == 0 ==> most == 0,
                i > 0 ==> exists|j: int| 0 <= j < i && self.counts@[j] == most,
            decreases self.counts@.len() - i,
        {
            let count = self.counts[i];
            if i == 0 || count > most {
                most = count;
            }
            i = i + 1;
        }
        most
    }

    /// The history as a vector, the oldest frame first.
    pub fn counts(&self) -> (r: Vec<u32>)
        ensures
            r@ == self@,
    {
        let mut r: Vec<u32> = Vec::new();
        let mut i: usize = 0;
        while i < self.counts.len()
            invariant
                i <= self.counts@.len(),
                r@ == self.counts@.take(i as int),
            decreases self.counts@.len() - i,
        {
            r.push(self.counts[i]);
            assert(r@ =~= self.counts@.take(i + 1));
            i = i + 1;
        }
        assert(self.counts@.take(i as int) =~= self.counts@);
        r
    }
}

} // verus!
