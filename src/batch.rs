//! Bookkeeping of a batch of tasks over a contiguous range of item IDs, and the
//! one completion signal that follows the last of them.
use vstd::prelude::*;
use crate::task::Outcome;

verus! {

/// The first item ID of the standard batch.
pub const FIRST_ID: u32 = 1;

/// The last item ID of the standard batch.
pub const LAST_ID: u32 = 100;

/// The number of IDs in `first..=last`.
pub open spec fn range_len(first: u32, last: u32) -> nat {
    if last < first {
        0
    } else {
        (last - first + 1) as nat
    }
}

/// The mathematical form of a [`Batch`].
pub struct BatchView {
    pub first: u32,
    pub last: u32,
    /// For the ID `first + i`, its task's outcome once that task has finished.
    pub outcomes: Seq<Option<Outcome>>,
    /// Whether completion has been signalled.
    pub signalled: bool,
}

impl BatchView {
    /// Whether every task of the batch has finished.
    pub open spec fn all_finished(self) -> bool {
        forall|i: int| 0 <= i < self.outcomes.len() ==> (#[trigger] self.outcomes[i]) is Some
    }

    /// Whether `id` is one of the batch's IDs.
    pub open spec fn contains(self, id: u32) -> bool {
        self.first <= id <= self.last
    }

    /// The outcome recorded for `id`, an ID of the batch.
    pub open spec fn outcome_of(self, id: u32) -> Option<Outcome> {
        self.outcomes[id - self.first]
    }
}

/// A batch of fetch tasks over the IDs `first..=last`.
pub struct Batch {
    first: u32,
    last: u32,
    outcomes: Vec<Option<Outcome>>,
    signalled: bool,
}

impl View for Batch {
    type V = BatchView;

    closed spec fn view(&self) -> BatchView {
        BatchView {
            first: self.first,
            last: self.last,
            outcomes: self.outcomes@,
            signalled: self.signalled,
        }
    }
}

impl Batch {
    /// Well-formedness: one entry per ID of the range, and IDs start at 1.
    pub closed spec fn wf(&self) -> bool {
        &&& 1 <= self.first
        &&& self.outcomes@.len() == range_len(self.first, self.last)
    }

    /// A batch over `first..=last` (empty where `last < first`) in which no
    /// task has finished yet.
    pub fn new(first: u32, last: u32) -> (r: Batch)
        requires
            1 <= first,
        ensures
            r.wf(),
            r@.first == first,
            r@.last == last,
            r@.outcomes == Seq::new(range_len(first, last), |i: int| None::<Outcome>),
            !r@.signalled,
    {
        let mut outcomes: Vec<Option<Outcome>> = Vec::new();
        if first <= last {
            let n: u32 = last - first + 1;
            let mut i: u32 = 0;
            while i < n
                invariant
                    i <= n,
                    outcomes@ == Seq::new(i as nat, |j: int| None::<Outcome>),
                decreases n - i,
            {
                outcomes.push(None);
                i = i + 1;
                assert(outcomes@ =~= Seq::new(i as nat, |j: int| None::<Outcome>));
            }
        }
        assert(outcomes@ =~= Seq::new(range_len(first, last), |i: int| None::<Outcome>));
        Batch { first, last, outcomes, signalled: false }
    }

    /// The batch of the standard range of item IDs.
    pub fn standard() -> (r: Batch)
        ensures
            r.wf(),
            r@.first == FIRST_ID,
            r@.last == LAST_ID,
            r@.outcomes == Seq::new(range_len(FIRST_ID, LAST_ID), |i: int| None::<Outcome>),
            !r@.signalled,
    {
        Batch::new(FIRST_ID, LAST_ID)
    }

    /// The first ID of the batch.
    pub fn first(&self) -> (r: u32)
        ensures
            r == self@.first,
    {
        self.first
    }

    /// The last ID of the batch.
    pub fn last(&self) -> (r: u32)
        ensures
            r == self@.last,
    {
        self.last
    }

    /// Records that the task of `id` finished with `outcome`. Returns false, and
    /// changes nothing, where `id` is not in the batch or its task has already
    /// been recorded.
    pub fn record(&mut self, id: u32, outcome: Outcome) -> (r: bool)
        requires
            old(self).wf(),
        ensures
            final(self).wf(),
            r == (old(self)@.contains(id) && old(self)@.outcome_of(id) is None),
            r ==> final(self)@ == (BatchView {
                outcomes: old(self)@.outcomes.update(id - old(self)@.first, Some(outcome)),
                ..old(self)@
            }),
            !r ==> final(self)@ == old(self)@,
    {
        if id < self.first || id > self.last {
            return false;
        }
        let i = (id - self.first) as usize;
        if self.outcomes[i].is_some() {
            return false;
        }
        self.outcomes.set(i, Some(outcome));
        true
    }

    /// The outcome recorded for `id`, if `id` is in the batch and its task has
    /// finished.
    pub fn outcome(&self, id: u32) -> (r: Option<Outcome>)
        requires
            self.wf(),
        ensures
            r == (if self@.contains(id) {
                self@.outcome_of(id)
            } else {
                None
            }),
    {
        if id < self.first || id > self.last {
            None
        } else {
            self.outcomes[(id - self.first) as usize]
        }
    }

    /// Whether every task of the batch has finished.
    pub fn all_finished(&self) -> (r: bool)
        requires
            self.wf(),
        ensures
            r == self@.all_finished(),
    {
        let mut i: usize = 0;
        while i < self.outcomes.len()
            invariant
                i <= self.outcomes@.len(),
                forall|j: int| 0 <= j < i ==> (#[trigger] self.outcomes@[j]) is Some,
            decreases self.outcomes@.len() - i,
        {
            if self.outcomes[i].is_none() {
                return false;
            }
            i = i + 1;
        }
        true
    }

    /// Whether to emit the completion signal now: true exactly once, on the
    /// first call after every task of the batch has finished.
    pub fn take_completion(&mut self) -> (r: bool)
        requires
            old(self).wf(),
        ensures
            final(self).wf(),
            r == (old(self)@.all_finished() && !old(self)@.signalled),
            final(self)@ == (BatchView { signalled: old(self)@.signalled || r, ..old(self)@ }),
    {
        if self.signalled || !self.all_finished() {
            false
        } else {
            self.signalled = true;
            true
        }
    }
}

} // verus!
