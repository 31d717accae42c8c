use crate::producer::Producer;
use vstd::prelude::*;

verus! {

/// Decrements by one, saturating at zero.
pub open spec fn saturating_dec(h: usize) -> usize {
    if h > 0 {
        (h - 1) as usize
    } else {
        0
    }
}

/// The hint left after `n` productions that started from hint `h`:
/// `n` saturating decrements applied to `h`.
pub open spec fn hint_after(h: usize, n: nat) -> usize
    decreases n,
{
    if n == 0 {
        h
    } else {
        saturating_dec(hint_after(h, (n - 1) as nat))
    }
}

/// After `n` productions the reported lower bound is `max(h - n, 0)`:
/// iterated saturating decrement is saturating subtraction.
pub proof fn lemma_hint_after_saturates(h: usize, n: nat)
    ensures
        hint_after(h, n) == if h > n {
            (h - n) as usize
        } else {
            0usize
        },
    decreases n,
{
    if n > 0 {
        lemma_hint_after_saturates(h, (n - 1) as nat);
    }
}

/// A producer decorated with an advisory lower size bound.
///
/// Every production decrements the stored hint by one, saturating at zero;
/// nothing else changes. Which elements come out, and in what order, is
/// decided by the inner producer alone: the hint is never enforced and may
/// diverge arbitrarily from the true remaining count without any fault.
#[derive(Clone, Debug)]
pub struct Hinted<I: Producer> {
    iter: I,
    hint: usize,
}

impl<I: Producer> Hinted<I> {
    /// The wrapped producer.
    pub closed spec fn inner(&self) -> I {
        self.iter
    }

    /// The current advisory hint.
    pub closed spec fn hint(&self) -> usize {
        self.hint
    }

    /// Wraps `iter` with the advisory lower bound `hint`.
    pub fn new(iter: I, hint: usize) -> (r: Self)
        ensures
            r.inner() == iter,
            r.model() == iter.model(),
            r.hint() == hint,
    {
        Hinted { iter, hint }
    }
}

impl<I: Producer> Producer for Hinted<I> {
    type Item = I::Item;

    /// The elements still to be produced: exactly the inner producer's.
    open spec fn model(&self) -> Seq<I::Item> {
        self.inner().model()
    }

    /// The lower size bound reported is the current hint, whatever the
    /// inner producer would report.
    open spec fn lower(&self) -> usize {
        self.hint()
    }

    /// The upper size bound reported is the inner producer's, unchanged.
    open spec fn upper(&self) -> Option<usize> {
        self.inner().upper()
    }

    /// Produces the inner producer's next element unchanged; as a side
    /// effect the hint shrinks by one, saturating at zero.
    fn next(&mut self) -> (r: Option<I::Item>)
        ensures
            final(self).hint() == saturating_dec(old(self).hint()),
    {
        self.hint = if self.hint > 0 {
            self.hint - 1
        } else {
            0
        };
        self.iter.next()
    }

    /// Produces the inner producer's next element from the back, unchanged;
    /// the same hint shrinks by one, saturating at zero.
    fn next_back(&mut self) -> (r: Option<I::Item>)
        ensures
            final(self).hint() == saturating_dec(old(self).hint()),
    {
        self.hint = if self.hint > 0 {
            self.hint - 1
        } else {
            0
        };
        self.iter.next_back()
    }

    /// Reports the current hint as the lower bound and the inner producer's
    /// own upper bound, unchanged.
    fn size_hint(&self) -> (r: (usize, Option<usize>)) {
        let u = self.iter.size_hint().1;
        (self.hint, u)
    }
}

/// The hint never alters which elements are produced: two hinted wrappers
/// around the same producer state have the same remaining elements whatever
/// their hints, and those elements are exactly the inner producer's.
pub proof fn lemma_hint_does_not_change_elements<I: Producer>(a: Hinted<I>, b: Hinted<I>)
    requires
        a.inner() == b.inner(),
    ensures
        a.model() == b.model(),
        a.model() == a.inner().model(),
{
}

} // verus!
