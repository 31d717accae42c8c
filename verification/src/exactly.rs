use crate::producer::Producer;
use vstd::prelude::*;

verus! {

/// A producer decorated with a caller-asserted exact remaining count.
///
/// Construction requires that the count equal the true number of remaining
/// elements, and every production decrements it by exactly one, so the
/// count stays authoritative: consumers may rely on it, not merely treat it
/// as a hint. The decrement is unchecked — producing from an exhausted
/// wrapper is ruled out by precondition rather than detected at run time.
#[derive(Clone, Debug)]
pub struct Exactly<I: Producer> {
    iter: I,
    len: usize,
}

impl<I: Producer> Exactly<I> {
    /// The wrapped producer.
    pub closed spec fn inner(&self) -> I {
        self.iter
    }

    /// The elements still to be produced: exactly the inner producer's.
    pub open spec fn model(&self) -> Seq<I::Item> {
        self.inner().model()
    }

    /// The stored exact remaining count.
    pub closed spec fn remaining(&self) -> usize {
        self.len
    }

    /// Well-formed: the asserted count equals the true number of remaining
    /// elements. `new` establishes it and every production preserves it.
    pub open spec fn wf(&self) -> bool {
        self.remaining() == self.model().len()
    }

    /// Wraps `iter`, asserting that it will yield exactly `len` more
    /// elements. The caller must establish that count; it is never checked
    /// at run time.
    pub fn new(iter: I, len: usize) -> (r: Self)
        requires
            len == iter.model().len(),
        ensures
            r.inner() == iter,
            r.model() == iter.model(),
            r.remaining() == len,
            r.wf(),
    {
        Exactly { iter, len }
    }

    /// Produces the inner producer's next element; the exact count shrinks
    /// by exactly one. Requires a well-formed, non-exhausted wrapper: the
    /// decrement is unchecked.
    pub fn next(&mut self) -> (r: Option<I::Item>)
        requires
            old(self).wf(),
            old(self).remaining() > 0,
        ensures
            final(self).wf(),
            final(self).remaining() == old(self).remaining() - 1,
            r == Some(old(self).model().first()),
            final(self).model() == old(self).model().drop_first(),
    {
        self.len = self.len - 1;
        self.iter.next()
    }

    /// Produces the inner producer's next element from the back; the same
    /// exact count shrinks by exactly one, under the same preconditions.
    pub fn next_back(&mut self) -> (r: Option<I::Item>)
        requires
            old(self).wf(),
            old(self).remaining() > 0,
        ensures
            final(self).wf(),
            final(self).remaining() == old(self).remaining() - 1,
            r == Some(old(self).model().last()),
            final(self).model() == old(self).model().drop_last(),
    {
        self.len = self.len - 1;
        self.iter.next_back()
    }

    /// Drains the wrapper fully, trusting the reported length: makes exactly
    /// `remaining()` productions and collects exactly the remaining
    /// elements, in order. Throughout, the reported length counts down by
    /// one per production until it reaches zero.
    pub fn drain(self) -> (out: Vec<I::Item>)
        requires
            self.wf(),
        ensures
            out@ == self.model(),
            out@.len() == self.remaining(),
    {
        let ghost start = self.model();
        let mut q = self;
        let mut out: Vec<I::Item> = Vec::new();
        let mut n: usize = q.len();
        while n > 0
            invariant
                q.wf(),
                n == q.remaining(),
                start == out@ + q.model(),
            decreases n,
        {
            let ghost pre = q.model();
            let ghost outpre = out@;
            let x = q.next();
            if let Some(v) = x {
                out.push(v);
                proof {
                    assert(outpre + pre =~= outpre.push(v) + pre.drop_first());
                }
            }
            n = n - 1;
        }
        proof {
            assert(out@ =~= out@ + q.model());
        }
        out
    }

    /// The exact number of remaining elements, authoritative under
    /// well-formedness.
    pub fn len(&self) -> (r: usize)
        ensures
            r == self.remaining(),
            self.wf() ==> r == self.model().len(),
    {
        self.len
    }

    /// Reports the exact count as both bounds: lower equals upper equals
    /// the remaining count.
    pub fn size_hint(&self) -> (r: (usize, Option<usize>))
        ensures
            r.0 == self.remaining(),
            r.1 == Some(self.remaining()),
            self.wf() ==> r.0 == self.model().len(),
    {
        (self.len, Some(self.len))
    }
}

} // verus!
