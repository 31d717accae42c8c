use vstd::prelude::*;

verus! {

/// A sequence producer: an object that yields the elements of `model()` one
/// at a time, signalling exhaustion with `None` once none remain.
///
/// `model()` is the sequence of elements still to be produced, front first.
/// Producers are fused: once `model()` is empty, every further production,
/// from either end, returns `None` and leaves the producer exhausted.
///
/// `size_hint` reports a `(lower, upper)` pair of size bounds. The upper
/// bound, when present, never undercounts the remaining elements; the lower
/// bound is advisory only and must never be relied on for correctness.
pub trait Producer: Sized {
    type Item;

    /// The elements still to be produced, front first.
    spec fn model(&self) -> Seq<Self::Item>;

    /// The lower size bound this producer currently reports.
    spec fn lower(&self) -> usize;

    /// The upper size bound this producer currently reports.
    spec fn upper(&self) -> Option<usize>;

    /// Produces the next element from the front, or `None` when exhausted.
    fn next(&mut self) -> (r: Option<Self::Item>)
        ensures
            old(self).model().len() > 0 ==> {
                &&& r == Some(old(self).model().first())
                &&& final(self).model() == old(self).model().drop_first()
            },
            old(self).model().len() == 0 ==> {
                &&& r is None
                &&& final(self).model() == old(self).model()
            },
    ;

    /// Produces the next element from the back, or `None` when exhausted.
    fn next_back(&mut self) -> (r: Option<Self::Item>)
        ensures
            old(self).model().len() > 0 ==> {
                &&& r == Some(old(self).model().last())
                &&& final(self).model() == old(self).model().drop_last()
            },
            old(self).model().len() == 0 ==> {
                &&& r is None
                &&& final(self).model() == old(self).model()
            },
    ;

    /// Reports the current `(lower, upper)` size bounds.
    fn size_hint(&self) -> (r: (usize, Option<usize>))
        ensures
            r.0 == self.lower(),
            r.1 == self.upper(),
            r.1 matches Some(u) ==> self.model().len() <= u,
    ;
}

/// Drains a producer fully: the collected vector is exactly the producer's
/// remaining sequence, in order. In particular the number of elements
/// produced, and the elements themselves, do not depend on anything but the
/// producer's own state.
pub fn drain<P: Producer>(p: P) -> (out: Vec<P::Item>)
    ensures
        out@ == p.model(),
{
    let ghost start = p.model();
    let mut q = p;
    let mut out: Vec<P::Item> = Vec::new();
    loop
        invariant
            start == out@ + q.model(),
        ensures
            q.model().len() == 0,
            start == out@ + q.model(),
        decreases q.model().len(),
    {
        let ghost pre = q.model();
        let ghost outpre = out@;
        match q.next() {
            Some(x) => {
                out.push(x);
                proof {
                    assert(outpre + pre =~= outpre.push(x) + pre.drop_first());
                }
            },
            None => {
                break;
            },
        }
    }
    proof {
        assert(out@ =~= out@ + q.model());
    }
    out
}

/// A producer over an owned vector: yields `items[lo..hi]`, front to back or
/// back to front, with exact size bounds. Elements are copied out on
/// production.
pub struct VecProducer<T> {
    items: Vec<T>,
    lo: usize,
    hi: usize,
}

impl<T> VecProducer<T> {
    #[verifier::type_invariant]
    spec fn bounds_inv(&self) -> bool {
        self.lo <= self.hi <= self.items@.len()
    }
}

impl<T: Copy> VecProducer<T> {
    /// Wraps a vector as a producer of all its elements, in order.
    pub fn new(items: Vec<T>) -> (r: Self)
        ensures
            r.model() == items@,
    {
        let hi: usize = items.len();
        let r = VecProducer { items, lo: 0, hi };
        proof {
            assert(r.model() =~= r.items@);
        }
        r
    }
}

impl<T: Copy> Producer for VecProducer<T> {
    type Item = T;

    closed spec fn model(&self) -> Seq<T> {
        self.items@.subrange(self.lo as int, self.hi as int)
    }

    open spec fn lower(&self) -> usize {
        self.model().len() as usize
    }

    open spec fn upper(&self) -> Option<usize> {
        Some(self.model().len() as usize)
    }

    fn next(&mut self) -> (r: Option<T>) {
        proof {
            use_type_invariant(&*self);
        }
        if self.lo < self.hi {
            let i: usize = self.lo;
            self.lo = i + 1;
            proof {
                assert(self.model() =~= old(self).model().drop_first());
            }
            Some(self.items[i])
        } else {
            None
        }
    }

    fn next_back(&mut self) -> (r: Option<T>) {
        proof {
            use_type_invariant(&*self);
        }
        if self.lo < self.hi {
            let j: usize = self.hi - 1;
            self.hi = j;
            proof {
                assert(self.model() =~= old(self).model().drop_last());
            }
            Some(self.items[j])
        } else {
            None
        }
    }

    fn size_hint(&self) -> (r: (usize, Option<usize>)) {
        proof {
            use_type_invariant(&*self);
        }
        let n: usize = self.hi - self.lo;
        proof {
            assert(self.model().len() == self.hi - self.lo);
        }
        (n, Some(n))
    }
}

} // verus!
