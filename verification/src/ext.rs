use crate::exactly::Exactly;
use crate::hinted::Hinted;
use crate::producer::Producer;
use vstd::prelude::*;

verus! {

/// Postfix constructors for the size-hint decorators, available on every
/// producer.
pub trait HintExt: Producer {
    /// Sets the advisory lower size bound reported by `size_hint`. Useful
    /// for biasing a consumer's preallocation; the hint may be wrong
    /// without any fault.
    fn hinted(self, hint: usize) -> (r: Hinted<Self>)
        ensures
            r.inner() == self,
            r.model() == self.model(),
            r.hint() == hint,
    ;

    /// Wraps `self`, asserting that it will yield exactly `len` more
    /// elements. The resulting wrapper reports `len` as an authoritative
    /// exact length, so the caller must establish the count; it is never
    /// checked at run time.
    fn has(self, len: usize) -> (r: Exactly<Self>)
        requires
            len == self.model().len(),
        ensures
            r.inner() == self,
            r.model() == self.model(),
            r.remaining() == len,
            r.wf(),
    ;
}

impl<I: Producer> HintExt for I {
    fn hinted(self, hint: usize) -> (r: Hinted<Self>) {
        Hinted::new(self, hint)
    }

    fn has(self, len: usize) -> (r: Exactly<Self>) {
        Exactly::new(self, len)
    }
}

} // verus!
