//! Size-hint adapters for sequence producers.
//!
//! A [`Producer`] yields the elements of a sequence one at a time, from the
//! front or from the back, and reports advisory size bounds. This crate
//! provides two decorators over an arbitrary producer:
//!
//! - [`Hinted`] attaches an advisory lower size bound that shrinks by one on
//!   every production and saturates at zero. The hint never changes which
//!   elements are produced and may be wrong on purpose.
//! - [`Exactly`] attaches a caller-asserted exact remaining count. Its
//!   construction requires that the count equal the true number of remaining
//!   elements, and every production keeps that guarantee, so the reported
//!   length is authoritative.
//!
//! [`HintExt`] offers both decorators as postfix methods on any producer, and
//! [`VecProducer`] turns a vector into a double-ended producer of its
//! elements.

mod exactly;
mod ext;
mod hinted;
mod producer;

pub use exactly::Exactly;
pub use ext::HintExt;
pub use hinted::hint_after;
pub use hinted::lemma_hint_after_saturates;
pub use hinted::lemma_hint_does_not_change_elements;
pub use hinted::saturating_dec;
pub use hinted::Hinted;
pub use producer::drain;
pub use producer::Producer;
pub use producer::VecProducer;
