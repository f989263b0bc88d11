//! The three adapter strategies that manufacture peek capabilities for
//! sequences that do not natively support them, and a convenience trait
//! that attaches their constructors to every sequence.
use vstd::prelude::*;
use crate::Advance;

pub mod cloning;
pub mod func;
pub mod prefetch;

pub use cloning::CloningPeekableIter;
pub use func::FnPeekableIter;
pub use prefetch::PrefetchPeekableIter;

verus! {

/// Convenience trait for creating a peek adapter. It is implemented for
/// every sequence, so adapter selection is a fluent, chainable step.
pub trait PeekAdapters: Advance {
    /// Wrap with the duplication adapter.
    fn cloning_peekable(self) -> (r: CloningPeekableIter<Self>)
        ensures
            r.remaining() == self.remaining(),
    ;

    /// Wrap with the prefetch adapter.
    fn prefetch_peekable(self) -> (r: PrefetchPeekableIter<Self>)
        ensures
            r.remaining() == self.remaining(),
    ;

    /// Wrap with the custom-function adapter.
    fn fn_peekable<P: Fn(&Self) -> Option<Self::Item>>(self, peek_fn: P) -> (r: FnPeekableIter<
        Self,
        P,
        (),
        (),
    >)
        ensures
            r.inner_seq() == self,
            r.peek_func() == peek_fn,
            r.remaining() == self.remaining(),
    ;
}

impl<I: Advance> PeekAdapters for I {
    fn cloning_peekable(self) -> (r: CloningPeekableIter<Self>) {
        CloningPeekableIter::new(self)
    }

    fn prefetch_peekable(self) -> (r: PrefetchPeekableIter<Self>) {
        PrefetchPeekableIter::new(self)
    }

    fn fn_peekable<P: Fn(&Self) -> Option<Self::Item>>(self, peek_fn: P) -> (r: FnPeekableIter<
        Self,
        P,
        (),
        (),
    >) {
        FnPeekableIter::new(self, peek_fn)
    }
}

} // verus!
