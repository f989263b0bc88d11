//! The custom-function adapter.
use vstd::prelude::*;
use crate::{Advance, AdvanceBack, Duplicate};

verus! {

/// Provides peeking via caller-supplied functions: one for the next-item
/// peek, and optionally — chained on with
/// [`FnPeekableIter::with_peek_back`] and
/// [`FnPeekableIter::with_peek_iter`] — one for the last-item peek and
/// one for the whole-remainder peek. Each supplied function receives a
/// read-only reference to the wrapped sequence and reads it with whatever
/// structural access that sequence type exposes.
///
/// The adapter adds no interpretation of its own, so its peek operations
/// promise no more than that they return what the supplied function
/// returns; whether that is really the front (or back, or remainder) of
/// the sequence is the caller's responsibility, stated in the supplied
/// function's own contract and not enforceable here. For this reason the
/// peek operations live on the adapter itself rather than behind the
/// capability traits of this crate, whose contracts pin the result down.
pub struct FnPeekableIter<I, P, PB, PF> {
    inner: I,
    peek_fn: P,
    peek_back_fn: PB,
    peek_iter_fn: PF,
}

impl<I, P, PB, PF> FnPeekableIter<I, P, PB, PF> {
    /// The wrapped sequence.
    pub closed spec fn inner_seq(&self) -> I {
        self.inner
    }

    /// The supplied next-item peek function.
    pub closed spec fn peek_func(&self) -> P {
        self.peek_fn
    }

    /// The supplied last-item peek function.
    pub closed spec fn peek_back_func(&self) -> PB {
        self.peek_back_fn
    }

    /// The supplied whole-remainder peek function.
    pub closed spec fn peek_iter_func(&self) -> PF {
        self.peek_iter_fn
    }
}

impl<I: Advance, P: Fn(&I) -> Option<I::Item>> FnPeekableIter<I, P, (), ()> {
    pub fn new(inner: I, peek_fn: P) -> (r: Self)
        ensures
            r.inner_seq() == inner,
            r.peek_func() == peek_fn,
            r.remaining() == inner.remaining(),
    {
        FnPeekableIter { inner, peek_fn, peek_back_fn: (), peek_iter_fn: () }
    }
}

impl<I: Advance, P, PB, PF> FnPeekableIter<I, P, PB, PF> {
    /// Attach a function for the last-item peek.
    pub fn with_peek_back<F: Fn(&I) -> Option<I::Item>>(self, peek_back_fn: F) -> (r:
        FnPeekableIter<I, P, F, PF>)
        ensures
            r.inner_seq() == self.inner_seq(),
            r.peek_func() == self.peek_func(),
            r.peek_back_func() == peek_back_fn,
            r.peek_iter_func() == self.peek_iter_func(),
    {
        FnPeekableIter {
            inner: self.inner,
            peek_fn: self.peek_fn,
            peek_back_fn,
            peek_iter_fn: self.peek_iter_fn,
        }
    }

    /// Attach a function for the whole-remainder peek.
    pub fn with_peek_iter<RI: Advance<Item = I::Item>, F: Fn(&I) -> RI>(self, peek_iter_fn: F) -> (r:
        FnPeekableIter<I, P, PB, F>)
        ensures
            r.inner_seq() == self.inner_seq(),
            r.peek_func() == self.peek_func(),
            r.peek_back_func() == self.peek_back_func(),
            r.peek_iter_func() == peek_iter_fn,
    {
        FnPeekableIter {
            inner: self.inner,
            peek_fn: self.peek_fn,
            peek_back_fn: self.peek_back_fn,
            peek_iter_fn,
        }
    }
}

impl<I: Advance, P, PB, PF> Advance for FnPeekableIter<I, P, PB, PF> {
    type Item = I::Item;

    open spec fn remaining(&self) -> Seq<I::Item> {
        self.inner_seq().remaining()
    }

    fn next(&mut self) -> (r: Option<I::Item>)
        ensures
            final(self).peek_func() == old(self).peek_func(),
            final(self).peek_back_func() == old(self).peek_back_func(),
            final(self).peek_iter_func() == old(self).peek_iter_func(),
    {
        self.inner.next()
    }
}

impl<I: AdvanceBack, P, PB, PF> AdvanceBack for FnPeekableIter<I, P, PB, PF> {
    fn next_back(&mut self) -> (r: Option<I::Item>)
        ensures
            final(self).peek_func() == old(self).peek_func(),
            final(self).peek_back_func() == old(self).peek_back_func(),
            final(self).peek_iter_func() == old(self).peek_iter_func(),
    {
        self.inner.next_back()
    }
}

impl<I: Duplicate, P: Copy, PB: Copy, PF: Copy> Duplicate for FnPeekableIter<I, P, PB, PF> {
    fn duplicate(&self) -> (r: Self)
        ensures
            r.peek_func() == self.peek_func(),
            r.peek_back_func() == self.peek_back_func(),
            r.peek_iter_func() == self.peek_iter_func(),
    {
        FnPeekableIter {
            inner: self.inner.duplicate(),
            peek_fn: self.peek_fn,
            peek_back_fn: self.peek_back_fn,
            peek_iter_fn: self.peek_iter_fn,
        }
    }
}

impl<I: Advance, P: Fn(&I) -> Option<I::Item>, PB, PF> FnPeekableIter<I, P, PB, PF> {
    /// Read what the supplied next-item peek function reports for the
    /// current state of the wrapped sequence.
    pub fn peek(&self) -> (r: Option<I::Item>)
        requires
            call_requires(self.peek_func(), (&self.inner_seq(),)),
        ensures
            call_ensures(self.peek_func(), (&self.inner_seq(),), r),
    {
        (self.peek_fn)(&self.inner)
    }
}

impl<I: Advance, P, PB: Fn(&I) -> Option<I::Item>, PF> FnPeekableIter<I, P, PB, PF> {
    /// Read what the supplied last-item peek function reports for the
    /// current state of the wrapped sequence.
    pub fn peek_back(&self) -> (r: Option<I::Item>)
        requires
            call_requires(self.peek_back_func(), (&self.inner_seq(),)),
        ensures
            call_ensures(self.peek_back_func(), (&self.inner_seq(),), r),
    {
        (self.peek_back_fn)(&self.inner)
    }
}

impl<I: Advance, P, PB, RI: Advance<Item = I::Item>, PF: Fn(&I) -> RI> FnPeekableIter<
    I,
    P,
    PB,
    PF,
> {
    /// Obtain what the supplied whole-remainder peek function builds from
    /// the current state of the wrapped sequence.
    pub fn peek_iter(&self) -> (r: RI)
        requires
            call_requires(self.peek_iter_func(), (&self.inner_seq(),)),
        ensures
            call_ensures(self.peek_iter_func(), (&self.inner_seq(),), r),
    {
        (self.peek_iter_fn)(&self.inner)
    }
}

} // verus!
