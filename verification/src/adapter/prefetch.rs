//! The prefetch adapter.
use vstd::prelude::*;
use crate::{advanced, Advance, Duplicate, Peek};

verus! {

/// Provides [`Peek`] by eagerly holding one item ahead of the externally
/// observable position: construction advances the wrapped sequence once
/// and caches the result in a one-slot buffer, which every later advance
/// refills. Peeking is then a read of the buffer, at the price of
/// consuming one item's worth of the underlying sequence before the
/// caller asks for it. No backward or whole-remainder peek is offered:
/// the one-element buffer only covers the forward direction.
pub struct PrefetchPeekableIter<I: Advance> {
    inner: I,
    peeked: Option<I::Item>,
}

impl<I: Advance> PrefetchPeekableIter<I> {
    pub fn new(inner: I) -> (r: Self)
        ensures
            r.remaining() == inner.remaining(),
    {
        let mut seq = inner;
        let peeked = seq.next();
        let r = PrefetchPeekableIter { inner: seq, peeked };
        proof {
            assert(r.remaining() =~= inner.remaining());
        }
        r
    }
}

impl<I: Advance> Advance for PrefetchPeekableIter<I> {
    type Item = I::Item;

    closed spec fn remaining(&self) -> Seq<I::Item> {
        match self.peeked {
            None => Seq::empty(),
            Some(item) => seq![item] + self.inner.remaining(),
        }
    }

    fn next(&mut self) -> (r: Option<I::Item>) {
        if self.peeked.is_none() {
            None
        } else {
            let refill = self.inner.next();
            let out = self.peeked.take();
            self.peeked = refill;
            proof {
                assert(final(self).remaining() =~= advanced(old(self).remaining()));
            }
            out
        }
    }
}

impl<I: Duplicate> Duplicate for PrefetchPeekableIter<I> where I::Item: Copy {
    fn duplicate(&self) -> (r: Self) {
        PrefetchPeekableIter { inner: self.inner.duplicate(), peeked: self.peeked }
    }
}

impl<I: Advance> Peek<PrefetchPeekableIter<I>> for PrefetchPeekableIter<I> where I::Item: Copy {
    fn peek(&self) -> (r: Option<I::Item>) {
        self.peeked
    }
}

} // verus!
