//! The duplication adapter.
use vstd::prelude::*;
use crate::{Advance, AdvanceBack, Duplicate, Peek, PeekBack, PeekIter};

verus! {

/// Provides [`Peek`], [`PeekBack`] and [`PeekIter`] by duplicating the
/// wrapped sequence and advancing the duplicate, which is then discarded.
/// No extra state is held, so each peek costs one duplication plus one
/// advance: intended for sequences whose duplication is cheap, such as
/// cursors over an already-owned buffer.
pub struct CloningPeekableIter<I> {
    inner: I,
}

impl<I: Advance> CloningPeekableIter<I> {
    pub fn new(iter: I) -> (r: Self)
        ensures
            r.remaining() == iter.remaining(),
    {
        CloningPeekableIter { inner: iter }
    }
}

impl<I: Advance> Advance for CloningPeekableIter<I> {
    type Item = I::Item;

    closed spec fn remaining(&self) -> Seq<I::Item> {
        self.inner.remaining()
    }

    fn next(&mut self) -> (r: Option<I::Item>) {
        self.inner.next()
    }
}

impl<I: AdvanceBack> AdvanceBack for CloningPeekableIter<I> {
    fn next_back(&mut self) -> (r: Option<I::Item>) {
        self.inner.next_back()
    }
}

impl<I: Duplicate> Duplicate for CloningPeekableIter<I> {
    fn duplicate(&self) -> (r: Self) {
        CloningPeekableIter { inner: self.inner.duplicate() }
    }
}

impl<I: Duplicate> Peek<CloningPeekableIter<I>> for CloningPeekableIter<I> {
    fn peek(&self) -> (r: Option<I::Item>) {
        let mut copy = self.inner.duplicate();
        copy.next()
    }
}

impl<I: AdvanceBack + Duplicate> PeekBack<CloningPeekableIter<I>> for CloningPeekableIter<I> {
    fn peek_back(&self) -> (r: Option<I::Item>) {
        let mut copy = self.inner.duplicate();
        copy.next_back()
    }
}

impl<I: Duplicate> PeekIter<CloningPeekableIter<I>> for CloningPeekableIter<I> {
    type Iter = I;

    fn peek_iter(&self) -> (r: I) {
        self.inner.duplicate()
    }
}

} // verus!
