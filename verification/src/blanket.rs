//! The automatic capability grant.
//!
//! Any sequence whose remaining items are already exposed as a contiguous,
//! randomly-addressable, read-only view is granted [`Peek`], [`PeekBack`]
//! and [`PeekIter`] with no wrapping. Two non-overlapping variants exist,
//! told apart by the zero-sized markers [`Owned`] and [`Borrowed`]: one
//! for views that hand their items out by value, one for views that hand
//! them out by shared reference.
use vstd::prelude::*;
use crate::{Advance, Peek, PeekBack, PeekIter};
use crate::cursor::VecCursor;

verus! {

/// Marker for the grant on sequences whose view hands out owned items.
pub struct Owned;

/// Marker for the grant on sequences whose view hands out borrowed items.
pub struct Borrowed;

/// Contiguous read-only access to the remaining items, by value.
pub trait ViewOwned: Advance {
    fn view_len(&self) -> (n: usize)
        ensures
            n == self.remaining().len(),
    ;

    fn view_at(&self, i: usize) -> (r: Self::Item)
        requires
            i < self.remaining().len(),
        ensures
            r == self.remaining()[i as int],
    ;
}

/// Contiguous read-only access to the remaining items, by shared
/// reference.
pub trait ViewShared: Advance {
    fn view_len(&self) -> (n: usize)
        ensures
            n == self.remaining().len(),
    ;

    fn view_at_ref(&self, i: usize) -> (r: &Self::Item)
        requires
            i < self.remaining().len(),
        ensures
            *r == self.remaining()[i as int],
    ;
}

impl<S: ViewOwned> Peek<Owned> for S {
    fn peek(&self) -> (r: Option<Self::Item>) {
        if self.view_len() > 0 {
            Some(self.view_at(0))
        } else {
            None
        }
    }
}

impl<S: ViewOwned> PeekBack<Owned> for S {
    fn peek_back(&self) -> (r: Option<Self::Item>) {
        let n = self.view_len();
        if n > 0 {
            Some(self.view_at(n - 1))
        } else {
            None
        }
    }
}

impl<S: ViewOwned> PeekIter<Owned> for S where S::Item: Copy {
    type Iter = VecCursor<S::Item>;

    fn peek_iter(&self) -> (r: VecCursor<S::Item>) {
        let n = self.view_len();
        let mut copy: Vec<S::Item> = Vec::new();
        let mut i: usize = 0;
        while i < n
            invariant
                i <= n,
                n == self.remaining().len(),
                copy@ =~= self.remaining().subrange(0, i as int),
            decreases n - i,
        {
            copy.push(self.view_at(i));
            i = i + 1;
        }
        proof {
            assert(copy@ =~= self.remaining());
        }
        VecCursor::new(copy)
    }
}

impl<S: ViewShared> Peek<Borrowed> for S where S::Item: Copy {
    fn peek(&self) -> (r: Option<Self::Item>) {
        if self.view_len() > 0 {
            Some(*self.view_at_ref(0))
        } else {
            None
        }
    }
}

impl<S: ViewShared> PeekBack<Borrowed> for S where S::Item: Copy {
    fn peek_back(&self) -> (r: Option<Self::Item>) {
        let n = self.view_len();
        if n > 0 {
            Some(*self.view_at_ref(n - 1))
        } else {
            None
        }
    }
}

impl<S: ViewShared> PeekIter<Borrowed> for S where S::Item: Copy {
    type Iter = VecCursor<S::Item>;

    fn peek_iter(&self) -> (r: VecCursor<S::Item>) {
        let n = self.view_len();
        let mut copy: Vec<S::Item> = Vec::new();
        let mut i: usize = 0;
        while i < n
            invariant
                i <= n,
                n == self.remaining().len(),
                copy@ =~= self.remaining().subrange(0, i as int),
            decreases n - i,
        {
            copy.push(*self.view_at_ref(i));
            i = i + 1;
        }
        proof {
            assert(copy@ =~= self.remaining());
        }
        VecCursor::new(copy)
    }
}

} // verus!
