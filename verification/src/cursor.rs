//! Concrete sequences backed by a contiguous, randomly-addressable view.
//!
//! [`VecCursor`] owns its buffer; [`SliceCursor`] borrows one. Both expose
//! their remainder through the view traits of [`crate::blanket`] and so
//! receive every peek capability automatically.
use vstd::prelude::*;
use crate::{advanced, advanced_back, Advance, AdvanceBack, Duplicate};
use crate::blanket::{ViewOwned, ViewShared};

verus! {

/// A sequence over a window of an owned vector, yielding copies of its
/// items from either end.
pub struct VecCursor<T> {
    buf: Vec<T>,
    lo: usize,
    hi: usize,
}

impl<T> VecCursor<T> {
    #[verifier::type_invariant]
    spec fn well_formed(&self) -> bool {
        self.lo <= self.hi <= self.buf@.len()
    }
}

impl<T: Copy> VecCursor<T> {
    pub fn new(buf: Vec<T>) -> (r: Self)
        ensures
            r.remaining() == buf@,
    {
        let hi = buf.len();
        VecCursor { buf, lo: 0, hi }
    }
}

impl<T: Copy> Advance for VecCursor<T> {
    type Item = T;

    closed spec fn remaining(&self) -> Seq<T> {
        self.buf@.subrange(self.lo as int, self.hi as int)
    }

    fn next(&mut self) -> (r: Option<T>) {
        proof {
            use_type_invariant(&*self);
        }
        if self.lo < self.hi {
            let item = self.buf[self.lo];
            self.lo = self.lo + 1;
            proof {
                assert(final(self).remaining() =~= advanced(old(self).remaining()));
            }
            Some(item)
        } else {
            None
        }
    }
}

impl<T: Copy> AdvanceBack for VecCursor<T> {
    fn next_back(&mut self) -> (r: Option<T>) {
        proof {
            use_type_invariant(&*self);
        }
        if self.lo < self.hi {
            self.hi = self.hi - 1;
            let item = self.buf[self.hi];
            proof {
                assert(final(self).remaining() =~= advanced_back(old(self).remaining()));
            }
            Some(item)
        } else {
            None
        }
    }
}

impl<T: Copy> Duplicate for VecCursor<T> {
    fn duplicate(&self) -> (r: Self) {
        proof {
            use_type_invariant(&*self);
        }
        let mut copy: Vec<T> = Vec::new();
        let mut i: usize = self.lo;
        while i < self.hi
            invariant
                self.lo <= i <= self.hi <= self.buf@.len(),
                copy@ =~= self.buf@.subrange(self.lo as int, i as int),
            decreases self.hi - i,
        {
            copy.push(self.buf[i]);
            i = i + 1;
        }
        proof {
            assert(copy@ =~= self.remaining());
        }
        VecCursor::new(copy)
    }
}

impl<T: Copy> ViewOwned for VecCursor<T> {
    fn view_len(&self) -> (n: usize) {
        proof {
            use_type_invariant(&*self);
        }
        self.hi - self.lo
    }

    fn view_at(&self, i: usize) -> (r: T) {
        proof {
            use_type_invariant(&*self);
        }
        self.buf[self.lo + i]
    }
}

/// A sequence over a window of a borrowed vector, yielding copies of its
/// items from either end.
pub struct SliceCursor<'a, T> {
    buf: &'a Vec<T>,
    lo: usize,
    hi: usize,
}

impl<'a, T> SliceCursor<'a, T> {
    #[verifier::type_invariant]
    spec fn well_formed(&self) -> bool {
        self.lo <= self.hi <= self.buf@.len()
    }
}

impl<'a, T: Copy> SliceCursor<'a, T> {
    pub fn new(buf: &'a Vec<T>) -> (r: Self)
        ensures
            r.remaining() == buf@,
    {
        let hi = buf.len();
        SliceCursor { buf, lo: 0, hi }
    }
}

impl<'a, T: Copy> Advance for SliceCursor<'a, T> {
    type Item = T;

    closed spec fn remaining(&self) -> Seq<T> {
        self.buf@.subrange(self.lo as int, self.hi as int)
    }

    fn next(&mut self) -> (r: Option<T>) {
        proof {
            use_type_invariant(&*self);
        }
        if self.lo < self.hi {
            let item = self.buf[self.lo];
            self.lo = self.lo + 1;
            proof {
                assert(final(self).remaining() =~= advanced(old(self).remaining()));
            }
            Some(item)
        } else {
            None
        }
    }
}

impl<'a, T: Copy> AdvanceBack for SliceCursor<'a, T> {
    fn next_back(&mut self) -> (r: Option<T>) {
        proof {
            use_type_invariant(&*self);
        }
        if self.lo < self.hi {
            self.hi = self.hi - 1;
            let item = self.buf[self.hi];
            proof {
                assert(final(self).remaining() =~= advanced_back(old(self).remaining()));
            }
            Some(item)
        } else {
            None
        }
    }
}

impl<'a, T: Copy> Duplicate for SliceCursor<'a, T> {
    fn duplicate(&self) -> (r: Self) {
        proof {
            use_type_invariant(&*self);
        }
        SliceCursor { buf: self.buf, lo: self.lo, hi: self.hi }
    }
}

impl<'a, T: Copy> ViewShared for SliceCursor<'a, T> {
    fn view_len(&self) -> (n: usize) {
        proof {
            use_type_invariant(&*self);
        }
        self.hi - self.lo
    }

    fn view_at_ref(&self, i: usize) -> (r: &T) {
        proof {
            use_type_invariant(&*self);
        }
        &self.buf[self.lo + i]
    }
}

} // verus!
