//! Peek capabilities for pull-based sequences.
//!
//! A sequence owns a cursor over its remaining items and is advanced in
//! place. The three capability traits below let a consumer read the next
//! item ([`Peek`]), the last item ([`PeekBack`]) or the whole remainder
//! ([`PeekIter`]) without advancing the sequence, each through a read-only
//! reference. Sequences backed by a contiguous view receive all three
//! automatically (see [`blanket`]); any other sequence can be wrapped in
//! one of the adapters (see [`adapter`]).
use vstd::prelude::*;

pub mod adapter;
pub mod blanket;
pub mod cursor;
pub mod laws;

pub use adapter::CloningPeekableIter;
pub use adapter::FnPeekableIter;
pub use adapter::PeekAdapters;
pub use adapter::PrefetchPeekableIter;
pub use blanket::Borrowed;
pub use blanket::Owned;
pub use blanket::ViewOwned;
pub use blanket::ViewShared;
pub use cursor::SliceCursor;
pub use cursor::VecCursor;

verus! {

/// The value the next forward advance of a sequence with remainder `s`
/// must yield: the front item, or `None` once `s` is exhausted.
pub open spec fn front_of<T>(s: Seq<T>) -> Option<T> {
    if s.len() == 0 {
        None
    } else {
        Some(s[0])
    }
}

/// The value the next backward advance of a sequence with remainder `s`
/// must yield: the back item, or `None` once `s` is exhausted.
pub open spec fn back_of<T>(s: Seq<T>) -> Option<T> {
    if s.len() == 0 {
        None
    } else {
        Some(s[s.len() - 1])
    }
}

/// The remainder left behind by one forward advance: the tail, except that
/// an exhausted sequence stays exhausted.
pub open spec fn advanced<T>(s: Seq<T>) -> Seq<T> {
    if s.len() == 0 {
        s
    } else {
        s.drop_first()
    }
}

/// The remainder left behind by one backward advance: all but the back
/// item, except that an exhausted sequence stays exhausted.
pub open spec fn advanced_back<T>(s: Seq<T>) -> Seq<T> {
    if s.len() == 0 {
        s
    } else {
        s.drop_last()
    }
}

/// A pull-based sequence: it owns a cursor over its remaining items and is
/// mutated in place by each forward advance.
pub trait Advance: Sized {
    type Item;

    /// The items this sequence has not yet yielded, front first.
    spec fn remaining(&self) -> Seq<Self::Item>;

    /// Yield the front item and move past it. `None` is reported exactly
    /// when the sequence is exhausted, and exhaustion is terminal: the
    /// remainder then stays empty forever.
    fn next(&mut self) -> (r: Option<Self::Item>)
        ensures
            r == front_of(old(self).remaining()),
            final(self).remaining() == advanced(old(self).remaining()),
    ;
}

/// A sequence that can also be advanced from its back end.
pub trait AdvanceBack: Advance {
    /// Yield the back item and move before it. `None` is reported exactly
    /// when the sequence is exhausted, and exhaustion is terminal.
    fn next_back(&mut self) -> (r: Option<Self::Item>)
        ensures
            r == back_of(old(self).remaining()),
            final(self).remaining() == advanced_back(old(self).remaining()),
    ;
}

/// A sequence that can be duplicated, the copy holding the same remainder
/// while advancing independently of the original.
pub trait Duplicate: Advance {
    fn duplicate(&self) -> (r: Self)
        ensures
            r.remaining() == self.remaining(),
    ;
}

/// The next-item peek capability: read what the next forward advance
/// would yield, without performing it and through a read-only reference.
///
/// The marker `M` carries no state; it only keeps otherwise overlapping
/// implementations apart, so that a sequence can hold several grants of
/// the same capability without ambiguity.
pub trait Peek<M>: Advance {
    fn peek(&self) -> (r: Option<Self::Item>)
        ensures
            r == front_of(self.remaining()),
    ;
}

/// The last-item peek capability: read what the next backward advance
/// would yield, without performing it. The marker plays the same role as
/// on [`Peek`].
pub trait PeekBack<M>: Advance {
    fn peek_back(&self) -> (r: Option<Self::Item>)
        ensures
            r == back_of(self.remaining()),
    ;
}

/// The whole-remainder peek capability: obtain a fresh, independent
/// sequence over the same remaining items, leaving the original's
/// position untouched. The marker plays the same role as on [`Peek`].
pub trait PeekIter<M>: Advance {
    type Iter: Advance<Item = Self::Item>;

    fn peek_iter(&self) -> (r: Self::Iter)
        ensures
            r.remaining() == self.remaining(),
    ;
}

} // verus!
