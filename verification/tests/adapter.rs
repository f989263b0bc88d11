use fastpeek::{Advance, AdvanceBack, Duplicate, Peek, PeekAdapters, PeekBack, PeekIter};
use fastpeek::{SliceCursor, VecCursor};

fn drain<S: Advance>(mut s: S) -> Vec<S::Item> {
    let mut out = Vec::new();
    while let Some(item) = s.next() {
        out.push(item);
    }
    out
}

#[test]
fn adapter_test_cloned() {
    let vec = vec![1, 2, 3];
    let mut i = SliceCursor::new(&vec).cloning_peekable();
    assert_eq!(i.peek(), i.next());
    assert_eq!(i.peek_back(), i.next_back());
}

#[test]
fn adapter_test_cloned_peek_iter() {
    let i = VecCursor::new(vec![1, 2, 3]).cloning_peekable();
    let i2 = i.duplicate();

    let a = drain(i);
    let b = drain(i2.peek_iter());
    assert!(a.iter().zip(b.iter()).all(|(x, y)| x == y));
}

#[test]
fn adapter_test_prefetch() {
    let vec = vec![1, 2, 3];
    let mut i = VecCursor::new(vec).prefetch_peekable();
    assert_eq!(i.peek(), i.next());
}

#[test]
fn test_fn() {
    let vec = vec![1, 2, 3];
    let mut i = VecCursor::new(vec).fn_peekable(|o: &VecCursor<i32>| {
        if fastpeek::ViewOwned::view_len(o) > 0 {
            Some(fastpeek::ViewOwned::view_at(o, 0))
        } else {
            None
        }
    });
    assert_eq!(i.peek(), i.next());
}
