use fastpeek::{Advance, AdvanceBack, Duplicate, Peek, PeekBack, PeekIter};
use fastpeek::SliceCursor;

fn drain<S: Advance>(mut s: S) -> Vec<S::Item> {
    let mut out = Vec::new();
    while let Some(item) = s.next() {
        out.push(item);
    }
    out
}

#[test]
fn test_as_ref_into_iter() {
    let vec = vec![1, 2, 3];
    let mut i = SliceCursor::new(&vec);
    assert_eq!(i.peek(), i.next());
    assert_eq!(i.peek_back(), i.next_back());
}

#[test]
fn test_as_ref_iter() {
    let vec = vec![1, 2, 3];
    let mut i = SliceCursor::new(&vec);
    assert_eq!(i.peek(), i.next());
    assert_eq!(i.peek_back(), i.next_back());
}

#[test]
fn test_as_ref_peek_iter() {
    let vec = vec![1, 2, 3];
    let peeked = drain(SliceCursor::new(&vec).peek_iter());
    assert!(vec.iter().zip(peeked.iter()).all(|(a, b)| *a == *b));
}

#[test]
fn test_as_ref_peek_into_iter() {
    let vec = vec![1, 2, 3];
    let i = SliceCursor::new(&vec);
    let peek_i = i.duplicate();

    assert!(drain(i).iter().zip(drain(peek_i.peek_iter()).iter()).all(|(a, b)| a == b))
}
