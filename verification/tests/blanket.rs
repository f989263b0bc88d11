use fastpeek::{Advance, AdvanceBack, Peek, PeekBack, PeekIter};
use fastpeek::{SliceCursor, VecCursor};

fn drain<S: Advance>(mut s: S) -> Vec<S::Item> {
    let mut out = Vec::new();
    while let Some(item) = s.next() {
        out.push(item);
    }
    out
}

#[test]
fn test_vec_into_iter() {
    let vec = vec![1, 2, 3];
    let mut i = VecCursor::new(vec);
    assert_eq!(i.peek(), i.next());
    assert_eq!(i.peek_back(), i.next_back());
}

#[test]
fn test_vec_iter() {
    let vec = vec![1, 2, 3];
    let mut i = SliceCursor::new(&vec);
    assert_eq!(i.peek(), i.next());
    assert_eq!(i.peek_back(), i.next_back());
}

#[test]
fn test_peek_iter() {
    let vec = vec![1, 2, 3];
    let i = SliceCursor::new(&vec);
    let peeked = drain(i.peek_iter());

    assert!(peeked.iter().zip(drain(i).iter()).all(|(a, b)| *a == *b))
}

#[test]
fn test_peek_into_iter() {
    let i = VecCursor::new(vec![1, 2, 3]);
    let peeked = drain(i.peek_iter());

    assert!(peeked.iter().zip(drain(i).iter()).all(|(a, b)| *a == *b))
}
