use fastpeek::{Advance, AdvanceBack, Duplicate, Peek, PeekBack, PeekIter};
use fastpeek::VecCursor;

fn drain<S: Advance>(mut s: S) -> Vec<S::Item> {
    let mut out = Vec::new();
    while let Some(item) = s.next() {
        out.push(item);
    }
    out
}

#[test]
fn test_array_into_iter() {
    let vec = vec![1, 2, 3];
    let mut i = VecCursor::new(vec);
    assert_eq!(i.peek(), i.next());
    assert_eq!(i.peek_back(), i.next_back());
}

#[test]
fn test_array_peek_into_iter() {
    let vec = vec![1, 2, 3];
    let i = VecCursor::new(vec);
    let i2 = i.duplicate();

    assert!(drain(i).iter().zip(drain(i2.peek_iter()).iter()).all(|(a, b)| a == b));
}
