use maviola::ring::{RingBuffer, RingBufferIterator};

#[test]
fn ring_basics() {
    let mut ring = RingBuffer::new(2);

    ring.push(1);
    ring.push(2);
    ring.push(3);

    assert_eq!(ring.pull_back().unwrap(), 2);
    assert_eq!(ring.pull_back().unwrap(), 3);
    assert!(ring.pull_back().is_none());
}

#[test]
fn ring_zero_elements() {
    let mut ring = RingBuffer::new(0);

    assert!(matches!(ring.push(1), Some(1)));
    assert!(matches!(ring.push(2), Some(2)));
    assert!(matches!(ring.push(3), Some(3)));

    assert!(ring.pull_back().is_none());
}

#[test]
fn ring_iterator() {
    let mut ring = RingBuffer::new(2);
    ring.push(1);
    ring.push(2);

    let mut iter = ring.iter();
    assert!(matches!(iter.next(), Some(1)));
    assert!(matches!(iter.next(), Some(2)));

    let mut items = 0;
    let mut iter = ring.iter();
    while let Some(_) = iter.next() {
        items += 1;
    }
    assert_eq!(items, 2);
}

#[test]
fn extend_ring_capacity() {
    let mut ring = RingBuffer::new(2);

    assert!(matches!(ring.push(1), None));
    assert!(matches!(ring.push(2), None));

    _ = ring.resize(3);

    assert!(matches!(ring.push(3), None));
    assert!(matches!(ring.push(4), Some(1)));
}

#[test]
fn ring_keeps_newest_values_in_order() {
    let mut ring = RingBuffer::new(3);
    for value in 1..=5 {
        ring.push(value);
    }
    assert!(ring.is_full());
    assert_eq!(ring.len(), 3);
    assert_eq!(ring.capacity(), 3);
    assert_eq!(ring.pull_back(), Some(3));
    assert_eq!(ring.pull_back(), Some(4));
    assert_eq!(ring.pull_back(), Some(5));
    assert!(ring.is_empty());
    assert_eq!(ring.pull_back(), None);
}

#[test]
fn full_ring_pushes_out_the_oldest() {
    let mut ring = RingBuffer::new(2);
    assert_eq!(ring.push(10), None);
    assert_eq!(ring.push(20), None);
    assert_eq!(ring.push(30), Some(10));
    assert_eq!(ring.push(40), Some(20));
    assert_eq!(ring.len(), 2);
}

#[test]
fn shrink_ring_returns_values_that_do_not_fit() {
    let mut ring = RingBuffer::new(4);
    for value in 1..=4 {
        ring.push(value);
    }
    let rest = ring.resize(2);
    assert_eq!(rest, vec![3, 4]);
    assert_eq!(ring.capacity(), 2);
    assert_eq!(ring.len(), 2);
    assert_eq!(ring.pull_back(), Some(1));
    assert_eq!(ring.pull_back(), Some(2));
    assert_eq!(ring.pull_back(), None);
}

#[test]
fn resize_to_same_capacity_changes_nothing() {
    let mut ring = RingBuffer::new(2);
    ring.push(7);
    assert!(ring.resize(2).is_empty());
    assert_eq!(ring.len(), 1);
    assert_eq!(ring.pull_back(), Some(7));
}

#[test]
fn grown_ring_keeps_its_elements() {
    let mut ring = RingBuffer::new(2);
    ring.push(1);
    ring.push(2);
    ring.push(3);
    assert!(ring.resize(3).is_empty());
    assert_eq!(ring.capacity(), 3);
    assert_eq!(ring.len(), 2);
    assert!(!ring.is_full());
    let mut seen = Vec::new();
    let mut iter = ring.iter();
    while let Some(x) = iter.next() {
        seen.push(*x);
    }
    assert_eq!(seen, vec![2, 3]);
    assert_eq!(ring.push(4), None);
    assert!(ring.is_full());
    assert_eq!(ring.push(5), Some(2));
}

#[test]
fn shrunk_ring_keeps_only_its_elements() {
    let mut ring = RingBuffer::new(4);
    ring.push(9);
    assert!(ring.resize(2).is_empty());
    assert_eq!(ring.capacity(), 2);
    assert_eq!(ring.len(), 1);
    let mut iter = ring.iter();
    assert_eq!(iter.next(), Some(&9));
    assert_eq!(iter.next(), None);
    assert_eq!(ring.push(10), None);
    assert_eq!(ring.push(11), Some(9));
}

#[test]
fn push_works_after_growing_an_empty_ring() {
    let mut ring = RingBuffer::<i32>::new(2);
    assert!(ring.resize(5).is_empty());
    assert_eq!(ring.push(1), None);
    assert_eq!(ring.len(), 1);
    assert_eq!(ring.pull_back(), Some(1));
}

#[test]
fn shrink_to_zero_returns_everything() {
    let mut ring = RingBuffer::new(3);
    ring.push(1);
    ring.push(2);
    assert_eq!(ring.resize(0), vec![1, 2]);
    assert_eq!(ring.capacity(), 0);
    assert!(ring.is_empty());
    assert_eq!(ring.push(3), Some(3));
}

#[test]
fn default_ring_has_no_capacity() {
    let mut ring: RingBuffer<u8> = RingBuffer::default();
    assert_eq!(ring.capacity(), 0);
    assert_eq!(ring.push(5), Some(5));
    assert!(ring.is_empty());
}

#[test]
fn iterator_stops_after_last_element() {
    let mut ring = RingBuffer::new(3);
    ring.push('a');
    ring.push('b');
    let mut iter = RingBufferIterator::new(&ring);
    assert_eq!(iter.next(), Some(&'a'));
    assert_eq!(iter.next(), Some(&'b'));
    assert_eq!(iter.next(), None);
    assert_eq!(iter.next(), None);
}
