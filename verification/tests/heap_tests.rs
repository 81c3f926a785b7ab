//! Tests of the fixed-capacity max-heap.

use angine::custom_collections::binary_heap::BinaryHeap;
use angine::fixed::Fx;

fn fx(x: f64) -> Fx {
    Fx((x * 1e9).round() as i64)
}

#[test]
fn test_append() {
    let mut bh = BinaryHeap::<i32>::new(5);

    let mut i = bh.append(fx(1.0), 1);
    assert_eq!(i, 0);
    assert_eq!(bh.at(0).unwrap().key, fx(1.0));
    assert_eq!(bh.at(0).unwrap().value, 1);

    i = bh.append(fx(2.0), 2);
    assert_eq!(i, 0);
    assert_eq!(bh.at(0).unwrap().key, fx(2.0));
    assert_eq!(bh.at(0).unwrap().value, 2);
    assert_eq!(bh.at(1).unwrap().key, fx(1.0));
    assert_eq!(bh.at(1).unwrap().value, 1);

    i = bh.append(fx(1.0), 2);
    assert_eq!(i, 2);
    assert_eq!(bh.at(2).unwrap().key, fx(1.0));
    assert_eq!(bh.at(2).unwrap().value, 2);
}

#[test]
fn test_pop() {
    let mut bh = BinaryHeap::<i32>::new(5);
    bh.append(fx(1.0), 1);
    bh.append(fx(2.0), 2);
    bh.append(fx(1.5), 2);
    bh.append(fx(3.0), 2);
    bh.append(fx(1.0), 2);

    assert_eq!(bh.pop().0, fx(3.0));
    assert_eq!(bh.pop().0, fx(2.0));
    assert_eq!(bh.pop().0, fx(1.5));
    assert_eq!(bh.pop().0, fx(1.0));
    assert_eq!(bh.pop().0, fx(1.0));
}
