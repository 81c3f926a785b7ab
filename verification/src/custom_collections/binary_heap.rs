//! A fixed-capacity max-heap of key-value cells, keyed by fixed-point
//! reals.

use crate::fixed::Fx;
use vstd::arithmetic::div_mod::{lemma_fundamental_div_mod, lemma_mod_bound};
use vstd::prelude::*;

verus! {

/// A key paired with its value.
#[derive(Clone, Copy, Debug)]
pub struct Cell<V> {
    pub key: Fx,
    pub value: V,
}

impl<V> Cell<V> {
    /// The cell as a pair.
    pub fn tuplify(self) -> (r: (Fx, V))
        ensures
            r.0 == self.key && r.1 == self.value,
    {
        (self.key, self.value)
    }

    pub fn new(key: Fx, value: V) -> (r: Cell<V>)
        ensures
            r.key == key && r.value == value,
    {
        Cell { key, value }
    }
}

/// Index of the parent of node `i`.
pub fn parent_index(i: usize) -> (r: usize)
    requires
        i >= 1,
    ensures
        r as int == (i - 1) as int / 2,
{
    (i - 1) / 2
}

/// Index of the left child of node `i`.
pub fn left_child_index(i: usize) -> (r: usize)
    requires
        i < usize::MAX / 2,
    ensures
        r as int == 2 * i as int + 1,
{
    i * 2 + 1
}

/// Index of the right child of node `i`.
pub fn right_child_index(i: usize) -> (r: usize)
    requires
        i < usize::MAX / 2,
    ensures
        r as int == 2 * i as int + 2,
{
    i * 2 + 2
}

/// A node's parent and children indices relate as expected under integer
/// division by two.
proof fn lemma_parent_child(j: int)
    requires
        j >= 1,
    ensures
        (j - 1) / 2 >= 0,
        (j - 1) / 2 < j,
        j == 2 * ((j - 1) / 2) + 1 || j == 2 * ((j - 1) / 2) + 2,
{
    lemma_fundamental_div_mod(j - 1, 2);
    lemma_mod_bound(j - 1, 2);
}

/// Children of node `p` are `2p+1` and `2p+2`.
pub open spec fn is_child_s(p: int, c: int) -> bool {
    c == 2 * p + 1 || c == 2 * p + 2
}

/// A max-heap in a fixed-size array: the first `length` slots hold cells,
/// every child's key at most its parent's, the remaining slots empty.
pub struct BinaryHeap<V> {
    pub data: Vec<Option<Cell<V>>>,
    pub length: usize,
}

/// Structural and ordering invariant of the heap.
pub open spec fn heap_wf<V>(h: &BinaryHeap<V>) -> bool {
    &&& h.length <= h.data@.len()
    &&& (forall|i: int| 0 <= i < h.length ==> (#[trigger] h.data@[i]) is Some)
    &&& (forall|i: int| h.length <= i < h.data@.len() ==> (#[trigger] h.data@[i]) is None)
    &&& (forall|p: int, c: int|
        #![trigger h.data@[p], h.data@[c]]
        0 <= p && is_child_s(p, c) && c < h.length ==> h.data@[c]->Some_0.key@
            <= h.data@[p]->Some_0.key@)
}

/// The array and resting slot after sifting `cell` up from the hole at
/// `i`: while the parent's key is smaller, the parent moves down and the
/// hole moves up.
pub open spec fn sift_up_s<V>(data: Seq<Option<Cell<V>>>, cell: Cell<V>, i: int) -> (
    Seq<Option<Cell<V>>>,
    int,
)
    decreases i,
{
    if i > 0 && cell.key@ > data[(i - 1) / 2]->Some_0.key@ {
        sift_up_s(data.update(i, data[(i - 1) / 2]), cell, (i - 1) / 2)
    } else {
        (data.update(i, Some(cell)), i)
    }
}

/// The array and resting slot after sifting `cell` down from the hole at
/// `i` in a heap of `length` cells: while some child's key is larger, the
/// larger child (the left one on ties, or alone when no right child
/// exists) moves up and the hole moves down.
pub open spec fn sift_down_s<V>(
    data: Seq<Option<Cell<V>>>,
    cell: Cell<V>,
    i: int,
    length: int,
) -> (Seq<Option<Cell<V>>>, int)
    decreases length - i,
        when 0 <= i < length
{
    let lci = 2 * i + 1;
    let rci = 2 * i + 2;
    if (lci < length && cell.key@ < data[lci]->Some_0.key@) || (rci < length && cell.key@
        < data[rci]->Some_0.key@) {
        if lci < length && cell.key@ < data[lci]->Some_0.key@ && (rci >= length
            || data[lci]->Some_0.key@ >= data[rci]->Some_0.key@) {
            sift_down_s(data.update(i, data[lci]), cell, lci, length)
        } else {
            sift_down_s(data.update(i, data[rci]), cell, rci, length)
        }
    } else {
        (data.update(i, Some(cell)), i)
    }
}

/// The invariant carried while a hole sits at `i` during an upward sift of
/// `cell`: everything else is filled, parent-child order holds away from
/// the hole, the hole's children are below both `cell` and the hole's
/// parent.
pub open spec fn up_inv_s<V>(d: Seq<Option<Cell<V>>>, m: int, cell: Cell<V>, i: int) -> bool {
    &&& 0 <= i < m <= d.len()
    &&& (forall|j: int| 0 <= j < m && j != i ==> (#[trigger] d[j]) is Some)
    &&& (forall|p: int, c: int|
        #![trigger d[p], d[c]]
        0 <= p && is_child_s(p, c) && c < m && c != i && p != i ==> d[c]->Some_0.key@
            <= d[p]->Some_0.key@)
    &&& (forall|c: int|
        is_child_s(i, c) && c < m ==> (#[trigger] d[c])->Some_0.key@ <= cell.key@)
    &&& (i >= 1 ==> (forall|c: int|
        is_child_s(i, c) && c < m ==> (#[trigger] d[c])->Some_0.key@ <= d[(i - 1)
            / 2]->Some_0.key@))
}

/// One upward move of the hole keeps the sift invariant and the sift
/// image.
proof fn lemma_up_step<V>(d: Seq<Option<Cell<V>>>, m: int, cell: Cell<V>, i: int)
    requires
        up_inv_s(d, m, cell, i),
        i > 0,
        cell.key@ > d[(i - 1) / 2]->Some_0.key@,
    ensures
        up_inv_s(d.update(i, d[(i - 1) / 2]), m, cell, (i - 1) / 2),
        sift_up_s(d, cell, i) == sift_up_s(d.update(i, d[(i - 1) / 2]), cell, (i - 1) / 2),
{
    lemma_parent_child(i);
    let p = (i - 1) / 2;
    let d2 = d.update(i, d[p]);
    assert forall|pp: int, c: int|
        #![trigger d2[pp], d2[c]]
        0 <= pp && is_child_s(pp, c) && c < m && c != p && pp != p implies d2[c]->Some_0.key@
        <= d2[pp]->Some_0.key@ by {
        if c == i {
            lemma_parent_child(c);
        } else if pp == i {
            // c is a child of the old hole: bounded by the hole's parent p.
        }
    }
    assert forall|c: int| is_child_s(p, c) && c < m implies (#[trigger] d2[c])->Some_0.key@
        <= cell.key@ by {
        if c != i {
            assert(d[c]->Some_0.key@ <= d[p]->Some_0.key@);
        }
    }
    if p >= 1 {
        lemma_parent_child(p);
        assert forall|c: int| is_child_s(p, c) && c < m implies (#[trigger] d2[c])->Some_0.key@
            <= d2[(p - 1) / 2]->Some_0.key@ by {
            if c == i {
                assert(d[p]->Some_0.key@ <= d[(p - 1) / 2]->Some_0.key@);
            } else {
                assert(d[c]->Some_0.key@ <= d[p]->Some_0.key@);
                assert(d[p]->Some_0.key@ <= d[(p - 1) / 2]->Some_0.key@);
            }
        }
    }
}

/// Placing the sifted cell into the hole completes a well-ordered heap.
proof fn lemma_up_exit<V>(d: Seq<Option<Cell<V>>>, m: int, cell: Cell<V>, i: int)
    requires
        up_inv_s(d, m, cell, i),
        i == 0 || cell.key@ <= d[(i - 1) / 2]->Some_0.key@,
    ensures
        (forall|j: int| 0 <= j < m ==> (#[trigger] d.update(i, Some(cell))[j]) is Some),
        (forall|p: int, c: int|
            #![trigger d.update(i, Some(cell))[p], d.update(i, Some(cell))[c]]
            0 <= p && is_child_s(p, c) && c < m ==> d.update(i, Some(cell))[c]->Some_0.key@
                <= d.update(i, Some(cell))[p]->Some_0.key@),
{
    let d3 = d.update(i, Some(cell));
    assert forall|p: int, c: int|
        #![trigger d3[p], d3[c]]
        0 <= p && is_child_s(p, c) && c < m implies d3[c]->Some_0.key@ <= d3[p]->Some_0.key@ by {
        if c == i {
            lemma_parent_child(c);
        }
    }
}

/// The invariant carried while a hole sits at `i` during a downward sift
/// of `cell`: everything else is filled, parent-child order holds away
/// from the hole, the hole's parent dominates both `cell` and the hole's
/// children.
pub open spec fn down_inv_s<V>(d: Seq<Option<Cell<V>>>, m: int, cell: Cell<V>, i: int) -> bool {
    &&& 0 <= i < m <= d.len()
    &&& (forall|j: int| 0 <= j < m && j != i ==> (#[trigger] d[j]) is Some)
    &&& (forall|p: int, c: int|
        #![trigger d[p], d[c]]
        0 <= p && is_child_s(p, c) && c < m && c != i && p != i ==> d[c]->Some_0.key@
            <= d[p]->Some_0.key@)
    &&& (i >= 1 ==> d[(i - 1) / 2]->Some_0.key@ >= cell.key@)
    &&& (i >= 1 ==> (forall|c: int|
        is_child_s(i, c) && c < m ==> (#[trigger] d[c])->Some_0.key@ <= d[(i - 1)
            / 2]->Some_0.key@))
}

/// One downward move of the hole (to child `c`) keeps the sift invariant.
proof fn lemma_down_step<V>(d: Seq<Option<Cell<V>>>, m: int, cell: Cell<V>, i: int, c: int)
    requires
        down_inv_s(d, m, cell, i),
        is_child_s(i, c),
        c < m,
        cell.key@ < d[c]->Some_0.key@,
        forall|s: int|
            is_child_s(i, s) && s < m && s != c ==> (#[trigger] d[s])->Some_0.key@
                <= d[c]->Some_0.key@,
    ensures
        down_inv_s(d.update(i, d[c]), m, cell, c),
{
    let d2 = d.update(i, d[c]);
    lemma_parent_child(c);
    assert forall|pp: int, cc: int|
        #![trigger d2[pp], d2[cc]]
        0 <= pp && is_child_s(pp, cc) && cc < m && cc != c && pp != c implies d2[cc]->Some_0.key@
        <= d2[pp]->Some_0.key@ by {
        if cc == i {
            // the filled hole received the child's value, bounded by the
            // hole's old parent
            if i >= 1 {
                lemma_parent_child(i);
            }
        } else if pp == i {
            // a sibling of the promoted child, bounded by it
            assert(d[cc]->Some_0.key@ <= d[c]->Some_0.key@);
        }
    }
    assert(d2[(c - 1) / 2]->Some_0.key@ >= cell.key@);
    assert forall|cc: int| is_child_s(c, cc) && cc < m implies (#[trigger] d2[cc])->Some_0.key@
        <= d2[(c - 1) / 2]->Some_0.key@ by {
        lemma_parent_child(cc);
        assert(d[cc]->Some_0.key@ <= d[c]->Some_0.key@);
    }
}

/// Placing the sifted cell into the hole completes a well-ordered heap.
proof fn lemma_down_exit<V>(d: Seq<Option<Cell<V>>>, m: int, cell: Cell<V>, i: int)
    requires
        down_inv_s(d, m, cell, i),
        !(2 * i + 1 < m && cell.key@ < d[2 * i + 1]->Some_0.key@),
        !(2 * i + 2 < m && cell.key@ < d[2 * i + 2]->Some_0.key@),
    ensures
        (forall|j: int| 0 <= j < m ==> (#[trigger] d.update(i, Some(cell))[j]) is Some),
        (forall|p: int, c: int|
            #![trigger d.update(i, Some(cell))[p], d.update(i, Some(cell))[c]]
            0 <= p && is_child_s(p, c) && c < m ==> d.update(i, Some(cell))[c]->Some_0.key@
                <= d.update(i, Some(cell))[p]->Some_0.key@),
{
    let d3 = d.update(i, Some(cell));
    assert forall|p: int, c: int|
        #![trigger d3[p], d3[c]]
        0 <= p && is_child_s(p, c) && c < m implies d3[c]->Some_0.key@ <= d3[p]->Some_0.key@ by {
        if c == i {
            lemma_parent_child(c);
        }
    }
}

impl<V: Copy> BinaryHeap<V> {
    /// An empty heap able to hold `capacity` cells.
    pub fn new(capacity: usize) -> (r: BinaryHeap<V>)
        ensures
            heap_wf(&r),
            r.length == 0usize,
            r.data@.len() == capacity,
    {
        let mut data: Vec<Option<Cell<V>>> = Vec::with_capacity(capacity);
        data.resize(capacity, None);
        BinaryHeap { data, length: 0 }
    }

    /// The cell at slot `i`, if that slot is filled.
    pub fn at(&self, i: usize) -> (r: Option<&Cell<V>>)
        requires
            i < self.data@.len(),
        ensures
            (match r {
                Option::Some(c) => self.data@[i as int] == Some(*c),
                Option::None => self.data@[i as int] is None,
            }),
    {
        self.data[i].as_ref()
    }

    /// Insert a cell, sifting it up to its place; the result is the slot
    /// where it came to rest, and the array is exactly the sift-up image.
    #[verifier::loop_isolation(false)]
    pub fn append(&mut self, key: Fx, value: V) -> (r: usize)
        requires
            heap_wf(old(self)),
            old(self).length < old(self).data@.len(),
        ensures
            heap_wf(final(self)),
            final(self).length == old(self).length + 1,
            final(self).data@.len() == old(self).data@.len(),
            r <= old(self).length,
            (final(self).data@, r as int) == sift_up_s(
                old(self).data@,
                Cell { key, value },
                old(self).length as int,
            ),
    {
        let ghost cellv = Cell::<V> { key, value };
        let ghost data0 = old(self).data@;
        let ghost len0 = old(self).length as int;
        let cap = self.data.len();
        let mut i = self.length;
        self.length = self.length + 1;
        let ghost m = self.length as int;
        while i > 0 && key.0 > self.parent(i).key.0
            invariant
                i <= len0,
                m == self.length as int,
                m == len0 + 1,
                self.data@.len() == data0.len(),
                up_inv_s(self.data@, m, cellv, i as int),
                forall|j: int|
                    m <= j < self.data@.len() ==> (#[trigger] self.data@[j]) is None,
                sift_up_s(self.data@, cellv, i as int) == sift_up_s(data0, cellv, len0),
            decreases i,
        {
            proof {
                lemma_parent_child(i as int);
                lemma_up_step(self.data@, m, cellv, i as int);
            }
            let p_i = parent_index(i);
            let moved = self.data[p_i];
            self.data.set(i, moved);
            i = p_i;
        }
        proof {
            if i >= 1 {
                lemma_parent_child(i as int);
            }
            lemma_up_exit(self.data@, m, cellv, i as int);
        }
        self.data.set(i, Some(Cell::new(key, value)));
        i
    }

    /// Remove and return the top pair, which carries a key no smaller than
    /// any other: the last cell is sifted down from the root to keep the
    /// heap shape.
    #[verifier::loop_isolation(false)]
    pub fn pop(&mut self) -> (r: (Fx, V))
        requires
            heap_wf(old(self)),
            old(self).length >= 1,
            old(self).data@.len() < usize::MAX / 2,
        ensures
            heap_wf(final(self)),
            final(self).length == old(self).length - 1,
            final(self).data@.len() == old(self).data@.len(),
            Some(Cell { key: r.0, value: r.1 }) == old(self).data@[0],
            forall|i: int|
                0 <= i < old(self).length ==> (#[trigger] old(self).data@[i])->Some_0.key@
                    <= r.0@,
            (old(self).length == 1 ==> final(self).data@ == old(self).data@.update(
                0,
                None::<Cell<V>>,
            )),
            (old(self).length > 1 ==> final(self).data@ == sift_down_s(
                old(self).data@.update(old(self).length - 1, None::<Cell<V>>),
                old(self).data@[old(self).length - 1]->Some_0,
                0,
                old(self).length - 1,
            ).0),
    {
        proof {
            lemma_heap_top(old(self));
        }
        if self.length == 1 {
            self.length = 0;
            let e = match self.data[0] {
                Some(c) => c,
                None => vstd::pervasive::unreached(),
            };
            self.data.set(0, None);
            return e.tuplify();
        }
        let popped = match self.data[0] {
            Some(c) => c,
            None => vstd::pervasive::unreached(),
        };

        let end = self.length - 1;
        let e = match self.data[end] {
            Some(c) => c,
            None => vstd::pervasive::unreached(),
        };
        self.data.set(end, None);
        self.length = self.length - 1;

        let ghost m = self.length as int;
        let ghost dstart = self.data@;
        let mut i: usize = 0;

        loop
            invariant
                m == self.length as int,
                m < self.data@.len(),
                self.data@.len() == old(self).data@.len(),
                down_inv_s(self.data@, m, e, i as int),
                forall|j: int|
                    m <= j < self.data@.len() ==> (#[trigger] self.data@[j]) is None,
                sift_down_s(self.data@, e, i as int, m) == sift_down_s(dstart, e, 0, m),
            decreases m - i,
        {
            let lci = left_child_index(i);
            let rci = right_child_index(i);
            let le = if lci < self.length {
                match self.data[lci] {
                    Some(c) => c.key.0,
                    None => vstd::pervasive::unreached(),
                }
            } else {
                0
            };
            let re = if rci < self.length {
                match self.data[rci] {
                    Some(c) => c.key.0,
                    None => vstd::pervasive::unreached(),
                }
            } else {
                0
            };
            let go = (lci < self.length && e.key.0 < le) || (rci < self.length && e.key.0 < re);
            if !go {
                break;
            }
            let promote_left = lci < self.length && e.key.0 < le && (rci >= self.length || le
                >= re);
            let c = if promote_left {
                lci
            } else {
                rci
            };
            proof {
                lemma_down_step(self.data@, m, e, i as int, c as int);
            }
            let moved = self.data[c];
            self.data.set(i, moved);
            i = c;
        }
        proof {
            lemma_down_exit(self.data@, m, e, i as int);
        }
        self.data.set(i, Some(e));
        popped.tuplify()
    }

    fn parent(&self, i: usize) -> (r: Cell<V>)
        requires
            i >= 1,
            (i - 1) as int / 2 < self.data@.len(),
            self.data@[(i - 1) as int / 2] is Some,
        ensures
            Some(r) == self.data@[(i - 1) as int / 2],
    {
        let p = parent_index(i);
        match self.data[p] {
            Some(c) => c,
            None => vstd::pervasive::unreached(),
        }
    }
}

/// In a well-formed heap every key is bounded by an ancestor chain ending
/// at the root.
proof fn lemma_heap_above<V>(h: &BinaryHeap<V>, i: int)
    requires
        heap_wf(h),
        0 <= i < h.length,
    ensures
        h.data@[i]->Some_0.key@ <= h.data@[0]->Some_0.key@,
    decreases i,
{
    if i >= 1 {
        lemma_parent_child(i);
        lemma_heap_above(h, (i - 1) / 2);
    }
}

/// The root of a well-formed heap carries a maximal key.
proof fn lemma_heap_top<V>(h: &BinaryHeap<V>)
    requires
        heap_wf(h),
    ensures
        forall|i: int|
            0 <= i < h.length ==> (#[trigger] h.data@[i])->Some_0.key@
                <= h.data@[0]->Some_0.key@,
{
    assert forall|i: int| 0 <= i < h.length implies (#[trigger] h.data@[i])->Some_0.key@
        <= h.data@[0]->Some_0.key@ by {
        lemma_heap_above(h, i);
    }
}

} // verus!
