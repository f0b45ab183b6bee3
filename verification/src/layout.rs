//! Where each tensor lies when all of them are kept in one flat buffer, one
//! after another. Parameters, their gradients and the optimizer's state are all
//! laid out alike, so that entry `i` of one belongs to entry `i` of the others.

use vstd::prelude::*;
use crate::shape::MatrixShape;

verus! {

/// The place of one tensor in the buffer: it starts at `offset` and takes as
/// many entries as its shape has.
#[derive(Debug, Clone, Copy, PartialEq, Eq, Structural)]
pub struct Slot {
    pub offset: usize,
    pub shape: MatrixShape,
}

impl Slot {
    /// The index just past the tensor's last entry.
    pub open spec fn end(&self) -> nat {
        self.offset as nat + self.shape.entries()
    }

    /// The first index of the tensor and the index just past its last, or
    /// nothing where the latter is more than the machine can index.
    pub fn span(&self) -> (r: Option<(usize, usize)>)
        ensures
            self.end() <= usize::MAX ==> r == Some((self.offset, self.end() as usize)),
            self.end() > usize::MAX ==> r is None,
    {
        let count: u128 = self.shape.element_count();
        if count > (usize::MAX - self.offset) as u128 {
            None
        } else {
            Some((self.offset, self.offset + count as usize))
        }
    }
}

/// Number of entries of all the shapes together.
pub open spec fn total_entries(shapes: Seq<MatrixShape>) -> nat
    decreases shapes.len(),
{
    if shapes.len() == 0 {
        0
    } else {
        total_entries(shapes.drop_last()) + shapes.last().entries()
    }
}

/// Whether the slots are the places of the shapes, in order and without gaps:
/// each holds its shape and starts where the shapes before it end.
pub open spec fn lays_out(slots: Seq<Slot>, shapes: Seq<MatrixShape>) -> bool {
    &&& slots.len() == shapes.len()
    &&& forall|i: int|
        0 <= i < slots.len() ==> (#[trigger] slots[i]).shape == shapes[i] && slots[i].offset
            == total_entries(shapes.take(i))
}

/// Gives each shape its place in a flat buffer, or nothing where the buffer
/// would have more entries than the machine can index.
pub fn lay_out(shapes: &Vec<MatrixShape>) -> (r: Option<Vec<Slot>>)
    ensures
        total_entries(shapes@) <= usize::MAX ==> (r matches Some(slots) && lays_out(
            slots@,
            shapes@,
        )),
        total_entries(shapes@) > usize::MAX ==> r is None,
{
    let mut slots: Vec<Slot> = Vec::new();
    let mut offset: usize = 0;
    let mut i: usize = 0;
    while i < shapes.len()
        invariant
            i <= shapes@.len(),
            slots@.len() == i,
            offset == total_entries(shapes@.take(i as int)),
            forall|j: int|
                0 <= j < i ==> (#[trigger] slots@[j]).shape == shapes@[j] && slots@[j].offset
                    == total_entries(shapes@.take(j)),
        decreases shapes@.len() - i,
    {
        let shape = shapes[i];
        let count: u128 = shape.element_count();
        proof {
            lemma_take_one_more(shapes@, i as int);
            lemma_prefix_is_no_larger(shapes@, i + 1);
        }
        if count > (usize::MAX - offset) as u128 {
            return None;
        }
        slots.push(Slot { offset, shape });
        offset = offset + count as usize;
        i = i + 1;
    }
    assert(shapes@.take(i as int) =~= shapes@);
    Some(slots)
}

/// A prefix that is one shape longer has that shape's entries more.
pub proof fn lemma_take_one_more(shapes: Seq<MatrixShape>, i: int)
    requires
        0 <= i < shapes.len(),
    ensures
        total_entries(shapes.take(i + 1)) == total_entries(shapes.take(i)) + shapes[i].entries(),
{
    assert(shapes.take(i + 1).drop_last() =~= shapes.take(i));
}

/// A prefix has no more entries than the whole.
pub proof fn lemma_prefix_is_no_larger(shapes: Seq<MatrixShape>, i: int)
    requires
        0 <= i <= shapes.len(),
    ensures
        total_entries(shapes.take(i)) <= total_entries(shapes),
    decreases shapes.len() - i,
{
    if i == shapes.len() {
        assert(shapes.take(i) =~= shapes);
    } else {
        lemma_take_one_more(shapes, i);
        lemma_prefix_is_no_larger(shapes, i + 1);
    }
}

/// A longer prefix has no fewer entries than a shorter one.
pub proof fn lemma_prefixes_grow(shapes: Seq<MatrixShape>, i: int, j: int)
    requires
        0 <= i <= j <= shapes.len(),
    ensures
        total_entries(shapes.take(i)) <= total_entries(shapes.take(j)),
{
    assert(shapes.take(j).take(i) =~= shapes.take(i));
    lemma_prefix_is_no_larger(shapes.take(j), i);
}

/// The entries of two lists of shapes, one after the other, add up.
pub proof fn lemma_total_of_concatenation(first: Seq<MatrixShape>, second: Seq<MatrixShape>)
    ensures
        total_entries(first + second) == total_entries(first) + total_entries(second),
    decreases second.len(),
{
    if second.len() == 0 {
    } else {
        assert((first + second).drop_last() =~= first + second.drop_last());
        lemma_total_of_concatenation(first, second.drop_last());
    }
}

/// No two tensors of a layout share an entry: an earlier one ends before or
/// where a later one starts.
pub proof fn law_slots_do_not_overlap(
    slots: Seq<Slot>,
    shapes: Seq<MatrixShape>,
    earlier: int,
    later: int,
)
    requires
        lays_out(slots, shapes),
        0 <= earlier < later < slots.len(),
    ensures
        slots[earlier].end() <= slots[later].offset,
{
    lemma_take_one_more(shapes, earlier);
    lemma_prefixes_grow(shapes, earlier + 1, later);
}

/// The tensors of a layout fill the buffer from its first entry to its last:
/// the first starts at zero, each starts where the one before it ends, and the
/// last ends at the total.
pub proof fn law_slots_fill_the_buffer(slots: Seq<Slot>, shapes: Seq<MatrixShape>, i: int)
    requires
        lays_out(slots, shapes),
        0 <= i < slots.len(),
    ensures
        i == 0 ==> slots[i].offset == 0,
        i + 1 < slots.len() ==> slots[i].end() == slots[i + 1].offset,
        i + 1 == slots.len() ==> slots[i].end() == total_entries(shapes),
{
    lemma_take_one_more(shapes, i);
    if i + 1 == slots.len() {
    }
    if i == 0 {
    }
}

} // verus!
