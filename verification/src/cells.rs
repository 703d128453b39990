//! Whole-buffer operations shared by the array types: building a buffer from
//! one value or from a generator, refilling it, and copying it cell by cell.
//!
//! Cells are produced by `Clone::clone`, so what a buffer holds afterwards is
//! stated with `cloned`. For an element type whose clones equal their source
//! this is plain equality; see [`lemma_filled_cells_equal`] and
//! [`lemma_copied_cells_equal`].

use vstd::prelude::*;
use std::slice::IterMut;
use vstd::std_specs::iter::IteratorSpec;

verus! {

/// `std::slice::IterMut`, the iterator that hands out each cell of a slice
/// for writing.
#[verifier::external_type_specification]
#[verifier::external_body]
#[verifier::reject_recursive_types(T)]
pub struct ExIterMut<'a, T: 'a>(std::slice::IterMut<'a, T>);

/// Every cell of `cells` is a clone of `value`.
pub open spec fn filled_with<T: Clone>(cells: Seq<T>, value: T) -> bool {
    forall|i: int| 0 <= i < cells.len() ==> cloned(value, #[trigger] cells[i])
}

/// Every cell of `cells` is a clone of one value that `T::default()` may
/// return.
pub open spec fn filled_with_default<T: Default + Clone>(cells: Seq<T>) -> bool {
    exists|value: T| #[trigger] call_ensures(T::default, (), value) && filled_with(cells, value)
}

/// `cells` has the length of `source`, and each cell is a clone of the cell of
/// `source` at the same offset.
pub open spec fn copied_from<T: Clone>(cells: Seq<T>, source: Seq<T>) -> bool {
    &&& cells.len() == source.len()
    &&& forall|i: int| 0 <= i < cells.len() ==> cloned(source[i], #[trigger] cells[i])
}

/// Every cell of `cells` is a value that one call of `generator` may return.
pub open spec fn generated_by<T, F: Fn() -> T>(cells: Seq<T>, generator: F) -> bool {
    forall|i: int| 0 <= i < cells.len() ==> call_ensures(generator, (), #[trigger] cells[i])
}

/// Cloning a `T` always gives a value equal to the one cloned.
pub open spec fn clone_is_exact<T: Clone>() -> bool {
    forall|a: T, b: T| #[trigger] cloned(a, b) ==> a == b
}

/// Where clones are exact, a buffer filled with `value` holds `value` in
/// every cell.
pub proof fn lemma_filled_cells_equal<T: Clone>(cells: Seq<T>, value: T)
    requires
        filled_with(cells, value),
        clone_is_exact::<T>(),
    ensures
        forall|i: int| 0 <= i < cells.len() ==> cells[i] == value,
        cells == Seq::new(cells.len(), |i: int| value),
{
    assert forall|i: int| 0 <= i < cells.len() implies cells[i] == value by {
        assert(cloned(value, cells[i]));
    }
}

/// Where clones are exact, a buffer copied from `source` equals `source`.
pub proof fn lemma_copied_cells_equal<T: Clone>(cells: Seq<T>, source: Seq<T>)
    requires
        copied_from(cells, source),
        clone_is_exact::<T>(),
    ensures
        cells == source,
{
    assert forall|i: int| 0 <= i < cells.len() implies cells[i] == source[i] by {
        assert(cloned(source[i], cells[i]));
    }
}

/// `Vec::into_boxed_slice`: the same cells in the same order, as a boxed
/// slice. Only spare capacity is given up.
#[verifier::external_body]
pub(crate) fn into_boxed<T>(cells: Vec<T>) -> (boxed: Box<[T]>)
    ensures
        boxed@ == cells@,
{
    cells.into_boxed_slice()
}

/// The items of a mutable walk over `cells`: one reference per cell, in
/// buffer order, each pointing at the value its cell holds.
pub open spec fn hands_out<T>(items: Seq<&mut T>, cells: Seq<T>) -> bool {
    &&& items.len() == cells.len()
    &&& forall|i: int| 0 <= i < cells.len() ==> *(#[trigger] items[i]) == cells[i]
}

/// `<[T]>::iter_mut`: the iterator yields every cell from the first to the
/// last, each as a reference through which that cell can be replaced. What
/// is written through the reference at position `i` is what the slice holds
/// at offset `i` afterwards; no cell is added or removed.
#[verifier::external_body]
pub(crate) fn slice_iter_mut<'a, T>(cells: &'a mut [T]) -> (iter: IterMut<'a, T>)
    ensures
        hands_out(iter.remaining(), old(cells)@),
        final(cells)@.len() == old(cells)@.len(),
        forall|i: int|
            0 <= i < old(cells)@.len() ==> #[trigger] final(cells)@[i]
                == *final(iter.remaining()[i]),
{
    cells.iter_mut()
}

/// A buffer of `len` cells, each a clone of `value`.
pub(crate) fn filled_buffer<T: Clone>(len: usize, value: T) -> (boxed: Box<[T]>)
    ensures
        boxed@.len() == len,
        filled_with(boxed@, value),
{
    into_boxed(vec![value; len])
}

/// A buffer of `len` cells, each returned by one call of `generator`. The
/// cell at offset 0 is generated first.
pub(crate) fn generated_buffer<T, F: Fn() -> T>(len: usize, generator: &F) -> (boxed: Box<[T]>)
    requires
        call_requires(*generator, ()),
    ensures
        boxed@.len() == len,
        generated_by(boxed@, *generator),
{
    let mut cells: Vec<T> = Vec::new();
    let mut i: usize = 0;
    while i < len
        invariant
            i <= len,
            cells@.len() == i,
            call_requires(*generator, ()),
            generated_by(cells@, *generator),
        decreases len - i,
    {
        let cell = generator();
        cells.push(cell);
        i += 1;
    }
    into_boxed(cells)
}

/// A fresh buffer whose cells are clones of the cells of `source`.
pub(crate) fn cloned_buffer<T: Clone>(source: &[T]) -> (boxed: Box<[T]>)
    ensures
        copied_from(boxed@, source@),
{
    let mut cells: Vec<T> = Vec::new();
    let mut i: usize = 0;
    while i < source.len()
        invariant
            i <= source@.len(),
            cells@.len() == i,
            forall|j: int| 0 <= j < i ==> cloned(source@[j], #[trigger] cells@[j]),
        decreases source@.len() - i,
    {
        let cell = source[i].clone();
        cells.push(cell);
        i += 1;
    }
    into_boxed(cells)
}

/// Overwrites every cell of `cells` with a clone of `value`.
pub(crate) fn fill_cells<T: Clone>(cells: &mut [T], value: T)
    ensures
        final(cells)@.len() == old(cells)@.len(),
        filled_with(final(cells)@, value),
{
    let mut i: usize = 0;
    while i < cells.len()
        invariant
            i <= cells@.len(),
            cells@.len() == old(cells)@.len(),
            forall|j: int| 0 <= j < i ==> cloned(value, #[trigger] cells@[j]),
        decreases cells@.len() - i,
    {
        let cell = value.clone();
        cells[i] = cell;
        i += 1;
    }
}

/// Overwrites every cell of `cells` with a clone of the cell of `source` at
/// the same offset.
pub(crate) fn copy_cells<T: Clone>(cells: &mut [T], source: &[T])
    requires
        old(cells)@.len() == source@.len(),
    ensures
        copied_from(final(cells)@, source@),
{
    let mut i: usize = 0;
    while i < cells.len()
        invariant
            i <= cells@.len(),
            cells@.len() == source@.len(),
            forall|j: int| 0 <= j < i ==> cloned(source@[j], #[trigger] cells@[j]),
        decreases cells@.len() - i,
    {
        let cell = source[i].clone();
        cells[i] = cell;
        i += 1;
    }
}

} // verus!
