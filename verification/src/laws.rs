//! What holds of the arrays as a whole, stated over their views and proved
//! from the contracts of the operations.

use vstd::prelude::*;
use crate::array2d::DArray2D;
use crate::array3d::volume;
use crate::array3d::Array3D;
use crate::array3d::Dim3;
use crate::cells::clone_is_exact;
use crate::cells::copied_from;
use crate::cells::filled_with;
use crate::layout::lemma_flat_index2_in_range;
use crate::layout::lemma_flat_index2_injective;
use crate::layout::lemma_flat_index2_inverse;
use crate::layout::lemma_flat_index3_in_range;
use crate::layout::lemma_flat_index3_injective;
use crate::layout::lemma_flat_index3_inverse;

verus! {

/// A freshly filled array holds the fill value at every coordinate, for
/// every element type whose clones equal their source.
pub proof fn lemma_filled_reads_value_2d<T: Clone>(array: DArray2D<T>, value: T, x: int, y: int)
    requires
        array.wf(),
        filled_with(array@, value),
        clone_is_exact::<T>(),
        array.has_cell(x, y),
    ensures
        array.at(x, y) == value,
{
    lemma_flat_index2_in_range(array.x_size as int, array.y_size as int, x, y);
    assert(cloned(value, array@[array.offset_of(x, y)]));
}

/// A freshly filled array holds the fill value at every coordinate, for
/// every element type whose clones equal their source.
pub proof fn lemma_filled_reads_value_3d<T: Clone, D: Dim3>(
    array: Array3D<T, D>,
    value: T,
    x: int,
    y: int,
    z: int,
)
    requires
        array.wf(),
        filled_with(array@, value),
        clone_is_exact::<T>(),
        array.has_cell(x, y, z),
    ensures
        array.at(x, y, z) == value,
{
    lemma_flat_index3_in_range(
        array.dims.extent_x() as int,
        array.dims.extent_y() as int,
        array.dims.extent_z() as int,
        x,
        y,
        z,
    );
    assert(cloned(value, array@[array.offset_of(x, y, z)]));
}

/// After `value` is stored at `(x, y)`, reading `(x, y)` gives `value` and
/// reading any other coordinate gives what it gave before.
pub proof fn lemma_set_then_get_2d<T>(
    before: DArray2D<T>,
    after: DArray2D<T>,
    x: int,
    y: int,
    value: T,
    x2: int,
    y2: int,
)
    requires
        before.wf(),
        before.has_cell(x, y),
        before.has_cell(x2, y2),
        after.same_extents(&before),
        after@ == before@.update(before.offset_of(x, y), value),
    ensures
        after.wf(),
        after.at(x, y) == value,
        (x2 != x || y2 != y) ==> after.at(x2, y2) == before.at(x2, y2),
{
    lemma_flat_index2_in_range(before.x_size as int, before.y_size as int, x, y);
    lemma_flat_index2_in_range(before.x_size as int, before.y_size as int, x2, y2);
    if before.offset_of(x2, y2) == before.offset_of(x, y) {
        lemma_flat_index2_injective(before.x_size as int, x2, y2, x, y);
    }
}

/// After `value` is stored at `(x, y, z)`, reading `(x, y, z)` gives `value`
/// and reading any other coordinate gives what it gave before.
pub proof fn lemma_set_then_get_3d<T, D: Dim3>(
    before: Array3D<T, D>,
    after: Array3D<T, D>,
    x: int,
    y: int,
    z: int,
    value: T,
    x2: int,
    y2: int,
    z2: int,
)
    requires
        before.wf(),
        before.has_cell(x, y, z),
        before.has_cell(x2, y2, z2),
        after.dims == before.dims,
        after@ == before@.update(before.offset_of(x, y, z), value),
    ensures
        after.wf(),
        after.at(x, y, z) == value,
        (x2 != x || y2 != y || z2 != z) ==> after.at(x2, y2, z2) == before.at(x2, y2, z2),
{
    let (xs, ys, zs) = (
        before.dims.extent_x() as int,
        before.dims.extent_y() as int,
        before.dims.extent_z() as int,
    );
    lemma_flat_index3_in_range(xs, ys, zs, x, y, z);
    lemma_flat_index3_in_range(xs, ys, zs, x2, y2, z2);
    if before.offset_of(x2, y2, z2) == before.offset_of(x, y, z) {
        lemma_flat_index3_injective(xs, ys, x2, y2, z2, x, y, z);
    }
}

/// The buffer of a well-formed array holds exactly as many cells as the
/// product of its extents, which is what `total_len` returns.
pub proof fn lemma_length_is_volume<T, D: Dim3>(array: Array3D<T, D>)
    requires
        array.wf(),
    ensures
        array@.len() == array.dims.extent_x() * array.dims.extent_y() * array.dims.extent_z(),
        array.dims.extent_x() * array.dims.extent_y() <= usize::MAX,
        volume(array.dims) <= usize::MAX,
{
    crate::array3d::lemma_volume_bounds_base(array.dims);
}

/// Walking the buffer in order visits the coordinates with the first axis
/// varying fastest: the cell at offset `k` is the cell at
/// `(k % x_size, k / x_size)`.
pub proof fn lemma_linear_order_2d<T>(array: DArray2D<T>, k: int)
    requires
        array.wf(),
        0 <= k < array@.len(),
    ensures
        array.has_cell(k % (array.x_size as int), k / (array.x_size as int)),
        array@[k] == array.at(k % (array.x_size as int), k / (array.x_size as int)),
{
    lemma_flat_index2_inverse(array.x_size as int, array.y_size as int, k);
}

/// Walking the buffer in order visits the coordinates with the first axis
/// varying fastest and the third slowest: the cell at offset `k` is the cell
/// at `(k % x_size, (k / x_size) % y_size, (k / x_size) / y_size)`.
pub proof fn lemma_linear_order_3d<T, D: Dim3>(array: Array3D<T, D>, k: int)
    requires
        array.wf(),
        0 <= k < array@.len(),
    ensures
        array.has_cell(
            k % (array.dims.extent_x() as int),
            (k / (array.dims.extent_x() as int)) % (array.dims.extent_y() as int),
            (k / (array.dims.extent_x() as int)) / (array.dims.extent_y() as int),
        ),
        array@[k] == array.at(
            k % (array.dims.extent_x() as int),
            (k / (array.dims.extent_x() as int)) % (array.dims.extent_y() as int),
            (k / (array.dims.extent_x() as int)) / (array.dims.extent_y() as int),
        ),
{
    lemma_flat_index3_inverse(
        array.dims.extent_x() as int,
        array.dims.extent_y() as int,
        array.dims.extent_z() as int,
        k,
    );
}

/// After a copy between arrays of the same extents, both read the same at
/// every coordinate, for every element type whose clones equal their source.
pub proof fn lemma_copy_reads_equal_2d<T: Clone>(
    target: DArray2D<T>,
    source: DArray2D<T>,
    x: int,
    y: int,
)
    requires
        source.wf(),
        target.same_extents(&source),
        copied_from(target@, source@),
        clone_is_exact::<T>(),
        source.has_cell(x, y),
    ensures
        target@ == source@,
        target.at(x, y) == source.at(x, y),
{
    crate::cells::lemma_copied_cells_equal(target@, source@);
}

/// After a copy between arrays of the same extents, both read the same at
/// every coordinate, for every element type whose clones equal their source.
pub proof fn lemma_copy_reads_equal_3d<T: Clone, D: Dim3>(
    target: Array3D<T, D>,
    source: Array3D<T, D>,
    x: int,
    y: int,
    z: int,
)
    requires
        source.wf(),
        target.same_extents(&source),
        copied_from(target@, source@),
        clone_is_exact::<T>(),
        source.has_cell(x, y, z),
    ensures
        target@ == source@,
        target.at(x, y, z) == source.at(x, y, z),
{
    crate::cells::lemma_copied_cells_equal(target@, source@);
}

} // verus!
