//! The flat index mapping: how a coordinate becomes an offset into the buffer.
//!
//! The first axis varies fastest. Walking the buffer from offset 0 upwards
//! therefore visits `(0, 0)`, `(1, 0)`, ... for two axes and `(0, 0, 0)`,
//! `(1, 0, 0)`, ... for three.

use vstd::prelude::*;

verus! {

/// Offset of `(x, y)` in a buffer whose rows hold `x_size` cells.
pub open spec fn flat_index2(x_size: int, x: int, y: int) -> int {
    y * x_size + x
}

/// Offset of `(x, y, z)` in a buffer whose rows hold `x_size` cells and whose
/// planes hold `y_size` rows.
pub open spec fn flat_index3(x_size: int, y_size: int, x: int, y: int, z: int) -> int {
    x + y * x_size + z * x_size * y_size
}

/// `(x, y)` lies inside the extents `(x_size, y_size)`.
pub open spec fn in_bounds2(x_size: int, y_size: int, x: int, y: int) -> bool {
    0 <= x < x_size && 0 <= y < y_size
}

/// `(x, y, z)` lies inside the extents `(x_size, y_size, z_size)`.
pub open spec fn in_bounds3(
    x_size: int,
    y_size: int,
    z_size: int,
    x: int,
    y: int,
    z: int,
) -> bool {
    0 <= x < x_size && 0 <= y < y_size && 0 <= z < z_size
}

/// Whether a two-axis array with these extents can be built: both are
/// positive and the number of cells fits `usize`.
pub fn extents_fit2(x_size: usize, y_size: usize) -> (fit: bool)
    ensures
        fit == (x_size > 0 && y_size > 0 && x_size * y_size <= usize::MAX),
{
    x_size > 0 && y_size > 0 && x_size.checked_mul(y_size).is_some()
}

/// Whether a three-axis array with these extents can be built: all are
/// positive and the number of cells fits `usize`.
pub fn extents_fit3(x_size: usize, y_size: usize, z_size: usize) -> (fit: bool)
    ensures
        fit == (x_size > 0 && y_size > 0 && z_size > 0 && x_size * y_size * z_size <= usize::MAX),
{
    if x_size == 0 || y_size == 0 || z_size == 0 {
        return false;
    }
    match x_size.checked_mul(y_size) {
        Some(plane) => plane.checked_mul(z_size).is_some(),
        None => {
            assert(x_size * y_size * z_size > usize::MAX) by (nonlinear_arith)
                requires
                    x_size * y_size > usize::MAX,
                    z_size > 0,
            ;
            false
        },
    }
}

/// An in-bounds coordinate maps to an offset inside the buffer.
pub proof fn lemma_flat_index2_in_range(x_size: int, y_size: int, x: int, y: int)
    requires
        in_bounds2(x_size, y_size, x, y),
    ensures
        0 <= y * x_size <= flat_index2(x_size, x, y) < x_size * y_size,
{
    assert(0 <= y * x_size && (y + 1) * x_size <= y_size * x_size && (y + 1) * x_size == y * x_size
        + x_size && y_size * x_size == x_size * y_size) by (nonlinear_arith)
        requires
            0 <= y,
            y + 1 <= y_size,
            0 < x_size,
    ;
}

/// Two in-bounds coordinates with the same offset are the same coordinate.
pub proof fn lemma_flat_index2_injective(x_size: int, x1: int, y1: int, x2: int, y2: int)
    requires
        0 <= x1 < x_size,
        0 <= x2 < x_size,
        flat_index2(x_size, x1, y1) == flat_index2(x_size, x2, y2),
    ensures
        x1 == x2,
        y1 == y2,
{
    assert(y1 == y2) by (nonlinear_arith)
        requires
            0 <= x1 < x_size,
            0 <= x2 < x_size,
            y1 * x_size + x1 == y2 * x_size + x2,
    ;
}

/// Every offset of the buffer belongs to exactly the coordinate
/// `(i % x_size, i / x_size)`: the first axis varies fastest.
pub proof fn lemma_flat_index2_inverse(x_size: int, y_size: int, i: int)
    requires
        0 < x_size,
        0 <= i < x_size * y_size,
    ensures
        in_bounds2(x_size, y_size, i % x_size, i / x_size),
        flat_index2(x_size, i % x_size, i / x_size) == i,
{
    assert(0 <= i % x_size < x_size && i == (i / x_size) * x_size + i % x_size && 0 <= i / x_size
        < y_size) by (nonlinear_arith)
        requires
            0 < x_size,
            0 <= i < x_size * y_size,
    ;
}

/// Stepping along the first axis moves one cell forward in the buffer, and the
/// first cell of a row follows the last cell of the row before it.
pub proof fn lemma_flat_index2_successor(x_size: int, x: int, y: int)
    ensures
        flat_index2(x_size, x + 1, y) == flat_index2(x_size, x, y) + 1,
        flat_index2(x_size, 0, y + 1) == flat_index2(x_size, x_size - 1, y) + 1,
{
    assert((y + 1) * x_size == y * x_size + x_size) by (nonlinear_arith);
}

/// A three-axis offset is a two-axis offset whose rows are numbered
/// `y + z * y_size`.
pub proof fn lemma_flat_index3_as_rows(x_size: int, y_size: int, x: int, y: int, z: int)
    ensures
        flat_index3(x_size, y_size, x, y, z) == flat_index2(x_size, x, y + z * y_size),
{
    assert(x + y * x_size + z * x_size * y_size == (y + z * y_size) * x_size + x)
        by (nonlinear_arith);
}

/// An in-bounds coordinate maps to an offset inside the buffer, and so do the
/// partial sums and products that lead to it.
pub proof fn lemma_flat_index3_in_range(
    x_size: int,
    y_size: int,
    z_size: int,
    x: int,
    y: int,
    z: int,
)
    requires
        in_bounds3(x_size, y_size, z_size, x, y, z),
    ensures
        0 <= y * x_size,
        0 <= z * x_size,
        0 <= z * x_size * y_size,
        x + y * x_size <= x_size * y_size,
        z * x_size <= z * x_size * y_size,
        0 <= flat_index3(x_size, y_size, x, y, z) < x_size * y_size * z_size,
{
    let row = y + z * y_size;
    lemma_flat_index3_as_rows(x_size, y_size, x, y, z);
    assert(0 <= row < y_size * z_size && 0 <= z * y_size) by (nonlinear_arith)
        requires
            0 <= y < y_size,
            0 <= z,
            z + 1 <= z_size,
            row == y + z * y_size,
    ;
    lemma_flat_index2_in_range(x_size, y_size * z_size, x, row);
    assert(x_size * (y_size * z_size) == x_size * y_size * z_size) by (nonlinear_arith);
    lemma_flat_index2_in_range(x_size, y_size, x, y);
    assert(0 <= z * x_size && z * x_size <= z * x_size * y_size && 0 <= z * x_size * y_size)
        by (nonlinear_arith)
        requires
            0 <= z,
            0 < x_size,
            0 < y_size,
    ;
}

/// Two in-bounds coordinates with the same offset are the same coordinate.
pub proof fn lemma_flat_index3_injective(
    x_size: int,
    y_size: int,
    x1: int,
    y1: int,
    z1: int,
    x2: int,
    y2: int,
    z2: int,
)
    requires
        0 <= x1 < x_size,
        0 <= x2 < x_size,
        0 <= y1 < y_size,
        0 <= y2 < y_size,
        flat_index3(x_size, y_size, x1, y1, z1) == flat_index3(x_size, y_size, x2, y2, z2),
    ensures
        x1 == x2,
        y1 == y2,
        z1 == z2,
{
    lemma_flat_index3_as_rows(x_size, y_size, x1, y1, z1);
    lemma_flat_index3_as_rows(x_size, y_size, x2, y2, z2);
    lemma_flat_index2_injective(x_size, x1, y1 + z1 * y_size, x2, y2 + z2 * y_size);
    lemma_flat_index2_injective(y_size, y1, z1, y2, z2);
}

/// Every offset of the buffer belongs to exactly the coordinate
/// `(i % x_size, (i / x_size) % y_size, (i / x_size) / y_size)`: the first
/// axis varies fastest, the third slowest.
pub proof fn lemma_flat_index3_inverse(x_size: int, y_size: int, z_size: int, i: int)
    requires
        0 < x_size,
        0 < y_size,
        0 <= i < x_size * y_size * z_size,
    ensures
        in_bounds3(
            x_size,
            y_size,
            z_size,
            i % x_size,
            (i / x_size) % y_size,
            (i / x_size) / y_size,
        ),
        flat_index3(x_size, y_size, i % x_size, (i / x_size) % y_size, (i / x_size) / y_size)
            == i,
{
    let row = i / x_size;
    assert(x_size * (y_size * z_size) == x_size * y_size * z_size) by (nonlinear_arith);
    lemma_flat_index2_inverse(x_size, y_size * z_size, i);
    lemma_flat_index2_inverse(y_size, z_size, row);
    lemma_flat_index3_as_rows(x_size, y_size, i % x_size, row % y_size, row / y_size);
}

/// Stepping along the first axis moves one cell forward in the buffer; the
/// first cell of a row follows the last cell of the row before it, and the
/// first cell of a plane follows the last cell of the plane before it.
pub proof fn lemma_flat_index3_successor(x_size: int, y_size: int, x: int, y: int, z: int)
    ensures
        flat_index3(x_size, y_size, x + 1, y, z) == flat_index3(x_size, y_size, x, y, z) + 1,
        flat_index3(x_size, y_size, 0, y + 1, z) == flat_index3(x_size, y_size, x_size - 1, y, z)
            + 1,
        flat_index3(x_size, y_size, 0, 0, z + 1) == flat_index3(
            x_size,
            y_size,
            x_size - 1,
            y_size - 1,
            z,
        ) + 1,
{
    assert((y + 1) * x_size == y * x_size + x_size) by (nonlinear_arith);
    assert((z + 1) * x_size * y_size == z * x_size * y_size + (y_size - 1) * x_size + x_size)
        by (nonlinear_arith);
}

} // verus!
