//! A three-axis array over one contiguous buffer, generic in where its
//! extents come from: stored in the array, or fixed by its type.
//!
//! The cell `(x, y, z)` lives at offset `x + y * x_size + z * x_size * y_size`.
//! Every array has positive extents, whichever way they are supplied.
//!
//! Lengths and offsets are products of extents. A caller that knows the
//! extents as numbers hands them to [`lemma_volume_of_extents`] and
//! [`Array3D::lemma_known_extents`], which restate both over those numbers.

use vstd::prelude::*;
use vek::Vec2;
use vek::Vec3;
use vek::Vec4;
use std::fmt::Debug;
use std::ops::Index;
use std::ops::IndexMut;
use std::slice::Iter;
use std::slice::IterMut;
use vstd::std_specs::iter::IteratorSpec;
use crate::cells::copied_from;
use crate::cells::copy_cells;
use crate::cells::fill_cells;
use crate::cells::filled_buffer;
use crate::cells::filled_with;
use crate::cells::filled_with_default;
use crate::cells::generated_buffer;
use crate::cells::generated_by;
use crate::cells::hands_out;
use crate::cells::slice_iter_mut;
use crate::layout::extents_fit3;
use crate::layout::flat_index3;
use crate::layout::in_bounds3;
use crate::layout::lemma_flat_index3_in_range;
use crate::layout::lemma_flat_index3_injective;
use crate::render::debug_texts;
use crate::render::grid3_text;
use crate::render::render_grid3;
use crate::render::texts;

verus! {

/// A supplier of the three extents of an array.
pub trait Dim3: Copy + Clone + Default {
    /// The extent along the first axis.
    spec fn extent_x(&self) -> usize;

    /// The extent along the second axis.
    spec fn extent_y(&self) -> usize;

    /// The extent along the third axis.
    spec fn extent_z(&self) -> usize;

    /// Size along X axis.
    fn x(&self) -> (extent: usize)
        ensures
            extent == self.extent_x(),
    ;

    /// Size along Y axis.
    fn y(&self) -> (extent: usize)
        ensures
            extent == self.extent_y(),
    ;

    /// Size along Z axis.
    fn z(&self) -> (extent: usize)
        ensures
            extent == self.extent_z(),
    ;

    /// The extents along the first and second axis.
    fn xy(&self) -> (extents: Vec2<usize>)
        ensures
            extents.x == self.extent_x(),
            extents.y == self.extent_y(),
    {
        Vec2 { x: self.x(), y: self.y() }
    }

    /// All three extents.
    fn xyz(&self) -> (extents: Vec3<usize>)
        ensures
            extents.x == self.extent_x(),
            extents.y == self.extent_y(),
            extents.z == self.extent_z(),
    {
        Vec3 { x: self.x(), y: self.y(), z: self.z() }
    }

    /// The extents along the second and third axis.
    fn yz(&self) -> (extents: Vec2<usize>)
        ensures
            extents.x == self.extent_y(),
            extents.y == self.extent_z(),
    {
        Vec2 { x: self.y(), y: self.z() }
    }

    /// Total number of elements (x * y * z).
    fn total_len(&self) -> (len: usize)
        requires
            self.extent_x() * self.extent_y() <= usize::MAX,
            self.extent_x() * self.extent_y() * self.extent_z() <= usize::MAX,
        ensures
            len == self.extent_x() * self.extent_y() * self.extent_z(),
    {
        self.x() * self.y() * self.z()
    }
}

/// The number of coordinates inside the extents of `dims`.
pub open spec fn volume<D: Dim3>(dims: D) -> int {
    dims.extent_x() * dims.extent_y() * dims.extent_z()
}

/// All three extents of `dims` are positive.
pub open spec fn positive<D: Dim3>(dims: D) -> bool {
    dims.extent_x() > 0 && dims.extent_y() > 0 && dims.extent_z() > 0
}

/// For a caller that knows the extents of `dims` as numbers: the volume and
/// the size of one plane, restated over those numbers.
pub proof fn lemma_volume_of_extents<D: Dim3>(dims: D, x_size: int, y_size: int, z_size: int)
    requires
        dims.extent_x() == x_size,
        dims.extent_y() == y_size,
        dims.extent_z() == z_size,
    ensures
        dims.extent_x() * dims.extent_y() == x_size * y_size,
        volume(dims) == x_size * y_size * z_size,
{
}

/// With positive extents, a volume that fits `usize` has a base that fits.
pub proof fn lemma_volume_bounds_base<D: Dim3>(dims: D)
    requires
        positive(dims),
    ensures
        0 < dims.extent_x() * dims.extent_y() <= volume(dims),
{
    let (x, y, z) = (dims.extent_x() as int, dims.extent_y() as int, dims.extent_z() as int);
    assert(0 < x * y <= x * y * z) by (nonlinear_arith)
        requires
            0 < x,
            0 < y,
            0 < z,
    ;
}

/// Runtime dimensions for non-const sizes.
pub type RuntimeDims = vek::Vec3<usize>;

impl Dim3 for RuntimeDims {
    open spec fn extent_x(&self) -> usize {
        self.x
    }

    open spec fn extent_y(&self) -> usize {
        self.y
    }

    open spec fn extent_z(&self) -> usize {
        self.z
    }

    fn x(&self) -> usize {
        self.x
    }

    fn y(&self) -> usize {
        self.y
    }

    fn z(&self) -> usize {
        self.z
    }
}

/// Compile-time dimensions using const generics.
#[derive(Clone, Copy, Debug, Default)]
pub struct ConstDims<const X: usize, const Y: usize, const Z: usize>;

impl<const X: usize, const Y: usize, const Z: usize> Dim3 for ConstDims<X, Y, Z> {
    open spec fn extent_x(&self) -> usize {
        X
    }

    open spec fn extent_y(&self) -> usize {
        Y
    }

    open spec fn extent_z(&self) -> usize {
        Z
    }

    fn x(&self) -> usize {
        X
    }

    fn y(&self) -> usize {
        Y
    }

    fn z(&self) -> usize {
        Z
    }
}

/// Generic 3D array, parameterized by a [`Dim3`].
pub struct Array3D<T, D: Dim3> {
    pub data: Box<[T]>,
    pub dims: D,
}

/// An array is viewed as its cells in buffer order.
impl<T, D: Dim3> View for Array3D<T, D> {
    type V = Seq<T>;

    open spec fn view(&self) -> Seq<T> {
        self.data@
    }
}

impl<T, D: Dim3> Array3D<T, D> {
    /// All extents are positive and the buffer holds one cell per coordinate.
    pub open spec fn wf(&self) -> bool {
        &&& positive(self.dims)
        &&& volume(self.dims) <= usize::MAX
        &&& self@.len() == volume(self.dims)
    }

    /// `(x, y, z)` is a coordinate of this array.
    pub open spec fn has_cell(&self, x: int, y: int, z: int) -> bool {
        in_bounds3(
            self.dims.extent_x() as int,
            self.dims.extent_y() as int,
            self.dims.extent_z() as int,
            x,
            y,
            z,
        )
    }

    /// The offset of `(x, y, z)` in the buffer.
    pub open spec fn offset_of(&self, x: int, y: int, z: int) -> int {
        flat_index3(self.dims.extent_x() as int, self.dims.extent_y() as int, x, y, z)
    }

    /// The cell at `(x, y, z)`.
    pub open spec fn at(&self, x: int, y: int, z: int) -> T {
        self@[self.offset_of(x, y, z)]
    }

    /// `other` has the extents of `self`.
    pub open spec fn same_extents(&self, other: &Array3D<T, D>) -> bool {
        &&& self.dims.extent_x() == other.dims.extent_x()
        &&& self.dims.extent_y() == other.dims.extent_y()
        &&& self.dims.extent_z() == other.dims.extent_z()
    }

    /// For a caller that knows the extents as numbers: the volume and the
    /// offset of every coordinate, restated over those numbers.
    pub proof fn lemma_known_extents(&self, x_size: int, y_size: int, z_size: int)
        requires
            self.dims.extent_x() == x_size,
            self.dims.extent_y() == y_size,
            self.dims.extent_z() == z_size,
        ensures
            volume(self.dims) == x_size * y_size * z_size,
            forall|x: int, y: int, z: int| #[trigger]
                self.offset_of(x, y, z) == x + y * x_size + z * (x_size * y_size),
    {
        assert forall|x: int, y: int, z: int| #[trigger]
            self.offset_of(x, y, z) == x + y * x_size + z * (x_size * y_size) by {
            assert(z * x_size * y_size == z * (x_size * y_size)) by (nonlinear_arith);
        }
    }

    /// Puts extents and a buffer of matching length together.
    fn from_boxed(dims: D, data: Box<[T]>) -> (array: Self)
        requires
            positive(dims),
            volume(dims) <= usize::MAX,
            data@.len() == volume(dims),
        ensures
            array.wf(),
            array.dims == dims,
            array.data == data,
    {
        Self { dims, data }
    }

    /// Computes flat index for (x, y, z).
    pub fn index_internal(&self, x: usize, y: usize, z: usize) -> (offset: usize)
        requires
            self.wf(),
            self.has_cell(x as int, y as int, z as int),
        ensures
            offset == self.offset_of(x as int, y as int, z as int),
            offset < self@.len(),
    {
        proof {
            lemma_flat_index3_in_range(
                self.dims.extent_x() as int,
                self.dims.extent_y() as int,
                self.dims.extent_z() as int,
                x as int,
                y as int,
                z as int,
            );
            lemma_volume_bounds_base(self.dims);
        }
        x + y * self.dims.x() + z * self.dims.x() * self.dims.y()
    }

    /// Whether the extents are positive and the buffer holds one cell per
    /// coordinate. Every array built by this module is well-formed; the test
    /// is for arrays put together field by field.
    pub fn is_well_formed(&self) -> (ok: bool)
        ensures
            ok == self.wf(),
    {
        if extents_fit3(self.dims.x(), self.dims.y(), self.dims.z()) {
            proof {
                lemma_volume_bounds_base(self.dims);
            }
            self.data.len() == self.dims.total_len()
        } else {
            false
        }
    }

    /// Whether `(x, y, z)` is a coordinate of this array.
    pub fn in_bounds(&self, x: usize, y: usize, z: usize) -> (inside: bool)
        ensures
            inside == self.has_cell(x as int, y as int, z as int),
    {
        x < self.dims.x() && y < self.dims.y() && z < self.dims.z()
    }

    /// Returns the dimensions as a vector.
    pub fn dimensions(&self) -> (extents: Vec3<usize>)
        ensures
            extents.x == self.dims.extent_x(),
            extents.y == self.dims.extent_y(),
            extents.z == self.dims.extent_z(),
    {
        self.dims.xyz()
    }

    /// Shared reference at (x, y, z).
    pub fn get(&self, x: usize, y: usize, z: usize) -> (cell: &T)
        requires
            self.wf(),
            self.has_cell(x as int, y as int, z as int),
        ensures
            *cell == self.at(x as int, y as int, z as int),
    {
        &self.data[self.index_internal(x, y, z)]
    }

    /// Mutable reference at (x, y, z). When the borrow ends the array holds
    /// what was written there; every other cell keeps its value.
    pub fn get_mut(&mut self, x: usize, y: usize, z: usize) -> (cell: &mut T)
        requires
            old(self).wf(),
            old(self).has_cell(x as int, y as int, z as int),
        ensures
            *cell == old(self).at(x as int, y as int, z as int),
            final(self)@ == old(self)@.update(
                old(self).offset_of(x as int, y as int, z as int),
                *final(cell),
            ),
            final(self).dims == old(self).dims,
            final(self).wf(),
    {
        let idx = self.index_internal(x, y, z);
        &mut self.data[idx]
    }

    /// Sets value at (x, y, z). Every other cell keeps its value.
    pub fn set(&mut self, x: usize, y: usize, z: usize, value: T)
        requires
            old(self).wf(),
            old(self).has_cell(x as int, y as int, z as int),
        ensures
            final(self).wf(),
            final(self).dims == old(self).dims,
            final(self)@ == old(self)@.update(
                old(self).offset_of(x as int, y as int, z as int),
                value,
            ),
            final(self).at(x as int, y as int, z as int) == value,
            forall|x2: int, y2: int, z2: int|
                old(self).has_cell(x2, y2, z2) && (x2 != x || y2 != y || z2 != z)
                    ==> #[trigger] final(self).at(x2, y2, z2) == old(self).at(x2, y2, z2),
    {
        let idx = self.index_internal(x, y, z);
        self.data[idx] = value;
        proof {
            let (xs, ys, zs) = (
                self.dims.extent_x() as int,
                self.dims.extent_y() as int,
                self.dims.extent_z() as int,
            );
            assert forall|x2: int, y2: int, z2: int|
                old(self).has_cell(x2, y2, z2) && (x2 != x || y2 != y || z2 != z)
                    implies #[trigger] self.at(x2, y2, z2) == old(self).at(x2, y2, z2) by {
                lemma_flat_index3_in_range(xs, ys, zs, x2, y2, z2);
                if flat_index3(xs, ys, x2, y2, z2) == idx as int {
                    lemma_flat_index3_injective(
                        xs,
                        ys,
                        x2,
                        y2,
                        z2,
                        x as int,
                        y as int,
                        z as int,
                    );
                }
            }
        }
    }

    /// Immutable iterator over all elements, in buffer order.
    pub fn iter(&self) -> (cells: Iter<'_, T>)
        ensures
            cells.remaining() == self@.as_ref(),
            IteratorSpec::decrease(&cells) is Some,
            IteratorSpec::initial_value_relation(&cells, &cells),
    {
        self.data.iter()
    }

    /// Mutable iterator over all elements, in buffer order. What is written
    /// through the item at position `i` is what the cell at offset `i` holds
    /// afterwards. The extents and the number of cells stay as they are,
    /// whatever is written.
    pub fn iter_mut(&mut self) -> (cells: IterMut<'_, T>)
        ensures
            hands_out(cells.remaining(), old(self)@),
            final(self)@.len() == old(self)@.len(),
            forall|i: int|
                0 <= i < old(self)@.len() ==> #[trigger] final(self)@[i]
                    == *final(cells.remaining()[i]),
            final(self).dims == old(self).dims,
            old(self).wf() ==> final(self).wf(),
    {
        slice_iter_mut(&mut self.data)
    }

    /// Shared reference at (x, y, z), for callers that have established the
    /// bounds themselves.
    pub fn get_unchecked(&self, x: usize, y: usize, z: usize) -> (cell: &T)
        requires
            self.wf(),
            self.has_cell(x as int, y as int, z as int),
        ensures
            *cell == self.at(x as int, y as int, z as int),
    {
        &self.data[self.index_internal(x, y, z)]
    }

    /// Mutable reference at (x, y, z), for callers that have established the
    /// bounds themselves.
    pub fn get_unchecked_mut(&mut self, x: usize, y: usize, z: usize) -> (cell: &mut T)
        requires
            old(self).wf(),
            old(self).has_cell(x as int, y as int, z as int),
        ensures
            *cell == old(self).at(x as int, y as int, z as int),
            final(self)@ == old(self)@.update(
                old(self).offset_of(x as int, y as int, z as int),
                *final(cell),
            ),
            final(self).dims == old(self).dims,
            final(self).wf(),
    {
        let idx = self.index_internal(x, y, z);
        &mut self.data[idx]
    }

    /// Sets value at (x, y, z), for callers that have established the bounds
    /// themselves.
    pub fn set_unchecked(&mut self, x: usize, y: usize, z: usize, value: T)
        requires
            old(self).wf(),
            old(self).has_cell(x as int, y as int, z as int),
        ensures
            final(self).wf(),
            final(self).dims == old(self).dims,
            final(self)@ == old(self)@.update(
                old(self).offset_of(x as int, y as int, z as int),
                value,
            ),
    {
        let idx = self.index_internal(x, y, z);
        self.data[idx] = value;
    }
}

impl<T: Clone, D: Dim3> Array3D<T, D> {
    /// Creates a new array with all elements cloned from `value`.
    pub fn new_filled(dims: D, value: T) -> (array: Self)
        requires
            positive(dims),
            volume(dims) <= usize::MAX,
        ensures
            array.wf(),
            array.dims == dims,
            filled_with(array@, value),
    {
        proof {
            lemma_volume_bounds_base(dims);
        }
        let len = dims.total_len();
        let data = filled_buffer(len, value);
        Self::from_boxed(dims, data)
    }

    /// Fills every element with a clone of `value`.
    pub fn fill(&mut self, value: T)
        ensures
            final(self).dims == old(self).dims,
            final(self)@.len() == old(self)@.len(),
            filled_with(final(self)@, value),
            old(self).wf() ==> final(self).wf(),
    {
        fill_cells(&mut self.data, value);
    }

    /// Copies data from another array of same dims.
    pub fn copy_data_from(&mut self, other: &Self)
        requires
            old(self).wf(),
            other.wf(),
            old(self).same_extents(other),
        ensures
            final(self).wf(),
            final(self).dims == old(self).dims,
            copied_from(final(self)@, other@),
    {
        copy_cells(&mut self.data, &other.data);
    }

    /// Returns a cloned copy of the element at (x, y, z).
    pub fn get_cloned(&self, x: usize, y: usize, z: usize) -> (cell: T)
        requires
            self.wf(),
            self.has_cell(x as int, y as int, z as int),
        ensures
            cloned(self.at(x as int, y as int, z as int), cell),
    {
        self.get(x, y, z).clone()
    }
}

impl<T: Debug, D: Dim3> Array3D<T, D> {
    /// The array as text: a heading with the extents, then one line per row
    /// of each plane, each cell shown by its `Debug` text and followed by a
    /// space.
    pub fn debug_string(&self) -> (out: String)
        requires
            self.wf(),
        ensures
            exists|cells: Seq<Seq<char>>|
                cells.len() == self@.len() && out@ == #[trigger] grid3_text(
                    self.dims.extent_x() as nat,
                    self.dims.extent_y() as nat,
                    self.dims.extent_z() as nat,
                    cells,
                ),
    {
        let dims = self.dimensions();
        proof {
            let (x, y, z) = (dims.x as int, dims.y as int, dims.z as int);
            assert(0 <= y * z <= x * y * z && x * (y * z) == x * y * z) by (nonlinear_arith)
                requires
                    0 < x,
                    0 < y,
                    0 < z,
            ;
        }
        let shown = debug_texts(&self.data);
        let out = render_grid3(dims.x, dims.y, dims.z, &shown);
        assert(texts(shown@).len() == self@.len());
        out
    }
}

impl<T: Clone + Default, D: Dim3> Array3D<T, D> {
    /// Creates array filled with `T::default()`.
    pub fn new_default(dims: D) -> (array: Self)
        requires
            positive(dims),
            volume(dims) <= usize::MAX,
        ensures
            array.wf(),
            array.dims == dims,
            filled_with_default(array@),
    {
        let value = T::default();
        assert(call_ensures(T::default, (), value));
        proof {
            lemma_volume_bounds_base(dims);
        }
        Self::new_filled(dims, value)
    }
}

impl<T, D: Dim3> Array3D<T, D> {
    /// Creates array via a generator function, called once per cell,
    /// starting with the cell at offset 0.
    pub fn from_fn<F: Fn() -> T>(dims: D, generator: F) -> (array: Self)
        requires
            positive(dims),
            volume(dims) <= usize::MAX,
            call_requires(generator, ()),
        ensures
            array.wf(),
            array.dims == dims,
            generated_by(array@, generator),
    {
        proof {
            lemma_volume_bounds_base(dims);
        }
        let len = dims.total_len();
        let data = generated_buffer(len, &generator);
        Self::from_boxed(dims, data)
    }
}

/// A value that names a position along three axes.
///
/// The conversion keeps the value of every component that is a value of
/// `usize`. A negative component has no such value: what it converts to is
/// left open, and no accessor takes a position with one.
pub trait ToUsize3 {
    /// The three components, as they stand in the value.
    spec fn coords(&self) -> (int, int, int);

    /// The three components as `usize`.
    fn to_usize3(&self) -> (position: (usize, usize, usize))
        ensures
            0 <= self.coords().0 <= usize::MAX ==> position.0 == self.coords().0,
            0 <= self.coords().1 <= usize::MAX ==> position.1 == self.coords().1,
            0 <= self.coords().2 <= usize::MAX ==> position.2 == self.coords().2,
    ;
}

impl ToUsize3 for (i8, i8, i8) {
    open spec fn coords(&self) -> (int, int, int) {
        (self.0 as int, self.1 as int, self.2 as int)
    }

    fn to_usize3(&self) -> (usize, usize, usize) {
        (self.0 as usize, self.1 as usize, self.2 as usize)
    }
}

impl ToUsize3 for (u8, u8, u8) {
    open spec fn coords(&self) -> (int, int, int) {
        (self.0 as int, self.1 as int, self.2 as int)
    }

    fn to_usize3(&self) -> (usize, usize, usize) {
        (self.0 as usize, self.1 as usize, self.2 as usize)
    }
}

impl ToUsize3 for (i16, i16, i16) {
    open spec fn coords(&self) -> (int, int, int) {
        (self.0 as int, self.1 as int, self.2 as int)
    }

    fn to_usize3(&self) -> (usize, usize, usize) {
        (self.0 as usize, self.1 as usize, self.2 as usize)
    }
}

impl ToUsize3 for (u16, u16, u16) {
    open spec fn coords(&self) -> (int, int, int) {
        (self.0 as int, self.1 as int, self.2 as int)
    }

    fn to_usize3(&self) -> (usize, usize, usize) {
        (self.0 as usize, self.1 as usize, self.2 as usize)
    }
}

impl ToUsize3 for (i32, i32, i32) {
    open spec fn coords(&self) -> (int, int, int) {
        (self.0 as int, self.1 as int, self.2 as int)
    }

    fn to_usize3(&self) -> (usize, usize, usize) {
        (self.0 as usize, self.1 as usize, self.2 as usize)
    }
}

impl ToUsize3 for (u32, u32, u32) {
    open spec fn coords(&self) -> (int, int, int) {
        (self.0 as int, self.1 as int, self.2 as int)
    }

    fn to_usize3(&self) -> (usize, usize, usize) {
        (self.0 as usize, self.1 as usize, self.2 as usize)
    }
}

impl ToUsize3 for (usize, usize, usize) {
    open spec fn coords(&self) -> (int, int, int) {
        (self.0 as int, self.1 as int, self.2 as int)
    }

    fn to_usize3(&self) -> (usize, usize, usize) {
        (self.0 as usize, self.1 as usize, self.2 as usize)
    }
}

impl ToUsize3 for (isize, isize, isize) {
    open spec fn coords(&self) -> (int, int, int) {
        (self.0 as int, self.1 as int, self.2 as int)
    }

    fn to_usize3(&self) -> (usize, usize, usize) {
        (self.0 as usize, self.1 as usize, self.2 as usize)
    }
}

impl ToUsize3 for Vec3<i8> {
    open spec fn coords(&self) -> (int, int, int) {
        (self.x as int, self.y as int, self.z as int)
    }

    fn to_usize3(&self) -> (usize, usize, usize) {
        (self.x as usize, self.y as usize, self.z as usize)
    }
}

impl ToUsize3 for Vec3<i32> {
    open spec fn coords(&self) -> (int, int, int) {
        (self.x as int, self.y as int, self.z as int)
    }

    fn to_usize3(&self) -> (usize, usize, usize) {
        (self.x as usize, self.y as usize, self.z as usize)
    }
}

impl ToUsize3 for Vec4<i8> {
    open spec fn coords(&self) -> (int, int, int) {
        (self.x as int, self.y as int, self.z as int)
    }

    fn to_usize3(&self) -> (usize, usize, usize) {
        (self.x as usize, self.y as usize, self.z as usize)
    }
}

impl ToUsize3 for Vec4<i32> {
    open spec fn coords(&self) -> (int, int, int) {
        (self.x as int, self.y as int, self.z as int)
    }

    fn to_usize3(&self) -> (usize, usize, usize) {
        (self.x as usize, self.y as usize, self.z as usize)
    }
}

/// Indexing by anything that names a position. The position must be a cell
/// of a well-formed array.
impl<T, D: Dim3, I: ToUsize3> Index<I> for Array3D<T, D> {
    type Output = T;

    fn index(&self, index: I) -> (cell: &T)
        ensures
            *cell == self.at(index.coords().0, index.coords().1, index.coords().2),
    {
        let (x, y, z) = index.to_usize3();
        self.get(x, y, z)
    }
}

impl<T, D: Dim3, I: ToUsize3> vstd::std_specs::core::IndexSpecImpl<I> for Array3D<T, D> {
    open spec fn index_req(&self, index: &I) -> bool {
        &&& self.wf()
        &&& self.has_cell(index.coords().0, index.coords().1, index.coords().2)
    }
}

/// Writing through an index. The position must be a cell of a well-formed
/// array; every other cell keeps its value.
impl<T, D: Dim3, I: ToUsize3> IndexMut<I> for Array3D<T, D> {
    fn index_mut(&mut self, index: I) -> (cell: &mut T)
        requires
            old(self).wf(),
            old(self).has_cell(index.coords().0, index.coords().1, index.coords().2),
        ensures
            *cell == old(self).at(index.coords().0, index.coords().1, index.coords().2),
            final(self)@ == old(self)@.update(
                old(self).offset_of(index.coords().0, index.coords().1, index.coords().2),
                *final(cell),
            ),
            final(self).dims == old(self).dims,
            final(self).wf(),
    {
        let (x, y, z) = index.to_usize3();
        self.get_mut(x, y, z)
    }
}

} // verus!
