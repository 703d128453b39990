//! Views that show the cells of a three-axis array as another type.
//!
//! A view borrows the array and converts on each access: reading goes through
//! `Into`, writing through `From`. Nothing is copied and nothing is stored in
//! the view itself, so a view can never change the extents of its array.

use vstd::prelude::*;
use vek::Vec3;
use std::marker::PhantomData;
use std::ops::Index;
use std::ops::IndexMut;
use crate::array3d::Array3D;
use crate::array3d::Dim3;
use crate::array3d::ToUsize3;
use crate::cells::fill_cells;
use crate::cells::filled_with;

verus! {

/// `out` is what `Into::into` may return for some clone of `cell`.
pub open spec fn converted_from<T: Into<U> + Clone, U>(cell: T, out: U) -> bool {
    exists|copy: T| #[trigger] cloned(cell, copy) && call_ensures(T::into, (copy,), out)
}

/// Read-only view converting element type via `Into<U>`.
pub struct Array3DView<'a, T, U, D: Dim3> {
    pub array: &'a Array3D<T, D>,
    pub _phantom: PhantomData<U>,
}

impl<'a, T, U, D: Dim3> Array3DView<'a, T, U, D> where T: Into<U> + Clone {
    /// The cell at `index`, cloned and converted.
    pub fn get(&self, index: impl ToUsize3) -> (out: U)
        requires
            self.array.wf(),
            self.array.has_cell(index.coords().0, index.coords().1, index.coords().2),
        ensures
            converted_from(
                self.array.at(index.coords().0, index.coords().1, index.coords().2),
                out,
            ),
    {
        let (x, y, z) = index.to_usize3();
        let copy = self.array.get(x, y, z).clone();
        assert(cloned(self.array.at(x as int, y as int, z as int), copy));
        let out: U = copy.into();
        assert(call_ensures(T::into, (copy,), out));
        out
    }
}

impl<'a, T, U, D: Dim3> Array3DView<'a, T, U, D> {
    /// The extents of the array behind the view.
    pub fn dimensions(&self) -> (extents: Vec3<usize>)
        ensures
            extents.x == self.array.dims.extent_x(),
            extents.y == self.array.dims.extent_y(),
            extents.z == self.array.dims.extent_z(),
    {
        self.array.dimensions()
    }
}

/// Indexing a view gives the cell itself, unconverted.
impl<'a, T, U, D: Dim3, I: ToUsize3> Index<I> for Array3DView<'a, T, U, D> {
    type Output = T;

    fn index(&self, index: I) -> (cell: &T)
        ensures
            *cell == self.array.at(index.coords().0, index.coords().1, index.coords().2),
    {
        let (x, y, z) = index.to_usize3();
        self.array.get(x, y, z)
    }
}

impl<'a, T, U, D: Dim3, I: ToUsize3> vstd::std_specs::core::IndexSpecImpl<I> for Array3DView<'a, T, U, D> {
    open spec fn index_req(&self, index: &I) -> bool {
        &&& self.array.wf()
        &&& self.array.has_cell(index.coords().0, index.coords().1, index.coords().2)
    }
}

/// Mutable view converting element type via `From<U>`.
pub struct Array3DViewMut<'a, T, U, D: Dim3> {
    pub array: &'a mut Array3D<T, D>,
    pub _phantom: PhantomData<U>,
}

impl<'a, T, U, D: Dim3> Array3DViewMut<'a, T, U, D> {
    /// Converts `value` and stores it at `index`. Every other cell keeps its
    /// value, and so do the extents.
    pub fn set(&mut self, index: impl ToUsize3, value: U) where T: From<U>
        requires
            old(self).array.wf(),
            old(self).array.has_cell(index.coords().0, index.coords().1, index.coords().2),
        ensures
            final(self).array.wf(),
            final(self).array.dims == old(self).array.dims,
            call_ensures(
                T::from,
                (value,),
                final(self).array.at(index.coords().0, index.coords().1, index.coords().2),
            ),
            final(self).array@ == old(self).array@.update(
                old(self).array.offset_of(index.coords().0, index.coords().1, index.coords().2),
                final(self).array.at(index.coords().0, index.coords().1, index.coords().2),
            ),
            *final(final(self).array) == *final(old(self).array),
    {
        let (x, y, z) = index.to_usize3();
        let cell = T::from(value);
        assert(call_ensures(T::from, (value,), cell));
        self.array.set(x, y, z, cell);
    }

    /// The cell at `index`, cloned and converted.
    pub fn get(&self, index: impl ToUsize3) -> (out: U) where T: Into<U> + Clone
        requires
            self.array.wf(),
            self.array.has_cell(index.coords().0, index.coords().1, index.coords().2),
        ensures
            converted_from(
                old(self.array).at(index.coords().0, index.coords().1, index.coords().2),
                out,
            ),
    {
        let (x, y, z) = index.to_usize3();
        let copy = self.array.get(x, y, z).clone();
        assert(cloned(self.array.at(x as int, y as int, z as int), copy));
        let out: U = copy.into();
        assert(call_ensures(T::into, (copy,), out));
        out
    }

    /// The extents of the array behind the view.
    pub fn dimensions(&self) -> (extents: Vec3<usize>)
        ensures
            extents.x == old(self.array).dims.extent_x(),
            extents.y == old(self.array).dims.extent_y(),
            extents.z == old(self.array).dims.extent_z(),
    {
        self.array.dimensions()
    }
}

impl<'a, T: Clone, U, D: Dim3> Array3DViewMut<'a, T, U, D> {
    /// Overwrites every cell with a clone of `value`, unconverted.
    pub fn fill(&mut self, value: T)
        ensures
            final(self).array.dims == old(self).array.dims,
            final(self).array@.len() == old(self).array@.len(),
            filled_with(final(self).array@, value),
            old(self).array.wf() ==> final(self).array.wf(),
            *final(final(self).array) == *final(old(self).array),
    {
        fill_cells(&mut self.array.data, value);
    }
}

/// Indexing a view gives the cell itself, unconverted.
impl<'a, T, U, D: Dim3, I: ToUsize3> Index<I> for Array3DViewMut<'a, T, U, D> {
    type Output = T;

    fn index(&self, index: I) -> (cell: &T)
        ensures
            *cell == old(self.array).at(index.coords().0, index.coords().1, index.coords().2),
    {
        let (x, y, z) = index.to_usize3();
        self.array.get(x, y, z)
    }
}

impl<'a, T, U, D: Dim3, I: ToUsize3> vstd::std_specs::core::IndexSpecImpl<I> for Array3DViewMut<'a, T, U, D> {
    open spec fn index_req(&self, index: &I) -> bool {
        &&& self.array.wf()
        &&& self.array.has_cell(index.coords().0, index.coords().1, index.coords().2)
    }
}

/// Writing through an index reaches the cell itself, unconverted.
impl<'a, T, U, D: Dim3, I: ToUsize3> IndexMut<I> for Array3DViewMut<'a, T, U, D> {
    fn index_mut(&mut self, index: I) -> (cell: &mut T)
        requires
            old(self).array.wf(),
            old(self).array.has_cell(index.coords().0, index.coords().1, index.coords().2),
        ensures
            *cell == old(self).array.at(index.coords().0, index.coords().1, index.coords().2),
            final(self).array@ == old(self).array@.update(
                old(self).array.offset_of(index.coords().0, index.coords().1, index.coords().2),
                *final(cell),
            ),
            final(self).array.dims == old(self).array.dims,
            final(self).array.wf(),
            *final(final(self).array) == *final(old(self).array),
    {
        let (x, y, z) = index.to_usize3();
        self.array.get_mut(x, y, z)
    }
}

impl<T, D: Dim3> Array3D<T, D> {
    /// Creates a read-only converting view.
    pub fn as_view<U>(&self) -> (view: Array3DView<'_, T, U, D>)
        ensures
            *view.array == *self,
    {
        Array3DView { array: self, _phantom: PhantomData }
    }

    /// Creates a mutable converting view. When the view is given up, the
    /// array is what the view left behind.
    pub fn as_view_mut<U>(&mut self) -> (view: Array3DViewMut<'_, T, U, D>)
        ensures
            *view.array == *old(self),
            *final(self) == *final(view.array),
    {
        Array3DViewMut { array: self, _phantom: PhantomData }
    }
}

} // verus!
