//! A two-axis array over one contiguous buffer.
//!
//! The cell `(x, y)` lives at offset `y * x_size + x`, so a loop that walks
//! memory in order has `y` outside and `x` inside.

use vstd::prelude::*;
use vek::Vec2;
use std::fmt::Debug;
use std::ops::Index;
use std::ops::IndexMut;
use std::slice::Iter;
use std::slice::IterMut;
use vstd::std_specs::iter::IteratorSpec;
use crate::cells::cloned_buffer;
use crate::cells::copied_from;
use crate::cells::fill_cells;
use crate::cells::filled_buffer;
use crate::cells::filled_with;
use crate::cells::filled_with_default;
use crate::cells::generated_buffer;
use crate::cells::generated_by;
use crate::cells::hands_out;
use crate::cells::slice_iter_mut;
use crate::layout::extents_fit2;
use crate::layout::flat_index2;
use crate::layout::in_bounds2;
use crate::layout::lemma_flat_index2_in_range;
use crate::layout::lemma_flat_index2_injective;
use crate::render::debug_texts;
use crate::render::grid2_text;
use crate::render::render_grid2;
use crate::render::texts;

verus! {

/// A two-axis array whose extents are chosen when it is built and never
/// change afterwards.
pub struct DArray2D<T> {
    pub data: Box<[T]>,
    pub x_size: usize,
    pub y_size: usize,
}

/// An array is viewed as its cells in buffer order.
impl<T> View for DArray2D<T> {
    type V = Seq<T>;

    open spec fn view(&self) -> Seq<T> {
        self.data@
    }
}

impl<T> DArray2D<T> {
    /// Both extents are positive and the buffer holds one cell per coordinate.
    pub open spec fn wf(&self) -> bool {
        &&& self.x_size > 0
        &&& self.y_size > 0
        &&& self.x_size * self.y_size <= usize::MAX
        &&& self@.len() == self.x_size * self.y_size
    }

    /// `(x, y)` is a coordinate of this array.
    pub open spec fn has_cell(&self, x: int, y: int) -> bool {
        in_bounds2(self.x_size as int, self.y_size as int, x, y)
    }

    /// The offset of `(x, y)` in the buffer.
    pub open spec fn offset_of(&self, x: int, y: int) -> int {
        flat_index2(self.x_size as int, x, y)
    }

    /// The cell at `(x, y)`.
    pub open spec fn at(&self, x: int, y: int) -> T {
        self@[self.offset_of(x, y)]
    }

    /// `other` has the extents of `self`.
    pub open spec fn same_extents(&self, other: &DArray2D<T>) -> bool {
        self.x_size == other.x_size && self.y_size == other.y_size
    }

    /// Builds an array whose cells are returned by `generator`, one call per
    /// cell, starting with the cell at offset 0.
    pub fn new_filled_by_generator(
        x_size: usize,
        y_size: usize,
        generator: impl Fn() -> T,
    ) -> (array: Self)
        requires
            x_size > 0,
            y_size > 0,
            x_size * y_size <= usize::MAX,
            call_requires(generator, ()),
        ensures
            array.wf(),
            array.x_size == x_size,
            array.y_size == y_size,
            array@.len() == x_size * y_size,
            generated_by(array@, generator),
    {
        let data = generated_buffer(x_size * y_size, &generator);
        Self { data, x_size, y_size }
    }

    /// The offset of `(x, y)` in the buffer: `y * x_size + x`.
    pub fn index_internal(&self, x: usize, y: usize) -> (offset: usize)
        requires
            self.wf(),
            self.has_cell(x as int, y as int),
        ensures
            offset == self.offset_of(x as int, y as int),
            offset < self@.len(),
    {
        proof {
            lemma_flat_index2_in_range(
                self.x_size as int,
                self.y_size as int,
                x as int,
                y as int,
            );
        }
        y * self.x_size + x
    }

    /// Whether the extents are positive and the buffer holds one cell per
    /// coordinate. Every array built by this module is well-formed; the test
    /// is for arrays put together field by field.
    pub fn is_well_formed(&self) -> (ok: bool)
        ensures
            ok == self.wf(),
    {
        extents_fit2(self.x_size, self.y_size) && self.data.len() == self.x_size * self.y_size
    }

    /// Whether `(x, y)` is a coordinate of this array.
    pub fn in_bounds(&self, x: usize, y: usize) -> (inside: bool)
        ensures
            inside == self.has_cell(x as int, y as int),
    {
        x < self.x_size && y < self.y_size
    }

    /// The extents `(x_size, y_size)`.
    pub fn dimensions(&self) -> (extents: (usize, usize))
        ensures
            extents == (self.x_size, self.y_size),
    {
        (self.x_size, self.y_size)
    }

    /// The extents as a vector: `x_size` in `x`, `y_size` in `y`.
    pub fn size(&self) -> (extents: Vec2<usize>)
        ensures
            extents.x == self.x_size,
            extents.y == self.y_size,
    {
        Vec2::new(self.x_size, self.y_size)
    }

    /// Walks all cells in buffer order.
    pub fn iter(&self) -> (cells: Iter<'_, T>)
        ensures
            cells.remaining() == self@.as_ref(),
            IteratorSpec::decrease(&cells) is Some,
            IteratorSpec::initial_value_relation(&cells, &cells),
    {
        self.data.iter()
    }

    /// Walks all cells in buffer order, handing out each for writing. What
    /// is written through the item at position `i` is what the cell at offset
    /// `i` holds afterwards. The extents and the number of cells stay as they
    /// are, whatever is written.
    pub fn iter_mut(&mut self) -> (cells: IterMut<'_, T>)
        ensures
            hands_out(cells.remaining(), old(self)@),
            final(self)@.len() == old(self)@.len(),
            forall|i: int|
                0 <= i < old(self)@.len() ==> #[trigger] final(self)@[i]
                    == *final(cells.remaining()[i]),
            final(self).x_size == old(self).x_size,
            final(self).y_size == old(self).y_size,
            old(self).wf() ==> final(self).wf(),
    {
        slice_iter_mut(&mut self.data)
    }

    /// The cell at `(x, y)`.
    pub fn get_ref(&self, x: usize, y: usize) -> (cell: &T)
        requires
            self.wf(),
            self.has_cell(x as int, y as int),
        ensures
            *cell == self.at(x as int, y as int),
    {
        &self.data[self.index_internal(x, y)]
    }

    /// Stores `value` at `(x, y)`. Every other cell keeps its value.
    pub fn set(&mut self, x: usize, y: usize, value: T)
        requires
            old(self).wf(),
            old(self).has_cell(x as int, y as int),
        ensures
            final(self).wf(),
            final(self).same_extents(old(self)),
            final(self)@ == old(self)@.update(old(self).offset_of(x as int, y as int), value),
            final(self).at(x as int, y as int) == value,
            forall|x2: int, y2: int|
                old(self).has_cell(x2, y2) && (x2 != x || y2 != y) ==> #[trigger] final(self).at(
                    x2,
                    y2,
                ) == old(self).at(x2, y2),
    {
        let idx = self.index_internal(x, y);
        self.data[idx] = value;
        proof {
            assert forall|x2: int, y2: int|
                old(self).has_cell(x2, y2) && (x2 != x || y2 != y) implies #[trigger] self.at(
                x2,
                y2,
            ) == old(self).at(x2, y2) by {
                lemma_flat_index2_in_range(self.x_size as int, self.y_size as int, x2, y2);
                if flat_index2(self.x_size as int, x2, y2) == idx as int {
                    lemma_flat_index2_injective(self.x_size as int, x2, y2, x as int, y as int);
                }
            }
        }
    }
}

impl<T: Clone> DArray2D<T> {
    /// Builds an array whose cells all hold the default value of `T`.
    pub fn new(x_size: usize, y_size: usize) -> (array: Self) where T: Default + Clone
        requires
            x_size > 0,
            y_size > 0,
            x_size * y_size <= usize::MAX,
        ensures
            array.wf(),
            array.x_size == x_size,
            array.y_size == y_size,
            array@.len() == x_size * y_size,
            filled_with_default(array@),
    {
        let value = T::default();
        assert(call_ensures(T::default, (), value));
        Self::new_filled(x_size, y_size, value)
    }

    /// Builds an array whose cells are all clones of `value`.
    pub fn new_filled(x_size: usize, y_size: usize, value: T) -> (array: Self)
        requires
            x_size > 0,
            y_size > 0,
            x_size * y_size <= usize::MAX,
        ensures
            array.wf(),
            array.x_size == x_size,
            array.y_size == y_size,
            array@.len() == x_size * y_size,
            filled_with(array@, value),
    {
        let data = filled_buffer(x_size * y_size, value);
        Self { data, x_size, y_size }
    }

    /// Overwrites every cell with a clone of `value`.
    pub fn fill(&mut self, value: T)
        ensures
            final(self).same_extents(old(self)),
            final(self)@.len() == old(self)@.len(),
            filled_with(final(self)@, value),
            old(self).wf() ==> final(self).wf(),
    {
        fill_cells(&mut self.data, value);
    }

    /// Replaces the cells by clones of the cells of `other`, which must have
    /// the same extents.
    pub fn copy_data_from(&mut self, other: &DArray2D<T>)
        requires
            old(self).wf(),
            other.wf(),
            old(self).same_extents(other),
        ensures
            final(self).wf(),
            final(self).same_extents(old(self)),
            copied_from(final(self)@, other@),
    {
        self.data = cloned_buffer(&other.data);
    }

    /// The cell at `(x, y)`.
    pub fn get(&self, x: usize, y: usize) -> (cell: &T)
        requires
            self.wf(),
            self.has_cell(x as int, y as int),
        ensures
            *cell == self.at(x as int, y as int),
    {
        &self.data[self.index_internal(x, y)]
    }

    /// The cell at `(x, y)`, for writing. When the borrow ends the array
    /// holds what was written there; every other cell keeps its value.
    pub fn get_mut(&mut self, x: usize, y: usize) -> (cell: &mut T)
        requires
            old(self).wf(),
            old(self).has_cell(x as int, y as int),
        ensures
            *cell == old(self).at(x as int, y as int),
            final(self)@ == old(self)@.update(
                old(self).offset_of(x as int, y as int),
                *final(cell),
            ),
            final(self).same_extents(old(self)),
            final(self).wf(),
    {
        let idx = self.index_internal(x, y);
        &mut self.data[idx]
    }
}

impl<T: Debug> DArray2D<T> {
    /// The array as text: a heading with the extents, then one line per row,
    /// each cell shown by its `Debug` text and followed by a space.
    pub fn debug_string(&self) -> (out: String)
        requires
            self.wf(),
        ensures
            exists|cells: Seq<Seq<char>>|
                cells.len() == self@.len() && out@ == #[trigger] grid2_text(
                    self.x_size as nat,
                    self.y_size as nat,
                    cells,
                ),
    {
        let shown = debug_texts(&self.data);
        let out = render_grid2(self.x_size, self.y_size, &shown);
        assert(texts(shown@).len() == self@.len());
        out
    }
}

/// A clone has the extents of the array it was made from and a clone of each
/// of its cells.
impl<T: Clone> Clone for DArray2D<T> {
    fn clone(&self) -> (copy: Self)
        ensures
            copy.same_extents(self),
            copied_from(copy@, self@),
            self.wf() ==> copy.wf(),
    {
        Self { data: cloned_buffer(&self.data), x_size: self.x_size, y_size: self.y_size }
    }
}

/// Indexing by a pair `(x, y)`. The index must name a cell of a well-formed array.
impl<T: Clone> Index<(usize, usize)> for DArray2D<T> {
    type Output = T;

    fn index(&self, index: (usize, usize)) -> (cell: &T)
        ensures
            *cell == self.at(index.0 as int, index.1 as int),
    {
        let (x, y) = (index.0, index.1);
        let index_internal = self.index_internal(x as usize, y as usize);
        &self.data[index_internal]
    }
}

impl<T: Clone> vstd::std_specs::core::IndexSpecImpl<(usize, usize)> for DArray2D<T> {
    open spec fn index_req(&self, index: &(usize, usize)) -> bool {
        &&& self.wf()
        &&& self.has_cell(index.0 as int, index.1 as int)
    }
}

/// Indexing by a pair `(x, y)` of `i8`. The index must name a cell of a well-formed array.
impl<T: Clone> Index<(i8, i8)> for DArray2D<T> {
    type Output = T;

    fn index(&self, index: (i8, i8)) -> (cell: &T)
        ensures
            *cell == self.at(index.0 as int, index.1 as int),
    {
        let (x, y) = (index.0, index.1);
        let index_internal = self.index_internal(x as usize, y as usize);
        &self.data[index_internal]
    }
}

impl<T: Clone> vstd::std_specs::core::IndexSpecImpl<(i8, i8)> for DArray2D<T> {
    open spec fn index_req(&self, index: &(i8, i8)) -> bool {
        &&& self.wf()
        &&& self.has_cell(index.0 as int, index.1 as int)
    }
}

/// Indexing by a pair `(x, y)` of `i32`. The index must name a cell of a well-formed array.
impl<T: Clone> Index<(i32, i32)> for DArray2D<T> {
    type Output = T;

    fn index(&self, index: (i32, i32)) -> (cell: &T)
        ensures
            *cell == self.at(index.0 as int, index.1 as int),
    {
        let (x, y) = (index.0, index.1);
        let index_internal = self.index_internal(x as usize, y as usize);
        &self.data[index_internal]
    }
}

impl<T: Clone> vstd::std_specs::core::IndexSpecImpl<(i32, i32)> for DArray2D<T> {
    open spec fn index_req(&self, index: &(i32, i32)) -> bool {
        &&& self.wf()
        &&& self.has_cell(index.0 as int, index.1 as int)
    }
}

/// Indexing by a vector of `i32`. The index must name a cell of a well-formed array.
impl<T: Clone> Index<Vec2<i32>> for DArray2D<T> {
    type Output = T;

    fn index(&self, index: Vec2<i32>) -> (cell: &T)
        ensures
            *cell == self.at(index.x as int, index.y as int),
    {
        let (x, y) = (index.x, index.y);
        let index_internal = self.index_internal(x as usize, y as usize);
        &self.data[index_internal]
    }
}

impl<T: Clone> vstd::std_specs::core::IndexSpecImpl<Vec2<i32>> for DArray2D<T> {
    open spec fn index_req(&self, index: &Vec2<i32>) -> bool {
        &&& self.wf()
        &&& self.has_cell(index.x as int, index.y as int)
    }
}

/// Indexing by a vector of `isize`. The index must name a cell of a well-formed array.
impl<T: Clone> Index<Vec2<isize>> for DArray2D<T> {
    type Output = T;

    fn index(&self, index: Vec2<isize>) -> (cell: &T)
        ensures
            *cell == self.at(index.x as int, index.y as int),
    {
        let (x, y) = (index.x, index.y);
        let index_internal = self.index_internal(x as usize, y as usize);
        &self.data[index_internal]
    }
}

impl<T: Clone> vstd::std_specs::core::IndexSpecImpl<Vec2<isize>> for DArray2D<T> {
    open spec fn index_req(&self, index: &Vec2<isize>) -> bool {
        &&& self.wf()
        &&& self.has_cell(index.x as int, index.y as int)
    }
}

/// Indexing by a vector of `usize`. The index must name a cell of a well-formed array.
impl<T: Clone> Index<Vec2<usize>> for DArray2D<T> {
    type Output = T;

    fn index(&self, index: Vec2<usize>) -> (cell: &T)
        ensures
            *cell == self.at(index.x as int, index.y as int),
    {
        let (x, y) = (index.x, index.y);
        let index_internal = self.index_internal(x as usize, y as usize);
        &self.data[index_internal]
    }
}

impl<T: Clone> vstd::std_specs::core::IndexSpecImpl<Vec2<usize>> for DArray2D<T> {
    open spec fn index_req(&self, index: &Vec2<usize>) -> bool {
        &&& self.wf()
        &&& self.has_cell(index.x as int, index.y as int)
    }
}

/// Writing through an index: a vector of `isize`. The index must name a cell of a
/// well-formed array; every other cell keeps its value.
impl<T: Clone> IndexMut<Vec2<isize>> for DArray2D<T> {
    fn index_mut(&mut self, index: Vec2<isize>) -> (cell: &mut T)
        requires
            old(self).wf(),
            old(self).has_cell(index.x as int, index.y as int),
        ensures
            *cell == old(self).at(index.x as int, index.y as int),
            final(self)@ == old(self)@.update(
                old(self).offset_of(index.x as int, index.y as int),
                *final(cell),
            ),
            final(self).same_extents(old(self)),
            final(self).wf(),
    {
        let (x, y) = (index.x, index.y);
        let index_internal = self.index_internal(x as usize, y as usize);
        &mut self.data[index_internal]
    }
}

/// Writing through an index: a vector of `usize`. The index must name a cell of a
/// well-formed array; every other cell keeps its value.
impl<T: Clone> IndexMut<Vec2<usize>> for DArray2D<T> {
    fn index_mut(&mut self, index: Vec2<usize>) -> (cell: &mut T)
        requires
            old(self).wf(),
            old(self).has_cell(index.x as int, index.y as int),
        ensures
            *cell == old(self).at(index.x as int, index.y as int),
            final(self)@ == old(self)@.update(
                old(self).offset_of(index.x as int, index.y as int),
                *final(cell),
            ),
            final(self).same_extents(old(self)),
            final(self).wf(),
    {
        let (x, y) = (index.x, index.y);
        let index_internal = self.index_internal(x as usize, y as usize);
        &mut self.data[index_internal]
    }
}

/// Writing through an index: a pair `(x, y)`. The index must name a cell of a
/// well-formed array; every other cell keeps its value.
impl<T: Clone> IndexMut<(usize, usize)> for DArray2D<T> {
    fn index_mut(&mut self, index: (usize, usize)) -> (cell: &mut T)
        requires
            old(self).wf(),
            old(self).has_cell(index.0 as int, index.1 as int),
        ensures
            *cell == old(self).at(index.0 as int, index.1 as int),
            final(self)@ == old(self)@.update(
                old(self).offset_of(index.0 as int, index.1 as int),
                *final(cell),
            ),
            final(self).same_extents(old(self)),
            final(self).wf(),
    {
        let (x, y) = (index.0, index.1);
        let index_internal = self.index_internal(x as usize, y as usize);
        &mut self.data[index_internal]
    }
}

/// Taking the array apart yields its cells in buffer order.
impl<T: Clone> IntoIterator for DArray2D<T> {
    type IntoIter = std::vec::IntoIter<T>;

    type Item = T;

    fn into_iter(self) -> (cells: Self::IntoIter)
        ensures
            cells.remaining() == self@,
            IteratorSpec::decrease(&cells) is Some,
            IteratorSpec::initial_value_relation(&cells, &cells),
    {
        self.data.into_vec().into_iter()
    }
}

/// Walking a shared borrow yields the cells in buffer order.
impl<'a, T: Clone> IntoIterator for &'a DArray2D<T> {
    type IntoIter = Iter<'a, T>;

    type Item = &'a T;

    fn into_iter(self) -> (cells: Self::IntoIter)
        ensures
            cells.remaining() == self@.as_ref(),
            IteratorSpec::decrease(&cells) is Some,
            IteratorSpec::initial_value_relation(&cells, &cells),
    {
        self.iter()
    }
}

/// Walking an exclusive borrow hands out each cell for writing, in buffer
/// order; what is written through the item at position `i` is what the cell
/// at offset `i` holds afterwards. The extents and the number of cells stay
/// as they are.
impl<'a, T: Clone> IntoIterator for &'a mut DArray2D<T> {
    type IntoIter = IterMut<'a, T>;

    type Item = &'a mut T;

    fn into_iter(self) -> (cells: Self::IntoIter)
        ensures
            hands_out(cells.remaining(), old(self)@),
            final(self)@.len() == old(self)@.len(),
            forall|i: int|
                0 <= i < old(self)@.len() ==> #[trigger] final(self)@[i]
                    == *final(cells.remaining()[i]),
            final(self).same_extents(old(self)),
    {
        self.iter_mut()
    }
}

} // verus!
