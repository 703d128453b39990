//! The three-axis array with extents chosen at run time.

use vstd::prelude::*;
use crate::array3d::Array3D;
use crate::array3d::RuntimeDims;

verus! {

/// Dynamic 3D array: an [`Array3D`] whose extents are stored in the array.
pub type DArray3D<T> = Array3D<T, RuntimeDims>;

} // verus!
