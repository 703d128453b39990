//! Contiguous multi-dimensional arrays: one owned buffer, one linearization
//! formula, and extents that are either stored in the array or fixed by its type.

pub mod array2d;
pub mod array3d;
pub mod array3d_view;
pub mod cells;
pub mod darray3d;
pub mod laws;
pub mod layout;
pub mod render;
pub mod vectors;

pub use array2d::DArray2D;
pub use array3d::Array3D;
pub use array3d::ConstDims;
pub use array3d::Dim3;
pub use array3d::RuntimeDims;
pub use array3d::ToUsize3;
pub use array3d_view::Array3DView;
pub use array3d_view::Array3DViewMut;
pub use darray3d::DArray3D;
