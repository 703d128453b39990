//! The small vector types of `vek` that carry extents and coordinates.
//!
//! They are plain records with public fields, so they are declared with their
//! fields visible: code here reads and builds them field by field.

use vstd::prelude::*;

verus! {

/// `vek::Vec2`: two public fields, `x` and `y`.
#[verifier::external_type_specification]
#[verifier::reject_recursive_types(T)]
pub struct ExVec2<T>(vek::Vec2<T>);

/// `vek::Vec3`: three public fields, `x`, `y` and `z`.
#[verifier::external_type_specification]
#[verifier::reject_recursive_types(T)]
pub struct ExVec3<T>(vek::Vec3<T>);

/// `vek::Vec4`: four public fields, `x`, `y`, `z` and `w`.
#[verifier::external_type_specification]
#[verifier::reject_recursive_types(T)]
pub struct ExVec4<T>(vek::Vec4<T>);

/// `vek::Vec2::new` stores its two arguments in `x` and `y`, in that order.
pub assume_specification<T>[ vek::Vec2::<T>::new ](x: T, y: T) -> (v: vek::Vec2<T>)
    ensures
        v.x == x,
        v.y == y,
;

} // verus!
