use gridbuf::array3d::ToUsize3;
use gridbuf::layout::extents_fit3;
use gridbuf::Array3D;
use gridbuf::ConstDims;
use gridbuf::DArray3D;
use gridbuf::Dim3;
use gridbuf::RuntimeDims;
use std::cell::Cell;
use vek::Vec2;
use vek::Vec3;
use vek::Vec4;

#[test]
fn test_runtime_and_static() {
    let mut r = Array3D::new_filled(RuntimeDims { x: 2, y: 2, z: 2 }, 1u8);
    r.set(1, 1, 1, 5);
    assert_eq!(*r.get(1, 1, 1), 5);

    let mut s = Array3D::new_filled(ConstDims::<2, 2, 2>, 2u8);
    s[(1, 1, 1)] = 8;
    assert_eq!(s[(1, 1, 1)], 8);
}

#[test]
fn extents_come_from_either_strategy() {
    let runtime = RuntimeDims { x: 3, y: 4, z: 5 };
    assert_eq!((runtime.x(), runtime.y(), runtime.z()), (3, 4, 5));
    assert_eq!(runtime.xy(), Vec2::new(3, 4));
    assert_eq!(runtime.yz(), Vec2::new(4, 5));
    assert_eq!(runtime.xyz(), Vec3::new(3, 4, 5));
    assert_eq!(runtime.total_len(), 60);

    let fixed = ConstDims::<3, 4, 5>;
    assert_eq!((fixed.x(), fixed.y(), fixed.z()), (3, 4, 5));
    assert_eq!(fixed.xy(), Vec2::new(3, 4));
    assert_eq!(fixed.yz(), Vec2::new(4, 5));
    assert_eq!(fixed.xyz(), Vec3::new(3, 4, 5));
    assert_eq!(fixed.total_len(), 60);
}

#[test]
fn both_strategies_behave_alike() {
    let mut runtime = Array3D::new_filled(RuntimeDims { x: 2, y: 3, z: 4 }, 0u16);
    let mut fixed = Array3D::new_filled(ConstDims::<2, 3, 4>, 0u16);
    runtime.set(1, 2, 3, 7);
    fixed.set(1, 2, 3, 7);
    runtime.set(0, 1, 2, 9);
    fixed.set(0, 1, 2, 9);
    let a: Vec<u16> = runtime.iter().copied().collect();
    let b: Vec<u16> = fixed.iter().copied().collect();
    assert_eq!(a, b);
    assert_eq!(runtime.dimensions(), fixed.dimensions());
    assert_eq!(runtime.dimensions(), Vec3::new(2, 3, 4));
}

#[test]
fn offset_is_x_plus_y_rows_plus_z_planes() {
    let array: DArray3D<u8> = Array3D::new_default(RuntimeDims { x: 3, y: 4, z: 5 });
    assert_eq!(array.index_internal(0, 0, 0), 0);
    assert_eq!(array.index_internal(2, 0, 0), 2);
    assert_eq!(array.index_internal(0, 1, 0), 3);
    assert_eq!(array.index_internal(0, 0, 1), 12);
    assert_eq!(array.index_internal(1, 2, 3), 43);
    assert_eq!(array.index_internal(2, 3, 4), 59);
}

#[test]
fn every_cell_of_a_filled_array_is_the_value_in_3d() {
    let array = Array3D::new_filled(RuntimeDims { x: 2, y: 3, z: 2 }, 7i64);
    for z in 0..2 {
        for y in 0..3 {
            for x in 0..2 {
                assert_eq!(*array.get(x, y, z), 7);
                assert_eq!(array.get_cloned(x, y, z), 7);
                assert_eq!(*array.get_unchecked(x, y, z), 7);
            }
        }
    }
}

#[test]
fn set_then_get_and_nothing_else_moves_in_3d() {
    let mut array = Array3D::new_filled(ConstDims::<3, 2, 2>, 0u8);
    array.set(2, 1, 0, 4);
    array.set_unchecked(0, 0, 1, 6);
    *array.get_unchecked_mut(1, 1, 1) = 8;
    for z in 0..2 {
        for y in 0..2 {
            for x in 0..3 {
                let expected = match (x, y, z) {
                    (2, 1, 0) => 4,
                    (0, 0, 1) => 6,
                    (1, 1, 1) => 8,
                    _ => 0,
                };
                assert_eq!(*array.get(x, y, z), expected);
            }
        }
    }
}

#[test]
fn first_axis_varies_fastest_third_slowest() {
    let next = Cell::new(0usize);
    let array = Array3D::from_fn(RuntimeDims { x: 2, y: 3, z: 2 }, || {
        let n = next.get();
        next.set(n + 1);
        n
    });
    assert_eq!(next.get(), 12);
    let in_order: Vec<usize> = array.iter().copied().collect();
    assert_eq!(in_order, (0..12).collect::<Vec<usize>>());
    assert_eq!(*array.get(1, 0, 0), 1);
    assert_eq!(*array.get(0, 1, 0), 2);
    assert_eq!(*array.get(0, 0, 1), 6);
    assert_eq!(*array.get(1, 2, 1), 11);
}

#[test]
fn total_len_is_the_product_after_every_bulk_operation() {
    let dims = RuntimeDims { x: 2, y: 3, z: 4 };
    let mut array = Array3D::new_filled(dims, 1u8);
    assert_eq!(array.dims.total_len(), 24);
    assert_eq!(array.data.len(), 24);
    array.fill(5);
    assert_eq!(array.dims.total_len(), 24);
    assert_eq!(array.data.len(), 24);
    assert!(array.iter().all(|&cell| cell == 5));
    let other = Array3D::new_filled(dims, 9u8);
    array.copy_data_from(&other);
    assert_eq!(array.dims.total_len(), 24);
    assert_eq!(array.data.len(), 24);
    assert!(array.iter().all(|&cell| cell == 9));
}

#[test]
fn copy_gives_cellwise_equality_in_3d() {
    let next = Cell::new(100u32);
    let source = Array3D::from_fn(ConstDims::<2, 2, 2>, || {
        let n = next.get();
        next.set(n + 1);
        n
    });
    let mut target = Array3D::new_filled(ConstDims::<2, 2, 2>, 0u32);
    target.copy_data_from(&source);
    for z in 0..2 {
        for y in 0..2 {
            for x in 0..2 {
                assert_eq!(target.get(x, y, z), source.get(x, y, z));
            }
        }
    }
    assert_eq!(*target.get(1, 1, 1), 107);
}

#[test]
fn zero_or_oversized_extents_do_not_fit_in_3d() {
    assert!(!extents_fit3(0, 5, 1));
    assert!(!extents_fit3(5, 0, 1));
    assert!(!extents_fit3(5, 5, 0));
    assert!(!extents_fit3(usize::MAX, 2, 1));
    assert!(!extents_fit3(usize::MAX, 1, 2));
    assert!(extents_fit3(3, 4, 5));
    assert!(extents_fit3(1, usize::MAX, 1));
}

#[test]
fn in_bounds_checks_each_axis() {
    let array: DArray3D<u8> = Array3D::new_default(RuntimeDims { x: 2, y: 2, z: 2 });
    assert!(array.in_bounds(1, 1, 1));
    assert!(!array.in_bounds(2, 1, 1));
    assert!(!array.in_bounds(1, 2, 1));
    assert!(!array.in_bounds(1, 1, 2));
    assert!(!array.in_bounds(2, 2, 2));
}

#[test]
fn default_fill_uses_the_default_value_in_3d() {
    let array: Array3D<i32, ConstDims<2, 2, 1>> = Array3D::new_default(ConstDims::<2, 2, 1>);
    assert_eq!(array.iter().count(), 4);
    assert!(array.iter().all(|&cell| cell == 0));
}

#[test]
fn iter_mut_reaches_every_cell_in_3d() {
    let mut array = Array3D::new_filled(RuntimeDims { x: 2, y: 2, z: 2 }, 0u8);
    for cell in array.iter_mut() {
        *cell = 1;
    }
    assert!(array.iter().all(|&cell| cell == 1));
    assert_eq!(array.dimensions(), Vec3::new(2, 2, 2));
}

#[test]
fn positions_keep_their_components() {
    assert_eq!((1i8, 2i8, 3i8).to_usize3(), (1, 2, 3));
    assert_eq!((1u8, 2u8, 255u8).to_usize3(), (1, 2, 255));
    assert_eq!((1i16, 2i16, 3i16).to_usize3(), (1, 2, 3));
    assert_eq!((1u16, 2u16, 65535u16).to_usize3(), (1, 2, 65535));
    assert_eq!((1i32, 2i32, 3i32).to_usize3(), (1, 2, 3));
    assert_eq!((1u32, 2u32, 3u32).to_usize3(), (1, 2, 3));
    assert_eq!((1usize, 2usize, 3usize).to_usize3(), (1, 2, 3));
    assert_eq!((1isize, 2isize, 3isize).to_usize3(), (1, 2, 3));
    assert_eq!(Vec3::<i8>::new(4, 5, 6).to_usize3(), (4, 5, 6));
    assert_eq!(Vec3::<i32>::new(4, 5, 6).to_usize3(), (4, 5, 6));
    assert_eq!(Vec4::<i8>::new(4, 5, 6, 7).to_usize3(), (4, 5, 6));
    assert_eq!(Vec4::<i32>::new(4, 5, 6, 7).to_usize3(), (4, 5, 6));
}

#[test]
fn every_position_form_indexes_the_same_cell() {
    let mut array = Array3D::new_filled(RuntimeDims { x: 3, y: 3, z: 3 }, 0u8);
    array.set(2, 1, 0, 9);
    assert_eq!(array[(2usize, 1usize, 0usize)], 9);
    assert_eq!(array[(2i8, 1i8, 0i8)], 9);
    assert_eq!(array[(2u32, 1u32, 0u32)], 9);
    assert_eq!(array[Vec3::<i32>::new(2, 1, 0)], 9);
    assert_eq!(array[Vec4::<i8>::new(2, 1, 0, 1)], 9);
    assert_eq!(array[(0usize, 1usize, 2usize)], 0);
    array[(0u16, 1u16, 2u16)] = 4;
    assert_eq!(*array.get(0, 1, 2), 4);
    *array.get_mut(0, 1, 2) = 5;
    assert_eq!(array[Vec3::<i8>::new(0, 1, 2)], 5);
}

#[test]
fn debug_string_prints_plane_after_plane() {
    let next = Cell::new(0u8);
    let array = Array3D::from_fn(RuntimeDims { x: 2, y: 2, z: 2 }, || {
        let n = next.get();
        next.set(n + 1);
        n
    });
    assert_eq!(
        array.debug_string(),
        "Array3D [2 x 2 x 2]:\n[ 0 1 ]\n[ 2 3 ]\n[ 4 5 ]\n[ 6 7 ]\n"
    );
}

#[test]
fn iter_mut_hands_out_cells_in_buffer_order_in_3d() {
    let mut array = Array3D::new_filled(RuntimeDims { x: 2, y: 3, z: 2 }, 0usize);
    array.set(1, 2, 1, 9);
    let seen: Vec<usize> = array.iter_mut().map(|cell| *cell).collect();
    assert_eq!(seen, vec![0, 0, 0, 0, 0, 0, 0, 0, 0, 0, 0, 9]);
    for (position, cell) in array.iter_mut().enumerate() {
        *cell = position;
    }
    for z in 0..2 {
        for y in 0..3 {
            for x in 0..2 {
                assert_eq!(*array.get(x, y, z), x + y * 2 + z * 6);
            }
        }
    }
    assert_eq!(array.iter_mut().count(), 12);
    assert_eq!(array.dimensions(), Vec3::new(2, 3, 2));
}
