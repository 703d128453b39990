use gridbuf::layout::extents_fit2;
use gridbuf::DArray2D;
use std::cell::Cell;
use vek::Vec2;

#[test]
fn test_creation_and_access() {
    let mut array = DArray2D::new(2, 3);
    assert_eq!(array.dimensions(), (2, 3));

    array[(0, 0)] = 42;
    array[(1, 2)] = 99;

    assert_eq!(array[(0, 0)], 42);
    assert_eq!(array[(1, 2)], 99);
}

#[test]
fn test_iteration() {
    let array: DArray2D<i32> = DArray2D::new(2, 2);
    assert_eq!(array.iter().count(), 4);
}

#[test]
#[should_panic]
fn test_out_of_bounds() {
    let array = DArray2D::new(2, 2);
    assert!(array.in_bounds(2, 2), "Index out of bounds x: 2 y: 2");
    let _: i32 = array[(2, 2)];
}

#[test]
fn in_bounds_tells_cells_from_strangers() {
    let array: DArray2D<u8> = DArray2D::new(2, 3);
    assert!(array.in_bounds(0, 0));
    assert!(array.in_bounds(1, 2));
    assert!(!array.in_bounds(2, 0));
    assert!(!array.in_bounds(0, 3));
    assert!(!array.in_bounds(2, 2));
}

#[test]
fn filled_then_counted_and_read() {
    let array = DArray2D::new_filled(3, 3, 7);
    assert_eq!(array.iter().count(), 9);
    assert_eq!(*array.get(2, 2), 7);
}

#[test]
fn every_cell_of_a_filled_array_is_the_value() {
    let array = DArray2D::new_filled(4, 5, String::from("v"));
    for y in 0..5 {
        for x in 0..4 {
            assert_eq!(array.get(x, y), "v");
            assert_eq!(array.get_ref(x, y), "v");
        }
    }
    assert_eq!(array.data.len(), 20);
}

#[test]
fn set_then_get_and_nothing_else_moves() {
    let mut array = DArray2D::new_filled(3, 4, 0u32);
    array.set(2, 1, 77);
    for y in 0..4 {
        for x in 0..3 {
            let expected = if (x, y) == (2, 1) { 77 } else { 0 };
            assert_eq!(*array.get(x, y), expected);
        }
    }
}

#[test]
fn offset_is_row_times_width_plus_column() {
    let array: DArray2D<u8> = DArray2D::new(5, 3);
    assert_eq!(array.index_internal(0, 0), 0);
    assert_eq!(array.index_internal(4, 0), 4);
    assert_eq!(array.index_internal(0, 1), 5);
    assert_eq!(array.index_internal(3, 2), 13);
    assert_eq!(array.index_internal(4, 2), 14);
}

#[test]
fn first_axis_varies_fastest() {
    let next = Cell::new(0usize);
    let array = DArray2D::new_filled_by_generator(3, 2, || {
        let n = next.get();
        next.set(n + 1);
        n
    });
    assert_eq!(next.get(), 6);
    let in_order: Vec<usize> = array.iter().copied().collect();
    assert_eq!(in_order, vec![0, 1, 2, 3, 4, 5]);
    assert_eq!(*array.get(0, 0), 0);
    assert_eq!(*array.get(1, 0), 1);
    assert_eq!(*array.get(2, 0), 2);
    assert_eq!(*array.get(0, 1), 3);
    assert_eq!(*array.get(2, 1), 5);
}

#[test]
fn length_is_product_of_extents_after_every_bulk_operation() {
    let mut array = DArray2D::new_filled(3, 4, 1u8);
    assert_eq!(array.data.len(), 12);
    array.fill(2);
    assert_eq!(array.data.len(), 12);
    assert_eq!(array.dimensions(), (3, 4));
    let other = DArray2D::new_filled(3, 4, 9u8);
    array.copy_data_from(&other);
    assert_eq!(array.data.len(), 12);
    assert_eq!(array.dimensions(), (3, 4));
}

#[test]
fn fill_overwrites_every_cell() {
    let mut array = DArray2D::new_filled(2, 2, 1u8);
    array.set(1, 1, 5);
    array.fill(3);
    assert!(array.iter().all(|&cell| cell == 3));
}

#[test]
fn copy_gives_cellwise_equality() {
    let next = Cell::new(10u32);
    let source = DArray2D::new_filled_by_generator(3, 2, || {
        let n = next.get();
        next.set(n + 1);
        n
    });
    let mut target = DArray2D::new_filled(3, 2, 0u32);
    target.copy_data_from(&source);
    for y in 0..2 {
        for x in 0..3 {
            assert_eq!(target.get(x, y), source.get(x, y));
        }
    }
    assert_eq!(*target.get(2, 1), 15);
}

#[test]
fn extents_three_by_four_are_reported() {
    let array: DArray2D<i64> = DArray2D::new(3, 4);
    assert_eq!(array.dimensions(), (3, 4));
    assert_eq!(array.size(), Vec2::new(3, 4));
    assert_eq!(array.size().x, 3);
    assert_eq!(array.size().y, 4);
}

#[test]
fn zero_or_oversized_extents_do_not_fit() {
    assert!(!extents_fit2(0, 5));
    assert!(!extents_fit2(5, 0));
    assert!(!extents_fit2(0, 0));
    assert!(!extents_fit2(usize::MAX, 2));
    assert!(extents_fit2(3, 4));
    assert!(extents_fit2(usize::MAX, 1));
}

#[test]
fn default_fill_uses_the_default_value() {
    let numbers: DArray2D<i32> = DArray2D::new(2, 2);
    assert!(numbers.iter().all(|&cell| cell == 0));
    let words: DArray2D<String> = DArray2D::new(2, 2);
    assert!(words.iter().all(|cell| cell.is_empty()));
}

#[test]
fn every_index_form_reads_the_same_cell() {
    let mut array = DArray2D::new_filled(3, 3, 0u8);
    array.set(2, 1, 9);
    assert_eq!(array[(2usize, 1usize)], 9);
    assert_eq!(array[(2i8, 1i8)], 9);
    assert_eq!(array[(2i32, 1i32)], 9);
    assert_eq!(array[Vec2::<i32>::new(2, 1)], 9);
    assert_eq!(array[Vec2::<isize>::new(2, 1)], 9);
    assert_eq!(array[Vec2::<usize>::new(2, 1)], 9);
    assert_eq!(array[(1usize, 2usize)], 0);
}

#[test]
fn every_writing_index_form_reaches_the_same_cell() {
    let mut array = DArray2D::new_filled(3, 3, 0u8);
    array[(2usize, 1usize)] = 1;
    assert_eq!(*array.get(2, 1), 1);
    array[Vec2::<isize>::new(2, 1)] = 2;
    assert_eq!(*array.get(2, 1), 2);
    array[Vec2::<usize>::new(2, 1)] = 3;
    assert_eq!(*array.get(2, 1), 3);
    assert_eq!(array.iter().filter(|&&cell| cell != 0).count(), 1);
}

#[test]
fn get_mut_writes_one_cell() {
    let mut array = DArray2D::new_filled(2, 2, 1u8);
    *array.get_mut(1, 0) = 6;
    let in_order: Vec<u8> = array.iter().copied().collect();
    assert_eq!(in_order, vec![1, 6, 1, 1]);
}

#[test]
fn iter_mut_reaches_every_cell_and_keeps_the_shape() {
    let mut array = DArray2D::new_filled(3, 2, 1u32);
    for cell in array.iter_mut() {
        *cell += 1;
    }
    assert!(array.iter().all(|&cell| cell == 2));
    for cell in &mut array {
        *cell *= 5;
    }
    assert!(array.iter().all(|&cell| cell == 10));
    assert_eq!(array.dimensions(), (3, 2));
    assert_eq!(array.data.len(), 6);
}

#[test]
fn taking_the_array_apart_keeps_buffer_order() {
    let mut array = DArray2D::new_filled(2, 2, 0u8);
    array.set(1, 0, 1);
    array.set(0, 1, 2);
    array.set(1, 1, 3);
    let by_ref: Vec<u8> = (&array).into_iter().copied().collect();
    assert_eq!(by_ref, vec![0, 1, 2, 3]);
    let owned: Vec<u8> = array.into_iter().collect();
    assert_eq!(owned, vec![0, 1, 2, 3]);
}

#[test]
fn clone_is_a_separate_equal_array() {
    let mut array = DArray2D::new_filled(2, 2, 4u8);
    let copy = array.clone();
    array.set(0, 0, 1);
    assert_eq!(copy.dimensions(), (2, 2));
    assert!(copy.iter().all(|&cell| cell == 4));
    assert_eq!(*array.get(0, 0), 1);
}

#[test]
fn debug_string_is_a_grid() {
    let mut array = DArray2D::new_filled(2, 3, 0u8);
    array.set(1, 0, 1);
    array.set(0, 2, 25);
    assert_eq!(array.debug_string(), "Array2D [2 x 3]:\n[ 0 1 ]\n[ 0 0 ]\n[ 25 0 ]\n");
    let words = DArray2D::new_filled(1, 1, "a");
    assert_eq!(words.debug_string(), "Array2D [1 x 1]:\n[ \"a\" ]\n");
}

#[test]
fn iter_mut_hands_out_cells_in_buffer_order() {
    let next = Cell::new(10usize);
    let mut array = DArray2D::new_filled_by_generator(3, 2, || {
        let n = next.get();
        next.set(n + 1);
        n
    });
    let seen: Vec<usize> = array.iter_mut().map(|cell| *cell).collect();
    assert_eq!(seen, vec![10, 11, 12, 13, 14, 15]);
    for (position, cell) in array.iter_mut().enumerate() {
        *cell = position * 2;
    }
    for y in 0..2 {
        for x in 0..3 {
            assert_eq!(*array.get(x, y), (y * 3 + x) * 2);
        }
    }
    for (position, cell) in (&mut array).into_iter().enumerate() {
        *cell = position + 100;
    }
    assert_eq!(*array.get(0, 0), 100);
    assert_eq!(*array.get(2, 0), 102);
    assert_eq!(*array.get(0, 1), 103);
    assert_eq!(*array.get(2, 1), 105);
    assert_eq!(array.iter_mut().count(), 6);
}
