use gridbuf::Array3D;
use gridbuf::ConstDims;
use gridbuf::RuntimeDims;
use vek::Vec3;

#[derive(Clone, Copy, Debug, PartialEq)]
struct Byte(u8);

impl From<Byte> for bool {
    fn from(byte: Byte) -> bool {
        byte.0 != 0
    }
}

impl From<bool> for Byte {
    fn from(flag: bool) -> Byte {
        Byte(u8::from(flag))
    }
}

#[test]
fn bytes_read_as_booleans() {
    let mut array = Array3D::new_filled(RuntimeDims { x: 2, y: 2, z: 2 }, Byte(0));
    array.set(1, 0, 0, Byte(1));
    array.set(0, 1, 1, Byte(1));
    let view = array.as_view::<bool>();
    for z in 0..2usize {
        for y in 0..2usize {
            for x in 0..2usize {
                let stored = view[(x, y, z)];
                assert_eq!(view.get((x, y, z)), stored == Byte(1));
            }
        }
    }
    assert!(view.get((1usize, 0usize, 0usize)));
    assert!(view.get((0i32, 1i32, 1i32)));
    assert!(!view.get((0u8, 0u8, 0u8)));
    assert_eq!(view.dimensions(), Vec3::new(2, 2, 2));
}

#[test]
fn booleans_are_written_as_zero_or_one() {
    let mut array = Array3D::new_filled(ConstDims::<2, 2, 1>, 7u8);
    {
        let mut view = array.as_view_mut::<bool>();
        view.set((0usize, 0usize, 0usize), true);
        view.set((1usize, 0usize, 0usize), false);
        view.set((0usize, 1usize, 0usize), true);
        view.set((1usize, 1usize, 0usize), false);
        assert_eq!(view[(0usize, 0usize, 0usize)], 1);
        assert_eq!(view.dimensions(), Vec3::new(2, 2, 1));
    }
    let in_order: Vec<u8> = array.iter().copied().collect();
    assert_eq!(in_order, vec![1, 0, 1, 0]);
    assert!(array.iter().all(|&cell| cell == 0 || cell == 1));
}

#[test]
fn a_mutable_view_reads_writes_and_fills() {
    let mut array = Array3D::new_filled(RuntimeDims { x: 2, y: 1, z: 2 }, Byte(0));
    {
        let mut view = array.as_view_mut::<bool>();
        assert!(!view.get((1usize, 0usize, 1usize)));
        view.set((1usize, 0usize, 1usize), true);
        assert!(view.get((1usize, 0usize, 1usize)));
        assert!(!view.get((0usize, 0usize, 1usize)));
        view.fill(Byte(1));
        assert!(view.get((0usize, 0usize, 0usize)));
        view.set((0usize, 0usize, 0usize), false);
        view[(1usize, 0usize, 0usize)] = Byte(1);
        assert_eq!(view[(1usize, 0usize, 0usize)], Byte(1));
    }
    let in_order: Vec<Byte> = array.iter().copied().collect();
    assert_eq!(in_order, vec![Byte(0), Byte(1), Byte(1), Byte(1)]);
    assert_eq!(array.dimensions(), Vec3::new(2, 1, 2));
}

#[test]
fn a_view_widens_numbers() {
    let mut array = Array3D::new_filled(RuntimeDims { x: 2, y: 2, z: 1 }, 0u8);
    array.set(1, 1, 0, 200);
    let view = array.as_view::<u32>();
    assert_eq!(view.get((1usize, 1usize, 0usize)), 200u32);
    assert_eq!(view.get((0usize, 1usize, 0usize)), 0u32);
}
