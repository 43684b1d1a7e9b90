use alloca::ScalarCell;
use alloca::SliceRegion;
use alloca::Zeroable;
use alloca::with;
use alloca::with_assume_init;
use alloca::with_slice;
use alloca::with_slice_assume_init;
use alloca::with_slice_zeroed;
use alloca::with_slice_zeroed_assume_init;
use alloca::with_zeroed;
use alloca::with_zeroed_assume_init;

#[test]
fn write_simple() {
    let x = with_slice_assume_init(4096, |mut memory: SliceRegion<i32>| {
        memory.write(0, 42);
        memory.write(1, 3);
        memory.write(3072, 4);

        assert_eq!(memory.read(0), 42);
        assert_eq!(memory.read(1), 3);
        assert_eq!(memory.read(3072), 4);

        memory.read(0) + memory.read(1) + memory.read(3072)
    });

    assert_eq!(x, 42 + 3 + 4);
}

#[test]
fn with_f32_simple() {
    with_assume_init(|mut data: ScalarCell<f32>| {
        data.write(2.0);
        assert_eq!(data.read(), 2.0);
    });
}

#[test]
fn slice_exposes_exact_count() {
    assert_eq!(with_slice(0, |r: SliceRegion<u64>| r.len()), 0);
    assert_eq!(with_slice(100, |r: SliceRegion<u64>| r.len()), 100);
}

#[test]
fn slice_cells_do_not_overlap() {
    let ok = with_slice_assume_init(8, |mut r: SliceRegion<u16>| {
        for i in 0..8 {
            r.write(i, i as u16 * 10);
        }
        (0..8).all(|i| r.read(i) == i as u16 * 10)
    });
    assert!(ok);
}

#[test]
fn slice_zeroed_reads_zero() {
    with_slice_zeroed(8, |r: SliceRegion<u32>| {
        assert_eq!(r.len(), 8);
        for i in 0..8 {
            assert_eq!(r.read(i), 0);
        }
    });
}

#[test]
fn slice_zeroed_assume_init_zero() {
    let sum = with_slice_zeroed_assume_init(16, |r: SliceRegion<i64>| {
        let mut sum: i64 = 0;
        for i in 0..16 {
            sum += r.read(i);
        }
        sum
    });
    assert_eq!(sum, 0);
}

#[test]
fn scalar_write_read() {
    let v = with(|mut c: ScalarCell<u8>| {
        c.write(7);
        c.read()
    });
    assert_eq!(v, 7);
}

#[test]
fn scalar_zeroed_reads_zero() {
    let v = with_zeroed(|c: ScalarCell<u16>| c.read());
    assert_eq!(v, 0);
}

#[test]
fn scalar_zeroed_assume_init_zero() {
    let v = with_zeroed_assume_init(|c: ScalarCell<i32>| c.read());
    assert_eq!(v, 0);
}

#[test]
fn scalar_assume_init_overwrite() {
    let v = with_assume_init(|mut c: ScalarCell<u64>| {
        c.write(123456789);
        c.read()
    });
    assert_eq!(v, 123456789);
}

#[test]
fn zeroable_zero_values() {
    assert_eq!(<u8 as Zeroable>::zero(), 0);
    assert_eq!(<u64 as Zeroable>::zero(), 0);
    assert_eq!(<i32 as Zeroable>::zero(), 0);
    assert_eq!(<isize as Zeroable>::zero(), 0);
    assert_eq!(<bool as Zeroable>::zero(), false);
}
