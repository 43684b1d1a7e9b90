use alloca::align::aligned_offset;
use alloca::align::slice_bytes_needed;

#[test]
fn aligned_offset_exact_values() {
    assert_eq!(aligned_offset(0, 1), 0);
    assert_eq!(aligned_offset(5, 1), 0);
    assert_eq!(aligned_offset(0, 8), 0);
    assert_eq!(aligned_offset(1, 8), 7);
    assert_eq!(aligned_offset(8, 8), 0);
    assert_eq!(aligned_offset(13, 4), 3);
    assert_eq!(aligned_offset(15, 16), 1);
}

#[test]
fn aligned_offset_lands_on_multiple() {
    for align in [1usize, 2, 4, 8, 16, 32] {
        for base in 0usize..100 {
            let off = aligned_offset(base, align);
            assert!(off < align);
            assert_eq!((base + off) % align, 0);
        }
    }
}

#[test]
fn slice_bytes_needed_exact_values() {
    assert_eq!(slice_bytes_needed(512, 4, 8), Some(512 * 4 + 7));
    assert_eq!(slice_bytes_needed(0, 4, 8), Some(7));
    assert_eq!(slice_bytes_needed(3, 0, 2), Some(1));
    assert_eq!(slice_bytes_needed(1, 1, 1), Some(1));
}

#[test]
fn slice_bytes_needed_overflow() {
    assert_eq!(slice_bytes_needed(usize::MAX, 2, 1), None);
    assert_eq!(slice_bytes_needed(usize::MAX, 1, 2), None);
    assert_eq!(slice_bytes_needed(usize::MAX, 1, 1), Some(usize::MAX));
}
