use heapbuf::HBuf;
use std::sync::atomic::Ordering;

#[test]
pub fn test() {
    let mut x: HBuf = HBuf::allocate(512);
    let _: Vec<u8> = x.as_slice();
    x.set_u8(0, 1u8);
    assert_eq!(1, x.get_u8(0));

    // `None` unless the first byte is aligned for u32; alignment 1 promises nothing more.
    let _: Option<Vec<u32>> = x.as_slice_u32();
    let x: HBuf = HBuf::allocate_aligned(512, 4);
    let _: Vec<u32> = x.as_slice_u32().unwrap();
    let _: Vec<i16> = x.as_slice_i16().unwrap();

    // Adopting a copy of a caller's bytes.
    let some_vec: Vec<u8> = vec![123u8; 4096];
    let buf: HBuf = HBuf::from_raw_parts(&some_vec);
    assert_eq!(buf.get_u8(4095), 123);
    drop(buf);

    // Reference counting.
    let mut x: HBuf = HBuf::allocate_aligned(31, 4);
    let x2 = x.clone();
    assert_eq!(x.ref_count(), 2);
    assert_eq!(x2.ref_count(), 2);
    x.set_u8(0, 1);
    drop(x);
    assert_eq!(x2.ref_count(), 1);
    assert_eq!(x2.get_u8(0), 1);
    drop(x2);

    // Handles see each other's atomic stores.
    let x: HBuf = HBuf::allocate_aligned_zeroed(32, 4);
    let x2 = x.clone();
    assert_eq!(x2.atomic_load_u32(4, Ordering::SeqCst), 0);
    x.atomic_store_u32(4, 420, Ordering::SeqCst);
    assert_eq!(x2.atomic_load_u32(4, Ordering::SeqCst), 420);
    // `None` when the alignment does not fit.
    let _ = x.as_slice_atomic_u32().unwrap();
    let _ = x.as_slice_atomic_u16().unwrap();
    let _ = x.as_atomic_u32(4).unwrap();
    x.as_atomic_u32(8).unwrap().store(24, Ordering::SeqCst);
    assert_eq!(24, x.as_slice_u32().unwrap()[2]);

    // A record of a u32 and a u64, written and read field by field.
    let mut x: HBuf = HBuf::allocate_aligned_zeroed(16 * 2, 16);
    x.set_u32(0, 12);
    x.set_u64(8, 24);
    assert_eq!(x.get_u32(0), 12);
    assert_eq!(x.get_u64(8), 24);
    assert_eq!(x.get_u32(16), 0);
    assert_eq!(x.get_u64(24), 0);
    assert_eq!(x.as_slice_u128().map(|s| s.len()), Some(2));
}
