use heapbuf::HBuf;
use uintx::u24;

fn assert_sync<T: Sync>() {}

#[test]
fn buf_test_sync() {
    assert_sync::<HBuf>();
}

#[test]
fn test_alloc() {
    let mut buf = HBuf::try_allocate_aligned(512, 4096).unwrap();
    assert_eq!(0, buf.as_ptr() % 4096);
    println!("{}", buf.get_u8(0));
    buf.set_u8(0, 0x44);
    println!("{}", buf.get_u8(0));
    let u = buf.as_slice_u32().unwrap();
    assert_eq!(u.len(), 512 / 4);
    assert_eq!(u[0], 0x44);
    buf.set_u8(1, 0x32);
    let u = buf.as_slice_u32().unwrap();

    assert_eq!(u[0], 0x3244);
    assert_eq!(8usize / 3usize, 2usize);

    let f = half::f16::from_bits(buf.as_slice_u16().unwrap()[0]);

    assert_eq!("0.19580078", format!("{}", f));
    drop(buf);
}

#[test]
fn test_unaligned() {
    let mut buf = HBuf::allocate(512);
    buf.set_u8(0, 0x24);
    buf.set_u8(1, 0x23);
    buf.set_u8(2, 0x22);
    buf.set_u8(3, 0x44);
    buf.set_u8(4, 0x25);

    let x = buf.split(1, buf.capacity() - 1);
    let z = x.get_u32(0);
    assert_eq!(z, 0x25442223u32.to_le());
    assert!(x.as_slice_u32().is_none());
    assert!(x.as_slice_u8().is_some());
    let n = u24::from_le_bytes([x.get_u8(0), x.get_u8(1), x.get_u8(2)]);
    assert_eq!(n, u24::from_ne_bytes([0x23, 0x22, 0x44]));
}
