use heapbuf::{HBuf, HBufError, SeekFrom};

fn read_u8(buf: &mut HBuf) -> Result<u8, HBufError> {
    let mut b = [0u8; 1];
    buf.read_exact(&mut b)?;
    Ok(b[0])
}

#[test]
fn test_read_write() {
    let mut buf = HBuf::allocate_zeroed(512);
    buf.set_u8(120, 12);
    buf.seek(SeekFrom::Start(120)).unwrap();

    assert_eq!(buf.position(), 120);
    assert_eq!(12, read_u8(&mut buf).unwrap());
    assert_eq!(buf.position(), 121);
    assert_eq!(0, read_u8(&mut buf).unwrap());
    assert_eq!(buf.position(), 122);
}

#[test]
fn test_limit() {
    let mut buf = HBuf::allocate_zeroed(113);
    assert_eq!(buf.position(), 0);
    assert_eq!(buf.limit(), 113);
    buf.write_all(&123456u128.to_le_bytes()).unwrap();
    assert_eq!(buf.position(), 16);
    buf.flip();
    assert_eq!(buf.position(), 0);
    assert_eq!(buf.limit(), 16);
    let mut b16 = [0u8; 16];
    buf.read_exact(&mut b16).unwrap();
    assert_eq!(u128::from_le_bytes(b16), 123456);
    let err = buf.read_exact(&mut b16);
    assert_eq!(err.is_err(), true);
    assert_eq!(err, Err(HBufError::UnexpectedEof));
    assert_eq!(buf.position(), 16);
    assert_eq!(buf.limit(), 16);
    let err = buf.write_all(&[1u8]);
    assert_eq!(err.is_err(), true);
    assert_eq!(err, Err(HBufError::UnexpectedEof));
    assert_eq!(buf.position(), 16);
    assert_eq!(buf.limit(), 16);

    buf.seek(SeekFrom::End(-3)).unwrap();
    assert_eq!(buf.position(), 13);
    let mut b4 = [0u8; 4];
    assert_eq!(buf.read_exact(&mut b4), Err(HBufError::UnexpectedEof));
    assert_eq!(buf.position(), 13);
    buf.reset();
    assert_eq!(buf.position(), 0);
    assert_eq!(buf.limit(), 113);
}

#[test]
fn test_seek() {
    let mut buf = HBuf::allocate_zeroed(12);
    assert_eq!(buf.seek(SeekFrom::Start(12)), Ok(12));
    assert_eq!(buf.position(), 12);
    assert_eq!(buf.seek(SeekFrom::Start(10)), Ok(10));
    assert_eq!(buf.position(), 10);
    assert_eq!(buf.seek(SeekFrom::Current(3)), Err(HBufError::UnexpectedEof));
    assert_eq!(buf.position(), 10);
    assert_eq!(buf.seek(SeekFrom::Current(-11)), Err(HBufError::UnexpectedEof));
    assert_eq!(buf.position(), 10);
    assert_eq!(buf.seek(SeekFrom::Current(-8)), Ok(2));
    assert_eq!(buf.position(), 2);
    assert_eq!(buf.seek(SeekFrom::End(12)), Err(HBufError::UnexpectedEof));
    assert_eq!(buf.position(), 2);
    assert_eq!(buf.seek(SeekFrom::Current(11)), Err(HBufError::UnexpectedEof));
    assert_eq!(buf.position(), 2);
}
