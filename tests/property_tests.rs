use heapbuf::{decode_le, encode_le, layout_is_valid, power_of_two, HBuf, HBufError, SeekFrom};
use std::sync::atomic::Ordering;

fn ordered(b: &HBuf) -> bool {
    b.position() <= b.limit() && b.limit() <= b.capacity()
}

#[test]
fn window_stays_ordered_through_every_operation() {
    let mut b = HBuf::allocate(64);
    assert!(ordered(&b));
    b.set_position(40);
    assert!(ordered(&b));
    b.set_limit(20);
    assert_eq!(b.position(), 20);
    assert!(ordered(&b));
    b.set_limit(64);
    assert_eq!(b.position(), 20);
    assert!(!b.try_set_limit(65));
    assert!(!b.try_set_position(65));
    assert!(ordered(&b));
    b.flip();
    assert_eq!((b.limit(), b.position()), (20, 0));
    assert!(ordered(&b));
    assert_eq!(b.write(&[1u8; 30]), 20);
    assert!(ordered(&b));
    b.reset();
    assert!(ordered(&b));
    assert_eq!(b.seek(SeekFrom::End(-4)), Ok(60));
    assert!(ordered(&b));
    assert!(b.try_set_limit(10));
    assert_eq!(b.position(), 10);
    assert!(ordered(&b));
}

#[test]
fn flip_then_reset_opens_the_whole_capacity() {
    let mut b = HBuf::allocate(100);
    b.set_limit(37);
    b.set_position(11);
    b.flip();
    b.reset();
    assert_eq!(b.limit(), 100);
    assert_eq!(b.position(), 0);
    assert_eq!(b.capacity(), 100);
}

#[test]
fn split_shares_bytes_with_parent() {
    let parent = HBuf::allocate_zeroed(32);
    let mut child = parent.split(8, 16);
    assert_eq!(child.capacity(), 16);
    assert_eq!(child.limit(), 16);
    assert_eq!(child.position(), 0);
    assert_eq!(child.as_ptr(), parent.as_ptr() + 8);
    assert_eq!(parent.ref_count(), 2);
    child.write_all(&[0xA0, 0xA1, 0xA2, 0xA3]).unwrap();
    child.set_u8(15, 0xEE);
    assert_eq!(parent.get_u8(8), 0xA0);
    assert_eq!(parent.get_u8(11), 0xA3);
    assert_eq!(parent.get_u8(23), 0xEE);
    assert_eq!(parent.get_u8(7), 0);
    assert_eq!(parent.get_u8(24), 0);
    assert_eq!(parent.position(), 0);
}

#[test]
fn try_split_past_capacity_is_none() {
    let b = HBuf::allocate(10);
    assert!(b.try_split(4, 7).is_none());
    assert!(b.try_split(usize::MAX, 2).is_none());
    let s = b.try_split(4, 6).unwrap();
    assert_eq!(s.capacity(), 6);
    assert_eq!(s.as_ptr(), b.as_ptr() + 4);
    let e = b.try_split(10, 0).unwrap();
    assert_eq!(e.capacity(), 0);
}

#[test]
fn clone_survives_drop_of_first_handle() {
    let mut a = HBuf::allocate_zeroed(16);
    a.set_limit(12);
    a.set_position(5);
    a.set_u8(3, 0x5A);
    let b = a.clone();
    assert_eq!(a.ref_count(), 2);
    assert_eq!(b.ref_count(), 2);
    a.flip();
    drop(a);
    assert_eq!(b.ref_count(), 1);
    assert_eq!(b.capacity(), 16);
    assert_eq!(b.limit(), 12);
    assert_eq!(b.position(), 5);
    assert_eq!(b.get_u8(3), 0x5A);
}

#[test]
fn aligned_view_reads_little_endian() {
    let mut b = HBuf::allocate_aligned(512, 4096);
    assert_eq!(b.as_ptr() % 4096, 0);
    b.set_u8(0, 0x44);
    let v = b.as_slice_u32().unwrap();
    assert_eq!(v.len(), 128);
    assert_eq!(v[0], 0x44);
}

#[test]
fn alignment_one_gives_no_wider_view() {
    let b = HBuf::allocate(512);
    assert_eq!(b.as_ptr() % 4, 1);
    assert!(b.as_slice_u32().is_none());
    assert!(b.as_slice_u16().is_none());
    assert_eq!(b.as_slice_u8().map(|v| v.len()), Some(512));
    let s = b.split(3, 8);
    assert!(s.as_slice_u32().is_some());
}

#[test]
fn view_length_drops_partial_element() {
    let mut b = HBuf::allocate_aligned(16, 8);
    b.set_limit(10);
    assert_eq!(b.as_slice_u32().unwrap().len(), 2);
    assert_eq!(b.as_slice_u64().unwrap().len(), 1);
    assert_eq!(b.as_slice_i8().unwrap().len(), 10);
    assert_eq!(b.as_slice().len(), 10);
}

#[test]
fn seek_current_past_limit_fails() {
    let mut b = HBuf::allocate(12);
    b.set_position(10);
    assert_eq!(b.limit(), 12);
    assert_eq!(b.seek(SeekFrom::Current(3)), Err(HBufError::UnexpectedEof));
    assert_eq!(b.position(), 10);
    assert_eq!(b.seek(SeekFrom::Current(2)), Ok(12));
    assert_eq!(b.seek(SeekFrom::End(-13)), Err(HBufError::UnexpectedEof));
    assert_eq!(b.seek(SeekFrom::End(i64::MIN)), Err(HBufError::UnexpectedEof));
    assert_eq!(b.seek(SeekFrom::Current(i64::MAX)), Err(HBufError::UnexpectedEof));
    assert_eq!(b.seek(SeekFrom::Start(13)), Err(HBufError::UnexpectedEof));
    assert_eq!(b.position(), 12);
    assert_eq!(b.seek(SeekFrom::End(0)), Ok(12));
    assert_eq!(b.seek(SeekFrom::Start(0)), Ok(0));
}

#[test]
fn exact_transfers_all_or_nothing() {
    let mut b = HBuf::allocate_zeroed(8);
    b.set_position(5);
    assert_eq!(b.write_all(&[1, 2, 3, 4]), Err(HBufError::UnexpectedEof));
    assert_eq!(b.position(), 5);
    assert_eq!(b.get_u8(5), 0);
    assert_eq!(b.write_all(&[1, 2, 3]), Ok(()));
    assert_eq!(b.position(), 8);
    b.set_position(5);
    let mut out = [9u8; 4];
    assert_eq!(b.read_exact(&mut out), Err(HBufError::UnexpectedEof));
    assert_eq!(out, [9u8; 4]);
    assert_eq!(b.position(), 5);
    let mut out = [9u8; 3];
    assert_eq!(b.read_exact(&mut out), Ok(()));
    assert_eq!(out, [1, 2, 3]);
    assert_eq!(b.position(), 8);
    assert_eq!(b.read_exact(&mut []), Ok(()));
    assert_eq!(b.write_all(&[]), Ok(()));
}

#[test]
fn partial_read_and_write_move_what_fits() {
    let mut b = HBuf::allocate_zeroed(6);
    b.set_position(2);
    assert_eq!(b.write(&[7, 8, 9, 10, 11, 12]), 4);
    assert_eq!(b.position(), 6);
    assert_eq!(b.write(&[1]), 0);
    b.set_position(3);
    let mut out = [0u8; 5];
    assert_eq!(b.read(&mut out), 3);
    assert_eq!(out, [8, 9, 10, 0, 0]);
    assert_eq!(b.position(), 6);
    b.set_position(1);
    let mut tail = vec![42u8];
    assert_eq!(b.read_to_end(&mut tail), 5);
    assert_eq!(tail, vec![42, 0, 7, 8, 9, 10]);
    assert_eq!(b.position(), 6);
    assert_eq!(b.read_to_end(&mut tail), 0);
}

#[test]
fn allocation_errors() {
    assert_eq!(HBuf::try_allocate(0).err(), Some(HBufError::ZeroSize));
    assert_eq!(HBuf::try_allocate_zeroed(0).err(), Some(HBufError::ZeroSize));
    assert_eq!(HBuf::try_allocate_aligned(8, 3).err(), Some(HBufError::LayoutError));
    assert_eq!(HBuf::try_allocate_aligned(8, 0).err(), Some(HBufError::LayoutError));
    assert_eq!(HBuf::try_allocate_aligned_zeroed(0, 3).err(), Some(HBufError::ZeroSize));
    let max = isize::MAX as usize;
    assert_eq!(HBuf::try_allocate_aligned(max, 2).err(), Some(HBufError::LayoutError));
    assert_eq!(HBuf::try_allocate(max + 1).err(), Some(HBufError::LayoutError));
    assert_eq!(HBuf::try_allocate(max).err(), Some(HBufError::OutOfMemory));
    let b = HBuf::try_allocate_aligned_zeroed(24, 64).unwrap();
    assert_eq!(b.as_ptr(), 64);
    assert_eq!((b.capacity(), b.limit(), b.position()), (24, 24, 0));
    assert!(b.has_destructor());
    assert_eq!(b.ref_count(), 1);
    assert_eq!(b.as_slice(), vec![0u8; 24]);
}

#[test]
fn layout_rules() {
    assert!(power_of_two(1));
    assert!(power_of_two(4096));
    assert!(!power_of_two(0));
    assert!(!power_of_two(12));
    assert!(layout_is_valid(10, 8));
    assert!(!layout_is_valid(10, 6));
    assert!(!layout_is_valid(isize::MAX as usize, 4));
    assert!(layout_is_valid(isize::MAX as usize - 3, 4));
}

#[test]
fn error_names() {
    assert_eq!(HBufError::ZeroSize.name(), "HBufError::ZeroSize");
    assert_eq!(HBufError::OutOfMemory.name(), "HBufError::OutOfMemory");
    assert_eq!(HBufError::LayoutError.name(), "HBufError::LayoutError");
    assert_eq!(HBufError::UnexpectedEof.name(), "HBufError::UnexpectedEof");
}

#[test]
fn typed_values_round_trip_at_any_alignment() {
    let mut b = HBuf::allocate_zeroed(64);
    b.set_i32(1, -5);
    assert_eq!(b.get_i32(1), -5);
    assert_eq!(b.get_u8(1), 0xFB);
    assert_eq!(b.get_u8(4), 0xFF);
    b.set_u16(7, 0xBEEF);
    assert_eq!(b.get_u8(7), 0xEF);
    assert_eq!(b.get_u8(8), 0xBE);
    assert_eq!(b.get_i16(7), 0xBEEFu16 as i16);
    b.set_i128(20, -2);
    assert_eq!(b.get_i128(20), -2);
    assert_eq!(b.get_u128(20), u128::MAX - 1);
    b.set_u64(40, 0x0102_0304_0506_0708);
    assert_eq!(b.get_u32(40), 0x0506_0708);
    assert_eq!(b.get_u32(44), 0x0102_0304);
    b.set_isize(50, -1);
    assert_eq!(b.get_usize(50), usize::MAX);
    b.set_i8(63, -128);
    assert_eq!(b.get_u8(63), 0x80);
}

#[test]
fn atomic_operations() {
    let b = HBuf::allocate_aligned_zeroed(32, 8);
    b.atomic_store_u32(4, 7, Ordering::Release);
    assert_eq!(b.atomic_load_u32(4, Ordering::Acquire), 7);
    assert_eq!(b.atomic_load_u64(0, Ordering::SeqCst), 7u64 << 32);
    assert_eq!(b.atomic_swap_u32(4, 9, Ordering::AcqRel), 7);
    assert_eq!(
        b.atomic_compare_and_exchange_u32(4, 9, 11, Ordering::SeqCst, Ordering::SeqCst),
        Ok(9)
    );
    assert_eq!(
        b.atomic_compare_and_exchange_u32(4, 9, 13, Ordering::SeqCst, Ordering::Relaxed),
        Err(11)
    );
    assert_eq!(
        b.atomic_compare_and_exchange_weak_u32(4, 11, 12, Ordering::SeqCst, Ordering::Relaxed),
        Ok(11)
    );
    assert_eq!(b.get_u32(4), 12);
    assert_eq!(b.get_u32(0), 0);
    b.store_u8(9, 0xAB, Ordering::SeqCst);
    assert_eq!(b.load_u8(9, Ordering::SeqCst), 0xAB);
    assert_eq!(b.load_u8(8, Ordering::SeqCst), 0);
    assert_eq!(b.swap_i8(9, -1, Ordering::SeqCst), 0xABu8 as i8);
    assert_eq!(b.load_u8(9, Ordering::SeqCst), 0xFF);
    b.store_i16(10, -300, Ordering::SeqCst);
    assert_eq!(b.atomic_load_i16(10, Ordering::SeqCst), -300);
    assert_eq!(b.compare_and_exchange_u16(10, 1, 2, Ordering::SeqCst, Ordering::SeqCst), Err((-300i16) as u16));
    b.atomic_store_i64(16, -9, Ordering::SeqCst);
    assert_eq!(b.atomic_load_i64(16, Ordering::SeqCst), -9);
    b.atomic_store_usize(24, 77, Ordering::SeqCst);
    assert_eq!(b.atomic_swap_isize(24, -3, Ordering::SeqCst), 77);
    assert_eq!(b.atomic_load_isize(24, Ordering::SeqCst), -3);
}

#[test]
fn atomics_from_many_handles() {
    let b = HBuf::allocate_aligned_zeroed(8, 8);
    let handles: Vec<HBuf> = (0..4).map(|_| b.clone()).collect();
    for h in &handles {
        for _ in 0..100 {
            loop {
                let cur = h.atomic_load_u32(0, Ordering::SeqCst);
                if h
                    .atomic_compare_and_exchange_u32(0, cur, cur + 1, Ordering::SeqCst, Ordering::SeqCst)
                    .is_ok()
                {
                    break;
                }
            }
        }
    }
    assert_eq!(b.atomic_load_u32(0, Ordering::SeqCst), 400);
    assert_eq!(b.get_u32(4), 0);
}


#[test]
fn little_endian_codec() {
    assert_eq!(decode_le(&[0x44, 0, 0, 0]), 0x44);
    assert_eq!(decode_le(&[0x23, 0x22, 0x44, 0x25]), 0x2544_2223);
    assert_eq!(decode_le(&[]), 0);
    assert_eq!(decode_le(&[0xff; 16]), u128::MAX);
    assert_eq!(encode_le(0x3244, 2), vec![0x44, 0x32]);
    assert_eq!(encode_le(0x1_0203, 2), vec![0x03, 0x02]);
    assert_eq!(encode_le(7, 0), Vec::<u8>::new());
    assert_eq!(encode_le(u128::MAX, 16), vec![0xff; 16]);
}

#[test]
fn checked_atomic_views() {
    let b = HBuf::allocate_aligned_zeroed(16, 8);
    assert!(b.as_atomic_u32(2).is_none());
    assert!(b.as_atomic_u32(13).is_none());
    assert!(b.as_atomic_u64(usize::MAX).is_none());
    let v = b.as_atomic_u32(12).unwrap();
    assert_eq!(v.index(), 12);
    v.store(5, Ordering::SeqCst);
    assert_eq!(v.swap(6, Ordering::SeqCst), 5);
    assert_eq!(v.compare_exchange(6, 7, Ordering::SeqCst, Ordering::SeqCst), Ok(6));
    assert_eq!(v.compare_exchange(6, 8, Ordering::SeqCst, Ordering::SeqCst), Err(7));
    assert_eq!(b.get_u32(12), 7);
    let all = b.as_slice_atomic_u16().unwrap();
    assert_eq!(all.len(), 8);
    assert_eq!(all[6].index(), 12);
    assert_eq!(all[6].load(Ordering::SeqCst), 7);
    let odd = b.split(1, 8);
    assert!(odd.as_slice_atomic_u16().is_none());
    assert_eq!(odd.as_slice_atomic_u8().map(|v| v.len()), Some(8));
    assert!(odd.as_atomic_i16(1).is_some());
    assert!(b.as_atomic_usize(8).is_some());
}
