use heapbuf::{DynDestructor, HBuf, HBufDestructor};
use std::sync::atomic::{AtomicUsize, Ordering};
use std::sync::Arc;

fn assert_sync<T: Sync>() {}

/// Counts how often it is dropped, and passes on, when dropped, the address
/// and size that the library registered with it.
struct Recorder {
    address: usize,
    size: usize,
    drops: Arc<AtomicUsize>,
    seen_address: Arc<AtomicUsize>,
    seen_size: Arc<AtomicUsize>,
    step: usize,
}

impl Drop for Recorder {
    fn drop(&mut self) {
        self.drops.fetch_add(self.step, Ordering::SeqCst);
        self.seen_address.store(self.address, Ordering::SeqCst);
        self.seen_size.store(self.size, Ordering::SeqCst);
    }
}

impl DynDestructor for Recorder {
    fn register(&mut self, address: usize, size: usize) {
        self.address = address;
        self.size = size;
    }
}

struct Seen {
    drops: Arc<AtomicUsize>,
    address: Arc<AtomicUsize>,
    size: Arc<AtomicUsize>,
}

fn recorder(step: usize) -> (Recorder, Seen) {
    let seen = Seen {
        drops: Arc::new(AtomicUsize::new(0)),
        address: Arc::new(AtomicUsize::new(0)),
        size: Arc::new(AtomicUsize::new(0)),
    };
    let r = Recorder {
        address: 0,
        size: 0,
        drops: seen.drops.clone(),
        seen_address: seen.address.clone(),
        seen_size: seen.size.clone(),
        step,
    };
    (r, seen)
}

#[test]
fn destructor_test_sync() {
    assert_sync::<HBufDestructor>();
}

#[test]
fn test_destructor_called() {
    let x = vec![0u8; 16];
    let (r, seen) = recorder(1);
    let hb = HBuf::from_raw_parts_with_destructor(&x, Box::new(r));
    assert!(hb.has_destructor());
    let ptr = hb.as_ptr();
    let hb = std::hint::black_box(hb);
    drop(hb);
    assert_eq!(ptr, seen.address.load(Ordering::SeqCst));
    assert_eq!(16, seen.size.load(Ordering::SeqCst));
    assert_eq!(1, seen.drops.load(Ordering::SeqCst));
}

#[test]
fn test_dyn_destructor_called() {
    let x = vec![0u8; 16];

    let (des1, seen1) = recorder(1);
    let hb = HBuf::from_raw_parts_with_destructor(&x, Box::new(des1));
    let ptr = hb.as_ptr();
    let hb = std::hint::black_box(hb);
    drop(hb);
    assert_eq!(ptr, seen1.address.load(Ordering::SeqCst));
    assert_eq!(16, seen1.size.load(Ordering::SeqCst));

    let (des2, seen2) = recorder(2);
    let hb = HBuf::from_raw_parts_with_destructor(&x, Box::new(des2));
    let ptr = hb.as_ptr();
    let hb = std::hint::black_box(hb);
    drop(hb);
    assert_eq!(ptr, seen2.address.load(Ordering::SeqCst));
    assert_eq!(16, seen2.size.load(Ordering::SeqCst));

    assert_eq!(seen1.drops.load(Ordering::SeqCst), 1);
    assert_eq!(seen2.drops.load(Ordering::SeqCst), 2);
}

#[test]
fn destructor_fires_once_after_last_of_ten_clones() {
    let data = vec![7u8; 24];
    let (r, seen) = recorder(1);
    let hb = HBuf::from_raw_parts_with_destructor(&data, Box::new(r));
    let ptr = hb.as_ptr();
    let mut clones: Vec<HBuf> = (0..9).map(|_| hb.clone()).collect();
    clones.push(hb);
    assert_eq!(clones[0].ref_count(), 10);
    let last = clones.pop().unwrap();
    drop(clones);
    assert_eq!(seen.drops.load(Ordering::SeqCst), 0);
    assert_eq!(last.ref_count(), 1);
    assert_eq!(last.get_u8(23), 7);
    drop(last);
    assert_eq!(seen.drops.load(Ordering::SeqCst), 1);
    assert_eq!(seen.address.load(Ordering::SeqCst), ptr);
    assert_eq!(seen.size.load(Ordering::SeqCst), 24);
}

#[test]
fn split_keeps_the_allocation_alive() {
    let data = vec![1u8, 2, 3, 4];
    let (r, seen) = recorder(1);
    let hb = HBuf::from_raw_parts_with_destructor(&data, Box::new(r));
    let part = hb.split(2, 2);
    assert!(part.has_destructor());
    assert_eq!(hb.ref_count(), 2);
    drop(hb);
    assert_eq!(seen.drops.load(Ordering::SeqCst), 0);
    assert_eq!(part.get_u8(0), 3);
    assert_eq!(part.get_u8(1), 4);
    drop(part);
    assert_eq!(seen.drops.load(Ordering::SeqCst), 1);
}
#[test]
fn adopted_without_destructor() {
    let data = vec![9u8, 8, 7];
    let hb = HBuf::from_raw_parts(&data);
    assert!(!hb.has_destructor());
    assert_eq!(hb.capacity(), 3);
    assert_eq!(hb.limit(), 3);
    assert_eq!(hb.position(), 0);
    assert_eq!(hb.as_slice(), vec![9u8, 8, 7]);
    let empty = HBuf::from_raw_parts(&[]);
    assert_eq!(empty.capacity(), 0);
}
