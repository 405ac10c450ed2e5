//! The shared allocation behind every handle of one buffer, and the one
//! entry per allocation that decides how it is released.
//!
//! The bytes are stored little-endian in 64-bit atomic words. Byte `i` of an
//! allocation whose first byte sits at address `a` is lane `(a + i) % 8` of
//! word `(a % 8 + i) / 8`, so that a naturally aligned value of 1, 2, 4 or 8
//! bytes never straddles two words and can be accessed atomically.

use std::sync::atomic::{AtomicU64, Ordering};
use std::sync::Arc;
use vstd::prelude::*;

verus! {

/// A caller's object that is handed over together with adopted memory.
///
/// When the buffer is made, `register` tells the object the address and
/// size of the memory it will release. The object is then dropped exactly
/// once: when the last buffer that shares the memory (through clones or
/// splits) is dropped, on whichever thread drops it. Its `Drop` is the
/// caller's release action.
pub trait DynDestructor: Send + Sync {
    /// Receives the address of the memory's first byte and its size in bytes.
    fn register(&mut self, address: usize, size: usize);
}

/// How an allocation is released once no buffer refers to it any more.
pub enum HBufDestructorInfo {
    /// Memory that this library allocated with the given size and
    /// alignment; it is freed with the entry.
    Layout { size: usize, align: usize },
    /// A caller's destructor object, dropped with the entry.
    DynDestructor(Box<dyn DynDestructor>),
}

/// The registry entry of one allocation: its words, where its first byte
/// sits, its size, and its release action. Every handle of the allocation
/// holds the entry through one shared `Arc`.
pub struct HBufDestructor {
    words: Vec<AtomicU64>,
    address: usize,
    capacity: usize,
    destructor_info: Option<HBufDestructorInfo>,
}

/// The number of bits that a value of `width` bytes spans.
pub(crate) open spec fn lane_bits(width: nat) -> nat {
    8 * width
}

/// Whether `width` is the size of an atomic integer that fits a word.
pub open spec fn is_lane_width(width: nat) -> bool {
    width == 1 || width == 2 || width == 4 || width == 8
}

/// The largest value that `width` bytes hold.
pub open spec fn lane_max(width: nat) -> u64 {
    if width == 1 {
        0xffu64
    } else if width == 2 {
        0xffffu64
    } else if width == 4 {
        0xffff_ffffu64
    } else {
        0xffff_ffff_ffff_ffffu64
    }
}

/// Whether an ordering may be used for a load (`Release` and `AcqRel` may not).
pub open spec fn is_load_ordering(order: Ordering) -> bool {
    !(order is Release) && !(order is AcqRel)
}

/// Whether an ordering may be used for a store (`Acquire` and `AcqRel` may not).
pub open spec fn is_store_ordering(order: Ordering) -> bool {
    !(order is Acquire) && !(order is AcqRel)
}

/// The ordering of the load half of a read-modify-write with ordering `order`.
pub open spec fn load_half(order: Ordering) -> Ordering {
    match order {
        Ordering::Release => Ordering::Relaxed,
        Ordering::AcqRel => Ordering::Acquire,
        _ => order,
    }
}

/// A change of one lane of a word: put `value` into the `mask`-wide lane at
/// bit `shift`, if the lane holds `expected` (or whatever it holds, when
/// `expected` is `None`).
#[derive(Clone, Copy)]
pub(crate) struct LaneUpdate {
    pub shift: u64,
    pub mask: u64,
    pub value: u64,
    pub expected: Option<u64>,
}

/// The lane of `word` that `u` speaks of.
pub(crate) open spec fn lane_of(u: LaneUpdate, word: u64) -> u64 {
    (word >> u.shift) & u.mask
}

/// What `u` makes of `word`: the new word, or `None` when the lane does not
/// hold the expected value.
pub(crate) open spec fn lane_step(u: LaneUpdate, word: u64) -> Option<u64> {
    match u.expected {
        Some(e) if lane_of(u, word) != e => None,
        _ => Some((word & !(u.mask << u.shift)) | (u.value << u.shift)),
    }
}

/// Computes `lane_step(*u, word)`.
pub(crate) fn apply_lane_update(u: &LaneUpdate, word: u64) -> (r: Option<u64>)
    requires
        u.shift < 64,
    ensures
        r == lane_step(*u, word),
{
    match u.expected {
        Some(e) => {
            if (word >> u.shift) & u.mask != e {
                return None;
            }
        },
        None => {},
    }
    Some((word & !(u.mask << u.shift)) | (u.value << u.shift))
}

/// Relies on `AtomicU64::fetch_update`: it applies the step to the word's
/// current value in a compare-exchange loop. It returns `Ok(previous)` once a
/// step gives `Some` (and that value was stored in place of `previous`), or
/// `Err(previous)` as soon as a step on `previous` gives `None`. A fetch
/// ordering of `Release` or `AcqRel` makes it panic.
#[verifier::external_body]
fn update_word(word: &AtomicU64, u: LaneUpdate, set_order: Ordering, fetch_order: Ordering) -> (r:
    Result<u64, u64>)
    requires
        u.shift < 64,
        is_load_ordering(fetch_order),
    ensures
        match r {
            Ok(prev) => lane_step(u, prev) is Some,
            Err(prev) => lane_step(u, prev) is None,
        },
{
    word.fetch_update(set_order, fetch_order, |w| apply_lane_update(&u, w))
}

/// Relies on `Arc::clone`: the new handle points at the same entry.
#[verifier::external_body]
pub(crate) fn share_entry(entry: &Arc<HBufDestructor>) -> (r: Arc<HBufDestructor>)
    ensures
        r == *entry,
{
    Arc::clone(entry)
}

/// Relies on `Arc::strong_count`: the number of handles to the entry, the
/// one passed in among them, so at least one. Other threads may change it at
/// any moment.
#[verifier::external_body]
pub(crate) fn entry_handle_count(entry: &Arc<HBufDestructor>) -> (r: usize)
    ensures
        r >= 1,
{
    Arc::strong_count(entry)
}

/// The largest value of `width` bytes, for a lane width.
pub(crate) fn lane_mask(width: usize) -> (r: u64)
    requires
        is_lane_width(width as nat),
    ensures
        r == lane_max(width as nat),
{
    if width == 1 {
        0xff
    } else if width == 2 {
        0xffff
    } else if width == 4 {
        0xffff_ffff
    } else {
        0xffff_ffff_ffff_ffff
    }
}

pub(crate) proof fn lemma_masked_at_most(x: u64, m: u64)
    ensures
        x & m <= m,
{
    assert(x & m <= m) by (bit_vector);
}

impl HBufDestructor {
    #[verifier::type_invariant]
    spec fn inv(self) -> bool {
        &&& self.address % 8 + self.capacity <= 8 * self.words@.len()
        &&& self.address + self.capacity <= usize::MAX
    }

    /// The address of the allocation's first byte.
    pub closed spec fn spec_address(&self) -> nat {
        self.address as nat
    }

    /// The number of bytes in the allocation.
    pub closed spec fn spec_capacity(&self) -> nat {
        self.capacity as nat
    }

    /// Whether a release action is registered.
    pub closed spec fn spec_has_destructor(&self) -> bool {
        self.destructor_info is Some
    }

    /// An entry over `words`, whose first byte sits at `address`.
    pub(crate) fn new(
        words: Vec<AtomicU64>,
        address: usize,
        capacity: usize,
        destructor_info: Option<HBufDestructorInfo>,
    ) -> (r: HBufDestructor)
        requires
            address % 8 + capacity <= 8 * words@.len(),
            address + capacity <= usize::MAX,
        ensures
            r.spec_address() == address,
            r.spec_capacity() == capacity,
            r.spec_has_destructor() == destructor_info is Some,
    {
        HBufDestructor { words, address, capacity, destructor_info }
    }

    pub(crate) fn address(&self) -> (r: usize)
        ensures
            r == self.spec_address(),
            r + self.spec_capacity() <= usize::MAX,
    {
        proof {
            use_type_invariant(self);
        }
        self.address
    }

    pub(crate) fn capacity(&self) -> (r: usize)
        ensures
            r == self.spec_capacity(),
            self.spec_address() + r <= usize::MAX,
    {
        proof {
            use_type_invariant(self);
        }
        self.capacity
    }

    pub(crate) fn has_destructor(&self) -> (r: bool)
        ensures
            r == self.spec_has_destructor(),
    {
        self.destructor_info.is_some()
    }

    /// Where the `width` bytes from byte `index` sit: a word and a bit shift.
    fn locate(&self, index: usize, width: usize) -> (r: (usize, u64))
        requires
            is_lane_width(width as nat),
            index + width <= self.spec_capacity(),
            (self.spec_address() + index) % (width as int) == 0,
        ensures
            r.0 == (self.spec_address() % 8 + index) / 8,
            r.1 == ((self.spec_address() + index) % 8) * 8,
            r.0 < self.words@.len(),
            r.1 < 64,
            r.1 + lane_bits(width as nat) <= 64,
    {
        proof {
            use_type_invariant(self);
        }
        let cell = self.address % 8 + index;
        let lane = (self.address + index) % 8;
        assert(cell % 8 == lane) by {
            assert((self.address % 8 + index) % 8 == (self.address + index) % 8) by (nonlinear_arith);
        }
        assert(lane + width <= 8) by (nonlinear_arith)
            requires
                is_lane_width(width as nat),
                (self.address + index) % (width as int) == 0,
                lane == (self.address + index) % 8,
        ;
        assert(cell / 8 < self.words@.len()) by (nonlinear_arith)
            requires
                cell % 8 + width <= 8,
                cell + width <= 8 * self.words@.len(),
                width >= 1,
        ;
        (cell / 8, (lane as u64) * 8)
    }

    /// Reads the `width` bytes from byte `index` as one little-endian value,
    /// with one atomic load.
    pub(crate) fn load_lane(&self, index: usize, width: usize, order: Ordering) -> (r: u64)
        requires
            is_lane_width(width as nat),
            index + width <= self.spec_capacity(),
            (self.spec_address() + index) % (width as int) == 0,
            is_load_ordering(order),
        ensures
            r <= lane_max(width as nat),
    {
        let (w, shift) = self.locate(index, width);
        let mask = lane_mask(width);
        let word = self.words[w].load(order);
        proof {
            lemma_masked_at_most(word >> shift, mask);
        }
        (word >> shift) & mask
    }

    /// Puts `value` into the `width` bytes from byte `index` in one atomic
    /// step, if they hold `expected` (always, when `expected` is `None`).
    /// Returns what the bytes held before: as `Ok` when the value was stored,
    /// as `Err` when it was not.
    pub(crate) fn update_lane(
        &self,
        index: usize,
        width: usize,
        expected: Option<u64>,
        value: u64,
        set_order: Ordering,
        fetch_order: Ordering,
    ) -> (r: Result<u64, u64>)
        requires
            is_lane_width(width as nat),
            index + width <= self.spec_capacity(),
            (self.spec_address() + index) % (width as int) == 0,
            value <= lane_max(width as nat),
            is_load_ordering(fetch_order),
        ensures
            match r {
                Ok(prev) => prev <= lane_max(width as nat) && (expected is None || expected == Some(
                    prev)),
                Err(prev) => prev <= lane_max(width as nat) && expected is Some && expected != Some(
                    prev),
            },
    {
        let (w, shift) = self.locate(index, width);
        let mask = lane_mask(width);
        let u = LaneUpdate { shift, mask, value, expected };
        match update_word(&self.words[w], u, set_order, fetch_order) {
            Ok(prev) => {
                proof {
                    lemma_masked_at_most(prev >> shift, mask);
                }
                Ok((prev >> shift) & mask)
            },
            Err(prev) => {
                proof {
                    lemma_masked_at_most(prev >> shift, mask);
                }
                Err((prev >> shift) & mask)
            },
        }
    }

    /// Reads byte `index`.
    pub(crate) fn load_byte(&self, index: usize) -> (r: u8)
        requires
            index < self.spec_capacity(),
    {
        let v = self.load_lane(index, 1, Ordering::Relaxed);
        v as u8
    }

    /// Writes byte `index`, leaving the other bytes of its word as they are.
    pub(crate) fn store_byte(&self, index: usize, value: u8)
        requires
            index < self.spec_capacity(),
    {
        let _ = self.update_lane(index, 1, None, value as u64, Ordering::Relaxed, Ordering::Relaxed);
    }
}

} // verus!
