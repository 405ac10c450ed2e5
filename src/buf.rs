//! The buffer handle: a window (`capacity`, `limit`, `position`) on a shared
//! allocation, and the operations that move the window and copy bytes
//! through it.

use crate::error::HBufError;
use crate::layout::{allocation_address, layout_is_valid, lemma_layout_fits_address_space, valid_layout};
use crate::memory::{
    entry_handle_count, is_lane_width, is_load_ordering, lane_max, share_entry, DynDestructor,
    HBufDestructor, HBufDestructorInfo,
};
use std::sync::atomic::{AtomicU64, Ordering};
use std::sync::Arc;
use vstd::prelude::*;

verus! {

/// The window of a buffer, as numbers.
pub struct HBufView {
    /// The address of the buffer's first byte.
    pub address: nat,
    /// The number of bytes the buffer spans; fixed when it is made.
    pub capacity: nat,
    /// The number of bytes that are currently usable.
    pub limit: nat,
    /// The cursor of stream-style reads, writes and seeks.
    pub position: nat,
}

impl HBufView {
    /// `position <= limit <= capacity`, which every buffer keeps.
    pub open spec fn well_formed(self) -> bool {
        self.position <= self.limit <= self.capacity
    }

    /// The number of bytes between the position and the limit.
    pub open spec fn remaining(self) -> int {
        self.limit - self.position
    }
}

/// The window of a buffer of `size` bytes made at `address`.
pub open spec fn fresh_view(address: nat, size: nat) -> HBufView {
    HBufView { address, capacity: size, limit: size, position: 0 }
}

/// The window after the limit is set to `n`: a position beyond `n` moves
/// back to `n`.
pub open spec fn with_limit(v: HBufView, n: nat) -> HBufView {
    HBufView {
        limit: n,
        position: if v.position <= n {
            v.position
        } else {
            n
        },
        ..v
    }
}

/// The window after the position is set to `p`.
pub open spec fn with_position(v: HBufView, p: nat) -> HBufView {
    HBufView { position: p, ..v }
}

/// The window after a flip: the limit moves to the position, the position
/// to 0.
pub open spec fn flipped(v: HBufView) -> HBufView {
    HBufView { limit: v.position, position: 0, ..v }
}

/// The window after a reset: the limit moves to the capacity, the position
/// to 0.
pub open spec fn reopened(v: HBufView) -> HBufView {
    HBufView { limit: v.capacity, position: 0, ..v }
}

/// How many bytes a read or write of `requested` bytes moves when
/// `remaining` bytes are left before the limit.
pub open spec fn transfer_len(requested: int, remaining: int) -> int {
    if requested < remaining {
        requested
    } else {
        remaining
    }
}

/// Where a seek is measured from, and by how much.
#[derive(Debug, Clone, Copy, PartialEq, Eq, Structural)]
pub enum SeekFrom {
    /// An absolute position.
    Start(u64),
    /// An offset from the limit.
    End(i64),
    /// An offset from the current position.
    Current(i64),
}

/// The position that a seek asks for.
pub open spec fn seek_target(v: HBufView, pos: SeekFrom) -> int {
    match pos {
        SeekFrom::Start(p) => p as int,
        SeekFrom::End(p) => v.limit + p,
        SeekFrom::Current(p) => v.position + p,
    }
}

/// Whether a seek stays within `[0, limit]`.
pub open spec fn seek_in_bounds(v: HBufView, pos: SeekFrom) -> bool {
    0 <= seek_target(v, pos) <= v.limit
}

/// A handle on a shared allocation, with a window of its own.
///
/// Clones and splits share the allocation and its registry entry; each has
/// its own `capacity`, `limit` and `position`. The allocation is released
/// when the last handle is dropped.
pub struct HBuf {
    entry: Arc<HBufDestructor>,
    offset: usize,
    capacity: usize,
    limit: usize,
    position: usize,
}

impl View for HBuf {
    type V = HBufView;

    closed spec fn view(&self) -> HBufView {
        HBufView {
            address: (self.entry.spec_address() + self.offset) as nat,
            capacity: self.capacity as nat,
            limit: self.limit as nat,
            position: self.position as nat,
        }
    }
}

/// The address of the first byte of adopted memory, whose alignment is
/// taken to be 1: `allocation_address(1)`.
const ADOPTED_ADDRESS: usize = 1;

/// The number of 64-bit words that hold `size` bytes starting at `address`.
fn word_count(address: usize, size: usize) -> (r: usize)
    requires
        size + 16 <= usize::MAX,
    ensures
        r == (address % 8 + size + 7) / 8,
        address % 8 + size <= 8 * r,
{
    let r = (address % 8 + size + 7) / 8;
    assert(address % 8 + size <= 8 * r) by (nonlinear_arith)
        requires
            r == (address % 8 + size + 7) / 8,
    ;
    r
}

/// `count` words, all zero.
fn zeroed_words(count: usize) -> (r: Vec<AtomicU64>)
    ensures
        r@.len() == count,
{
    let mut words: Vec<AtomicU64> = Vec::with_capacity(count);
    let mut i: usize = 0;
    while i < count
        invariant
            i <= count,
            words@.len() == i,
        decreases count - i,
    {
        words.push(AtomicU64::new(0));
        i = i + 1;
    }
    words
}

/// `words`, grown by `count` zero words, when room for them was reserved;
/// `None` when it was not.
fn fill_reserved(words: Vec<AtomicU64>, reserved: bool, count: usize) -> (r: Option<
    Vec<AtomicU64>,
>)
    requires
        words@.len() == 0,
    ensures
        r is Some == reserved,
        r matches Some(w) ==> w@.len() == count,
{
    if !reserved {
        return None;
    }
    let mut words = words;
    let mut i: usize = 0;
    while i < count
        invariant
            i <= count,
            words@.len() == i,
        decreases count - i,
    {
        words.push(AtomicU64::new(0));
        i = i + 1;
    }
    Some(words)
}

/// `count` words, all zero, or `None` when the allocator cannot provide them.
fn try_zeroed_words(count: usize) -> (r: Option<Vec<AtomicU64>>)
    ensures
        r matches Some(w) ==> w@.len() == count,
{
    let mut words: Vec<AtomicU64> = Vec::new();
    let reserved = words.try_reserve(count).is_ok();
    fill_reserved(words, reserved, count)
}

impl HBuf {
    #[verifier::type_invariant]
    spec fn inv(self) -> bool {
        &&& self.position <= self.limit <= self.capacity
        &&& self.offset + self.capacity <= self.entry.spec_capacity()
        &&& self.entry.spec_address() + self.entry.spec_capacity() <= usize::MAX
    }

    /// The registry entry of the allocation this buffer is a window on.
    pub closed spec fn allocation(&self) -> HBufDestructor {
        *self.entry
    }

    /// Whether the allocation has a release action.
    pub closed spec fn spec_has_destructor(&self) -> bool {
        self.entry.spec_has_destructor()
    }

    /// A buffer over the whole of a new entry.
    fn from_entry(entry: HBufDestructor) -> (r: HBuf)
        ensures
            r@ == fresh_view(entry.spec_address(), entry.spec_capacity()),
            r.allocation() == entry,
    {
        let capacity = entry.capacity();
        HBuf { entry: Arc::new(entry), offset: 0, capacity, limit: capacity, position: 0 }
    }

    /// A buffer over a copy of `data`, whose first byte is taken to have
    /// alignment 1. No release action is registered: dropping the last
    /// handle only frees the copy.
    pub fn from_raw_parts(data: &[u8]) -> (r: HBuf)
        requires
            data@.len() <= isize::MAX,
        ensures
            r@ == fresh_view(allocation_address(1), data@.len()),
            !r.spec_has_destructor(),
    {
        HBuf::adopt(data, None)
    }

    /// A buffer over a copy of `data`, whose first byte is taken to have
    /// alignment 1. `destructor` is first told the buffer's address and size
    /// through `register`, and is dropped, exactly once, when the last handle
    /// that shares the copy is dropped.
    pub fn from_raw_parts_with_destructor(data: &[u8], destructor: Box<dyn DynDestructor>) -> (r:
        HBuf)
        requires
            data@.len() <= isize::MAX,
        ensures
            r@ == fresh_view(allocation_address(1), data@.len()),
            r.spec_has_destructor(),
    {
        let mut destructor = destructor;
        destructor.register(ADOPTED_ADDRESS, data.len());
        HBuf::adopt(data, Some(HBufDestructorInfo::DynDestructor(destructor)))
    }

    fn adopt(data: &[u8], info: Option<HBufDestructorInfo>) -> (r: HBuf)
        requires
            data@.len() <= isize::MAX,
        ensures
            r@ == fresh_view(allocation_address(1), data@.len()),
            r.spec_has_destructor() == info is Some,
    {
        let size = data.len();
        assert(usize::MAX == 2 * (isize::MAX as nat) + 1) by {
            assert(usize::BITS == 32 || usize::BITS == 64);
        }
        let count = word_count(ADOPTED_ADDRESS, size);
        let words = zeroed_words(count);
        let buf = HBuf::from_entry(HBufDestructor::new(words, ADOPTED_ADDRESS, size, info));
        buf.copy_in(0, data, size);
        buf
    }

    /// Byte `index` of the buffer.
    pub(crate) fn load_at(&self, index: usize) -> (r: u8)
        requires
            index < self@.capacity,
    {
        proof {
            use_type_invariant(self);
        }
        self.entry.load_byte(self.offset + index)
    }

    /// Writes byte `index` of the buffer.
    pub(crate) fn store_at(&self, index: usize, value: u8)
        requires
            index < self@.capacity,
    {
        proof {
            use_type_invariant(self);
        }
        self.entry.store_byte(self.offset + index, value)
    }

    /// Reads the `width` bytes from byte `index` as one little-endian value,
    /// with one atomic load.
    pub(crate) fn load_lane_at(&self, index: usize, width: usize, order: Ordering) -> (r: u64)
        requires
            is_lane_width(width as nat),
            index + width <= self@.limit,
            (self@.address + index) % (width as int) == 0,
            is_load_ordering(order),
        ensures
            r <= lane_max(width as nat),
    {
        proof {
            use_type_invariant(self);
        }
        self.entry.load_lane(self.offset + index, width, order)
    }

    /// Puts `value` into the `width` bytes from byte `index` in one atomic
    /// step, if they hold `expected` (always, when `expected` is `None`);
    /// returns what they held, as `Ok` when the value was stored.
    pub(crate) fn update_lane_at(
        &self,
        index: usize,
        width: usize,
        expected: Option<u64>,
        value: u64,
        set_order: Ordering,
        fetch_order: Ordering,
    ) -> (r: Result<u64, u64>)
        requires
            is_lane_width(width as nat),
            index + width <= self@.limit,
            (self@.address + index) % (width as int) == 0,
            value <= lane_max(width as nat),
            is_load_ordering(fetch_order),
        ensures
            match r {
                Ok(prev) => prev <= lane_max(width as nat) && (expected is None || expected == Some(
                    prev)),
                Err(prev) => prev <= lane_max(width as nat) && expected is Some && expected != Some(
                    prev),
            },
    {
        proof {
            use_type_invariant(self);
        }
        self.entry.update_lane(self.offset + index, width, expected, value, set_order, fetch_order)
    }

    /// Writes `src[0..n)` to bytes `[at, at + n)`.
    fn copy_in(&self, at: usize, src: &[u8], n: usize)
        requires
            at + n <= self@.capacity,
            n <= src@.len(),
    {
        let mut i: usize = 0;
        while i < n
            invariant
                i <= n,
                at + n <= self@.capacity,
                n <= src@.len(),
            decreases n - i,
        {
            self.store_at(at + i, src[i]);
            i = i + 1;
        }
    }

    /// Reads bytes `[at, at + n)` into `dst[0..n)`; the rest of `dst` stays.
    fn copy_out(&self, at: usize, dst: &mut [u8], n: usize)
        requires
            at + n <= self@.capacity,
            n <= old(dst)@.len(),
        ensures
            final(dst)@.len() == old(dst)@.len(),
            forall|j: int| n <= j < old(dst)@.len() ==> final(dst)@[j] == old(dst)@[j],
    {
        let mut i: usize = 0;
        while i < n
            invariant
                i <= n,
                at + n <= self@.capacity,
                n <= dst@.len(),
                dst@.len() == old(dst)@.len(),
                forall|j: int| n <= j < old(dst)@.len() ==> dst@[j] == old(dst)@[j],
            decreases n - i,
        {
            let b = self.load_at(at + i);
            dst[i] = b;
            i = i + 1;
        }
    }

    /// A buffer of `size` zeroed bytes with alignment `alignment`, whose
    /// memory is freed when its last handle is dropped. Aborts the process
    /// when the memory cannot be had.
    pub fn allocate_aligned(size: usize, alignment: usize) -> (r: HBuf)
        requires
            size > 0,
            valid_layout(size as nat, alignment as nat),
        ensures
            r@ == fresh_view(allocation_address(alignment as nat), size as nat),
            r.spec_has_destructor(),
    {
        proof {
            lemma_layout_fits_address_space(size as nat, alignment as nat);
        }
        let count = word_count(alignment, size);
        let words = zeroed_words(count);
        let info = HBufDestructorInfo::Layout { size, align: alignment };
        HBuf::from_entry(HBufDestructor::new(words, alignment, size, Some(info)))
    }

    /// A buffer of `size` zeroed bytes with alignment 1.
    pub fn allocate(size: usize) -> (r: HBuf)
        requires
            size > 0,
            size <= isize::MAX,
        ensures
            r@ == fresh_view(allocation_address(1), size as nat),
            r.spec_has_destructor(),
    {
        assert(valid_layout(size as nat, 1));
        HBuf::allocate_aligned(size, 1)
    }

    /// A buffer of `size` bytes with alignment 1, every byte zero.
    pub fn allocate_zeroed(size: usize) -> (r: HBuf)
        requires
            size > 0,
            size <= isize::MAX,
        ensures
            r@ == fresh_view(allocation_address(1), size as nat),
            r.spec_has_destructor(),
    {
        HBuf::allocate(size)
    }

    /// A buffer of `size` bytes with alignment `alignment`, every byte zero.
    /// New words start at zero, so no separate fill is needed.
    pub fn allocate_aligned_zeroed(size: usize, alignment: usize) -> (r: HBuf)
        requires
            size > 0,
            valid_layout(size as nat, alignment as nat),
        ensures
            r@ == fresh_view(allocation_address(alignment as nat), size as nat),
            r.spec_has_destructor(),
    {
        HBuf::allocate_aligned(size, alignment)
    }

    /// A buffer of `size` zeroed bytes with alignment `alignment`, or the
    /// reason why there is none: `ZeroSize` for no bytes, `LayoutError` for
    /// an alignment that is not a power of two or a size too large for it,
    /// `OutOfMemory` when the allocator fails.
    pub fn try_allocate_aligned(size: usize, alignment: usize) -> (r: Result<HBuf, HBufError>)
        ensures
            size == 0 ==> r == Err::<HBuf, HBufError>(HBufError::ZeroSize),
            size > 0 && !valid_layout(size as nat, alignment as nat) ==> r == Err::<
                HBuf,
                HBufError,
            >(HBufError::LayoutError),
            size > 0 && valid_layout(size as nat, alignment as nat) ==> match r {
                Ok(b) => b@ == fresh_view(allocation_address(alignment as nat), size as nat)
                    && b.spec_has_destructor(),
                Err(e) => e == HBufError::OutOfMemory,
            },
    {
        if size == 0 {
            return Err(HBufError::ZeroSize);
        }
        if !layout_is_valid(size, alignment) {
            return Err(HBufError::LayoutError);
        }
        proof {
            lemma_layout_fits_address_space(size as nat, alignment as nat);
        }
        let count = word_count(alignment, size);
        match try_zeroed_words(count) {
            Some(words) => {
                let info = HBufDestructorInfo::Layout { size, align: alignment };
                Ok(HBuf::from_entry(HBufDestructor::new(words, alignment, size, Some(info))))
            },
            None => Err(HBufError::OutOfMemory),
        }
    }

    /// `try_allocate_aligned(size, 1)`.
    pub fn try_allocate(size: usize) -> (r: Result<HBuf, HBufError>)
        ensures
            size == 0 ==> r == Err::<HBuf, HBufError>(HBufError::ZeroSize),
            size > isize::MAX ==> r == Err::<HBuf, HBufError>(HBufError::LayoutError),
            0 < size <= isize::MAX ==> match r {
                Ok(b) => b@ == fresh_view(allocation_address(1), size as nat)
                    && b.spec_has_destructor(),
                Err(e) => e == HBufError::OutOfMemory,
            },
    {
        HBuf::try_allocate_aligned(size, 1)
    }

    /// `try_allocate_aligned(size, 1)`; every byte of the buffer is zero.
    pub fn try_allocate_zeroed(size: usize) -> (r: Result<HBuf, HBufError>)
        ensures
            size == 0 ==> r == Err::<HBuf, HBufError>(HBufError::ZeroSize),
            size > isize::MAX ==> r == Err::<HBuf, HBufError>(HBufError::LayoutError),
            0 < size <= isize::MAX ==> match r {
                Ok(b) => b@ == fresh_view(allocation_address(1), size as nat)
                    && b.spec_has_destructor(),
                Err(e) => e == HBufError::OutOfMemory,
            },
    {
        HBuf::try_allocate_aligned(size, 1)
    }

    /// `try_allocate_aligned(size, alignment)`; every byte of the buffer is zero.
    pub fn try_allocate_aligned_zeroed(size: usize, alignment: usize) -> (r: Result<
        HBuf,
        HBufError,
    >)
        ensures
            size == 0 ==> r == Err::<HBuf, HBufError>(HBufError::ZeroSize),
            size > 0 && !valid_layout(size as nat, alignment as nat) ==> r == Err::<
                HBuf,
                HBufError,
            >(HBufError::LayoutError),
            size > 0 && valid_layout(size as nat, alignment as nat) ==> match r {
                Ok(b) => b@ == fresh_view(allocation_address(alignment as nat), size as nat)
                    && b.spec_has_destructor(),
                Err(e) => e == HBufError::OutOfMemory,
            },
    {
        HBuf::try_allocate_aligned(size, alignment)
    }

    /// The number of handles that share this buffer's allocation, this one
    /// included.
    pub fn ref_count(&self) -> (r: usize)
        ensures
            r >= 1,
    {
        entry_handle_count(&self.entry)
    }

    /// Whether a release action runs when the last handle is dropped.
    pub fn has_destructor(&self) -> (r: bool)
        ensures
            r == self.spec_has_destructor(),
    {
        self.entry.has_destructor()
    }

    /// The number of bytes this buffer spans.
    pub fn capacity(&self) -> (r: usize)
        ensures
            r == self@.capacity,
            self@.well_formed(),
    {
        proof {
            use_type_invariant(self);
        }
        self.capacity
    }

    /// The number of bytes that are currently usable.
    pub fn limit(&self) -> (r: usize)
        ensures
            r == self@.limit,
            self@.well_formed(),
    {
        proof {
            use_type_invariant(self);
        }
        self.limit
    }

    /// The stream cursor.
    pub fn position(&self) -> (r: usize)
        ensures
            r == self@.position,
            self@.well_formed(),
    {
        proof {
            use_type_invariant(self);
        }
        self.position
    }

    /// `limit - position`: the bytes left for reading or writing.
    pub fn remaining(&self) -> (r: usize)
        ensures
            r == self@.remaining(),
            self@.well_formed(),
    {
        proof {
            use_type_invariant(self);
        }
        self.limit - self.position
    }

    /// The model address of the buffer's first byte (see
    /// `allocation_address`): the allocation's start plus the offset of this
    /// buffer within it. It is not a machine address.
    pub fn as_ptr(&self) -> (r: usize)
        ensures
            r == self@.address,
            r + self@.capacity <= usize::MAX,
    {
        proof {
            use_type_invariant(self);
        }
        let base = self.entry.address();
        base + self.offset
    }

    /// Sets the limit; a position beyond it moves back to it.
    pub fn set_limit(&mut self, new_limit: usize)
        requires
            new_limit <= old(self)@.capacity,
        ensures
            final(self)@ == with_limit(old(self)@, new_limit as nat),
            final(self)@.well_formed(),
            final(self).allocation() == old(self).allocation(),
    {
        proof {
            use_type_invariant(&*self);
        }
        if self.position > new_limit {
            self.position = new_limit;
        }
        self.limit = new_limit;
    }

    /// Sets the limit as `set_limit` does and returns true, or returns false
    /// and changes nothing when `new_limit` exceeds the capacity.
    pub fn try_set_limit(&mut self, new_limit: usize) -> (r: bool)
        ensures
            r == (new_limit <= old(self)@.capacity),
            r ==> final(self)@ == with_limit(old(self)@, new_limit as nat),
            !r ==> final(self)@ == old(self)@,
            final(self)@.well_formed(),
            final(self).allocation() == old(self).allocation(),
    {
        proof {
            use_type_invariant(&*self);
        }
        if new_limit > self.capacity {
            return false;
        }
        self.set_limit(new_limit);
        true
    }

    /// Sets the position.
    pub fn set_position(&mut self, new_position: usize)
        requires
            new_position <= old(self)@.limit,
        ensures
            final(self)@ == with_position(old(self)@, new_position as nat),
            final(self)@.well_formed(),
            final(self).allocation() == old(self).allocation(),
    {
        proof {
            use_type_invariant(&*self);
        }
        self.position = new_position;
    }

    /// Sets the position and returns true, or returns false and changes
    /// nothing when `new_position` exceeds the limit.
    pub fn try_set_position(&mut self, new_position: usize) -> (r: bool)
        ensures
            r == (new_position <= old(self)@.limit),
            r ==> final(self)@ == with_position(old(self)@, new_position as nat),
            !r ==> final(self)@ == old(self)@,
            final(self)@.well_formed(),
            final(self).allocation() == old(self).allocation(),
    {
        proof {
            use_type_invariant(&*self);
        }
        if new_position > self.limit {
            return false;
        }
        self.position = new_position;
        true
    }

    /// Makes the bytes written so far the readable region: the limit moves
    /// to the position and the position to 0.
    pub fn flip(&mut self)
        ensures
            final(self)@ == flipped(old(self)@),
            final(self)@.well_formed(),
            final(self).allocation() == old(self).allocation(),
    {
        proof {
            use_type_invariant(&*self);
        }
        self.limit = self.position;
        self.position = 0;
    }

    /// Opens the whole buffer again: the limit moves to the capacity and the
    /// position to 0.
    pub fn reset(&mut self)
        ensures
            final(self)@ == reopened(old(self)@),
            final(self)@.well_formed(),
            final(self).allocation() == old(self).allocation(),
    {
        proof {
            use_type_invariant(&*self);
        }
        self.position = 0;
        self.limit = self.capacity;
    }

    /// The bytes `[off, off + length)` of this buffer as a buffer of their
    /// own, on the same allocation; its limit is its capacity and its
    /// position 0. This buffer is left as it is.
    pub fn split(&self, off: usize, length: usize) -> (r: HBuf)
        requires
            off + length <= self@.capacity,
        ensures
            r@ == fresh_view((self@.address + off) as nat, length as nat),
            r.allocation() == self.allocation(),
            r.spec_has_destructor() == self.spec_has_destructor(),
    {
        proof {
            use_type_invariant(self);
        }
        HBuf {
            entry: share_entry(&self.entry),
            offset: self.offset + off,
            capacity: length,
            limit: length,
            position: 0,
        }
    }

    /// `split(off, length)`, or `None` when the bytes reach past the capacity.
    pub fn try_split(&self, off: usize, length: usize) -> (r: Option<HBuf>)
        ensures
            r is Some <==> off + length <= self@.capacity,
            r matches Some(s) ==> s@ == fresh_view((self@.address + off) as nat, length as nat)
                && s.allocation() == self.allocation() && s.spec_has_destructor()
                == self.spec_has_destructor(),
    {
        proof {
            use_type_invariant(self);
        }
        if off > self.capacity || length > self.capacity - off {
            return None;
        }
        Some(self.split(off, length))
    }

    /// Copies as much of `buf` as fits before the limit into the buffer at
    /// the position, and moves the position past it. Returns the number of
    /// bytes copied.
    pub fn write(&mut self, buf: &[u8]) -> (r: usize)
        ensures
            r == transfer_len(buf@.len() as int, old(self)@.remaining()),
            final(self)@ == with_position(old(self)@, (old(self)@.position + r) as nat),
            final(self)@.well_formed(),
            final(self).allocation() == old(self).allocation(),
    {
        proof {
            use_type_invariant(&*self);
        }
        let avail = self.limit - self.position;
        let n = if buf.len() < avail {
            buf.len()
        } else {
            avail
        };
        self.copy_in(self.position, buf, n);
        self.position = self.position + n;
        n
    }

    /// Copies all of `buf` into the buffer at the position and moves the
    /// position past it; or, when fewer bytes than that remain before the
    /// limit, copies nothing and fails with `UnexpectedEof`.
    pub fn write_all(&mut self, buf: &[u8]) -> (r: Result<(), HBufError>)
        ensures
            buf@.len() <= old(self)@.remaining() ==> r is Ok && final(self)@ == with_position(old(self)@, (old(self)@.position + buf@.len()) as nat),
            buf@.len() > old(self)@.remaining() ==> r == Err::<(), HBufError>(
                HBufError::UnexpectedEof,
            ) && final(self)@ == old(self)@,
            final(self)@.well_formed(),
            final(self).allocation() == old(self).allocation(),
    {
        proof {
            use_type_invariant(&*self);
        }
        if self.limit - self.position < buf.len() {
            return Err(HBufError::UnexpectedEof);
        }
        let n = buf.len();
        self.copy_in(self.position, buf, n);
        self.position = self.position + n;
        Ok(())
    }

    /// Copies as many bytes from the position as fit in `buf`, up to the
    /// limit, into the front of `buf`, and moves the position past them.
    /// Returns the number of bytes copied; the rest of `buf` stays.
    pub fn read(&mut self, buf: &mut [u8]) -> (r: usize)
        ensures
            r == transfer_len(old(buf)@.len() as int, old(self)@.remaining()),
            final(buf)@.len() == old(buf)@.len(),
            forall|j: int| r <= j < old(buf)@.len() ==> final(buf)@[j] == old(buf)@[j],
            final(self)@ == with_position(old(self)@, (old(self)@.position + r) as nat),
            final(self)@.well_formed(),
            final(self).allocation() == old(self).allocation(),
    {
        proof {
            use_type_invariant(&*self);
        }
        let avail = self.limit - self.position;
        let n = if buf.len() < avail {
            buf.len()
        } else {
            avail
        };
        self.copy_out(self.position, buf, n);
        self.position = self.position + n;
        n
    }

    /// Fills all of `buf` from the position and moves the position past the
    /// bytes read; or, when fewer bytes than that remain before the limit,
    /// reads nothing and fails with `UnexpectedEof`.
    pub fn read_exact(&mut self, buf: &mut [u8]) -> (r: Result<(), HBufError>)
        ensures
            final(buf)@.len() == old(buf)@.len(),
            old(buf)@.len() <= old(self)@.remaining() ==> r is Ok && final(self)@ == with_position(old(self)@, (old(self)@.position + old(buf)@.len()) as nat),
            old(buf)@.len() > old(self)@.remaining() ==> r == Err::<(), HBufError>(
                HBufError::UnexpectedEof,
            ) && final(self)@ == old(self)@ && final(buf)@ == old(buf)@,
            final(self)@.well_formed(),
            final(self).allocation() == old(self).allocation(),
    {
        proof {
            use_type_invariant(&*self);
        }
        if self.limit - self.position < buf.len() {
            return Err(HBufError::UnexpectedEof);
        }
        let n = buf.len();
        self.copy_out(self.position, buf, n);
        self.position = self.position + n;
        Ok(())
    }

    /// Appends every byte from the position to the limit to `buf`, moves the
    /// position to the limit, and returns the number of bytes appended.
    pub fn read_to_end(&mut self, buf: &mut Vec<u8>) -> (r: usize)
        ensures
            r == old(self)@.remaining(),
            final(buf)@.len() == old(buf)@.len() + r,
            final(buf)@.subrange(0, old(buf)@.len() as int) == old(buf)@,
            final(self)@ == with_position(old(self)@, old(self)@.limit),
            final(self)@.well_formed(),
            final(self).allocation() == old(self).allocation(),
    {
        proof {
            use_type_invariant(&*self);
        }
        let n = self.limit - self.position;
        let start = self.position;
        let mut i: usize = 0;
        while i < n
            invariant
                i <= n,
                start + n <= self@.capacity,
                buf@.len() == old(buf)@.len() + i,
                buf@.subrange(0, old(buf)@.len() as int) == old(buf)@,
            decreases n - i,
        {
            let b = self.load_at(start + i);
            buf.push(b);
            i = i + 1;
        }
        self.position = self.limit;
        n
    }

    /// A copy of the bytes `[0, limit)`.
    pub fn as_slice(&self) -> (r: Vec<u8>)
        ensures
            r@.len() == self@.limit,
    {
        proof {
            use_type_invariant(self);
        }
        let mut out: Vec<u8> = Vec::with_capacity(self.limit);
        let mut i: usize = 0;
        while i < self.limit
            invariant
                i <= self@.limit <= self@.capacity,
                out@.len() == i,
            decreases self@.limit - i,
        {
            out.push(self.load_at(i));
            i = i + 1;
        }
        out
    }

    /// Moves the position to `from`, if that is within the limit.
    fn seek_start(&mut self, from: u64) -> (r: bool)
        ensures
            r == (from <= old(self)@.limit),
            r ==> final(self)@ == with_position(old(self)@, from as nat),
            !r ==> final(self)@ == old(self)@,
            final(self).allocation() == old(self).allocation(),
    {
        proof {
            use_type_invariant(&*self);
        }
        if from > self.limit as u64 {
            return false;
        }
        self.position = from as usize;
        true
    }

    /// Moves the position to `limit + from`, if that is within `[0, limit]`.
    fn seek_end(&mut self, from: i64) -> (r: bool)
        ensures
            r == (from <= 0 && -from <= old(self)@.limit),
            r ==> final(self)@ == with_position(old(self)@, (old(self)@.limit + from) as nat),
            !r ==> final(self)@ == old(self)@,
            final(self).allocation() == old(self).allocation(),
    {
        proof {
            use_type_invariant(&*self);
        }
        let target: i128 = self.limit as i128 + from as i128;
        if from > 0 || target < 0 {
            return false;
        }
        self.position = target as usize;
        true
    }

    /// Moves the position to `position + from`, if that is within `[0, limit]`.
    fn seek_cur(&mut self, from: i64) -> (r: bool)
        ensures
            r == (0 <= old(self)@.position + from <= old(self)@.limit),
            r ==> final(self)@ == with_position(old(self)@, (old(self)@.position + from) as nat),
            !r ==> final(self)@ == old(self)@,
            final(self).allocation() == old(self).allocation(),
    {
        proof {
            use_type_invariant(&*self);
        }
        let target: i128 = self.position as i128 + from as i128;
        if target < 0 || target > self.limit as i128 {
            return false;
        }
        self.position = target as usize;
        true
    }

    /// Moves the position as `pos` asks and returns the new position, or
    /// fails with `UnexpectedEof` and leaves the position where it was when
    /// the target lies outside `[0, limit]`.
    pub fn seek(&mut self, pos: SeekFrom) -> (r: Result<u64, HBufError>)
        ensures
            seek_in_bounds(old(self)@, pos) ==> r == Ok::<u64, HBufError>(
                seek_target(old(self)@, pos) as u64,
            ) && final(self)@ == with_position(old(self)@, seek_target(old(self)@, pos) as nat),
            !seek_in_bounds(old(self)@, pos) ==> r == Err::<u64, HBufError>(
                HBufError::UnexpectedEof,
            ) && final(self)@ == old(self)@,
            final(self)@.well_formed(),
            final(self).allocation() == old(self).allocation(),
    {
        proof {
            use_type_invariant(&*self);
        }
        let moved = match pos {
            SeekFrom::Start(p) => self.seek_start(p),
            SeekFrom::End(p) => self.seek_end(p),
            SeekFrom::Current(p) => self.seek_cur(p),
        };
        proof {
            use_type_invariant(&*self);
        }
        if moved {
            Ok(self.position as u64)
        } else {
            Err(HBufError::UnexpectedEof)
        }
    }
}

impl Clone for HBuf {
    /// Another handle on the same allocation, with the same window.
    fn clone(&self) -> (r: Self)
        ensures
            r@ == self@,
            r.allocation() == self.allocation(),
            r.spec_has_destructor() == self.spec_has_destructor(),
    {
        proof {
            use_type_invariant(self);
        }
        HBuf {
            entry: share_entry(&self.entry),
            offset: self.offset,
            capacity: self.capacity,
            limit: self.limit,
            position: self.position,
        }
    }
}

} // verus!
