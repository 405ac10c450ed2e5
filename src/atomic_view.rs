//! Checked handles on single atomic values of a buffer: they exist only for
//! a slot that lies before the limit and is naturally aligned.

use crate::atomics::atomic_slot;
use crate::buf::HBuf;
use crate::element::Element;
use crate::memory::{is_lane_width, is_load_ordering, is_store_ordering};
use core::marker::PhantomData;
use std::sync::atomic::Ordering;
use vstd::arithmetic::div_mod::lemma_mod_multiples_vanish;
use vstd::prelude::*;

verus! {

/// One atomic value of type `T` at a byte index of a buffer. The buffer is
/// borrowed, so its window cannot change while the view exists.
pub struct AtomicView<'a, T: Element> {
    buf: &'a HBuf,
    index: usize,
    marker: PhantomData<T>,
}

impl<'a, T: Element> AtomicView<'a, T> {
    #[verifier::type_invariant]
    spec fn inv(self) -> bool {
        atomic_slot(self.buf@.address, self.buf@.limit, self.index as nat, T::spec_width())
    }

    /// The buffer the value lives in.
    pub closed spec fn buffer(&self) -> HBuf {
        *self.buf
    }

    /// The byte index of the value.
    pub closed spec fn spec_index(&self) -> nat {
        self.index as nat
    }

    /// The byte index of the value.
    pub fn index(&self) -> (r: usize)
        ensures
            r == self.spec_index(),
    {
        self.index
    }

    /// Atomically loads the value.
    pub fn load(&self, order: Ordering) -> (r: T)
        requires
            is_load_ordering(order),
    {
        proof {
            use_type_invariant(self);
        }
        self.buf.atomic_load::<T>(self.index, order)
    }

    /// Atomically stores `value`.
    pub fn store(&self, value: T, order: Ordering)
        requires
            is_store_ordering(order),
    {
        proof {
            use_type_invariant(self);
        }
        self.buf.atomic_store::<T>(self.index, value, order)
    }

    /// Atomically replaces the value with `value` and returns the value it held.
    pub fn swap(&self, value: T, order: Ordering) -> (r: T) {
        proof {
            use_type_invariant(self);
        }
        self.buf.atomic_swap::<T>(self.index, value, order)
    }

    /// Atomically replaces the value with `new` if it is `current`:
    /// `Ok(current)` when it was, `Err` with the value found when it was not.
    pub fn compare_exchange(&self, current: T, new: T, success: Ordering, failure: Ordering) -> (r:
        Result<T, T>)
        requires
            is_load_ordering(failure),
        ensures
            r matches Ok(v) ==> v == current,
            r matches Err(v) ==> v != current,
    {
        proof {
            use_type_invariant(self);
        }
        self.buf.atomic_compare_exchange::<T>(self.index, current, new, success, failure)
    }
}

impl HBuf {
    /// A view on the `T` at byte `index`, or `None` when it would reach past
    /// the limit or is not naturally aligned.
    pub fn as_atomic<T: Element>(&self, index: usize) -> (r: Option<AtomicView<'_, T>>)
        ensures
            r is Some <==> atomic_slot(self@.address, self@.limit, index as nat, T::spec_width()),
            r matches Some(v) ==> v.buffer() == *self && v.spec_index() == index,
    {
        let w = T::width();
        if !(w == 1 || w == 2 || w == 4 || w == 8) {
            return None;
        }
        let limit = self.limit();
        if index > limit || w > limit - index {
            return None;
        }
        let address = self.as_ptr();
        if (address + index) % w != 0 {
            return None;
        }
        Some(AtomicView { buf: self, index, marker: PhantomData })
    }

    /// Views on every naturally aligned `T` of the window `[0, limit)`, a
    /// trailing partial value left out; `None` when the buffer's first byte
    /// is not aligned for `T`.
    pub fn as_slice_atomic<T: Element>(&self) -> (r: Option<Vec<AtomicView<'_, T>>>)
        ensures
            r is Some <==> is_lane_width(T::spec_width()) && self@.address % T::spec_width() == 0,
            r matches Some(v) ==> v@.len() == self@.limit / T::spec_width() && forall|i: int|
                0 <= i < v@.len() ==> (#[trigger] v@[i]).buffer() == *self && v@[i].spec_index()
                    == i * T::spec_width(),
    {
        let w = T::width();
        if !(w == 1 || w == 2 || w == 4 || w == 8) {
            return None;
        }
        let address = self.as_ptr();
        if address % w != 0 {
            return None;
        }
        let limit = self.limit();
        let n = limit / w;
        let mut out: Vec<AtomicView<'_, T>> = Vec::with_capacity(n);
        let mut i: usize = 0;
        while i < n
            invariant
                i <= n,
                n == limit / w,
                limit == self@.limit,
                address == self@.address,
                address + limit <= usize::MAX,
                address % w == 0,
                w == T::spec_width(),
                is_lane_width(w as nat),
                out@.len() == i,
                forall|j: int|
                    0 <= j < i ==> (#[trigger] out@[j]).buffer() == *self && out@[j].spec_index()
                        == j * w,
            decreases n - i,
        {
            assert(i * w + w <= limit) by (nonlinear_arith)
                requires
                    i < n,
                    n == limit / w,
                    1 <= w,
            ;
            proof {
                lemma_mod_multiples_vanish(i as int, address as int, w as int);
                assert(w * i == i * w) by (nonlinear_arith);
            }
            let view = AtomicView { buf: self, index: i * w, marker: PhantomData };
            out.push(view);
            i = i + 1;
        }
        Some(out)
    }

    /// A view on the `u8` at byte `index`, or `None` when it would reach
    /// past the limit or is not naturally aligned.
    pub fn as_atomic_u8(&self, index: usize) -> (r: Option<AtomicView<'_, u8>>)
        ensures
            r is Some <==> atomic_slot(self@.address, self@.limit, index as nat, 1),
            r matches Some(v) ==> v.buffer() == *self && v.spec_index() == index,
    {
        self.as_atomic::<u8>(index)
    }

    /// Views on every `u8` of the window; `None` when the buffer's first
    /// byte is not aligned for it.
    pub fn as_slice_atomic_u8(&self) -> (r: Option<Vec<AtomicView<'_, u8>>>)
        ensures
            r is Some <==> self@.address % 1 == 0,
            r matches Some(v) ==> v@.len() == self@.limit / 1,
    {
        self.as_slice_atomic::<u8>()
    }

    /// A view on the `i8` at byte `index`, or `None` when it would reach
    /// past the limit or is not naturally aligned.
    pub fn as_atomic_i8(&self, index: usize) -> (r: Option<AtomicView<'_, i8>>)
        ensures
            r is Some <==> atomic_slot(self@.address, self@.limit, index as nat, 1),
            r matches Some(v) ==> v.buffer() == *self && v.spec_index() == index,
    {
        self.as_atomic::<i8>(index)
    }

    /// Views on every `i8` of the window; `None` when the buffer's first
    /// byte is not aligned for it.
    pub fn as_slice_atomic_i8(&self) -> (r: Option<Vec<AtomicView<'_, i8>>>)
        ensures
            r is Some <==> self@.address % 1 == 0,
            r matches Some(v) ==> v@.len() == self@.limit / 1,
    {
        self.as_slice_atomic::<i8>()
    }

    /// A view on the `u16` at byte `index`, or `None` when it would reach
    /// past the limit or is not naturally aligned.
    pub fn as_atomic_u16(&self, index: usize) -> (r: Option<AtomicView<'_, u16>>)
        ensures
            r is Some <==> atomic_slot(self@.address, self@.limit, index as nat, 2),
            r matches Some(v) ==> v.buffer() == *self && v.spec_index() == index,
    {
        self.as_atomic::<u16>(index)
    }

    /// Views on every `u16` of the window; `None` when the buffer's first
    /// byte is not aligned for it.
    pub fn as_slice_atomic_u16(&self) -> (r: Option<Vec<AtomicView<'_, u16>>>)
        ensures
            r is Some <==> self@.address % 2 == 0,
            r matches Some(v) ==> v@.len() == self@.limit / 2,
    {
        self.as_slice_atomic::<u16>()
    }

    /// A view on the `i16` at byte `index`, or `None` when it would reach
    /// past the limit or is not naturally aligned.
    pub fn as_atomic_i16(&self, index: usize) -> (r: Option<AtomicView<'_, i16>>)
        ensures
            r is Some <==> atomic_slot(self@.address, self@.limit, index as nat, 2),
            r matches Some(v) ==> v.buffer() == *self && v.spec_index() == index,
    {
        self.as_atomic::<i16>(index)
    }

    /// Views on every `i16` of the window; `None` when the buffer's first
    /// byte is not aligned for it.
    pub fn as_slice_atomic_i16(&self) -> (r: Option<Vec<AtomicView<'_, i16>>>)
        ensures
            r is Some <==> self@.address % 2 == 0,
            r matches Some(v) ==> v@.len() == self@.limit / 2,
    {
        self.as_slice_atomic::<i16>()
    }

    /// A view on the `u32` at byte `index`, or `None` when it would reach
    /// past the limit or is not naturally aligned.
    pub fn as_atomic_u32(&self, index: usize) -> (r: Option<AtomicView<'_, u32>>)
        ensures
            r is Some <==> atomic_slot(self@.address, self@.limit, index as nat, 4),
            r matches Some(v) ==> v.buffer() == *self && v.spec_index() == index,
    {
        self.as_atomic::<u32>(index)
    }

    /// Views on every `u32` of the window; `None` when the buffer's first
    /// byte is not aligned for it.
    pub fn as_slice_atomic_u32(&self) -> (r: Option<Vec<AtomicView<'_, u32>>>)
        ensures
            r is Some <==> self@.address % 4 == 0,
            r matches Some(v) ==> v@.len() == self@.limit / 4,
    {
        self.as_slice_atomic::<u32>()
    }

    /// A view on the `i32` at byte `index`, or `None` when it would reach
    /// past the limit or is not naturally aligned.
    pub fn as_atomic_i32(&self, index: usize) -> (r: Option<AtomicView<'_, i32>>)
        ensures
            r is Some <==> atomic_slot(self@.address, self@.limit, index as nat, 4),
            r matches Some(v) ==> v.buffer() == *self && v.spec_index() == index,
    {
        self.as_atomic::<i32>(index)
    }

    /// Views on every `i32` of the window; `None` when the buffer's first
    /// byte is not aligned for it.
    pub fn as_slice_atomic_i32(&self) -> (r: Option<Vec<AtomicView<'_, i32>>>)
        ensures
            r is Some <==> self@.address % 4 == 0,
            r matches Some(v) ==> v@.len() == self@.limit / 4,
    {
        self.as_slice_atomic::<i32>()
    }

    /// A view on the `u64` at byte `index`, or `None` when it would reach
    /// past the limit or is not naturally aligned.
    pub fn as_atomic_u64(&self, index: usize) -> (r: Option<AtomicView<'_, u64>>)
        ensures
            r is Some <==> atomic_slot(self@.address, self@.limit, index as nat, 8),
            r matches Some(v) ==> v.buffer() == *self && v.spec_index() == index,
    {
        self.as_atomic::<u64>(index)
    }

    /// Views on every `u64` of the window; `None` when the buffer's first
    /// byte is not aligned for it.
    pub fn as_slice_atomic_u64(&self) -> (r: Option<Vec<AtomicView<'_, u64>>>)
        ensures
            r is Some <==> self@.address % 8 == 0,
            r matches Some(v) ==> v@.len() == self@.limit / 8,
    {
        self.as_slice_atomic::<u64>()
    }

    /// A view on the `i64` at byte `index`, or `None` when it would reach
    /// past the limit or is not naturally aligned.
    pub fn as_atomic_i64(&self, index: usize) -> (r: Option<AtomicView<'_, i64>>)
        ensures
            r is Some <==> atomic_slot(self@.address, self@.limit, index as nat, 8),
            r matches Some(v) ==> v.buffer() == *self && v.spec_index() == index,
    {
        self.as_atomic::<i64>(index)
    }

    /// Views on every `i64` of the window; `None` when the buffer's first
    /// byte is not aligned for it.
    pub fn as_slice_atomic_i64(&self) -> (r: Option<Vec<AtomicView<'_, i64>>>)
        ensures
            r is Some <==> self@.address % 8 == 0,
            r matches Some(v) ==> v@.len() == self@.limit / 8,
    {
        self.as_slice_atomic::<i64>()
    }

    /// A view on the `usize` at byte `index`, or `None` when it would reach
    /// past the limit or is not naturally aligned.
    pub fn as_atomic_usize(&self, index: usize) -> (r: Option<AtomicView<'_, usize>>)
        ensures
            r is Some <==> atomic_slot(self@.address, self@.limit, index as nat, (usize::BITS / 8) as nat),
            r matches Some(v) ==> v.buffer() == *self && v.spec_index() == index,
    {
        assert(usize::BITS == 32 || usize::BITS == 64);
        self.as_atomic::<usize>(index)
    }

    /// Views on every `usize` of the window; `None` when the buffer's first
    /// byte is not aligned for it.
    pub fn as_slice_atomic_usize(&self) -> (r: Option<Vec<AtomicView<'_, usize>>>)
        ensures
            r is Some <==> self@.address % ((usize::BITS / 8) as nat) == 0,
            r matches Some(v) ==> v@.len() == self@.limit / ((usize::BITS / 8) as nat),
    {
        assert(usize::BITS == 32 || usize::BITS == 64);
        self.as_slice_atomic::<usize>()
    }

    /// A view on the `isize` at byte `index`, or `None` when it would reach
    /// past the limit or is not naturally aligned.
    pub fn as_atomic_isize(&self, index: usize) -> (r: Option<AtomicView<'_, isize>>)
        ensures
            r is Some <==> atomic_slot(self@.address, self@.limit, index as nat, (usize::BITS / 8) as nat),
            r matches Some(v) ==> v.buffer() == *self && v.spec_index() == index,
    {
        assert(usize::BITS == 32 || usize::BITS == 64);
        self.as_atomic::<isize>(index)
    }

    /// Views on every `isize` of the window; `None` when the buffer's first
    /// byte is not aligned for it.
    pub fn as_slice_atomic_isize(&self) -> (r: Option<Vec<AtomicView<'_, isize>>>)
        ensures
            r is Some <==> self@.address % ((usize::BITS / 8) as nat) == 0,
            r matches Some(v) ==> v@.len() == self@.limit / ((usize::BITS / 8) as nat),
    {
        assert(usize::BITS == 32 || usize::BITS == 64);
        self.as_slice_atomic::<isize>()
    }
}

} // verus!
