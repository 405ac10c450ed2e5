//! Typed access to a buffer's bytes: whole-window copies that need the
//! element's alignment, and single values at any byte index.

use crate::buf::HBuf;
use crate::codec::{decode_le, encode_le};
use crate::element::Element;
use vstd::prelude::*;

verus! {

/// Whether a buffer whose first byte sits at `address` is aligned for `T`.
pub open spec fn aligned_for<T>(address: nat) -> bool {
    address % vstd::layout::align_of::<T>() == 0
}

impl HBuf {
    /// The value of type `T` stored little-endian at bytes
    /// `[index, index + width)`, whatever the alignment: the bytes are read
    /// one by one and decoded with `decode_le`.
    pub fn get<T: Element>(&self, index: usize) -> (r: T)
        requires
            index + T::spec_width() <= self@.limit,
    {
        let w = T::width();
        let limit = self.limit();
        let mut bytes: Vec<u8> = Vec::with_capacity(w);
        let mut k: usize = 0;
        while k < w
            invariant
                k <= w <= 16,
                w == T::spec_width(),
                index + w <= limit <= self@.capacity,
                bytes@.len() == k,
            decreases w - k,
        {
            bytes.push(self.load_at(index + k));
            k = k + 1;
        }
        T::from_bits(decode_le(bytes.as_slice()))
    }

    /// Stores `value` little-endian at bytes `[index, index + width)`,
    /// whatever the alignment: the bytes of `encode_le` are written one by
    /// one. The window does not change.
    pub fn set<T: Element>(&mut self, index: usize, value: T)
        requires
            index + T::spec_width() <= old(self)@.limit,
        ensures
            final(self)@ == old(self)@,
            final(self).allocation() == old(self).allocation(),
    {
        let w = T::width();
        let limit = self.limit();
        let bytes = encode_le(value.to_bits(), w);
        let mut k: usize = 0;
        while k < w
            invariant
                k <= w <= 16,
                w == T::spec_width(),
                index + w <= limit <= self@.capacity,
                bytes@.len() == w,
            decreases w - k,
        {
            self.store_at(index + k, bytes[k]);
            k = k + 1;
        }
    }

    /// A copy of the window `[0, limit)` as values of `T`, a trailing partial
    /// value left out; `None` when the buffer's first byte is not aligned
    /// for `T`.
    pub fn as_slice_generic<T: Element>(&self) -> (r: Option<Vec<T>>)
        ensures
            r is Some <==> aligned_for::<T>(self@.address),
            r matches Some(v) ==> v@.len() == self@.limit / T::spec_width(),
    {
        let align = core::mem::align_of::<T>();
        proof {
            broadcast use vstd::layout::align_nonzero;
        }
        if self.as_ptr() % align != 0 {
            return None;
        }
        let w = T::width();
        let limit = self.limit();
        let n = limit / w;
        let mut out: Vec<T> = Vec::with_capacity(n);
        let mut i: usize = 0;
        while i < n
            invariant
                i <= n,
                n == self@.limit / (w as nat),
                limit == self@.limit,
                w == T::spec_width(),
                1 <= w,
                out@.len() == i,
            decreases n - i,
        {
            assert(i * w + w <= limit) by (nonlinear_arith)
                requires
                    i < n,
                    n == limit / w,
                    1 <= w,
            ;
            out.push(self.get::<T>(i * w));
            i = i + 1;
        }
        Some(out)
    }

    /// A copy of the window as `i8` values; `None` when the first byte is
    /// not aligned for `i8`.
    pub fn as_slice_i8(&self) -> (r: Option<Vec<i8>>)
        ensures
            r is Some <==> aligned_for::<i8>(self@.address),
            r matches Some(v) ==> v@.len() == self@.limit / 1,
    {
        self.as_slice_generic::<i8>()
    }

    /// The `i8` stored little-endian at bytes `[index, index + 1)`.
    pub fn get_i8(&self, index: usize) -> (r: i8)
        requires
            index + 1 <= self@.limit,
    {
        self.get::<i8>(index)
    }

    /// Stores `value` little-endian at bytes `[index, index + 1)`.
    pub fn set_i8(&mut self, index: usize, value: i8)
        requires
            index + 1 <= old(self)@.limit,
        ensures
            final(self)@ == old(self)@,
            final(self).allocation() == old(self).allocation(),
    {
        self.set::<i8>(index, value)
    }

    /// A copy of the window as `i16` values; `None` when the first byte is
    /// not aligned for `i16`.
    pub fn as_slice_i16(&self) -> (r: Option<Vec<i16>>)
        ensures
            r is Some <==> aligned_for::<i16>(self@.address),
            r matches Some(v) ==> v@.len() == self@.limit / 2,
    {
        self.as_slice_generic::<i16>()
    }

    /// The `i16` stored little-endian at bytes `[index, index + 2)`.
    pub fn get_i16(&self, index: usize) -> (r: i16)
        requires
            index + 2 <= self@.limit,
    {
        self.get::<i16>(index)
    }

    /// Stores `value` little-endian at bytes `[index, index + 2)`.
    pub fn set_i16(&mut self, index: usize, value: i16)
        requires
            index + 2 <= old(self)@.limit,
        ensures
            final(self)@ == old(self)@,
            final(self).allocation() == old(self).allocation(),
    {
        self.set::<i16>(index, value)
    }

    /// A copy of the window as `i32` values; `None` when the first byte is
    /// not aligned for `i32`.
    pub fn as_slice_i32(&self) -> (r: Option<Vec<i32>>)
        ensures
            r is Some <==> aligned_for::<i32>(self@.address),
            r matches Some(v) ==> v@.len() == self@.limit / 4,
    {
        self.as_slice_generic::<i32>()
    }

    /// The `i32` stored little-endian at bytes `[index, index + 4)`.
    pub fn get_i32(&self, index: usize) -> (r: i32)
        requires
            index + 4 <= self@.limit,
    {
        self.get::<i32>(index)
    }

    /// Stores `value` little-endian at bytes `[index, index + 4)`.
    pub fn set_i32(&mut self, index: usize, value: i32)
        requires
            index + 4 <= old(self)@.limit,
        ensures
            final(self)@ == old(self)@,
            final(self).allocation() == old(self).allocation(),
    {
        self.set::<i32>(index, value)
    }

    /// A copy of the window as `i64` values; `None` when the first byte is
    /// not aligned for `i64`.
    pub fn as_slice_i64(&self) -> (r: Option<Vec<i64>>)
        ensures
            r is Some <==> aligned_for::<i64>(self@.address),
            r matches Some(v) ==> v@.len() == self@.limit / 8,
    {
        self.as_slice_generic::<i64>()
    }

    /// The `i64` stored little-endian at bytes `[index, index + 8)`.
    pub fn get_i64(&self, index: usize) -> (r: i64)
        requires
            index + 8 <= self@.limit,
    {
        self.get::<i64>(index)
    }

    /// Stores `value` little-endian at bytes `[index, index + 8)`.
    pub fn set_i64(&mut self, index: usize, value: i64)
        requires
            index + 8 <= old(self)@.limit,
        ensures
            final(self)@ == old(self)@,
            final(self).allocation() == old(self).allocation(),
    {
        self.set::<i64>(index, value)
    }

    /// A copy of the window as `i128` values; `None` when the first byte is
    /// not aligned for `i128`.
    pub fn as_slice_i128(&self) -> (r: Option<Vec<i128>>)
        ensures
            r is Some <==> aligned_for::<i128>(self@.address),
            r matches Some(v) ==> v@.len() == self@.limit / 16,
    {
        self.as_slice_generic::<i128>()
    }

    /// The `i128` stored little-endian at bytes `[index, index + 16)`.
    pub fn get_i128(&self, index: usize) -> (r: i128)
        requires
            index + 16 <= self@.limit,
    {
        self.get::<i128>(index)
    }

    /// Stores `value` little-endian at bytes `[index, index + 16)`.
    pub fn set_i128(&mut self, index: usize, value: i128)
        requires
            index + 16 <= old(self)@.limit,
        ensures
            final(self)@ == old(self)@,
            final(self).allocation() == old(self).allocation(),
    {
        self.set::<i128>(index, value)
    }

    /// A copy of the window as `u8` values; `None` when the first byte is
    /// not aligned for `u8`.
    pub fn as_slice_u8(&self) -> (r: Option<Vec<u8>>)
        ensures
            r is Some <==> aligned_for::<u8>(self@.address),
            r matches Some(v) ==> v@.len() == self@.limit / 1,
    {
        self.as_slice_generic::<u8>()
    }

    /// The `u8` stored little-endian at bytes `[index, index + 1)`.
    pub fn get_u8(&self, index: usize) -> (r: u8)
        requires
            index + 1 <= self@.limit,
    {
        self.get::<u8>(index)
    }

    /// Stores `value` little-endian at bytes `[index, index + 1)`.
    pub fn set_u8(&mut self, index: usize, value: u8)
        requires
            index + 1 <= old(self)@.limit,
        ensures
            final(self)@ == old(self)@,
            final(self).allocation() == old(self).allocation(),
    {
        self.set::<u8>(index, value)
    }

    /// A copy of the window as `u16` values; `None` when the first byte is
    /// not aligned for `u16`.
    pub fn as_slice_u16(&self) -> (r: Option<Vec<u16>>)
        ensures
            r is Some <==> aligned_for::<u16>(self@.address),
            r matches Some(v) ==> v@.len() == self@.limit / 2,
    {
        self.as_slice_generic::<u16>()
    }

    /// The `u16` stored little-endian at bytes `[index, index + 2)`.
    pub fn get_u16(&self, index: usize) -> (r: u16)
        requires
            index + 2 <= self@.limit,
    {
        self.get::<u16>(index)
    }

    /// Stores `value` little-endian at bytes `[index, index + 2)`.
    pub fn set_u16(&mut self, index: usize, value: u16)
        requires
            index + 2 <= old(self)@.limit,
        ensures
            final(self)@ == old(self)@,
            final(self).allocation() == old(self).allocation(),
    {
        self.set::<u16>(index, value)
    }

    /// A copy of the window as `u32` values; `None` when the first byte is
    /// not aligned for `u32`.
    pub fn as_slice_u32(&self) -> (r: Option<Vec<u32>>)
        ensures
            r is Some <==> aligned_for::<u32>(self@.address),
            r matches Some(v) ==> v@.len() == self@.limit / 4,
    {
        self.as_slice_generic::<u32>()
    }

    /// The `u32` stored little-endian at bytes `[index, index + 4)`.
    pub fn get_u32(&self, index: usize) -> (r: u32)
        requires
            index + 4 <= self@.limit,
    {
        self.get::<u32>(index)
    }

    /// Stores `value` little-endian at bytes `[index, index + 4)`.
    pub fn set_u32(&mut self, index: usize, value: u32)
        requires
            index + 4 <= old(self)@.limit,
        ensures
            final(self)@ == old(self)@,
            final(self).allocation() == old(self).allocation(),
    {
        self.set::<u32>(index, value)
    }

    /// A copy of the window as `u64` values; `None` when the first byte is
    /// not aligned for `u64`.
    pub fn as_slice_u64(&self) -> (r: Option<Vec<u64>>)
        ensures
            r is Some <==> aligned_for::<u64>(self@.address),
            r matches Some(v) ==> v@.len() == self@.limit / 8,
    {
        self.as_slice_generic::<u64>()
    }

    /// The `u64` stored little-endian at bytes `[index, index + 8)`.
    pub fn get_u64(&self, index: usize) -> (r: u64)
        requires
            index + 8 <= self@.limit,
    {
        self.get::<u64>(index)
    }

    /// Stores `value` little-endian at bytes `[index, index + 8)`.
    pub fn set_u64(&mut self, index: usize, value: u64)
        requires
            index + 8 <= old(self)@.limit,
        ensures
            final(self)@ == old(self)@,
            final(self).allocation() == old(self).allocation(),
    {
        self.set::<u64>(index, value)
    }

    /// A copy of the window as `u128` values; `None` when the first byte is
    /// not aligned for `u128`.
    pub fn as_slice_u128(&self) -> (r: Option<Vec<u128>>)
        ensures
            r is Some <==> aligned_for::<u128>(self@.address),
            r matches Some(v) ==> v@.len() == self@.limit / 16,
    {
        self.as_slice_generic::<u128>()
    }

    /// The `u128` stored little-endian at bytes `[index, index + 16)`.
    pub fn get_u128(&self, index: usize) -> (r: u128)
        requires
            index + 16 <= self@.limit,
    {
        self.get::<u128>(index)
    }

    /// Stores `value` little-endian at bytes `[index, index + 16)`.
    pub fn set_u128(&mut self, index: usize, value: u128)
        requires
            index + 16 <= old(self)@.limit,
        ensures
            final(self)@ == old(self)@,
            final(self).allocation() == old(self).allocation(),
    {
        self.set::<u128>(index, value)
    }

    /// A copy of the window as `usize` values; `None` when the first byte is
    /// not aligned for `usize`.
    pub fn as_slice_usize(&self) -> (r: Option<Vec<usize>>)
        ensures
            r is Some <==> aligned_for::<usize>(self@.address),
            r matches Some(v) ==> v@.len() == self@.limit / (usize::BITS / 8) as nat,
    {
        self.as_slice_generic::<usize>()
    }

    /// The `usize` stored little-endian at bytes `[index, index + usize::BITS / 8)`.
    pub fn get_usize(&self, index: usize) -> (r: usize)
        requires
            index + usize::BITS / 8 <= self@.limit,
    {
        self.get::<usize>(index)
    }

    /// Stores `value` little-endian at bytes `[index, index + usize::BITS / 8)`.
    pub fn set_usize(&mut self, index: usize, value: usize)
        requires
            index + usize::BITS / 8 <= old(self)@.limit,
        ensures
            final(self)@ == old(self)@,
            final(self).allocation() == old(self).allocation(),
    {
        self.set::<usize>(index, value)
    }

    /// A copy of the window as `isize` values; `None` when the first byte is
    /// not aligned for `isize`.
    pub fn as_slice_isize(&self) -> (r: Option<Vec<isize>>)
        ensures
            r is Some <==> aligned_for::<isize>(self@.address),
            r matches Some(v) ==> v@.len() == self@.limit / (usize::BITS / 8) as nat,
    {
        self.as_slice_generic::<isize>()
    }

    /// The `isize` stored little-endian at bytes `[index, index + usize::BITS / 8)`.
    pub fn get_isize(&self, index: usize) -> (r: isize)
        requires
            index + usize::BITS / 8 <= self@.limit,
    {
        self.get::<isize>(index)
    }

    /// Stores `value` little-endian at bytes `[index, index + usize::BITS / 8)`.
    pub fn set_isize(&mut self, index: usize, value: isize)
        requires
            index + usize::BITS / 8 <= old(self)@.limit,
        ensures
            final(self)@ == old(self)@,
            final(self).allocation() == old(self).allocation(),
    {
        self.set::<isize>(index, value)
    }
}

} // verus!
