//! Atomic access to naturally aligned integers of 1, 2, 4 or 8 bytes, with
//! the caller's memory ordering.

use crate::buf::HBuf;
use crate::element::Element;
use crate::memory::{
    is_lane_width, is_load_ordering, is_store_ordering, lane_mask, lane_max, lemma_masked_at_most,
    load_half,
};
use std::sync::atomic::Ordering;
use vstd::prelude::*;

verus! {

/// Whether an atomic value of `width` bytes at byte `index` of a buffer whose
/// first byte sits at `address` lies before `limit` and is naturally aligned.
pub open spec fn atomic_slot(address: nat, limit: nat, index: nat, width: nat) -> bool {
    &&& is_lane_width(width)
    &&& index + width <= limit
    &&& (address + index) % width == 0
}

/// The ordering of the load half of a read-modify-write with ordering `order`.
fn load_half_of(order: Ordering) -> (r: Ordering)
    ensures
        r == load_half(order),
        is_load_ordering(r),
{
    match order {
        Ordering::Release => Ordering::Relaxed,
        Ordering::AcqRel => Ordering::Acquire,
        other => other,
    }
}

/// The bits of `value`, cut to its width.
fn lane_value<T: Element>(value: T, width: usize) -> (r: u64)
    requires
        is_lane_width(width as nat),
    ensures
        r == (value.spec_to_bits() as u64) & lane_max(width as nat),
        r <= lane_max(width as nat),
{
    let mask = lane_mask(width);
    let bits = value.to_bits() as u64;
    proof {
        lemma_masked_at_most(bits, mask);
    }
    bits & mask
}

impl HBuf {
    /// Atomically loads the `T` at byte `index`.
    pub fn atomic_load<T: Element>(&self, index: usize, order: Ordering) -> (r: T)
        requires
            atomic_slot(self@.address, self@.limit, index as nat, T::spec_width()),
            is_load_ordering(order),
    {
        let w = T::width();
        let v = self.load_lane_at(index, w, order);
        T::from_bits(v as u128)
    }

    /// Atomically stores `value` as the `T` at byte `index`.
    pub fn atomic_store<T: Element>(&self, index: usize, value: T, order: Ordering)
        requires
            atomic_slot(self@.address, self@.limit, index as nat, T::spec_width()),
            is_store_ordering(order),
    {
        let w = T::width();
        let bits = lane_value(value, w);
        let _ = self.update_lane_at(index, w, None, bits, order, Ordering::Relaxed);
    }

    /// Atomically replaces the `T` at byte `index` with `value` and returns
    /// the value it held.
    pub fn atomic_swap<T: Element>(&self, index: usize, value: T, order: Ordering) -> (r: T)
        requires
            atomic_slot(self@.address, self@.limit, index as nat, T::spec_width()),
    {
        let w = T::width();
        let bits = lane_value(value, w);
        match self.update_lane_at(index, w, None, bits, order, load_half_of(order)) {
            Ok(prev) => T::from_bits(prev as u128),
            Err(prev) => T::from_bits(prev as u128),
        }
    }

    /// Atomically replaces the `T` at byte `index` with `new` if it holds
    /// `current`. Returns `Ok(current)` when it did, or `Err` with the value
    /// found, which differs from `current`, when it did not.
    pub fn atomic_compare_exchange<T: Element>(
        &self,
        index: usize,
        current: T,
        new: T,
        success: Ordering,
        failure: Ordering,
    ) -> (r: Result<T, T>)
        requires
            atomic_slot(self@.address, self@.limit, index as nat, T::spec_width()),
            is_load_ordering(failure),
        ensures
            r matches Ok(v) ==> v == current,
            r matches Err(v) ==> v != current,
    {
        let w = T::width();
        let expected = lane_value(current, w);
        let bits = lane_value(new, w);
        match self.update_lane_at(index, w, Some(expected), bits, success, failure) {
            Ok(_) => Ok(current),
            Err(found) => {
                proof {
                    T::lemma_lane_round_trip(found);
                }
                Err(T::from_bits(found as u128))
            },
        }
    }

    /// As `atomic_compare_exchange`; this one never fails spuriously.
    pub fn atomic_compare_exchange_weak<T: Element>(
        &self,
        index: usize,
        current: T,
        new: T,
        success: Ordering,
        failure: Ordering,
    ) -> (r: Result<T, T>)
        requires
            atomic_slot(self@.address, self@.limit, index as nat, T::spec_width()),
            is_load_ordering(failure),
        ensures
            r matches Ok(v) ==> v == current,
            r matches Err(v) ==> v != current,
    {
        self.atomic_compare_exchange(index, current, new, success, failure)
    }

    /// Atomically loads the `u8` at byte `index`.
    pub fn load_u8(&self, index: usize, ordering: Ordering) -> (r: u8)
        requires
            atomic_slot(self@.address, self@.limit, index as nat, 1),
            is_load_ordering(ordering),
    {
        self.atomic_load::<u8>(index, ordering)
    }

    /// Atomically stores `value` as the `u8` at byte `index`.
    pub fn store_u8(&self, index: usize, value: u8, ordering: Ordering)
        requires
            atomic_slot(self@.address, self@.limit, index as nat, 1),
            is_store_ordering(ordering),
    {
        self.atomic_store::<u8>(index, value, ordering)
    }

    /// Atomically replaces the `u8` at byte `index` with `value` and
    /// returns the value it held.
    pub fn swap_u8(&self, index: usize, value: u8, ordering: Ordering) -> (r: u8)
        requires
            atomic_slot(self@.address, self@.limit, index as nat, 1),
    {
        self.atomic_swap::<u8>(index, value, ordering)
    }

    /// Atomically replaces the `u8` at byte `index` with `update` if it
    /// holds `current`: `Ok(current)` when it did, `Err` with the value found
    /// when it did not.
    pub fn compare_and_exchange_u8(
        &self,
        index: usize,
        current: u8,
        update: u8,
        success_ordering: Ordering,
        failure_ordering: Ordering,
    ) -> (r: Result<u8, u8>)
        requires
            atomic_slot(self@.address, self@.limit, index as nat, 1),
            is_load_ordering(failure_ordering),
        ensures
            r matches Ok(v) ==> v == current,
            r matches Err(v) ==> v != current,
    {
        self.atomic_compare_exchange::<u8>(index, current, update, success_ordering, failure_ordering)
    }

    /// As `compare_and_exchange_u8`; this one never fails spuriously.
    pub fn compare_and_exchange_weak_u8(
        &self,
        index: usize,
        current: u8,
        update: u8,
        success_ordering: Ordering,
        failure_ordering: Ordering,
    ) -> (r: Result<u8, u8>)
        requires
            atomic_slot(self@.address, self@.limit, index as nat, 1),
            is_load_ordering(failure_ordering),
        ensures
            r matches Ok(v) ==> v == current,
            r matches Err(v) ==> v != current,
    {
        self.atomic_compare_exchange_weak::<u8>(
            index,
            current,
            update,
            success_ordering,
            failure_ordering,
        )
    }

    /// Atomically loads the `i8` at byte `index`.
    pub fn load_i8(&self, index: usize, ordering: Ordering) -> (r: i8)
        requires
            atomic_slot(self@.address, self@.limit, index as nat, 1),
            is_load_ordering(ordering),
    {
        self.atomic_load::<i8>(index, ordering)
    }

    /// Atomically stores `value` as the `i8` at byte `index`.
    pub fn store_i8(&self, index: usize, value: i8, ordering: Ordering)
        requires
            atomic_slot(self@.address, self@.limit, index as nat, 1),
            is_store_ordering(ordering),
    {
        self.atomic_store::<i8>(index, value, ordering)
    }

    /// Atomically replaces the `i8` at byte `index` with `value` and
    /// returns the value it held.
    pub fn swap_i8(&self, index: usize, value: i8, ordering: Ordering) -> (r: i8)
        requires
            atomic_slot(self@.address, self@.limit, index as nat, 1),
    {
        self.atomic_swap::<i8>(index, value, ordering)
    }

    /// Atomically replaces the `i8` at byte `index` with `update` if it
    /// holds `current`: `Ok(current)` when it did, `Err` with the value found
    /// when it did not.
    pub fn compare_and_exchange_i8(
        &self,
        index: usize,
        current: i8,
        update: i8,
        success_ordering: Ordering,
        failure_ordering: Ordering,
    ) -> (r: Result<i8, i8>)
        requires
            atomic_slot(self@.address, self@.limit, index as nat, 1),
            is_load_ordering(failure_ordering),
        ensures
            r matches Ok(v) ==> v == current,
            r matches Err(v) ==> v != current,
    {
        self.atomic_compare_exchange::<i8>(index, current, update, success_ordering, failure_ordering)
    }

    /// As `compare_and_exchange_i8`; this one never fails spuriously.
    pub fn compare_and_exchange_weak_i8(
        &self,
        index: usize,
        current: i8,
        update: i8,
        success_ordering: Ordering,
        failure_ordering: Ordering,
    ) -> (r: Result<i8, i8>)
        requires
            atomic_slot(self@.address, self@.limit, index as nat, 1),
            is_load_ordering(failure_ordering),
        ensures
            r matches Ok(v) ==> v == current,
            r matches Err(v) ==> v != current,
    {
        self.atomic_compare_exchange_weak::<i8>(
            index,
            current,
            update,
            success_ordering,
            failure_ordering,
        )
    }

    /// Atomically loads the `u16` at byte `index`.
    pub fn atomic_load_u16(&self, index: usize, ordering: Ordering) -> (r: u16)
        requires
            atomic_slot(self@.address, self@.limit, index as nat, 2),
            is_load_ordering(ordering),
    {
        self.atomic_load::<u16>(index, ordering)
    }

    /// Atomically stores `value` as the `u16` at byte `index`.
    pub fn store_u16(&self, index: usize, value: u16, ordering: Ordering)
        requires
            atomic_slot(self@.address, self@.limit, index as nat, 2),
            is_store_ordering(ordering),
    {
        self.atomic_store::<u16>(index, value, ordering)
    }

    /// Atomically replaces the `u16` at byte `index` with `value` and
    /// returns the value it held.
    pub fn swap_u16(&self, index: usize, value: u16, ordering: Ordering) -> (r: u16)
        requires
            atomic_slot(self@.address, self@.limit, index as nat, 2),
    {
        self.atomic_swap::<u16>(index, value, ordering)
    }

    /// Atomically replaces the `u16` at byte `index` with `update` if it
    /// holds `current`: `Ok(current)` when it did, `Err` with the value found
    /// when it did not.
    pub fn compare_and_exchange_u16(
        &self,
        index: usize,
        current: u16,
        update: u16,
        success_ordering: Ordering,
        failure_ordering: Ordering,
    ) -> (r: Result<u16, u16>)
        requires
            atomic_slot(self@.address, self@.limit, index as nat, 2),
            is_load_ordering(failure_ordering),
        ensures
            r matches Ok(v) ==> v == current,
            r matches Err(v) ==> v != current,
    {
        self.atomic_compare_exchange::<u16>(index, current, update, success_ordering, failure_ordering)
    }

    /// As `compare_and_exchange_u16`; this one never fails spuriously.
    pub fn compare_and_exchange_weak_u16(
        &self,
        index: usize,
        current: u16,
        update: u16,
        success_ordering: Ordering,
        failure_ordering: Ordering,
    ) -> (r: Result<u16, u16>)
        requires
            atomic_slot(self@.address, self@.limit, index as nat, 2),
            is_load_ordering(failure_ordering),
        ensures
            r matches Ok(v) ==> v == current,
            r matches Err(v) ==> v != current,
    {
        self.atomic_compare_exchange_weak::<u16>(
            index,
            current,
            update,
            success_ordering,
            failure_ordering,
        )
    }

    /// Atomically loads the `i16` at byte `index`.
    pub fn atomic_load_i16(&self, index: usize, ordering: Ordering) -> (r: i16)
        requires
            atomic_slot(self@.address, self@.limit, index as nat, 2),
            is_load_ordering(ordering),
    {
        self.atomic_load::<i16>(index, ordering)
    }

    /// Atomically stores `value` as the `i16` at byte `index`.
    pub fn store_i16(&self, index: usize, value: i16, ordering: Ordering)
        requires
            atomic_slot(self@.address, self@.limit, index as nat, 2),
            is_store_ordering(ordering),
    {
        self.atomic_store::<i16>(index, value, ordering)
    }

    /// Atomically replaces the `i16` at byte `index` with `value` and
    /// returns the value it held.
    pub fn swap_i16(&self, index: usize, value: i16, ordering: Ordering) -> (r: i16)
        requires
            atomic_slot(self@.address, self@.limit, index as nat, 2),
    {
        self.atomic_swap::<i16>(index, value, ordering)
    }

    /// Atomically replaces the `i16` at byte `index` with `update` if it
    /// holds `current`: `Ok(current)` when it did, `Err` with the value found
    /// when it did not.
    pub fn compare_and_exchange_i16(
        &self,
        index: usize,
        current: i16,
        update: i16,
        success_ordering: Ordering,
        failure_ordering: Ordering,
    ) -> (r: Result<i16, i16>)
        requires
            atomic_slot(self@.address, self@.limit, index as nat, 2),
            is_load_ordering(failure_ordering),
        ensures
            r matches Ok(v) ==> v == current,
            r matches Err(v) ==> v != current,
    {
        self.atomic_compare_exchange::<i16>(index, current, update, success_ordering, failure_ordering)
    }

    /// As `compare_and_exchange_i16`; this one never fails spuriously.
    pub fn compare_and_exchange_weak_i16(
        &self,
        index: usize,
        current: i16,
        update: i16,
        success_ordering: Ordering,
        failure_ordering: Ordering,
    ) -> (r: Result<i16, i16>)
        requires
            atomic_slot(self@.address, self@.limit, index as nat, 2),
            is_load_ordering(failure_ordering),
        ensures
            r matches Ok(v) ==> v == current,
            r matches Err(v) ==> v != current,
    {
        self.atomic_compare_exchange_weak::<i16>(
            index,
            current,
            update,
            success_ordering,
            failure_ordering,
        )
    }

    /// Atomically loads the `u32` at byte `index`.
    pub fn atomic_load_u32(&self, index: usize, ordering: Ordering) -> (r: u32)
        requires
            atomic_slot(self@.address, self@.limit, index as nat, 4),
            is_load_ordering(ordering),
    {
        self.atomic_load::<u32>(index, ordering)
    }

    /// Atomically stores `value` as the `u32` at byte `index`.
    pub fn atomic_store_u32(&self, index: usize, value: u32, ordering: Ordering)
        requires
            atomic_slot(self@.address, self@.limit, index as nat, 4),
            is_store_ordering(ordering),
    {
        self.atomic_store::<u32>(index, value, ordering)
    }

    /// Atomically replaces the `u32` at byte `index` with `value` and
    /// returns the value it held.
    pub fn atomic_swap_u32(&self, index: usize, value: u32, ordering: Ordering) -> (r: u32)
        requires
            atomic_slot(self@.address, self@.limit, index as nat, 4),
    {
        self.atomic_swap::<u32>(index, value, ordering)
    }

    /// Atomically replaces the `u32` at byte `index` with `update` if it
    /// holds `current`: `Ok(current)` when it did, `Err` with the value found
    /// when it did not.
    pub fn atomic_compare_and_exchange_u32(
        &self,
        index: usize,
        current: u32,
        update: u32,
        success_ordering: Ordering,
        failure_ordering: Ordering,
    ) -> (r: Result<u32, u32>)
        requires
            atomic_slot(self@.address, self@.limit, index as nat, 4),
            is_load_ordering(failure_ordering),
        ensures
            r matches Ok(v) ==> v == current,
            r matches Err(v) ==> v != current,
    {
        self.atomic_compare_exchange::<u32>(index, current, update, success_ordering, failure_ordering)
    }

    /// As `atomic_compare_and_exchange_u32`; this one never fails spuriously.
    pub fn atomic_compare_and_exchange_weak_u32(
        &self,
        index: usize,
        current: u32,
        update: u32,
        success_ordering: Ordering,
        failure_ordering: Ordering,
    ) -> (r: Result<u32, u32>)
        requires
            atomic_slot(self@.address, self@.limit, index as nat, 4),
            is_load_ordering(failure_ordering),
        ensures
            r matches Ok(v) ==> v == current,
            r matches Err(v) ==> v != current,
    {
        self.atomic_compare_exchange_weak::<u32>(
            index,
            current,
            update,
            success_ordering,
            failure_ordering,
        )
    }

    /// Atomically loads the `i32` at byte `index`.
    pub fn atomic_load_i32(&self, index: usize, ordering: Ordering) -> (r: i32)
        requires
            atomic_slot(self@.address, self@.limit, index as nat, 4),
            is_load_ordering(ordering),
    {
        self.atomic_load::<i32>(index, ordering)
    }

    /// Atomically stores `value` as the `i32` at byte `index`.
    pub fn atomic_store_i32(&self, index: usize, value: i32, ordering: Ordering)
        requires
            atomic_slot(self@.address, self@.limit, index as nat, 4),
            is_store_ordering(ordering),
    {
        self.atomic_store::<i32>(index, value, ordering)
    }

    /// Atomically replaces the `i32` at byte `index` with `value` and
    /// returns the value it held.
    pub fn atomic_swap_i32(&self, index: usize, value: i32, ordering: Ordering) -> (r: i32)
        requires
            atomic_slot(self@.address, self@.limit, index as nat, 4),
    {
        self.atomic_swap::<i32>(index, value, ordering)
    }

    /// Atomically replaces the `i32` at byte `index` with `update` if it
    /// holds `current`: `Ok(current)` when it did, `Err` with the value found
    /// when it did not.
    pub fn atomic_compare_and_exchange_i32(
        &self,
        index: usize,
        current: i32,
        update: i32,
        success_ordering: Ordering,
        failure_ordering: Ordering,
    ) -> (r: Result<i32, i32>)
        requires
            atomic_slot(self@.address, self@.limit, index as nat, 4),
            is_load_ordering(failure_ordering),
        ensures
            r matches Ok(v) ==> v == current,
            r matches Err(v) ==> v != current,
    {
        self.atomic_compare_exchange::<i32>(index, current, update, success_ordering, failure_ordering)
    }

    /// As `atomic_compare_and_exchange_i32`; this one never fails spuriously.
    pub fn atomic_compare_and_exchange_weak_i32(
        &self,
        index: usize,
        current: i32,
        update: i32,
        success_ordering: Ordering,
        failure_ordering: Ordering,
    ) -> (r: Result<i32, i32>)
        requires
            atomic_slot(self@.address, self@.limit, index as nat, 4),
            is_load_ordering(failure_ordering),
        ensures
            r matches Ok(v) ==> v == current,
            r matches Err(v) ==> v != current,
    {
        self.atomic_compare_exchange_weak::<i32>(
            index,
            current,
            update,
            success_ordering,
            failure_ordering,
        )
    }

    /// Atomically loads the `u64` at byte `index`.
    pub fn atomic_load_u64(&self, index: usize, ordering: Ordering) -> (r: u64)
        requires
            atomic_slot(self@.address, self@.limit, index as nat, 8),
            is_load_ordering(ordering),
    {
        self.atomic_load::<u64>(index, ordering)
    }

    /// Atomically stores `value` as the `u64` at byte `index`.
    pub fn atomic_store_u64(&self, index: usize, value: u64, ordering: Ordering)
        requires
            atomic_slot(self@.address, self@.limit, index as nat, 8),
            is_store_ordering(ordering),
    {
        self.atomic_store::<u64>(index, value, ordering)
    }

    /// Atomically replaces the `u64` at byte `index` with `value` and
    /// returns the value it held.
    pub fn atomic_swap_u64(&self, index: usize, value: u64, ordering: Ordering) -> (r: u64)
        requires
            atomic_slot(self@.address, self@.limit, index as nat, 8),
    {
        self.atomic_swap::<u64>(index, value, ordering)
    }

    /// Atomically replaces the `u64` at byte `index` with `update` if it
    /// holds `current`: `Ok(current)` when it did, `Err` with the value found
    /// when it did not.
    pub fn atomic_compare_and_exchange_u64(
        &self,
        index: usize,
        current: u64,
        update: u64,
        success_ordering: Ordering,
        failure_ordering: Ordering,
    ) -> (r: Result<u64, u64>)
        requires
            atomic_slot(self@.address, self@.limit, index as nat, 8),
            is_load_ordering(failure_ordering),
        ensures
            r matches Ok(v) ==> v == current,
            r matches Err(v) ==> v != current,
    {
        self.atomic_compare_exchange::<u64>(index, current, update, success_ordering, failure_ordering)
    }

    /// As `atomic_compare_and_exchange_u64`; this one never fails spuriously.
    pub fn atomic_compare_and_exchange_weak_u64(
        &self,
        index: usize,
        current: u64,
        update: u64,
        success_ordering: Ordering,
        failure_ordering: Ordering,
    ) -> (r: Result<u64, u64>)
        requires
            atomic_slot(self@.address, self@.limit, index as nat, 8),
            is_load_ordering(failure_ordering),
        ensures
            r matches Ok(v) ==> v == current,
            r matches Err(v) ==> v != current,
    {
        self.atomic_compare_exchange_weak::<u64>(
            index,
            current,
            update,
            success_ordering,
            failure_ordering,
        )
    }

    /// Atomically loads the `i64` at byte `index`.
    pub fn atomic_load_i64(&self, index: usize, ordering: Ordering) -> (r: i64)
        requires
            atomic_slot(self@.address, self@.limit, index as nat, 8),
            is_load_ordering(ordering),
    {
        self.atomic_load::<i64>(index, ordering)
    }

    /// Atomically stores `value` as the `i64` at byte `index`.
    pub fn atomic_store_i64(&self, index: usize, value: i64, ordering: Ordering)
        requires
            atomic_slot(self@.address, self@.limit, index as nat, 8),
            is_store_ordering(ordering),
    {
        self.atomic_store::<i64>(index, value, ordering)
    }

    /// Atomically replaces the `i64` at byte `index` with `value` and
    /// returns the value it held.
    pub fn atomic_swap_i64(&self, index: usize, value: i64, ordering: Ordering) -> (r: i64)
        requires
            atomic_slot(self@.address, self@.limit, index as nat, 8),
    {
        self.atomic_swap::<i64>(index, value, ordering)
    }

    /// Atomically replaces the `i64` at byte `index` with `update` if it
    /// holds `current`: `Ok(current)` when it did, `Err` with the value found
    /// when it did not.
    pub fn atomic_compare_and_exchange_i64(
        &self,
        index: usize,
        current: i64,
        update: i64,
        success_ordering: Ordering,
        failure_ordering: Ordering,
    ) -> (r: Result<i64, i64>)
        requires
            atomic_slot(self@.address, self@.limit, index as nat, 8),
            is_load_ordering(failure_ordering),
        ensures
            r matches Ok(v) ==> v == current,
            r matches Err(v) ==> v != current,
    {
        self.atomic_compare_exchange::<i64>(index, current, update, success_ordering, failure_ordering)
    }

    /// As `atomic_compare_and_exchange_i64`; this one never fails spuriously.
    pub fn atomic_compare_and_exchange_weak_i64(
        &self,
        index: usize,
        current: i64,
        update: i64,
        success_ordering: Ordering,
        failure_ordering: Ordering,
    ) -> (r: Result<i64, i64>)
        requires
            atomic_slot(self@.address, self@.limit, index as nat, 8),
            is_load_ordering(failure_ordering),
        ensures
            r matches Ok(v) ==> v == current,
            r matches Err(v) ==> v != current,
    {
        self.atomic_compare_exchange_weak::<i64>(
            index,
            current,
            update,
            success_ordering,
            failure_ordering,
        )
    }

    /// Atomically loads the `usize` at byte `index`.
    pub fn atomic_load_usize(&self, index: usize, ordering: Ordering) -> (r: usize)
        requires
            atomic_slot(self@.address, self@.limit, index as nat, (usize::BITS / 8) as nat),
            is_load_ordering(ordering),
    {
        assert(usize::BITS == 32 || usize::BITS == 64);
        self.atomic_load::<usize>(index, ordering)
    }

    /// Atomically stores `value` as the `usize` at byte `index`.
    pub fn atomic_store_usize(&self, index: usize, value: usize, ordering: Ordering)
        requires
            atomic_slot(self@.address, self@.limit, index as nat, (usize::BITS / 8) as nat),
            is_store_ordering(ordering),
    {
        assert(usize::BITS == 32 || usize::BITS == 64);
        self.atomic_store::<usize>(index, value, ordering)
    }

    /// Atomically replaces the `usize` at byte `index` with `value` and
    /// returns the value it held.
    pub fn atomic_swap_usize(&self, index: usize, value: usize, ordering: Ordering) -> (r: usize)
        requires
            atomic_slot(self@.address, self@.limit, index as nat, (usize::BITS / 8) as nat),
    {
        assert(usize::BITS == 32 || usize::BITS == 64);
        self.atomic_swap::<usize>(index, value, ordering)
    }

    /// Atomically replaces the `usize` at byte `index` with `update` if it
    /// holds `current`: `Ok(current)` when it did, `Err` with the value found
    /// when it did not.
    pub fn atomic_compare_and_exchange_usize(
        &self,
        index: usize,
        current: usize,
        update: usize,
        success_ordering: Ordering,
        failure_ordering: Ordering,
    ) -> (r: Result<usize, usize>)
        requires
            atomic_slot(self@.address, self@.limit, index as nat, (usize::BITS / 8) as nat),
            is_load_ordering(failure_ordering),
        ensures
            r matches Ok(v) ==> v == current,
            r matches Err(v) ==> v != current,
    {
        assert(usize::BITS == 32 || usize::BITS == 64);
        self.atomic_compare_exchange::<usize>(index, current, update, success_ordering, failure_ordering)
    }

    /// As `atomic_compare_and_exchange_usize`; this one never fails spuriously.
    pub fn atomic_compare_and_exchange_weak_usize(
        &self,
        index: usize,
        current: usize,
        update: usize,
        success_ordering: Ordering,
        failure_ordering: Ordering,
    ) -> (r: Result<usize, usize>)
        requires
            atomic_slot(self@.address, self@.limit, index as nat, (usize::BITS / 8) as nat),
            is_load_ordering(failure_ordering),
        ensures
            r matches Ok(v) ==> v == current,
            r matches Err(v) ==> v != current,
    {
        assert(usize::BITS == 32 || usize::BITS == 64);
        self.atomic_compare_exchange_weak::<usize>(
            index,
            current,
            update,
            success_ordering,
            failure_ordering,
        )
    }

    /// Atomically loads the `isize` at byte `index`.
    pub fn atomic_load_isize(&self, index: usize, ordering: Ordering) -> (r: isize)
        requires
            atomic_slot(self@.address, self@.limit, index as nat, (usize::BITS / 8) as nat),
            is_load_ordering(ordering),
    {
        assert(usize::BITS == 32 || usize::BITS == 64);
        self.atomic_load::<isize>(index, ordering)
    }

    /// Atomically stores `value` as the `isize` at byte `index`.
    pub fn atomic_store_isize(&self, index: usize, value: isize, ordering: Ordering)
        requires
            atomic_slot(self@.address, self@.limit, index as nat, (usize::BITS / 8) as nat),
            is_store_ordering(ordering),
    {
        assert(usize::BITS == 32 || usize::BITS == 64);
        self.atomic_store::<isize>(index, value, ordering)
    }

    /// Atomically replaces the `isize` at byte `index` with `value` and
    /// returns the value it held.
    pub fn atomic_swap_isize(&self, index: usize, value: isize, ordering: Ordering) -> (r: isize)
        requires
            atomic_slot(self@.address, self@.limit, index as nat, (usize::BITS / 8) as nat),
    {
        assert(usize::BITS == 32 || usize::BITS == 64);
        self.atomic_swap::<isize>(index, value, ordering)
    }

    /// Atomically replaces the `isize` at byte `index` with `update` if it
    /// holds `current`: `Ok(current)` when it did, `Err` with the value found
    /// when it did not.
    pub fn atomic_compare_and_exchange_isize(
        &self,
        index: usize,
        current: isize,
        update: isize,
        success_ordering: Ordering,
        failure_ordering: Ordering,
    ) -> (r: Result<isize, isize>)
        requires
            atomic_slot(self@.address, self@.limit, index as nat, (usize::BITS / 8) as nat),
            is_load_ordering(failure_ordering),
        ensures
            r matches Ok(v) ==> v == current,
            r matches Err(v) ==> v != current,
    {
        assert(usize::BITS == 32 || usize::BITS == 64);
        self.atomic_compare_exchange::<isize>(index, current, update, success_ordering, failure_ordering)
    }

    /// As `atomic_compare_and_exchange_isize`; this one never fails spuriously.
    pub fn atomic_compare_and_exchange_weak_isize(
        &self,
        index: usize,
        current: isize,
        update: isize,
        success_ordering: Ordering,
        failure_ordering: Ordering,
    ) -> (r: Result<isize, isize>)
        requires
            atomic_slot(self@.address, self@.limit, index as nat, (usize::BITS / 8) as nat),
            is_load_ordering(failure_ordering),
        ensures
            r matches Ok(v) ==> v == current,
            r matches Err(v) ==> v != current,
    {
        assert(usize::BITS == 32 || usize::BITS == 64);
        self.atomic_compare_exchange_weak::<isize>(
            index,
            current,
            update,
            success_ordering,
            failure_ordering,
        )
    }
}

} // verus!
