//! The fixed-width integers that a buffer can hold, and how each is stored.

use crate::memory::{is_lane_width, lane_max};
use vstd::prelude::*;

verus! {

/// A fixed-width integer that a buffer can hold.
///
/// A value is stored as its little-endian bytes; its *bits* are those bytes
/// read as one unsigned number.
pub trait Element: Sized + Copy {
    /// The number of bytes of a value.
    spec fn spec_width() -> nat;

    /// The value whose bits are the low `spec_width()` bytes of `bits`.
    spec fn spec_from_bits(bits: u128) -> Self;

    /// The bits of the value.
    spec fn spec_to_bits(self) -> u128;

    fn width() -> (r: usize)
        ensures
            r as nat == Self::spec_width(),
            1 <= r <= 16,
    ;

    fn from_bits(bits: u128) -> (r: Self)
        ensures
            r == Self::spec_from_bits(bits),
    ;

    fn to_bits(self) -> (r: u128)
        ensures
            r == self.spec_to_bits(),
    ;

    /// Bits that fit a lane, read as a value and cut back to the lane, are
    /// the same bits.
    proof fn lemma_lane_round_trip(lane: u64)
        requires
            is_lane_width(Self::spec_width()),
            lane <= lane_max(Self::spec_width()),
        ensures
            (Self::spec_from_bits(lane as u128).spec_to_bits() as u64) & lane_max(Self::spec_width())
                == lane,
    ;
}

impl Element for u8 {
    open spec fn spec_width() -> nat {
        1
    }

    open spec fn spec_from_bits(bits: u128) -> u8 {
        bits as u8
    }

    open spec fn spec_to_bits(self) -> u128 {
        self as u128
    }

    fn width() -> (r: usize) {
        1
    }

    fn from_bits(bits: u128) -> (r: u8) {
        bits as u8
    }

    fn to_bits(self) -> (r: u128) {
        self as u128
    }

    proof fn lemma_lane_round_trip(lane: u64) {
        assert((((((lane as u128) as u8)) as u128 as u64) & 0xffu64) == lane) by (bit_vector)
            requires
                lane <= 0xffu64,
        ;
    }
}

impl Element for u16 {
    open spec fn spec_width() -> nat {
        2
    }

    open spec fn spec_from_bits(bits: u128) -> u16 {
        bits as u16
    }

    open spec fn spec_to_bits(self) -> u128 {
        self as u128
    }

    fn width() -> (r: usize) {
        2
    }

    fn from_bits(bits: u128) -> (r: u16) {
        bits as u16
    }

    fn to_bits(self) -> (r: u128) {
        self as u128
    }

    proof fn lemma_lane_round_trip(lane: u64) {
        assert((((((lane as u128) as u16)) as u128 as u64) & 0xffffu64) == lane) by (bit_vector)
            requires
                lane <= 0xffffu64,
        ;
    }
}

impl Element for u32 {
    open spec fn spec_width() -> nat {
        4
    }

    open spec fn spec_from_bits(bits: u128) -> u32 {
        bits as u32
    }

    open spec fn spec_to_bits(self) -> u128 {
        self as u128
    }

    fn width() -> (r: usize) {
        4
    }

    fn from_bits(bits: u128) -> (r: u32) {
        bits as u32
    }

    fn to_bits(self) -> (r: u128) {
        self as u128
    }

    proof fn lemma_lane_round_trip(lane: u64) {
        assert((((((lane as u128) as u32)) as u128 as u64) & 0xffff_ffffu64) == lane) by (bit_vector)
            requires
                lane <= 0xffff_ffffu64,
        ;
    }
}

impl Element for u64 {
    open spec fn spec_width() -> nat {
        8
    }

    open spec fn spec_from_bits(bits: u128) -> u64 {
        bits as u64
    }

    open spec fn spec_to_bits(self) -> u128 {
        self as u128
    }

    fn width() -> (r: usize) {
        8
    }

    fn from_bits(bits: u128) -> (r: u64) {
        bits as u64
    }

    fn to_bits(self) -> (r: u128) {
        self as u128
    }

    proof fn lemma_lane_round_trip(lane: u64) {
        assert((((((lane as u128) as u64)) as u128 as u64) & 0xffff_ffff_ffff_ffffu64) == lane) by (bit_vector)
            requires
                lane <= 0xffff_ffff_ffff_ffffu64,
        ;
    }
}

impl Element for u128 {
    open spec fn spec_width() -> nat {
        16
    }

    open spec fn spec_from_bits(bits: u128) -> u128 {
        bits as u128
    }

    open spec fn spec_to_bits(self) -> u128 {
        self as u128
    }

    fn width() -> (r: usize) {
        16
    }

    fn from_bits(bits: u128) -> (r: u128) {
        bits as u128
    }

    fn to_bits(self) -> (r: u128) {
        self as u128
    }

    proof fn lemma_lane_round_trip(lane: u64) {
    }
}

impl Element for usize {
    open spec fn spec_width() -> nat {
        (usize::BITS / 8) as nat
    }

    open spec fn spec_from_bits(bits: u128) -> usize {
        bits as usize
    }

    open spec fn spec_to_bits(self) -> u128 {
        self as u128
    }

    fn width() -> (r: usize) {
        assert(usize::BITS == 32 || usize::BITS == 64);
        (usize::BITS / 8) as usize
    }

    fn from_bits(bits: u128) -> (r: usize) {
        bits as usize
    }

    fn to_bits(self) -> (r: u128) {
        self as u128
    }

    proof fn lemma_lane_round_trip(lane: u64) {
        assert(usize::BITS == 32 || usize::BITS == 64);
        if usize::BITS == 64 {
            assert((((((lane as u128) as usize)) as u128 as u64) & 0xffff_ffff_ffff_ffffu64) == lane) by (bit_vector)
                requires
                    usize::BITS == 64,
            ;
        } else {
            assert((((((lane as u128) as usize)) as u128 as u64) & 0xffff_ffffu64) == lane) by (bit_vector)
                requires
                    lane <= 0xffff_ffffu64,
            ;
        }
    }
}

impl Element for i8 {
    open spec fn spec_width() -> nat {
        1
    }

    open spec fn spec_from_bits(bits: u128) -> i8 {
        bits as i8
    }

    open spec fn spec_to_bits(self) -> u128 {
        (self as u8) as u128
    }

    fn width() -> (r: usize) {
        1
    }

    fn from_bits(bits: u128) -> (r: i8) {
        bits as i8
    }

    fn to_bits(self) -> (r: u128) {
        (self as u8) as u128
    }

    proof fn lemma_lane_round_trip(lane: u64) {
        assert((((((lane as u128) as i8) as u8) as u128 as u64) & 0xffu64) == lane) by (bit_vector)
            requires
                lane <= 0xffu64,
        ;
    }
}

impl Element for i16 {
    open spec fn spec_width() -> nat {
        2
    }

    open spec fn spec_from_bits(bits: u128) -> i16 {
        bits as i16
    }

    open spec fn spec_to_bits(self) -> u128 {
        (self as u16) as u128
    }

    fn width() -> (r: usize) {
        2
    }

    fn from_bits(bits: u128) -> (r: i16) {
        bits as i16
    }

    fn to_bits(self) -> (r: u128) {
        (self as u16) as u128
    }

    proof fn lemma_lane_round_trip(lane: u64) {
        assert((((((lane as u128) as i16) as u16) as u128 as u64) & 0xffffu64) == lane) by (bit_vector)
            requires
                lane <= 0xffffu64,
        ;
    }
}

impl Element for i32 {
    open spec fn spec_width() -> nat {
        4
    }

    open spec fn spec_from_bits(bits: u128) -> i32 {
        bits as i32
    }

    open spec fn spec_to_bits(self) -> u128 {
        (self as u32) as u128
    }

    fn width() -> (r: usize) {
        4
    }

    fn from_bits(bits: u128) -> (r: i32) {
        bits as i32
    }

    fn to_bits(self) -> (r: u128) {
        (self as u32) as u128
    }

    proof fn lemma_lane_round_trip(lane: u64) {
        assert((((((lane as u128) as i32) as u32) as u128 as u64) & 0xffff_ffffu64) == lane) by (bit_vector)
            requires
                lane <= 0xffff_ffffu64,
        ;
    }
}

impl Element for i64 {
    open spec fn spec_width() -> nat {
        8
    }

    open spec fn spec_from_bits(bits: u128) -> i64 {
        bits as i64
    }

    open spec fn spec_to_bits(self) -> u128 {
        (self as u64) as u128
    }

    fn width() -> (r: usize) {
        8
    }

    fn from_bits(bits: u128) -> (r: i64) {
        bits as i64
    }

    fn to_bits(self) -> (r: u128) {
        (self as u64) as u128
    }

    proof fn lemma_lane_round_trip(lane: u64) {
        assert((((((lane as u128) as i64) as u64) as u128 as u64) & 0xffff_ffff_ffff_ffffu64) == lane) by (bit_vector)
            requires
                lane <= 0xffff_ffff_ffff_ffffu64,
        ;
    }
}

impl Element for i128 {
    open spec fn spec_width() -> nat {
        16
    }

    open spec fn spec_from_bits(bits: u128) -> i128 {
        bits as i128
    }

    open spec fn spec_to_bits(self) -> u128 {
        (self as u128) as u128
    }

    fn width() -> (r: usize) {
        16
    }

    fn from_bits(bits: u128) -> (r: i128) {
        bits as i128
    }

    fn to_bits(self) -> (r: u128) {
        (self as u128) as u128
    }

    proof fn lemma_lane_round_trip(lane: u64) {
    }
}

impl Element for isize {
    open spec fn spec_width() -> nat {
        (usize::BITS / 8) as nat
    }

    open spec fn spec_from_bits(bits: u128) -> isize {
        bits as isize
    }

    open spec fn spec_to_bits(self) -> u128 {
        (self as usize) as u128
    }

    fn width() -> (r: usize) {
        assert(usize::BITS == 32 || usize::BITS == 64);
        (usize::BITS / 8) as usize
    }

    fn from_bits(bits: u128) -> (r: isize) {
        bits as isize
    }

    fn to_bits(self) -> (r: u128) {
        (self as usize) as u128
    }

    proof fn lemma_lane_round_trip(lane: u64) {
        assert(usize::BITS == 32 || usize::BITS == 64);
        if usize::BITS == 64 {
            assert((((((lane as u128) as isize) as usize) as u128 as u64) & 0xffff_ffff_ffff_ffffu64) == lane) by (bit_vector)
                requires
                    usize::BITS == 64,
            ;
        } else {
            assert((((((lane as u128) as isize) as usize) as u128 as u64) & 0xffff_ffffu64) == lane) by (bit_vector)
                requires
                    lane <= 0xffff_ffffu64,
            ;
        }
    }
}

} // verus!
