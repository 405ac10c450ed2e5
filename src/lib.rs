//! A reference-counted, window-addressed byte buffer.
//!
//! One allocation is shared by every clone and split of a buffer. Each handle
//! has its own window (`capacity`, `limit`, `position`) over the shared
//! bytes; the bytes themselves live in atomic words, so that handles on
//! several threads can use the atomic accessors on the same memory.
//!
//! Bytes are addressed in the allocation's own address space: an allocation
//! made with alignment `a` starts at address `a`, so it is aligned to `a` and
//! to no larger power of two, and byte `i` of a buffer sits at
//! `as_ptr() + i`. Typed views and atomic accessors check alignment against
//! these addresses.
//!
//! What the bytes hold is shared with every other handle and thread, so the
//! contracts speak of windows, bounds, alignment and allocations, never of
//! byte values.

mod atomic_view;
mod atomics;
mod buf;
mod codec;
mod element;
mod error;
mod layout;
pub mod laws;
mod memory;
mod views;

pub use atomic_view::AtomicView;
pub use atomics::atomic_slot;
pub use buf::{
    flipped, fresh_view, reopened, seek_in_bounds, seek_target, transfer_len, with_limit,
    with_position, HBuf, HBufView, SeekFrom,
};
pub use codec::{decode_le, encode_le, le_value, pow256};
pub use element::Element;
pub use error::HBufError;
pub use layout::{allocation_address, is_power_of_two, layout_is_valid, power_of_two, valid_layout};
pub use memory::{
    is_lane_width, is_load_ordering, is_store_ordering, lane_max, load_half, DynDestructor,
    HBufDestructor, HBufDestructorInfo,
};
pub use views::aligned_for;
