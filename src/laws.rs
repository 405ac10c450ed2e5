//! Facts about the window that hold across operations.

use crate::buf::{
    flipped, fresh_view, reopened, seek_in_bounds, seek_target, transfer_len, with_limit,
    with_position, HBuf, HBufView, SeekFrom,
};
use vstd::prelude::*;

verus! {

/// Every change of the window keeps `position <= limit <= capacity`: setting
/// the limit to at most the capacity, setting the position to at most the
/// limit, flipping, resetting, a seek that succeeds, and moving the position
/// past the bytes of a read or write.
pub proof fn lemma_transitions_keep_window_ordered(
    v: HBufView,
    new_limit: nat,
    new_position: nat,
    pos: SeekFrom,
    requested: nat,
)
    requires
        v.well_formed(),
    ensures
        new_limit <= v.capacity ==> with_limit(v, new_limit).well_formed(),
        new_position <= v.limit ==> with_position(v, new_position).well_formed(),
        flipped(v).well_formed(),
        reopened(v).well_formed(),
        seek_in_bounds(v, pos) ==> with_position(v, seek_target(v, pos) as nat).well_formed(),
        with_position(
            v,
            (v.position + transfer_len(requested as int, v.remaining())) as nat,
        ).well_formed(),
{
}

/// A flip followed by a reset leaves the limit at the capacity and the
/// position at 0, whatever the window was before.
pub proof fn lemma_flip_then_reset(v: HBufView)
    ensures
        reopened(flipped(v)).limit == v.capacity,
        reopened(flipped(v)).position == 0,
        reopened(flipped(v)).capacity == v.capacity,
        reopened(flipped(v)).address == v.address,
{
}

/// A split made at `off` is a window on the parent's allocation in which
/// byte `i` is the parent's byte `off + i`: the same allocation, the same
/// address, and inside the parent's capacity.
pub proof fn lemma_split_aliases_parent(parent: HBuf, child: HBuf, off: nat, i: nat)
    requires
        off + child@.capacity <= parent@.capacity,
        i < child@.capacity,
        child@ == fresh_view(parent@.address + off, child@.capacity),
        child.allocation() == parent.allocation(),
    ensures
        child@.address + i == parent@.address + (off + i),
        off + i < parent@.capacity,
{
}

} // verus!
