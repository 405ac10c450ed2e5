//! Which sizes and alignments describe an allocation, and where a new
//! allocation's first byte sits.

use vstd::prelude::*;

verus! {

/// Whether `n` is a power of two.
pub open spec fn is_power_of_two(n: nat) -> bool
    decreases n,
{
    if n == 0 {
        false
    } else if n == 1 {
        true
    } else {
        n % 2 == 0 && is_power_of_two(n / 2)
    }
}

/// Whether `size` bytes with alignment `align` form a valid layout: the
/// alignment is a power of two and the size, rounded up to a multiple of the
/// alignment, does not exceed `isize::MAX`.
pub open spec fn valid_layout(size: nat, align: nat) -> bool {
    &&& is_power_of_two(align)
    &&& size <= isize::MAX - (isize::MAX as nat) % align
}

/// The address of the first byte of a new allocation with alignment `align`.
///
/// This is a model address, not a machine address. Buffers address their
/// bytes in the allocation's own address space, in which an allocation with
/// alignment `align` starts at `align` itself: it is aligned to `align` and
/// to no larger power of two. `HBuf::as_ptr` returns such addresses, and
/// the alignment checks of the typed and atomic views are made on them.
pub open spec fn allocation_address(align: nat) -> nat {
    align
}

/// Whether `n` is a power of two.
pub fn power_of_two(n: usize) -> (r: bool)
    ensures
        r == is_power_of_two(n as nat),
{
    if n == 0 {
        return false;
    }
    let mut m: usize = n;
    while m > 1 && m % 2 == 0
        invariant
            m >= 1,
            is_power_of_two(m as nat) == is_power_of_two(n as nat),
        decreases m,
    {
        m = m / 2;
    }
    m == 1
}

/// Whether `size` and `align` form a valid layout.
pub fn layout_is_valid(size: usize, align: usize) -> (r: bool)
    ensures
        r == valid_layout(size as nat, align as nat),
{
    if !power_of_two(align) {
        return false;
    }
    let max: usize = isize::MAX as usize;
    assert(max % align <= max) by (nonlinear_arith)
        requires
            align > 0,
    ;
    size <= max - max % align
}

/// A valid layout of at least one byte leaves room for its bytes after the
/// allocation's address.
pub proof fn lemma_layout_fits_address_space(size: nat, align: nat)
    requires
        size >= 1,
        valid_layout(size, align),
    ensures
        allocation_address(align) + size <= usize::MAX,
        size + 16 <= usize::MAX,
        align >= 1,
{
    let m = isize::MAX as nat;
    if align > m {
        assert(m % align == m) by (nonlinear_arith)
            requires
                align > m,
        ;
    }
    assert(align <= m);
    assert(usize::MAX == 2 * m + 1) by {
        assert(usize::BITS == 32 || usize::BITS == 64);
    }
}

} // verus!
