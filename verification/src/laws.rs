//! Laws of the byte-offset operation, stated over the same spec functions
//! that the `byteoffset` contracts use, so that every caller can connect a
//! concrete call to them.
//!
//! The element-walking laws speak of a contiguous run of same-sized elements:
//! element `i` lives at `base + i * size`. They show that offsetting an
//! element's address by one element's byte size lands exactly on the
//! neighbouring element, and that such an offset always meets the obligations
//! that `byteoffset` demands of its caller.

use vstd::prelude::*;

use crate::convert::offset_fits;
use crate::Carrier;
use crate::ByteOffset;
use crate::ConstAddr;
use crate::MutAddr;
use crate::NonNullAddr;

verus! {

/// The address of element `i` of a contiguous run of elements of `size`
/// bytes each, starting at `base`.
pub open spec fn element_addr(base: int, size: int, i: int) -> int {
    base + i * size
}

/// Forward offset correctness: in a contiguous run of `n` elements of `size`
/// bytes each that lies inside the address space, the address of element `i`
/// shifted forward by one element's byte size is exactly the address of
/// element `i + 1`. The offset `size` also fits in `isize` and the shifted
/// address stays inside the address space, so such a call meets the
/// obligations `byteoffset` demands.
pub proof fn lemma_forward_offset(base: usize, size: usize, n: usize, i: usize)
    requires
        i + 1 < n,
        base + n * size <= usize::MAX,
    ensures
        element_addr(base as int, size as int, i as int) + size == element_addr(
            base as int,
            size as int,
            i as int + 1,
        ),
        0 <= element_addr(base as int, size as int, i as int),
        element_addr(base as int, size as int, i as int) + size <= usize::MAX,
        offset_fits(size as int),
{
    let s: int = size as int;
    let k: int = i as int;
    let m: int = n as int;
    assert((k + 1) * s == k * s + s) by (nonlinear_arith);
    assert(0 <= k * s) by (nonlinear_arith)
        requires
            0 <= k,
            0 <= s,
    ;
    assert((k + 1) * s <= m * s) by (nonlinear_arith)
        requires
            k + 1 <= m,
            0 <= s,
    ;
    assert(2 * s <= m * s) by (nonlinear_arith)
        requires
            2 <= m,
            0 <= s,
    ;
    assert(usize::MAX == 2 * (isize::MAX as int) + 1);
}

/// Backward offset correctness: in the same contiguous run, the address of
/// element `i` (for `i >= 1`) shifted backward by one element's byte size is
/// exactly the address of element `i - 1`, and the negated offset meets
/// `byteoffset`'s obligations.
pub proof fn lemma_backward_offset(base: usize, size: usize, n: usize, i: usize)
    requires
        1 <= i,
        i < n,
        base + n * size <= usize::MAX,
    ensures
        element_addr(base as int, size as int, i as int) - size == element_addr(
            base as int,
            size as int,
            i as int - 1,
        ),
        0 <= element_addr(base as int, size as int, i as int) - size,
        element_addr(base as int, size as int, i as int) <= usize::MAX,
        offset_fits(-(size as int)),
{
    let s: int = size as int;
    let k: int = i as int;
    let m: int = n as int;
    assert(k * s == (k - 1) * s + s) by (nonlinear_arith);
    assert(0 <= (k - 1) * s) by (nonlinear_arith)
        requires
            1 <= k,
            0 <= s,
    ;
    assert(k * s <= m * s) by (nonlinear_arith)
        requires
            k <= m,
            0 <= s,
    ;
    assert(2 * s <= m * s) by (nonlinear_arith)
        requires
            2 <= m,
            0 <= s,
    ;
    assert(usize::MAX == 2 * (isize::MAX as int) + 1);
}

/// Zero-offset identity for the mutable carrier: a zero offset always meets
/// the modeled obligations, and an output address that satisfies the
/// `byteoffset` postcondition for offset zero equals the input address.
pub proof fn lemma_zero_offset_mut(p: MutAddr, out: MutAddr)
    requires
        p.inv(),
        out.address() as int == p.address() as int + 0,
    ensures
        p.offset_safe(0),
        out.address() == p.address(),
{
}

/// Zero-offset identity for the immutable carrier.
pub proof fn lemma_zero_offset_const(p: ConstAddr, out: ConstAddr)
    requires
        p.inv(),
        out.address() as int == p.address() as int + 0,
    ensures
        p.offset_safe(0),
        out.address() == p.address(),
{
}

/// Zero-offset identity for the non-null carrier.
pub proof fn lemma_zero_offset_nonnull(p: NonNullAddr, out: NonNullAddr)
    requires
        p.inv(),
        out.address() as int == p.address() as int + 0,
    ensures
        p.offset_safe(0),
        out.address() == p.address(),
{
}

/// Non-null preservation: when a well-formed non-null carrier is shifted by
/// an offset that meets the modeled obligations, any output address that
/// satisfies the `byteoffset` postcondition is itself non-zero, so the
/// resulting carrier is well-formed again.
pub proof fn lemma_nonnull_preserved(p: NonNullAddr, off: int, out: NonNullAddr)
    requires
        p.inv(),
        p.offset_safe(off),
        out.address() as int == p.address() as int + off,
    ensures
        out.address() != 0,
        out.inv(),
{
}

} // verus!
