//! Byte-granular address arithmetic over the three pointer-like carrier
//! kinds of low-level code: mutable, immutable, and non-null addresses.
//!
//! Each carrier kind offers one operation, `byteoffset`, which shifts the
//! address by a signed number of bytes and returns a byte-granular address of
//! the same carrier kind. The offset may be held in any primitive integer
//! type; it is first converted into `isize`, and an unrepresentable offset is
//! the one reported error. The obligations that native pointer arithmetic
//! leaves to the caller — the shifted address must stay inside the address
//! space, and a non-null address must stay non-null — appear here as
//! preconditions on `byteoffset`.

use vstd::prelude::*;

pub mod convert;
pub mod laws;

use crate::convert::{conversion_error_for, offset_fits, ConversionError, OffsetValue};

verus! {

/// What every carrier kind exposes to contracts: the machine address it
/// represents, its well-formedness, and whether it is byte-granular, that is,
/// whether the element size attached to it is a single byte.
pub trait Carrier: Sized {
    /// The machine address carried by this value.
    spec fn address(&self) -> usize;

    /// Well-formedness of the carrier; only the non-null kind constrains it.
    spec fn inv(&self) -> bool;

    /// Whether the carrier's element size is one byte.
    spec fn byte_granular(&self) -> bool;
}

/// A possibly-null address that may alias mutable memory. The address is held
/// as a plain machine word; `elem_size` is the byte size of the element the
/// address points at, the one part of a pointee's type that byte-granular
/// arithmetic cares about.
#[derive(Clone, Copy, Debug, PartialEq, Eq, Structural)]
pub struct MutAddr {
    /// The machine address.
    pub addr: usize,
    /// The byte size of the pointed-at element.
    pub elem_size: usize,
}

/// A possibly-null address that aliases memory intended to be read-only.
#[derive(Clone, Copy, Debug, PartialEq, Eq, Structural)]
pub struct ConstAddr {
    /// The machine address.
    pub addr: usize,
    /// The byte size of the pointed-at element.
    pub elem_size: usize,
}

/// An address that is statically guaranteed never to be null; every operation
/// on it must preserve that guarantee.
#[derive(Clone, Copy, Debug, PartialEq, Eq, Structural)]
pub struct NonNullAddr {
    /// The machine address; well-formed values keep it non-zero.
    pub addr: usize,
    /// The byte size of the pointed-at element.
    pub elem_size: usize,
}

impl Carrier for MutAddr {
    open spec fn address(&self) -> usize {
        self.addr
    }

    open spec fn inv(&self) -> bool {
        true
    }

    open spec fn byte_granular(&self) -> bool {
        self.elem_size == 1
    }
}

impl Carrier for ConstAddr {
    open spec fn address(&self) -> usize {
        self.addr
    }

    open spec fn inv(&self) -> bool {
        true
    }

    open spec fn byte_granular(&self) -> bool {
        self.elem_size == 1
    }
}

impl Carrier for NonNullAddr {
    open spec fn address(&self) -> usize {
        self.addr
    }

    open spec fn inv(&self) -> bool {
        self.addr != 0
    }

    open spec fn byte_granular(&self) -> bool {
        self.elem_size == 1
    }
}

/// Byte-granular address arithmetic over a carrier kind.
///
/// Native pointer arithmetic leaves its soundness obligations to the caller:
/// the shifted address must stay within the address space (and, for this
/// model's non-null kind, away from null). Those obligations are the
/// precondition `offset_safe`, demanded whenever the offset converts, so a
/// caller acknowledges them by proving them at each call. The in-bounds rule
/// of a single allocated object is not modeled here — addresses are plain
/// numbers with no allocation attached — and remains an obligation on how the
/// caller uses the resulting address.
pub trait ByteOffset: Carrier {
    /// The carrier kind of the result: the same kind as `Self`, at byte
    /// granularity.
    type Output: Carrier;

    /// The modeled caller obligations for shifting this carrier by `off`
    /// bytes: the result stays inside the address space, and a non-null
    /// carrier stays non-null.
    spec fn offset_safe(&self, off: int) -> bool;

    /// Shift the address by `offset` bytes, positive forward and negative
    /// backward, yielding a byte-granular address of the same carrier kind.
    /// An offset that `isize` cannot represent is reported as a
    /// `ConversionError` carrying the attempted value, and no arithmetic is
    /// attempted.
    fn byteoffset<T: OffsetValue>(&self, offset: T) -> (r: Result<Self::Output, ConversionError>)
        requires
            self.inv(),
            offset_fits(offset.offset_int()) ==> self.offset_safe(offset.offset_int()),
        ensures
            offset_fits(offset.offset_int()) ==> r is Ok && r->Ok_0.address() as int
                == self.address() as int + offset.offset_int() && r->Ok_0.byte_granular()
                && r->Ok_0.inv(),
            !offset_fits(offset.offset_int()) ==> r is Err && r->Err_0 == conversion_error_for(
                offset.offset_int(),
            ),
    ;
}

/// Shift `addr` by the signed byte count `off`. The caller obligation that
/// the shifted address stays inside the address space makes the arithmetic
/// exact: no wraparound is performed or permitted.
fn shift_addr(addr: usize, off: isize) -> (r: usize)
    requires
        0 <= addr + off <= usize::MAX,
    ensures
        r as int == addr + off,
{
    if off >= 0 {
        addr + (off as usize)
    } else {
        let wide: i128 = off as i128;
        addr - ((-wide) as usize)
    }
}

impl ByteOffset for MutAddr {
    type Output = MutAddr;

    open spec fn offset_safe(&self, off: int) -> bool {
        0 <= self.addr + off <= usize::MAX
    }

    fn byteoffset<T: OffsetValue>(&self, offset: T) -> (r: Result<MutAddr, ConversionError>) {
        let off: isize = match offset.try_to_isize() {
            Ok(v) => v,
            Err(e) => {
                return Err(e);
            },
        };
        Ok(MutAddr { addr: shift_addr(self.addr, off), elem_size: 1 })
    }
}

impl ByteOffset for ConstAddr {
    type Output = ConstAddr;

    open spec fn offset_safe(&self, off: int) -> bool {
        0 <= self.addr + off <= usize::MAX
    }

    fn byteoffset<T: OffsetValue>(&self, offset: T) -> (r: Result<ConstAddr, ConversionError>) {
        let off: isize = match offset.try_to_isize() {
            Ok(v) => v,
            Err(e) => {
                return Err(e);
            },
        };
        Ok(ConstAddr { addr: shift_addr(self.addr, off), elem_size: 1 })
    }
}

impl ByteOffset for NonNullAddr {
    type Output = NonNullAddr;

    open spec fn offset_safe(&self, off: int) -> bool {
        0 <= self.addr + off <= usize::MAX && self.addr + off != 0
    }

    fn byteoffset<T: OffsetValue>(&self, offset: T) -> (r: Result<NonNullAddr, ConversionError>) {
        let off: isize = match offset.try_to_isize() {
            Ok(v) => v,
            Err(e) => {
                return Err(e);
            },
        };
        Ok(NonNullAddr { addr: shift_addr(self.addr, off), elem_size: 1 })
    }
}

} // verus!
