//! Fallible conversion of a caller-supplied byte count into `isize`, the
//! native signed pointer-difference type.
//!
//! Offsetting an address takes a signed number of bytes. Callers may hold that
//! number in any primitive integer type, so the first step of every offset
//! operation is a conversion into `isize`; it fails exactly when the value
//! lies outside the `isize` range, and the failure reports the attempted
//! value. No arithmetic is attempted after a failed conversion.

use vstd::prelude::*;

verus! {

/// The single reported failure of the library: the supplied byte offset is not
/// representable in `isize`. It carries the attempted value, split into a sign
/// and a magnitude so that every primitive integer value can be recorded.
#[derive(Clone, Copy, Debug, PartialEq, Eq, Structural)]
pub struct ConversionError {
    /// Whether the attempted offset was negative.
    pub negative: bool,
    /// The absolute value of the attempted offset.
    pub magnitude: u128,
}

/// Whether the byte offset `v` is representable in `isize`.
pub open spec fn offset_fits(v: int) -> bool {
    isize::MIN <= v <= isize::MAX
}

/// The error reported when the byte offset `v` does not fit in `isize`.
pub open spec fn conversion_error_for(v: int) -> ConversionError {
    ConversionError {
        negative: v < 0,
        magnitude: (if v < 0 { -v } else { v }) as u128,
    }
}

/// A signed byte count, held in some primitive integer type, that can be
/// fallibly converted into `isize`.
pub trait OffsetValue: Sized {
    /// The mathematical value of this byte count.
    spec fn offset_int(&self) -> int;

    /// Convert the byte count into `isize`; succeeds exactly when the value
    /// fits, and otherwise reports the attempted value.
    fn try_to_isize(&self) -> (r: Result<isize, ConversionError>)
        ensures
            offset_fits(self.offset_int()) ==> r is Ok && r->Ok_0 as int == self.offset_int(),
            !offset_fits(self.offset_int()) ==> r is Err && r->Err_0 == conversion_error_for(
                self.offset_int(),
            ),
    ;
}

/// Conversion shared by every offset type whose values fit in `i128`.
fn isize_from_wide(v: i128) -> (r: Result<isize, ConversionError>)
    ensures
        offset_fits(v as int) ==> r is Ok && r->Ok_0 as int == v as int,
        !offset_fits(v as int) ==> r is Err && r->Err_0 == conversion_error_for(v as int),
{
    if isize::MIN as i128 <= v && v <= isize::MAX as i128 {
        Ok(v as isize)
    } else if v < 0 {
        // The magnitude of `v` computed without negating `i128::MIN`.
        let m: u128 = ((-(v + 1)) as u128) + 1;
        Err(ConversionError { negative: true, magnitude: m })
    } else {
        Err(ConversionError { negative: false, magnitude: v as u128 })
    }
}

impl OffsetValue for i8 {
    open spec fn offset_int(&self) -> int {
        *self as int
    }

    fn try_to_isize(&self) -> (r: Result<isize, ConversionError>) {
        isize_from_wide(*self as i128)
    }
}

impl OffsetValue for i16 {
    open spec fn offset_int(&self) -> int {
        *self as int
    }

    fn try_to_isize(&self) -> (r: Result<isize, ConversionError>) {
        isize_from_wide(*self as i128)
    }
}

impl OffsetValue for i32 {
    open spec fn offset_int(&self) -> int {
        *self as int
    }

    fn try_to_isize(&self) -> (r: Result<isize, ConversionError>) {
        isize_from_wide(*self as i128)
    }
}

impl OffsetValue for i64 {
    open spec fn offset_int(&self) -> int {
        *self as int
    }

    fn try_to_isize(&self) -> (r: Result<isize, ConversionError>) {
        isize_from_wide(*self as i128)
    }
}

impl OffsetValue for i128 {
    open spec fn offset_int(&self) -> int {
        *self as int
    }

    fn try_to_isize(&self) -> (r: Result<isize, ConversionError>) {
        isize_from_wide(*self)
    }
}

impl OffsetValue for isize {
    open spec fn offset_int(&self) -> int {
        *self as int
    }

    fn try_to_isize(&self) -> (r: Result<isize, ConversionError>) {
        isize_from_wide(*self as i128)
    }
}

impl OffsetValue for u8 {
    open spec fn offset_int(&self) -> int {
        *self as int
    }

    fn try_to_isize(&self) -> (r: Result<isize, ConversionError>) {
        isize_from_wide(*self as i128)
    }
}

impl OffsetValue for u16 {
    open spec fn offset_int(&self) -> int {
        *self as int
    }

    fn try_to_isize(&self) -> (r: Result<isize, ConversionError>) {
        isize_from_wide(*self as i128)
    }
}

impl OffsetValue for u32 {
    open spec fn offset_int(&self) -> int {
        *self as int
    }

    fn try_to_isize(&self) -> (r: Result<isize, ConversionError>) {
        isize_from_wide(*self as i128)
    }
}

impl OffsetValue for u64 {
    open spec fn offset_int(&self) -> int {
        *self as int
    }

    fn try_to_isize(&self) -> (r: Result<isize, ConversionError>) {
        isize_from_wide(*self as i128)
    }
}

impl OffsetValue for u128 {
    open spec fn offset_int(&self) -> int {
        *self as int
    }

    fn try_to_isize(&self) -> (r: Result<isize, ConversionError>) {
        if *self <= isize::MAX as u128 {
            Ok(*self as isize)
        } else {
            Err(ConversionError { negative: false, magnitude: *self })
        }
    }
}

impl OffsetValue for usize {
    open spec fn offset_int(&self) -> int {
        *self as int
    }

    fn try_to_isize(&self) -> (r: Result<isize, ConversionError>) {
        isize_from_wide(*self as i128)
    }
}

} // verus!
