use byteoffset::convert::{ConversionError, OffsetValue};
use byteoffset::{ByteOffset, ConstAddr, MutAddr, NonNullAddr};

#[test]
fn test_offset() {
    // Four contiguous one-byte elements, as in a buffer of four bytes.
    let base: usize = 0x1000;
    let v0 = ConstAddr { addr: base, elem_size: 1 };
    let v1 = ConstAddr { addr: base + 1, elem_size: 1 };
    let v2 = ConstAddr { addr: base + 2, elem_size: 1 };
    let v3 = ConstAddr { addr: base + 3, elem_size: 1 };

    // Increment
    let v1_addr = v0.byteoffset(1).unwrap();
    assert!(v1 == v1_addr);

    // Decrement
    let v2_addr = v3.byteoffset(-1).unwrap();
    assert!(v2 == v2_addr);
}

#[test]
fn four_byte_buffer_walk() {
    // A 4-byte buffer with elements at A0..A3, contiguous with 1-byte stride.
    let a0 = ConstAddr { addr: 0x2000, elem_size: 1 };
    let a1 = ConstAddr { addr: 0x2001, elem_size: 1 };
    let a2 = ConstAddr { addr: 0x2002, elem_size: 1 };
    let a3 = ConstAddr { addr: 0x2003, elem_size: 1 };

    assert_eq!(a0.byteoffset(1).unwrap(), a1);
    assert_eq!(a3.byteoffset(-1).unwrap(), a2);
    assert_eq!(a0.byteoffset(0).unwrap(), a0);
}

#[test]
fn carrier_kind_preserved() {
    let m = MutAddr { addr: 64, elem_size: 8 };
    let rm: MutAddr = m.byteoffset(8).unwrap();
    assert_eq!(rm.addr, 72);
    assert_eq!(rm.elem_size, 1);

    let c = ConstAddr { addr: 64, elem_size: 8 };
    let rc: ConstAddr = c.byteoffset(8).unwrap();
    assert_eq!(rc.addr, 72);
    assert_eq!(rc.elem_size, 1);

    let n = NonNullAddr { addr: 64, elem_size: 8 };
    let rn: NonNullAddr = n.byteoffset(8).unwrap();
    assert_eq!(rn.addr, 72);
    assert_eq!(rn.elem_size, 1);
}

#[test]
fn nonnull_stays_nonnull() {
    let n = NonNullAddr { addr: 1, elem_size: 1 };
    let r = n.byteoffset(5).unwrap();
    assert_ne!(r.addr, 0);
    assert_eq!(r.addr, 6);

    let back = r.byteoffset(-5).unwrap();
    assert_ne!(back.addr, 0);
    assert_eq!(back.addr, 1);
}

#[test]
fn zero_offset_identity() {
    let m = MutAddr { addr: 0x40, elem_size: 1 };
    assert_eq!(m.byteoffset(0).unwrap().addr, m.addr);

    let c = ConstAddr { addr: 0x41, elem_size: 1 };
    assert_eq!(c.byteoffset(0).unwrap().addr, c.addr);

    let n = NonNullAddr { addr: 0x42, elem_size: 1 };
    assert_eq!(n.byteoffset(0).unwrap().addr, n.addr);
}

#[test]
fn element_stride_walk() {
    // Elements of four bytes each: element i lives at base + 4 * i.
    let base: usize = 0x100;
    let e0 = MutAddr { addr: base, elem_size: 4 };
    let forward = e0.byteoffset(4).unwrap();
    assert_eq!(forward.addr, base + 4);

    let e2 = MutAddr { addr: base + 8, elem_size: 4 };
    let backward = e2.byteoffset(-4).unwrap();
    assert_eq!(backward.addr, base + 4);
}

#[test]
fn conversion_failure_reported() {
    let p = ConstAddr { addr: 10, elem_size: 1 };

    let too_large: i128 = (isize::MAX as i128) + 1;
    let e = p.byteoffset(too_large).unwrap_err();
    assert_eq!(
        e,
        ConversionError { negative: false, magnitude: (isize::MAX as u128) + 1 }
    );

    let too_small: i128 = (isize::MIN as i128) - 1;
    let e = p.byteoffset(too_small).unwrap_err();
    assert_eq!(
        e,
        ConversionError { negative: true, magnitude: (isize::MAX as u128) + 2 }
    );

    let widest_negative: i128 = i128::MIN;
    let e = p.byteoffset(widest_negative).unwrap_err();
    assert_eq!(
        e,
        ConversionError { negative: true, magnitude: 1u128 << 127 }
    );

    let huge_unsigned: u128 = u128::MAX;
    let e = p.byteoffset(huge_unsigned).unwrap_err();
    assert_eq!(
        e,
        ConversionError { negative: false, magnitude: u128::MAX }
    );

    // The input carrier is untouched and usable after a failed conversion.
    assert_eq!(p.byteoffset(1).unwrap().addr, 11);
}

#[test]
fn conversion_succeeds_at_bounds() {
    let p = ConstAddr { addr: 0, elem_size: 1 };
    let r = p.byteoffset(isize::MAX).unwrap();
    assert_eq!(r.addr, isize::MAX as usize);

    let q = ConstAddr { addr: usize::MAX, elem_size: 1 };
    let r = q.byteoffset(isize::MIN).unwrap();
    assert_eq!(r.addr, isize::MAX as usize);
}

#[test]
fn try_to_isize_over_offset_types() {
    assert_eq!(5i8.try_to_isize().unwrap(), 5isize);
    assert_eq!((-5i16).try_to_isize().unwrap(), -5isize);
    assert_eq!(70000i32.try_to_isize().unwrap(), 70000isize);
    assert_eq!((-1i64).try_to_isize().unwrap(), -1isize);
    assert_eq!(9i128.try_to_isize().unwrap(), 9isize);
    assert_eq!(3isize.try_to_isize().unwrap(), 3isize);
    assert_eq!(200u8.try_to_isize().unwrap(), 200isize);
    assert_eq!(60000u16.try_to_isize().unwrap(), 60000isize);
    assert_eq!(4000000000u32.try_to_isize().unwrap(), 4000000000isize);
    assert_eq!(7u64.try_to_isize().unwrap(), 7isize);
    assert_eq!(8u128.try_to_isize().unwrap(), 8isize);
    assert_eq!(9usize.try_to_isize().unwrap(), 9isize);

    let e = usize::MAX.try_to_isize().unwrap_err();
    assert_eq!(
        e,
        ConversionError { negative: false, magnitude: usize::MAX as u128 }
    );
}

#[test]
fn offset_type_is_generic_per_call() {
    // The same carrier takes offsets held in different integer types.
    let p = MutAddr { addr: 1000, elem_size: 1 };
    assert_eq!(p.byteoffset(1u8).unwrap().addr, 1001);
    assert_eq!(p.byteoffset(-1i8).unwrap().addr, 999);
    assert_eq!(p.byteoffset(1000u64).unwrap().addr, 2000);
    assert_eq!(p.byteoffset(-1000i128).unwrap().addr, 0);
}
