use runtime_interface::primitives::{
    bool_from_ffi, bool_into_ffi, i16_from_ffi, i16_into_ffi, i32_from_ffi, i32_into_ffi,
    i64_from_ffi, i64_into_ffi, i8_from_ffi, i8_into_ffi, u16_from_ffi, u16_into_ffi,
    u32_from_ffi, u32_into_ffi, u64_from_ffi, u64_into_ffi, u8_from_ffi, u8_into_ffi,
};

#[test]
fn unsigned_round_trips_at_bounds() {
    for v in [0u8, 1, u8::MAX] {
        assert_eq!(u8_from_ffi(u8_into_ffi(v)), v);
    }
    for v in [0u16, 1, u16::MAX] {
        assert_eq!(u16_from_ffi(u16_into_ffi(v)), v);
    }
    for v in [0u32, 1, u32::MAX] {
        assert_eq!(u32_from_ffi(u32_into_ffi(v)), v);
    }
    for v in [0u64, 1, u64::MAX] {
        assert_eq!(u64_from_ffi(u64_into_ffi(v)), v);
    }
}

#[test]
fn signed_round_trips_at_bounds() {
    for v in [i8::MIN, -1, 0, 1, i8::MAX] {
        assert_eq!(i8_from_ffi(i8_into_ffi(v)), v);
    }
    for v in [i16::MIN, -1, 0, 1, i16::MAX] {
        assert_eq!(i16_from_ffi(i16_into_ffi(v)), v);
    }
    for v in [i32::MIN, -1, 0, 1, i32::MAX] {
        assert_eq!(i32_from_ffi(i32_into_ffi(v)), v);
    }
    for v in [i64::MIN, -1, 0, 1, i64::MAX] {
        assert_eq!(i64_from_ffi(i64_into_ffi(v)), v);
    }
}

#[test]
fn booleans_cross_as_zero_or_one() {
    assert_eq!(bool_into_ffi(true), 1);
    assert_eq!(bool_into_ffi(false), 0);
    assert!(bool_from_ffi(1));
    assert!(!bool_from_ffi(0));
    // only 1 reads back as true
    assert!(!bool_from_ffi(2));
    assert!(!bool_from_ffi(255));
}

#[test]
fn bool_round_trip() {
    for b in [true, false] {
        assert_eq!(bool_from_ffi(bool_into_ffi(b)), b);
    }
}
