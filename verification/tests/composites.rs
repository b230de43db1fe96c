use runtime_interface::descriptor::{wire_kind_of, wire_width_bits, NativeKind, WireKind};
use runtime_interface::host::{
    option_u32_from_ffi, option_u32_into_ffi, option_u32_round_trip, result_u32_from_ffi,
    result_u32_into_ffi, result_u32_round_trip,
};
use runtime_interface::memory::LinearMemory;
use runtime_interface::pass_by::{strategy_of, PassStrategy};

#[test]
fn optional_values_round_trip_through_the_codec() {
    let mut m = LinearMemory::new(64);
    for v in [None, Some(0u32), Some(7), Some(u32::MAX)] {
        let h = option_u32_into_ffi(&mut m, &v).unwrap();
        assert_eq!(option_u32_from_ffi(&m, h), Ok(v));
    }
    assert_eq!(option_u32_round_trip(&mut m, &Some(123)), Ok(Some(123)));
    assert_eq!(option_u32_round_trip(&mut m, &None), Ok(None));
}

#[test]
fn result_unions_round_trip_through_the_codec() {
    let mut m = LinearMemory::new(64);
    for v in [Ok(0u32), Ok(u32::MAX), Err(0u32), Err(9)] {
        let h = result_u32_into_ffi(&mut m, &v).unwrap();
        assert_eq!(result_u32_from_ffi(&m, h), Ok(v));
    }
    assert_eq!(result_u32_round_trip(&mut m, &Ok(3)), Ok(Ok(3)));
    assert_eq!(result_u32_round_trip(&mut m, &Err(9)), Ok(Err(9)));
}

#[test]
fn integers_map_to_their_own_width_and_signedness() {
    assert_eq!(wire_kind_of(NativeKind::U8), WireKind::U8);
    assert_eq!(wire_kind_of(NativeKind::U16), WireKind::U16);
    assert_eq!(wire_kind_of(NativeKind::U32), WireKind::U32);
    assert_eq!(wire_kind_of(NativeKind::U64), WireKind::U64);
    assert_eq!(wire_kind_of(NativeKind::I8), WireKind::I8);
    assert_eq!(wire_kind_of(NativeKind::I16), WireKind::I16);
    assert_eq!(wire_kind_of(NativeKind::I32), WireKind::I32);
    assert_eq!(wire_kind_of(NativeKind::I64), WireKind::I64);
}

#[test]
fn richer_types_map_to_address_or_handle() {
    assert_eq!(wire_kind_of(NativeKind::Bool), WireKind::U8);
    assert_eq!(wire_kind_of(NativeKind::FixedBytes { size: 1 }), WireKind::Address);
    assert_eq!(wire_kind_of(NativeKind::FixedBytes { size: 64 }), WireKind::Address);
    assert_eq!(wire_kind_of(NativeKind::ByteSequence), WireKind::Handle);
    assert_eq!(wire_kind_of(NativeKind::U16Sequence), WireKind::Handle);
    assert_eq!(wire_kind_of(NativeKind::OptionU32), WireKind::Handle);
    assert_eq!(wire_kind_of(NativeKind::ResultU32), WireKind::Handle);
    assert_eq!(wire_kind_of(NativeKind::Public), WireKind::Address);
    assert_eq!(wire_kind_of(NativeKind::Signature), WireKind::Address);
}

#[test]
fn wire_widths() {
    assert_eq!(wire_width_bits(WireKind::U8), 8);
    assert_eq!(wire_width_bits(WireKind::I16), 16);
    assert_eq!(wire_width_bits(WireKind::Address), 32);
    assert_eq!(wire_width_bits(WireKind::Handle), 64);
}

#[test]
fn each_composite_kind_has_exactly_one_strategy() {
    assert_eq!(strategy_of(NativeKind::OptionU32), Some(PassStrategy::ByCodec));
    assert_eq!(strategy_of(NativeKind::ResultU32), Some(PassStrategy::ByCodec));
    assert_eq!(strategy_of(NativeKind::Public), Some(PassStrategy::ByInnerBytes));
    assert_eq!(strategy_of(NativeKind::Signature), Some(PassStrategy::ByInnerBytes));
    assert_eq!(strategy_of(NativeKind::U32), None);
    assert_eq!(strategy_of(NativeKind::ByteSequence), None);
}
