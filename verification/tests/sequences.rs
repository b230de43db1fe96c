use runtime_interface::error::MarshalError;
use runtime_interface::guest::{
    bytes_guest_to_host_round_trip, bytes_host_to_guest_round_trip, guest_bytes_from_ffi,
    guest_u16s_from_ffi, u16s_guest_to_host_round_trip,
};
use runtime_interface::handle::pointer_and_len_to_u64;
use runtime_interface::host::{
    bytes_from_ffi, bytes_into_ffi, bytes_round_trip, u16s_from_ffi, u16s_into_ffi,
    u16s_round_trip,
};
use runtime_interface::memory::LinearMemory;

#[test]
fn byte_sequence_round_trips_without_the_codec() {
    // Single-byte elements take the zero-copy path: the payload in guest
    // memory is the sequence itself, byte for byte.
    let mut m = LinearMemory::new(64);
    let v: Vec<u8> = vec![0x00, 0x01, 0xFE, 0xFF, 0x7F];
    let h = bytes_into_ffi(&mut m, &v).unwrap();
    // the payload was not wrapped in any codec framing
    assert_eq!(m.read_at((h >> 32) as u32, 5), Ok(v.clone()));
    assert_eq!(bytes_from_ffi(&m, h), Ok(v));
}

#[test]
fn byte_sequence_round_trip_helpers() {
    let mut m = LinearMemory::new(64);
    let v: Vec<u8> = vec![1, 2, 3];
    assert_eq!(bytes_round_trip(&mut m, &v), Ok(v.clone()));
    assert_eq!(bytes_host_to_guest_round_trip(&mut m, &v), Ok(v.clone()));
    assert_eq!(bytes_guest_to_host_round_trip(&mut m, &v), Ok(v));
}

#[test]
fn empty_byte_sequence_round_trips() {
    let mut m = LinearMemory::new(8);
    let v: Vec<u8> = vec![];
    let h = bytes_into_ffi(&mut m, &v).unwrap();
    assert_eq!(h & 0xFFFF_FFFF, 0);
    assert_eq!(bytes_from_ffi(&m, h), Ok(vec![]));
}

#[test]
fn u16_sequence_round_trips_through_the_codec() {
    let mut m = LinearMemory::new(64);
    let v: Vec<u16> = vec![1, 2, 3, 0xABCD, 0, u16::MAX];
    let h = u16s_into_ffi(&mut m, &v).unwrap();
    // the payload is a codec encoding, longer than the bare element bytes
    // by its length prefix, so the codec really was invoked
    assert_eq!((h & 0xFFFF_FFFF) as usize, 2 * v.len() + 1);
    assert_eq!(u16s_from_ffi(&m, h), Ok(v.clone()));
    assert_eq!(guest_u16s_from_ffi(&m, h), Ok(v));
}

#[test]
fn empty_u16_sequence_round_trips() {
    let mut m = LinearMemory::new(8);
    let v: Vec<u16> = vec![];
    assert_eq!(u16s_round_trip(&mut m, &v), Ok(vec![]));
}

#[test]
fn u16_sequence_round_trip_helpers() {
    let mut m = LinearMemory::new(64);
    let v: Vec<u16> = vec![513, 0, 7];
    assert_eq!(u16s_round_trip(&mut m, &v), Ok(v.clone()));
    assert_eq!(u16s_guest_to_host_round_trip(&mut m, &v), Ok(v));
}

#[test]
fn allocation_failure_is_surfaced() {
    let mut m = LinearMemory::new(4);
    let v: Vec<u8> = vec![1, 2, 3, 4, 5];
    assert_eq!(bytes_into_ffi(&mut m, &v), Err(MarshalError::AllocationFailed));
}

#[test]
fn round_trips_fail_exactly_when_memory_is_exhausted() {
    let mut m = LinearMemory::new(4);
    let v: Vec<u8> = vec![1, 2, 3, 4, 5];
    assert_eq!(bytes_round_trip(&mut m, &v), Err(MarshalError::AllocationFailed));
    assert_eq!(bytes_guest_to_host_round_trip(&mut m, &v), Err(MarshalError::AllocationFailed));
    // four bytes still fit
    assert_eq!(bytes_round_trip(&mut m, &vec![7, 8, 9, 10]), Ok(vec![7, 8, 9, 10]));
    // and now nothing does
    assert_eq!(bytes_round_trip(&mut m, &vec![11]), Err(MarshalError::AllocationFailed));
    let w: Vec<u16> = vec![1, 2];
    assert_eq!(u16s_round_trip(&mut m, &w), Err(MarshalError::AllocationFailed));
}

#[test]
fn handle_outside_memory_fails_the_read() {
    let m = LinearMemory::new(8);
    let h = pointer_and_len_to_u64(6, 4);
    assert_eq!(bytes_from_ffi(&m, h), Err(MarshalError::ReadFailed));
    assert_eq!(guest_bytes_from_ffi(&m, h), Err(MarshalError::ReadFailed));
    assert_eq!(u16s_from_ffi(&m, h), Err(MarshalError::ReadFailed));
}

#[test]
fn garbage_bytes_fail_to_decode() {
    // compact length prefix 0x04 promises one 16-bit element, but only one
    // byte of element data follows
    let mut m = LinearMemory::new(8);
    let ptr = m.alloc_block(2).unwrap();
    m.write_at(ptr, &[0x04, 0xFF]).unwrap();
    let h = pointer_and_len_to_u64(ptr, 2);
    assert_eq!(u16s_from_ffi(&m, h), Err(MarshalError::DecodeFailed));
    assert_eq!(guest_u16s_from_ffi(&m, h), Err(MarshalError::DecodeFailed));
}
