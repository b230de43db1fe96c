use runtime_interface::error::MarshalError;
use runtime_interface::guest::{fixed_host_to_guest_round_trip, guest_fixed_from_ffi};
use runtime_interface::handle::pointer_and_len_to_u64;
use runtime_interface::host::{
    bytes_into_preallocated_ffi, fixed_from_ffi, fixed_into_ffi, fixed_into_preallocated_ffi,
    fixed_round_trip,
};
use runtime_interface::memory::LinearMemory;

fn pattern(len: usize) -> Vec<u8> {
    (0..len).map(|i| (i as u8).wrapping_mul(7).wrapping_add(3)).collect()
}

#[test]
fn fixed_array_round_trips_host_side() {
    let mut m = LinearMemory::new(128);
    let a = pattern(32);
    let ptr = fixed_into_ffi(&mut m, &a).unwrap();
    assert_eq!(fixed_from_ffi(&m, ptr, 32), Ok(a.clone()));
    assert_eq!(fixed_round_trip(&mut m, &a), Ok(a));
}

#[test]
fn fixed_array_round_trips_host_to_guest() {
    let mut m = LinearMemory::new(128);
    let a = pattern(32);
    assert_eq!(fixed_host_to_guest_round_trip(&mut m, &a), Ok(a));
}

#[test]
fn guest_reconstruction_releases_but_keeps_bytes() {
    let mut m = LinearMemory::new(64);
    let a = pattern(16);
    let ptr = fixed_into_ffi(&mut m, &a).unwrap();
    assert_eq!(guest_fixed_from_ffi(&mut m, ptr, 16), Ok(a.clone()));
    // the arena reclaims nothing early, so a second read still sees them
    assert_eq!(m.read_at(ptr, 16), Ok(a));
}

#[test]
fn smallest_and_largest_supported_sizes() {
    let mut m = LinearMemory::new(256);
    let one = pattern(1);
    let sixty_four = pattern(64);
    assert_eq!(fixed_round_trip(&mut m, &one), Ok(one));
    assert_eq!(fixed_round_trip(&mut m, &sixty_four), Ok(sixty_four));
}

#[test]
fn too_short_destination_is_refused_with_no_partial_write() {
    let mut m = LinearMemory::new(16);
    let dest = m.alloc_block(4).unwrap();
    let allocated = pointer_and_len_to_u64(dest, 4);
    let v: Vec<u8> = vec![1, 2, 3, 4, 5];
    assert_eq!(
        bytes_into_preallocated_ffi(&mut m, &v, allocated),
        Err(MarshalError::BufferTooSmall { given: 4, needed: 5 })
    );
    // nothing was written
    assert_eq!(m.read_at(0, 16), Ok(vec![0; 16]));
}

#[test]
fn exactly_sufficient_destination_is_filled() {
    let mut m = LinearMemory::new(16);
    let dest = m.alloc_block(5).unwrap();
    let allocated = pointer_and_len_to_u64(dest, 5);
    let v: Vec<u8> = vec![1, 2, 3, 4, 5];
    assert_eq!(bytes_into_preallocated_ffi(&mut m, &v, allocated), Ok(()));
    assert_eq!(m.read_at(dest, 5), Ok(v));
}

#[test]
fn larger_destination_takes_the_bytes_at_its_start() {
    let mut m = LinearMemory::new(16);
    let dest = m.alloc_block(8).unwrap();
    let allocated = pointer_and_len_to_u64(dest, 8);
    let v: Vec<u8> = vec![1, 2, 3];
    assert_eq!(bytes_into_preallocated_ffi(&mut m, &v, allocated), Ok(()));
    assert_eq!(m.read_at(dest, 8), Ok(vec![1, 2, 3, 0, 0, 0, 0, 0]));
}

#[test]
fn preallocated_destination_outside_memory_fails_the_write() {
    let mut m = LinearMemory::new(4);
    let allocated = pointer_and_len_to_u64(2, 8);
    let v: Vec<u8> = vec![1, 2, 3, 4, 5];
    assert_eq!(bytes_into_preallocated_ffi(&mut m, &v, allocated), Err(MarshalError::WriteFailed));
    assert_eq!(m.read_at(0, 4), Ok(vec![0; 4]));
}

#[test]
fn fixed_preallocated_write_lands_at_the_address() {
    let mut m = LinearMemory::new(16);
    let dest = m.alloc_block(4).unwrap();
    let a = pattern(4);
    assert_eq!(fixed_into_preallocated_ffi(&mut m, &a, dest), Ok(()));
    assert_eq!(m.read_at(dest, 4), Ok(a));
    // an address outside memory is refused
    assert_eq!(fixed_into_preallocated_ffi(&mut m, &pattern(4), 14), Err(MarshalError::WriteFailed));
}
