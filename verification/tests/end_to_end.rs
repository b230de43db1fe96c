use runtime_interface::guest::guest_bytes_from_ffi;
use runtime_interface::handle::{pointer_and_len_from_u64, pointer_and_len_to_u64};
use runtime_interface::host::bytes_into_ffi;
use runtime_interface::memory::LinearMemory;

// The host passes the byte sequence [1,2,3,4,5] to the guest: it places
// the bytes in guest memory, packs a handle, and passes that one 64-bit
// word; the guest unpacks it, reads the block, and has the sequence.

#[test]
fn host_passes_bytes_to_guest_step_by_step() {
    let mut m = LinearMemory::new(32);
    let payload: Vec<u8> = vec![1, 2, 3, 4, 5];

    // host side: allocate, write, pack
    let addr = m.alloc_block(5).unwrap();
    m.write_at(addr, &payload).unwrap();
    let handle = pointer_and_len_to_u64(addr, 5);

    // the single wire argument carries the length in its low 32 bits
    assert_eq!(handle & 0xFFFF_FFFF, 5);

    // guest side: unpack, read
    let (g_addr, g_len) = pointer_and_len_from_u64(handle);
    assert_eq!((g_addr, g_len), (addr, 5));
    assert_eq!(m.read_at(g_addr, g_len), Ok(payload));
}

#[test]
fn host_passes_bytes_to_guest_through_the_converters() {
    let mut m = LinearMemory::new(32);
    let payload: Vec<u8> = vec![1, 2, 3, 4, 5];
    let handle = bytes_into_ffi(&mut m, &payload).unwrap();
    assert_eq!(handle & 0xFFFF_FFFF, 5);
    assert_eq!(guest_bytes_from_ffi(&m, handle), Ok(payload));
}
