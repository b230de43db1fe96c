//! The packed pointer-and-length handle.
//!
//! A buffer that one side has already written into linear memory is referred
//! to across the call boundary by a single 64-bit word: the length occupies
//! the low 32 bits and the address the high 32 bits.  When the word itself is
//! laid out as bytes (rather than passed as a register value), it uses the
//! canonical little-endian byte order on both sides, regardless of either
//! side's native byte order, so that the same bit pattern decodes identically
//! everywhere.

use vstd::bytes::{
    lemma_auto_spec_u64_to_from_le_bytes, spec_u64_from_le_bytes, spec_u64_to_le_bytes,
    u64_from_le_bytes, u64_to_le_bytes,
};
use vstd::prelude::*;

verus! {

/// The handle value that refers to `len` bytes at address `ptr`:
/// length in the low 32 bits, address in the high 32 bits.
pub open spec fn handle_of(ptr: u32, len: u32) -> u64 {
    ((ptr as u64) << 32) | (len as u64)
}

/// The address field of a handle: its high 32 bits.
pub open spec fn handle_address(handle: u64) -> u32 {
    (handle >> 32) as u32
}

/// The length field of a handle: its low 32 bits.
pub open spec fn handle_length(handle: u64) -> u32 {
    handle as u32
}

/// Packing is exactly `address * 2^32 + length`, so the two 32-bit fields
/// never overlap and every (address, length) pair has a distinct handle.
pub proof fn lemma_handle_value(ptr: u32, len: u32)
    ensures
        handle_of(ptr, len) == (ptr as int) * 0x1_0000_0000 + (len as int),
{
    assert(((ptr as u64) << 32) | (len as u64) == (ptr as int) * 0x1_0000_0000 + (len as int))
        by (bit_vector);
}

/// Unpacking inverts packing: both fields of a packed handle are recovered
/// exactly, for every representable (address, length) pair.
pub proof fn lemma_handle_round_trip(ptr: u32, len: u32)
    ensures
        handle_address(handle_of(ptr, len)) == ptr,
        handle_length(handle_of(ptr, len)) == len,
{
    assert(((((ptr as u64) << 32) | (len as u64)) >> 32) as u32 == ptr) by (bit_vector);
    assert(((((ptr as u64) << 32) | (len as u64))) as u32 == len) by (bit_vector);
}

/// Packing also inverts unpacking: a handle rebuilt from its own two fields
/// is the same word, so handles and (address, length) pairs are in bijection.
pub proof fn lemma_handle_repack(handle: u64)
    ensures
        handle_of(handle_address(handle), handle_length(handle)) == handle,
{
    assert(((((handle >> 32) as u32) as u64) << 32) | ((handle as u32) as u64) == handle)
        by (bit_vector);
}

/// Whether the block a handle refers to lies inside a memory of the given
/// contents.  A handle pointing outside the addressable region violates the
/// wire contract; reading through it fails rather than recovers.
pub open spec fn handle_in_range(m: Seq<u8>, handle: u64) -> bool {
    handle_address(handle) as int + handle_length(handle) as int <= m.len()
}

/// The bytes a handle refers to in a memory of the given contents.
pub open spec fn handle_region(m: Seq<u8>, handle: u64) -> Seq<u8>
    recommends
        handle_in_range(m, handle),
{
    m.subrange(
        handle_address(handle) as int,
        handle_address(handle) as int + handle_length(handle) as int,
    )
}

/// Packs a pointer and a length into the single 64-bit wire word.
pub fn pointer_and_len_to_u64(ptr: u32, len: u32) -> (r: u64)
    ensures
        r == handle_of(ptr, len),
        handle_address(r) == ptr,
        handle_length(r) == len,
{
    proof {
        lemma_handle_round_trip(ptr, len);
    }
    ((ptr as u64) << 32u64) | (len as u64)
}

/// Splits the 64-bit wire word back into its pointer and length fields.
pub fn pointer_and_len_from_u64(val: u64) -> (r: (u32, u32))
    ensures
        r.0 == handle_address(val),
        r.1 == handle_length(val),
        handle_of(r.0, r.1) == val,
{
    proof {
        lemma_handle_repack(val);
    }
    let len = (val & 0xFFFF_FFFFu64) as u32;
    let ptr = (val >> 32u64) as u32;
    assert((val & 0xFFFF_FFFFu64) as u32 == val as u32) by (bit_vector);
    (ptr, len)
}

/// Lays the handle word out as its eight wire bytes, least significant
/// first: the canonical little-endian order of the boundary contract.
pub fn handle_to_wire_bytes(handle: u64) -> (r: Vec<u8>)
    ensures
        r@ == spec_u64_to_le_bytes(handle),
        r@.len() == 8,
        spec_u64_from_le_bytes(r@) == handle,
{
    proof {
        lemma_auto_spec_u64_to_from_le_bytes();
    }
    u64_to_le_bytes(handle)
}

/// Reads the handle word back from its eight little-endian wire bytes.
pub fn handle_from_wire_bytes(bytes: &[u8]) -> (r: u64)
    requires
        bytes@.len() == 8,
    ensures
        r == spec_u64_from_le_bytes(bytes@),
        spec_u64_to_le_bytes(r) == bytes@,
{
    proof {
        lemma_auto_spec_u64_to_from_le_bytes();
    }
    u64_from_le_bytes(bytes)
}

} // verus!
