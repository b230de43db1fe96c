//! Guest-side converters.
//!
//! Code running inside the sandbox converts values using only its own
//! linear memory and ownership rules — there is no injected context,
//! because the guest *is* the memory it addresses.  Here that address space
//! is an explicit [`LinearMemory`] value, so placing a native value on the
//! wire means writing it into the guest's own memory and handing out the
//! address.
//!
//! Bare integers and booleans need no memory on either side; both sides
//! share the conversions of [`crate::primitives`].
//!
//! One ownership rule is the guest's alone: when the guest reconstructs a
//! fixed-size array from a bare address, the host has transferred that
//! block to it for exactly one read, so the guest releases the block after
//! copying the bytes out.

use crate::codec::{scale_decode_u16s, scale_encode_u16s, u16_seq_encoding};
use crate::error::MarshalError;
use crate::handle::{
    handle_in_range, handle_length, handle_region, pointer_and_len_from_u64,
    pointer_and_len_to_u64,
};
use crate::host;
use crate::memory::{mem_after_write, LinearMemory, MemoryContext};
use crate::MAX_FIXED_BYTES;
use vstd::prelude::*;

verus! {

/// Allocates a block in the guest's own memory and writes `bytes` into it.
fn write_own_block(mem: &mut LinearMemory, bytes: &Vec<u8>) -> (r: Result<u32, MarshalError>)
    requires
        old(mem).inv(),
        bytes@.len() <= 0xFFFF_FFFF,
    ensures
        final(mem).inv(),
        final(mem).mem().len() == old(mem).mem().len(),
        r is Ok <==> old(mem).allocated() + bytes@.len() <= old(mem).mem().len(),
        r matches Ok(ptr) ==> ptr as int + bytes@.len() <= old(mem).mem().len()
            && final(mem).mem() == mem_after_write(old(mem).mem(), ptr, bytes@)
            && final(mem).allocated() == old(mem).allocated() + bytes@.len(),
        r is Err ==> final(mem).mem() == old(mem).mem() && final(mem).allocated() == old(
            mem,
        ).allocated(),
        r matches Err(e) ==> e == MarshalError::AllocationFailed,
{
    let len32 = bytes.len() as u32;
    match mem.alloc_block(len32) {
        Ok(ptr) => {
            match mem.write_at(ptr, bytes.as_slice()) {
                Ok(_) => Ok(ptr),
                Err(e) => Err(e),
            }
        },
        Err(e) => Err(e),
    }
}

/// Places a byte sequence into the guest's own memory and returns the
/// packed handle the host will read through.  The zero-copy fast path: the
/// sequence's bytes are the wire payload, with no serialization step.
/// Succeeds exactly when the length fits the handle and enough of the
/// guest's bounded memory is still unallocated.
pub fn guest_bytes_into_ffi(mem: &mut LinearMemory, v: &Vec<u8>) -> (r: Result<u64, MarshalError>)
    requires
        old(mem).inv(),
    ensures
        final(mem).inv(),
        final(mem).mem().len() == old(mem).mem().len(),
        r is Ok <==> v@.len() <= 0xFFFF_FFFF && old(mem).allocated() + v@.len() <= old(
            mem,
        ).mem().len(),
        r matches Ok(h) ==> handle_length(h) as int == v@.len() && handle_in_range(
            final(mem).mem(),
            h,
        ) && handle_region(final(mem).mem(), h) == v@,
        r is Err ==> final(mem).mem() == old(mem).mem(),
        r matches Err(e) ==> e == MarshalError::AllocationFailed || e
            == MarshalError::LengthOverflow,
        v@.len() > 0xFFFF_FFFF <==> (r matches Err(e) && e == MarshalError::LengthOverflow),
{
    if v.len() > 0xFFFF_FFFF {
        return Err(MarshalError::LengthOverflow);
    }
    let len = v.len() as u32;
    match write_own_block(mem, v) {
        Ok(ptr) => {
            let h = pointer_and_len_to_u64(ptr, len);
            proof {
                assert(handle_region(mem.mem(), h) =~= v@);
            }
            Ok(h)
        },
        Err(e) => Err(e),
    }
}

/// Reads a byte sequence out of the guest's own memory through a handle
/// the host passed in.  The wire bytes are the sequence itself.
pub fn guest_bytes_from_ffi(mem: &LinearMemory, handle: u64) -> (r: Result<Vec<u8>, MarshalError>)
    requires
        mem.inv(),
    ensures
        r is Ok <==> handle_in_range(mem.mem(), handle),
        r matches Ok(v) ==> v@ == handle_region(mem.mem(), handle),
        r matches Err(e) ==> e == MarshalError::ReadFailed,
{
    let (ptr, len) = pointer_and_len_from_u64(handle);
    mem.read_at(ptr, len)
}

/// Serializes a sequence of 16-bit integers through the external codec
/// into the guest's own memory, returning the packed handle.
pub fn guest_u16s_into_ffi(mem: &mut LinearMemory, v: &Vec<u16>) -> (r: Result<u64, MarshalError>)
    requires
        old(mem).inv(),
        v@.len() <= 0xFFFF_FFFF,
    ensures
        final(mem).inv(),
        final(mem).mem().len() == old(mem).mem().len(),
        r matches Ok(h) ==> handle_length(h) as int == u16_seq_encoding(v@).len()
            && handle_in_range(final(mem).mem(), h) && handle_region(final(mem).mem(), h)
            == u16_seq_encoding(v@),
        r is Err ==> final(mem).mem() == old(mem).mem(),
        r matches Err(e) ==> e == MarshalError::AllocationFailed || e
            == MarshalError::LengthOverflow,
        u16_seq_encoding(v@).len() > 0xFFFF_FFFF <==> (r matches Err(e) && e
            == MarshalError::LengthOverflow),
        r is Ok <==> u16_seq_encoding(v@).len() <= 0xFFFF_FFFF && old(mem).allocated()
            + u16_seq_encoding(v@).len() <= old(mem).mem().len(),
{
    let encoded = scale_encode_u16s(v);
    if encoded.len() > 0xFFFF_FFFF {
        return Err(MarshalError::LengthOverflow);
    }
    let len = encoded.len() as u32;
    match write_own_block(mem, &encoded) {
        Ok(ptr) => {
            let h = pointer_and_len_to_u64(ptr, len);
            proof {
                assert(handle_region(mem.mem(), h) =~= encoded@);
            }
            Ok(h)
        },
        Err(e) => Err(e),
    }
}

/// Reads a sequence of 16-bit integers out of the guest's own memory
/// through a handle, decoding the block through the external codec.  Bytes
/// the codec cannot decode are a wire-contract violation and fail the call.
pub fn guest_u16s_from_ffi(mem: &LinearMemory, handle: u64) -> (r: Result<Vec<u16>, MarshalError>)
    requires
        mem.inv(),
    ensures
        r is Ok <== handle_in_range(mem.mem(), handle) && exists|s: Seq<u16>|
            handle_region(mem.mem(), handle) == #[trigger] u16_seq_encoding(s),
        r matches Ok(v) ==> forall|s: Seq<u16>|
            handle_region(mem.mem(), handle) == #[trigger] u16_seq_encoding(s) ==> v@ == s,
        r matches Err(e) ==> e == MarshalError::ReadFailed || e == MarshalError::DecodeFailed,
        !handle_in_range(mem.mem(), handle) ==> (r matches Err(e) && e
            == MarshalError::ReadFailed),
{
    let bytes = match guest_bytes_from_ffi(mem, handle) {
        Ok(b) => b,
        Err(e) => {
            return Err(e);
        },
    };
    scale_decode_u16s(&bytes)
}

/// Places a fixed-size byte array into the guest's own memory and returns
/// the bare address of its bytes; the length is implied by the type.
pub fn guest_fixed_into_ffi(mem: &mut LinearMemory, bytes: &Vec<u8>) -> (r: Result<
    u32,
    MarshalError,
>)
    requires
        old(mem).inv(),
        1 <= bytes@.len() <= MAX_FIXED_BYTES as int,
    ensures
        final(mem).inv(),
        final(mem).mem().len() == old(mem).mem().len(),
        r is Ok <==> old(mem).allocated() + bytes@.len() <= old(mem).mem().len(),
        r matches Ok(ptr) ==> ptr as int + bytes@.len() <= final(mem).mem().len()
            && final(mem).mem().subrange(ptr as int, ptr as int + bytes@.len() as int) == bytes@,
        r is Err ==> final(mem).mem() == old(mem).mem(),
        r matches Err(e) ==> e == MarshalError::AllocationFailed,
{
    match write_own_block(mem, bytes) {
        Ok(ptr) => {
            proof {
                assert(mem.mem().subrange(ptr as int, ptr as int + bytes@.len() as int)
                    =~= bytes@);
            }
            Ok(ptr)
        },
        Err(e) => Err(e),
    }
}

/// Reconstructs a fixed-size byte array of `size` bytes from the bare
/// address the host passed, then releases the block: by convention the
/// host transfers ownership of it to the guest for exactly one read, and
/// the guest gives it back to the allocator once the bytes are copied out.
/// Releasing reclaims no space early, so the copied bytes are exactly what
/// the block held.
pub fn guest_fixed_from_ffi(mem: &mut LinearMemory, ptr: u32, size: u32) -> (r: Result<
    Vec<u8>,
    MarshalError,
>)
    requires
        old(mem).inv(),
        1 <= size as int <= MAX_FIXED_BYTES as int,
    ensures
        final(mem).inv(),
        final(mem).mem() == old(mem).mem(),
        final(mem).allocated() == old(mem).allocated(),
        r is Ok <==> ptr as int + size as int <= old(mem).mem().len(),
        r matches Ok(v) ==> v@ == old(mem).mem().subrange(ptr as int, ptr as int + size as int)
            && v@.len() == size as int,
        r matches Err(e) ==> e == MarshalError::ReadFailed,
{
    let out = match mem.read_at(ptr, size) {
        Ok(v) => v,
        Err(e) => {
            return Err(e);
        },
    };
    let _ = mem.release(ptr);
    Ok(out)
}

/// A byte sequence the host places into guest memory is read back by the
/// guest exactly, element for element: the two sides' byte fast paths
/// agree.  Succeeds exactly when the length fits the handle and the
/// memory admits the allocation.
pub fn bytes_host_to_guest_round_trip(mem: &mut LinearMemory, v: &Vec<u8>) -> (r: Result<
    Vec<u8>,
    MarshalError,
>)
    requires
        old(mem).inv(),
    ensures
        final(mem).inv(),
        r matches Ok(w) ==> w@ == v@,
        r matches Err(e) ==> e == MarshalError::AllocationFailed || e
            == MarshalError::LengthOverflow,
        r is Ok <==> v@.len() <= 0xFFFF_FFFF && old(mem).can_allocate(v@.len() as u32),
        v@.len() > 0xFFFF_FFFF <==> (r matches Err(e) && e == MarshalError::LengthOverflow),
{
    let h = match host::bytes_into_ffi(mem, v) {
        Ok(h) => h,
        Err(e) => {
            return Err(e);
        },
    };
    guest_bytes_from_ffi(mem, h)
}

/// A byte sequence the guest places into its own memory is read back by
/// the host exactly: the byte fast path agrees in the other direction too.
/// Succeeds exactly when the length fits the handle and enough of the
/// guest's bounded memory is still unallocated.
pub fn bytes_guest_to_host_round_trip(mem: &mut LinearMemory, v: &Vec<u8>) -> (r: Result<
    Vec<u8>,
    MarshalError,
>)
    requires
        old(mem).inv(),
    ensures
        final(mem).inv(),
        r matches Ok(w) ==> w@ == v@,
        r matches Err(e) ==> e == MarshalError::AllocationFailed || e
            == MarshalError::LengthOverflow,
        r is Ok <==> v@.len() <= 0xFFFF_FFFF && old(mem).allocated() + v@.len() <= old(
            mem,
        ).mem().len(),
        v@.len() > 0xFFFF_FFFF <==> (r matches Err(e) && e == MarshalError::LengthOverflow),
{
    let h = match guest_bytes_into_ffi(mem, v) {
        Ok(h) => h,
        Err(e) => {
            return Err(e);
        },
    };
    host::bytes_from_ffi(mem, h)
}

/// A fixed-size array the host places into guest memory is reconstructed
/// byte-identical by the guest, which then releases the block.  Succeeds
/// exactly when the memory admits the allocation.
pub fn fixed_host_to_guest_round_trip(mem: &mut LinearMemory, bytes: &Vec<u8>) -> (r: Result<
    Vec<u8>,
    MarshalError,
>)
    requires
        old(mem).inv(),
        1 <= bytes@.len() <= MAX_FIXED_BYTES as int,
    ensures
        final(mem).inv(),
        r matches Ok(w) ==> w@ == bytes@,
        r matches Err(e) ==> e == MarshalError::AllocationFailed,
        r is Ok <==> old(mem).can_allocate(bytes@.len() as u32),
{
    let ptr = match host::fixed_into_ffi(mem, bytes) {
        Ok(p) => p,
        Err(e) => {
            return Err(e);
        },
    };
    guest_fixed_from_ffi(mem, ptr, bytes.len() as u32)
}

/// A sequence of 16-bit integers the guest serializes into its own memory
/// is decoded back by the host exactly — the direction a sandboxed call's
/// return value travels.  Succeeds exactly when the encoding fits the
/// handle and enough of the guest's bounded memory is still unallocated.
pub fn u16s_guest_to_host_round_trip(mem: &mut LinearMemory, v: &Vec<u16>) -> (r: Result<
    Vec<u16>,
    MarshalError,
>)
    requires
        old(mem).inv(),
        v@.len() <= 0xFFFF_FFFF,
    ensures
        final(mem).inv(),
        r matches Ok(w) ==> w@ == v@,
        r matches Err(e) ==> e == MarshalError::AllocationFailed || e
            == MarshalError::LengthOverflow,
        r is Ok <==> u16_seq_encoding(v@).len() <= 0xFFFF_FFFF && old(mem).allocated()
            + u16_seq_encoding(v@).len() <= old(mem).mem().len(),
        u16_seq_encoding(v@).len() > 0xFFFF_FFFF <==> (r matches Err(e) && e
            == MarshalError::LengthOverflow),
{
    let h = match guest_u16s_into_ffi(mem, v) {
        Ok(h) => h,
        Err(e) => {
            return Err(e);
        },
    };
    host::u16s_from_ffi(mem, h)
}

} // verus!
