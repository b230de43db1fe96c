//! Host-side converters.
//!
//! The host services calls that originate in the guest and prepares
//! arguments for calls into the guest.  It owns no guest memory itself:
//! every conversion goes through an injected [`MemoryContext`] and surfaces
//! that context's failures to its caller.
//!
//! Byte sequences take the zero-copy fast path: the native buffer's bytes
//! are themselves the wire payload, and the external codec is never
//! involved.  Sequences of wider elements, and optional or fallible unions,
//! are first serialized through the external codec and then passed as the
//! byte sequence of their encoding.  Fixed-size arrays travel as a bare
//! address, their length implied by the type.

use crate::codec::{
    option_u32_encoding, result_u32_encoding, scale_decode_option_u32, scale_decode_result_u32,
    scale_decode_u16s, scale_encode_option_u32, scale_encode_result_u32, scale_encode_u16s,
    u16_seq_encoding,
};
use crate::error::MarshalError;
use crate::handle::{
    handle_address, handle_in_range, handle_length, handle_region, pointer_and_len_from_u64,
    pointer_and_len_to_u64,
};
use crate::memory::{mem_after_write, MemoryContext};
use crate::MAX_FIXED_BYTES;
use vstd::prelude::*;

verus! {

/// Allocates a block in the context's memory and writes `bytes` into it.
/// Fails only if the allocation fails: a write inside a freshly allocated
/// block always lands.
fn write_block<C: MemoryContext>(ctx: &mut C, bytes: &Vec<u8>) -> (r: Result<u32, MarshalError>)
    requires
        old(ctx).inv(),
        bytes@.len() <= 0xFFFF_FFFF,
    ensures
        final(ctx).inv(),
        final(ctx).mem().len() == old(ctx).mem().len(),
        r is Ok <==> old(ctx).can_allocate(bytes@.len() as u32),
        r matches Ok(ptr) ==> ptr as int + bytes@.len() <= old(ctx).mem().len()
            && final(ctx).mem() == mem_after_write(old(ctx).mem(), ptr, bytes@),
        r is Err ==> final(ctx).mem() == old(ctx).mem(),
        r matches Err(e) ==> e == MarshalError::AllocationFailed,
{
    let len32 = bytes.len() as u32;
    match ctx.allocate(len32) {
        Ok(ptr) => {
            match ctx.write(ptr, bytes.as_slice()) {
                Ok(_) => Ok(ptr),
                Err(e) => Err(e),
            }
        },
        Err(e) => Err(e),
    }
}

/// Places a byte sequence into guest memory and returns the packed handle
/// that refers to it.  This is the zero-copy fast path: the sequence's own
/// bytes are the wire payload, with no serialization step.  Fails only if
/// the allocation fails, or if the sequence has more bytes than the
/// handle's 32-bit length field can count.
pub fn bytes_into_ffi<C: MemoryContext>(ctx: &mut C, v: &Vec<u8>) -> (r: Result<
    u64,
    MarshalError,
>)
    requires
        old(ctx).inv(),
    ensures
        final(ctx).inv(),
        final(ctx).mem().len() == old(ctx).mem().len(),
        r matches Ok(h) ==> handle_length(h) as int == v@.len() && handle_in_range(
            final(ctx).mem(),
            h,
        ) && handle_region(final(ctx).mem(), h) == v@,
        r is Err ==> final(ctx).mem() == old(ctx).mem(),
        r matches Err(e) ==> e == MarshalError::AllocationFailed || e
            == MarshalError::LengthOverflow,
        v@.len() > 0xFFFF_FFFF <==> (r matches Err(e) && e == MarshalError::LengthOverflow),
        r is Ok <==> v@.len() <= 0xFFFF_FFFF && old(ctx).can_allocate(v@.len() as u32),
{
    if v.len() > 0xFFFF_FFFF {
        return Err(MarshalError::LengthOverflow);
    }
    let len = v.len() as u32;
    match write_block(ctx, v) {
        Ok(ptr) => {
            let h = pointer_and_len_to_u64(ptr, len);
            proof {
                assert(handle_region(ctx.mem(), h) =~= v@);
            }
            Ok(h)
        },
        Err(e) => Err(e),
    }
}

/// Reads a byte sequence back through its handle: the wire bytes are the
/// sequence, with no decoding step.  Succeeds exactly when the handle's
/// block lies inside the addressable range; a handle outside it is a wire-
/// contract violation and fails the read.
pub fn bytes_from_ffi<C: MemoryContext>(ctx: &C, handle: u64) -> (r: Result<Vec<u8>, MarshalError>)
    requires
        ctx.inv(),
    ensures
        r is Ok <==> handle_in_range(ctx.mem(), handle),
        r matches Ok(v) ==> v@ == handle_region(ctx.mem(), handle),
        r matches Err(e) ==> e == MarshalError::ReadFailed,
{
    let (ptr, len) = pointer_and_len_from_u64(handle);
    ctx.read(ptr, len)
}

/// The byte fast path loses nothing: a sequence placed into guest memory
/// and read back through the returned handle is recovered exactly, and the
/// external codec is never involved.  Succeeds exactly when the length
/// fits the handle and the context admits the allocation.
pub fn bytes_round_trip<C: MemoryContext>(ctx: &mut C, v: &Vec<u8>) -> (r: Result<
    Vec<u8>,
    MarshalError,
>)
    requires
        old(ctx).inv(),
    ensures
        final(ctx).inv(),
        r matches Ok(w) ==> w@ == v@,
        r matches Err(e) ==> e == MarshalError::AllocationFailed || e
            == MarshalError::LengthOverflow,
        r is Ok <==> v@.len() <= 0xFFFF_FFFF && old(ctx).can_allocate(v@.len() as u32),
        v@.len() > 0xFFFF_FFFF <==> (r matches Err(e) && e == MarshalError::LengthOverflow),
{
    let h = match bytes_into_ffi(ctx, v) {
        Ok(h) => h,
        Err(e) => {
            return Err(e);
        },
    };
    bytes_from_ffi(ctx, h)
}

/// Serializes a sequence of 16-bit integers through the external codec and
/// places the encoding into guest memory, returning the packed handle.  The
/// handle counts the encoding's bytes, not the elements.
pub fn u16s_into_ffi<C: MemoryContext>(ctx: &mut C, v: &Vec<u16>) -> (r: Result<
    u64,
    MarshalError,
>)
    requires
        old(ctx).inv(),
        v@.len() <= 0xFFFF_FFFF,
    ensures
        final(ctx).inv(),
        final(ctx).mem().len() == old(ctx).mem().len(),
        r matches Ok(h) ==> handle_length(h) as int == u16_seq_encoding(v@).len()
            && handle_in_range(final(ctx).mem(), h) && handle_region(final(ctx).mem(), h)
            == u16_seq_encoding(v@),
        r is Err ==> final(ctx).mem() == old(ctx).mem(),
        r matches Err(e) ==> e == MarshalError::AllocationFailed || e
            == MarshalError::LengthOverflow,
        u16_seq_encoding(v@).len() > 0xFFFF_FFFF <==> (r matches Err(e) && e
            == MarshalError::LengthOverflow),
        r is Ok <==> u16_seq_encoding(v@).len() <= 0xFFFF_FFFF && old(ctx).can_allocate(
            u16_seq_encoding(v@).len() as u32,
        ),
{
    let encoded = scale_encode_u16s(v);
    if encoded.len() > 0xFFFF_FFFF {
        return Err(MarshalError::LengthOverflow);
    }
    let len = encoded.len() as u32;
    match write_block(ctx, &encoded) {
        Ok(ptr) => {
            let h = pointer_and_len_to_u64(ptr, len);
            proof {
                assert(handle_region(ctx.mem(), h) =~= encoded@);
            }
            Ok(h)
        },
        Err(e) => Err(e),
    }
}

/// Reads a sequence of 16-bit integers back through its handle: reads the
/// handle's block and decodes it through the external codec.  If the block
/// holds the encoding of some sequence, that sequence is returned; bytes
/// the codec cannot decode are a wire-contract violation and fail the call.
pub fn u16s_from_ffi<C: MemoryContext>(ctx: &C, handle: u64) -> (r: Result<Vec<u16>, MarshalError>)
    requires
        ctx.inv(),
    ensures
        r is Ok <== handle_in_range(ctx.mem(), handle) && exists|s: Seq<u16>|
            handle_region(ctx.mem(), handle) == #[trigger] u16_seq_encoding(s),
        r matches Ok(v) ==> forall|s: Seq<u16>|
            handle_region(ctx.mem(), handle) == #[trigger] u16_seq_encoding(s) ==> v@ == s,
        r matches Err(e) ==> e == MarshalError::ReadFailed || e == MarshalError::DecodeFailed,
        !handle_in_range(ctx.mem(), handle) ==> (r matches Err(e) && e == MarshalError::ReadFailed),
{
    let bytes = match bytes_from_ffi(ctx, handle) {
        Ok(b) => b,
        Err(e) => {
            return Err(e);
        },
    };
    scale_decode_u16s(&bytes)
}

/// The codec fallback loses nothing: a sequence of 16-bit integers
/// serialized into guest memory and read back through its handle is
/// recovered exactly — the empty sequence included.  Succeeds exactly when
/// the encoding fits the handle and the context admits the allocation.
pub fn u16s_round_trip<C: MemoryContext>(ctx: &mut C, v: &Vec<u16>) -> (r: Result<
    Vec<u16>,
    MarshalError,
>)
    requires
        old(ctx).inv(),
        v@.len() <= 0xFFFF_FFFF,
    ensures
        final(ctx).inv(),
        r matches Ok(w) ==> w@ == v@,
        r matches Err(e) ==> e == MarshalError::AllocationFailed || e
            == MarshalError::LengthOverflow,
        r is Ok <==> u16_seq_encoding(v@).len() <= 0xFFFF_FFFF && old(ctx).can_allocate(
            u16_seq_encoding(v@).len() as u32,
        ),
        u16_seq_encoding(v@).len() > 0xFFFF_FFFF <==> (r matches Err(e) && e
            == MarshalError::LengthOverflow),
{
    let h = match u16s_into_ffi(ctx, v) {
        Ok(h) => h,
        Err(e) => {
            return Err(e);
        },
    };
    u16s_from_ffi(ctx, h)
}

/// Places a fixed-size byte array into guest memory and returns the bare
/// address of its bytes.  No length travels: the receiving side knows the
/// array's size from its type.  Fails only if the allocation fails.
pub fn fixed_into_ffi<C: MemoryContext>(ctx: &mut C, bytes: &Vec<u8>) -> (r: Result<
    u32,
    MarshalError,
>)
    requires
        old(ctx).inv(),
        1 <= bytes@.len() <= MAX_FIXED_BYTES as int,
    ensures
        final(ctx).inv(),
        final(ctx).mem().len() == old(ctx).mem().len(),
        r matches Ok(ptr) ==> ptr as int + bytes@.len() <= final(ctx).mem().len()
            && final(ctx).mem().subrange(ptr as int, ptr as int + bytes@.len() as int) == bytes@,
        r is Err ==> final(ctx).mem() == old(ctx).mem(),
        r matches Err(e) ==> e == MarshalError::AllocationFailed,
        r is Ok <==> old(ctx).can_allocate(bytes@.len() as u32),
{
    match write_block(ctx, bytes) {
        Ok(ptr) => {
            proof {
                assert(ctx.mem().subrange(ptr as int, ptr as int + bytes@.len() as int)
                    =~= bytes@);
            }
            Ok(ptr)
        },
        Err(e) => Err(e),
    }
}

/// Reconstructs a fixed-size byte array of `size` bytes from the bare
/// address the peer passed.  Succeeds exactly when the block lies inside
/// the addressable range.
pub fn fixed_from_ffi<C: MemoryContext>(ctx: &C, ptr: u32, size: u32) -> (r: Result<
    Vec<u8>,
    MarshalError,
>)
    requires
        ctx.inv(),
        1 <= size as int <= MAX_FIXED_BYTES as int,
    ensures
        r is Ok <==> ptr as int + size as int <= ctx.mem().len(),
        r matches Ok(v) ==> v@ == ctx.mem().subrange(ptr as int, ptr as int + size as int)
            && v@.len() == size as int,
        r matches Err(e) ==> e == MarshalError::ReadFailed,
{
    ctx.read(ptr, size)
}

/// A fixed-size array placed into guest memory and reconstructed from its
/// bare address is byte-identical to the original.  Succeeds exactly when
/// the context admits the allocation.
pub fn fixed_round_trip<C: MemoryContext>(ctx: &mut C, bytes: &Vec<u8>) -> (r: Result<
    Vec<u8>,
    MarshalError,
>)
    requires
        old(ctx).inv(),
        1 <= bytes@.len() <= MAX_FIXED_BYTES as int,
    ensures
        final(ctx).inv(),
        r matches Ok(w) ==> w@ == bytes@,
        r matches Err(e) ==> e == MarshalError::AllocationFailed,
        r is Ok <==> old(ctx).can_allocate(bytes@.len() as u32),
{
    let ptr = match fixed_into_ffi(ctx, bytes) {
        Ok(p) => p,
        Err(e) => {
            return Err(e);
        },
    };
    fixed_from_ffi(ctx, ptr, bytes.len() as u32)
}

/// Writes a byte sequence into a destination block the caller has already
/// allocated, given as a packed handle.  If the destination is shorter than
/// the sequence, nothing is written and the error names both lengths;
/// otherwise the bytes land at the start of the destination.  This lets a
/// caller size a return buffer once and have it filled without a second
/// allocation round-trip.
pub fn bytes_into_preallocated_ffi<C: MemoryContext>(
    ctx: &mut C,
    v: &Vec<u8>,
    allocated: u64,
) -> (r: Result<(), MarshalError>)
    requires
        old(ctx).inv(),
    ensures
        final(ctx).inv(),
        final(ctx).mem().len() == old(ctx).mem().len(),
        (handle_length(allocated) as int) < v@.len() ==> (r matches Err(e) && e
            == (MarshalError::BufferTooSmall {
            given: handle_length(allocated),
            needed: v@.len() as usize,
        })),
        (handle_length(allocated) as int) >= v@.len() ==> (r is Ok <==> handle_address(allocated)
            as int + v@.len() <= old(ctx).mem().len()),
        r is Ok ==> final(ctx).mem() == mem_after_write(
            old(ctx).mem(),
            handle_address(allocated),
            v@,
        ),
        r is Err ==> final(ctx).mem() == old(ctx).mem(),
        (handle_length(allocated) as int) >= v@.len() && r is Err ==> (r matches Err(e) && e
            == MarshalError::WriteFailed),
{
    let (ptr, len) = pointer_and_len_from_u64(allocated);
    if (len as usize) < v.len() {
        Err(MarshalError::BufferTooSmall { given: len, needed: v.len() })
    } else {
        ctx.write(ptr, v.as_slice())
    }
}

/// Writes a fixed-size byte array into a destination block the caller has
/// already allocated, given as a bare address.  The destination's capacity
/// is implied by the array's type, so only range failures remain.
pub fn fixed_into_preallocated_ffi<C: MemoryContext>(
    ctx: &mut C,
    bytes: &Vec<u8>,
    allocated: u32,
) -> (r: Result<(), MarshalError>)
    requires
        old(ctx).inv(),
        1 <= bytes@.len() <= MAX_FIXED_BYTES as int,
    ensures
        final(ctx).inv(),
        final(ctx).mem().len() == old(ctx).mem().len(),
        r is Ok <==> allocated as int + bytes@.len() <= old(ctx).mem().len(),
        r is Ok ==> final(ctx).mem() == mem_after_write(old(ctx).mem(), allocated, bytes@),
        r is Err ==> final(ctx).mem() == old(ctx).mem(),
        r matches Err(e) ==> e == MarshalError::WriteFailed,
{
    ctx.write(allocated, bytes.as_slice())
}

/// Serializes an optional 32-bit integer through the external codec and
/// places the encoding into guest memory, returning the packed handle.
/// Optionals take the codec fallback: their pass-by strategy is `ByCodec`.
pub fn option_u32_into_ffi<C: MemoryContext>(ctx: &mut C, v: &Option<u32>) -> (r: Result<
    u64,
    MarshalError,
>)
    requires
        old(ctx).inv(),
    ensures
        final(ctx).inv(),
        final(ctx).mem().len() == old(ctx).mem().len(),
        r matches Ok(h) ==> handle_length(h) as int == option_u32_encoding(*v).len()
            && handle_in_range(final(ctx).mem(), h) && handle_region(final(ctx).mem(), h)
            == option_u32_encoding(*v),
        r is Err ==> final(ctx).mem() == old(ctx).mem(),
        r matches Err(e) ==> e == MarshalError::AllocationFailed || e
            == MarshalError::LengthOverflow,
        option_u32_encoding(*v).len() > 0xFFFF_FFFF <==> (r matches Err(e) && e
            == MarshalError::LengthOverflow),
        r is Ok <==> option_u32_encoding(*v).len() <= 0xFFFF_FFFF && old(ctx).can_allocate(
            option_u32_encoding(*v).len() as u32,
        ),
{
    let encoded = scale_encode_option_u32(v);
    if encoded.len() > 0xFFFF_FFFF {
        return Err(MarshalError::LengthOverflow);
    }
    let len = encoded.len() as u32;
    match write_block(ctx, &encoded) {
        Ok(ptr) => {
            let h = pointer_and_len_to_u64(ptr, len);
            proof {
                assert(handle_region(ctx.mem(), h) =~= encoded@);
            }
            Ok(h)
        },
        Err(e) => Err(e),
    }
}

/// Reads an optional 32-bit integer back through its handle, decoding the
/// handle's block through the external codec.
pub fn option_u32_from_ffi<C: MemoryContext>(ctx: &C, handle: u64) -> (r: Result<
    Option<u32>,
    MarshalError,
>)
    requires
        ctx.inv(),
    ensures
        r is Ok <== handle_in_range(ctx.mem(), handle) && exists|v: Option<u32>|
            handle_region(ctx.mem(), handle) == #[trigger] option_u32_encoding(v),
        r matches Ok(d) ==> forall|v: Option<u32>|
            handle_region(ctx.mem(), handle) == #[trigger] option_u32_encoding(v) ==> d == v,
        r matches Err(e) ==> e == MarshalError::ReadFailed || e == MarshalError::DecodeFailed,
        !handle_in_range(ctx.mem(), handle) ==> (r matches Err(e) && e == MarshalError::ReadFailed),
{
    let bytes = match bytes_from_ffi(ctx, handle) {
        Ok(b) => b,
        Err(e) => {
            return Err(e);
        },
    };
    scale_decode_option_u32(&bytes)
}

/// An optional 32-bit integer serialized into guest memory and read back
/// through its handle is recovered exactly, in both its arms.  Succeeds
/// exactly when the encoding fits the handle and the context admits the
/// allocation.
pub fn option_u32_round_trip<C: MemoryContext>(ctx: &mut C, v: &Option<u32>) -> (r: Result<
    Option<u32>,
    MarshalError,
>)
    requires
        old(ctx).inv(),
    ensures
        final(ctx).inv(),
        r matches Ok(d) ==> d == *v,
        r matches Err(e) ==> e == MarshalError::AllocationFailed || e
            == MarshalError::LengthOverflow,
        r is Ok <==> option_u32_encoding(*v).len() <= 0xFFFF_FFFF && old(ctx).can_allocate(
            option_u32_encoding(*v).len() as u32,
        ),
        option_u32_encoding(*v).len() > 0xFFFF_FFFF <==> (r matches Err(e) && e
            == MarshalError::LengthOverflow),
{
    let h = match option_u32_into_ffi(ctx, v) {
        Ok(h) => h,
        Err(e) => {
            return Err(e);
        },
    };
    option_u32_from_ffi(ctx, h)
}

/// Serializes a fallible 32-bit result union through the external codec
/// and places the encoding into guest memory, returning the packed handle.
/// Result unions take the codec fallback: their pass-by strategy is
/// `ByCodec`.
pub fn result_u32_into_ffi<C: MemoryContext>(ctx: &mut C, v: &Result<u32, u32>) -> (r: Result<
    u64,
    MarshalError,
>)
    requires
        old(ctx).inv(),
    ensures
        final(ctx).inv(),
        final(ctx).mem().len() == old(ctx).mem().len(),
        r matches Ok(h) ==> handle_length(h) as int == result_u32_encoding(*v).len()
            && handle_in_range(final(ctx).mem(), h) && handle_region(final(ctx).mem(), h)
            == result_u32_encoding(*v),
        r is Err ==> final(ctx).mem() == old(ctx).mem(),
        r matches Err(e) ==> e == MarshalError::AllocationFailed || e
            == MarshalError::LengthOverflow,
        result_u32_encoding(*v).len() > 0xFFFF_FFFF <==> (r matches Err(e) && e
            == MarshalError::LengthOverflow),
        r is Ok <==> result_u32_encoding(*v).len() <= 0xFFFF_FFFF && old(ctx).can_allocate(
            result_u32_encoding(*v).len() as u32,
        ),
{
    let encoded = scale_encode_result_u32(v);
    if encoded.len() > 0xFFFF_FFFF {
        return Err(MarshalError::LengthOverflow);
    }
    let len = encoded.len() as u32;
    match write_block(ctx, &encoded) {
        Ok(ptr) => {
            let h = pointer_and_len_to_u64(ptr, len);
            proof {
                assert(handle_region(ctx.mem(), h) =~= encoded@);
            }
            Ok(h)
        },
        Err(e) => Err(e),
    }
}

/// Reads a fallible 32-bit result union back through its handle, decoding
/// the handle's block through the external codec.
pub fn result_u32_from_ffi<C: MemoryContext>(ctx: &C, handle: u64) -> (r: Result<
    Result<u32, u32>,
    MarshalError,
>)
    requires
        ctx.inv(),
    ensures
        r is Ok <== handle_in_range(ctx.mem(), handle) && exists|v: Result<u32, u32>|
            handle_region(ctx.mem(), handle) == #[trigger] result_u32_encoding(v),
        r matches Ok(d) ==> forall|v: Result<u32, u32>|
            handle_region(ctx.mem(), handle) == #[trigger] result_u32_encoding(v) ==> d == v,
        r matches Err(e) ==> e == MarshalError::ReadFailed || e == MarshalError::DecodeFailed,
        !handle_in_range(ctx.mem(), handle) ==> (r matches Err(e) && e == MarshalError::ReadFailed),
{
    let bytes = match bytes_from_ffi(ctx, handle) {
        Ok(b) => b,
        Err(e) => {
            return Err(e);
        },
    };
    scale_decode_result_u32(&bytes)
}

/// A fallible 32-bit result union serialized into guest memory and read
/// back through its handle is recovered exactly, in both its arms.
/// Succeeds exactly when the encoding fits the handle and the context
/// admits the allocation.
pub fn result_u32_round_trip<C: MemoryContext>(ctx: &mut C, v: &Result<u32, u32>) -> (r: Result<
    Result<u32, u32>,
    MarshalError,
>)
    requires
        old(ctx).inv(),
    ensures
        final(ctx).inv(),
        r matches Ok(d) ==> d == *v,
        r matches Err(e) ==> e == MarshalError::AllocationFailed || e
            == MarshalError::LengthOverflow,
        r is Ok <==> result_u32_encoding(*v).len() <= 0xFFFF_FFFF && old(ctx).can_allocate(
            result_u32_encoding(*v).len() as u32,
        ),
        result_u32_encoding(*v).len() > 0xFFFF_FFFF <==> (r matches Err(e) && e
            == MarshalError::LengthOverflow),
{
    let h = match result_u32_into_ffi(ctx, v) {
        Ok(h) => h,
        Err(e) => {
            return Err(e);
        },
    };
    result_u32_from_ffi(ctx, h)
}

} // verus!
