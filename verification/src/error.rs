//! Failure outcomes of a cross-boundary conversion.

use vstd::prelude::*;

verus! {

/// What went wrong while converting a value across the call boundary.
///
/// The first four variants are boundary/resource errors: the guest's memory
/// is bounded, so a failed allocation, read or write is an expected outcome
/// that the caller of the conversion decides how to handle.  `DecodeFailed`
/// is different in kind: the peer only ever writes well-formed encodings, so
/// bytes the codec cannot decode mean the wire contract itself was violated,
/// and the current call should be abandoned.
#[derive(Clone, Copy, Debug, PartialEq, Eq, Structural)]
pub enum MarshalError {
    /// The memory context could not allocate a block of the requested size.
    AllocationFailed,
    /// The memory context refused a write, e.g. outside the addressable range.
    WriteFailed,
    /// The memory context refused a read, e.g. outside the addressable range.
    ReadFailed,
    /// A preallocated destination buffer is shorter than the value needs.
    BufferTooSmall { given: u32, needed: usize },
    /// The value's byte length does not fit the handle's 32-bit length field.
    LengthOverflow,
    /// Bytes received across the boundary are not a well-formed encoding.
    DecodeFailed,
}

} // verus!
