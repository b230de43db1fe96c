//! The static mapping from native types to wire primitives.
//!
//! Only raw integer words ever physically cross the call boundary.  For each
//! native type the layer supports, this module declares which wire primitive
//! carries it: the integer of its own width and signedness, the bare 32-bit
//! address of a fixed-size array, or the packed 64-bit pointer-and-length
//! handle of a dynamically sized sequence.  The mapping is a function of the
//! type alone — total over the supported types, with exactly one wire kind
//! per native kind — and never varies with the direction of the call.

use crate::MAX_FIXED_BYTES;
use vstd::prelude::*;

verus! {

/// The raw machine words that may cross the call boundary.
#[derive(Clone, Copy, Debug, PartialEq, Eq, Structural)]
pub enum WireKind {
    /// An unsigned 8-bit word.
    U8,
    /// An unsigned 16-bit word.
    U16,
    /// An unsigned 32-bit word.
    U32,
    /// An unsigned 64-bit word.
    U64,
    /// A signed 8-bit word.
    I8,
    /// A signed 16-bit word.
    I16,
    /// A signed 32-bit word.
    I32,
    /// A signed 64-bit word.
    I64,
    /// A bare 32-bit address in the peer's linear memory; the length of the
    /// block it points at is implied by the native type.
    Address,
    /// The packed 64-bit pointer-and-length handle of [`crate::handle`].
    Handle,
}

/// The native types the marshaling layer can carry across the boundary.
#[derive(Clone, Copy, Debug, PartialEq, Eq, Structural)]
pub enum NativeKind {
    /// `bool`, carried as an 8-bit 0 or 1.
    Bool,
    /// `u8`.
    U8,
    /// `u16`.
    U16,
    /// `u32`.
    U32,
    /// `u64`.
    U64,
    /// `i8`.
    I8,
    /// `i16`.
    I16,
    /// `i32`.
    I32,
    /// `i64`.
    I64,
    /// A fixed-size byte array `[u8; size]`, its bytes living at a bare
    /// address; supported up to [`MAX_FIXED_BYTES`] bytes.
    FixedBytes { size: usize },
    /// A dynamically sized byte sequence, passed through the handle.
    ByteSequence,
    /// A dynamically sized sequence of 16-bit integers, serialized through
    /// the external codec and passed through the handle.
    U16Sequence,
    /// An optional 32-bit integer, serialized through the external codec.
    OptionU32,
    /// A fallible 32-bit result union, serialized through the external
    /// codec.
    ResultU32,
    /// A fixed-size public key, passed by its inner 32 bytes.
    Public,
    /// A fixed-size signature, passed by its inner 64 bytes.
    Signature,
}

/// Whether the layer supports a native kind at all.  A fixed-size array is
/// supported up to the policy bound [`MAX_FIXED_BYTES`]; describing anything
/// beyond that is a definition-time error, not a runtime one.
pub open spec fn supported(k: NativeKind) -> bool {
    match k {
        NativeKind::FixedBytes { size } => 1 <= size <= MAX_FIXED_BYTES,
        _ => true,
    }
}

/// The one wire primitive that carries each supported native kind: integers
/// keep their width and signedness, booleans ride an 8-bit word, fixed-size
/// arrays a bare address, and every dynamically sized or codec-serialized
/// type the packed handle.
pub open spec fn spec_wire_kind(k: NativeKind) -> WireKind {
    match k {
        NativeKind::Bool => WireKind::U8,
        NativeKind::U8 => WireKind::U8,
        NativeKind::U16 => WireKind::U16,
        NativeKind::U32 => WireKind::U32,
        NativeKind::U64 => WireKind::U64,
        NativeKind::I8 => WireKind::I8,
        NativeKind::I16 => WireKind::I16,
        NativeKind::I32 => WireKind::I32,
        NativeKind::I64 => WireKind::I64,
        NativeKind::FixedBytes { .. } => WireKind::Address,
        NativeKind::ByteSequence => WireKind::Handle,
        NativeKind::U16Sequence => WireKind::Handle,
        NativeKind::OptionU32 => WireKind::Handle,
        NativeKind::ResultU32 => WireKind::Handle,
        NativeKind::Public => WireKind::Address,
        NativeKind::Signature => WireKind::Address,
    }
}

/// Looks up the wire primitive for a supported native kind.
pub fn wire_kind_of(k: NativeKind) -> (r: WireKind)
    requires
        supported(k),
    ensures
        r == spec_wire_kind(k),
{
    match k {
        NativeKind::Bool => WireKind::U8,
        NativeKind::U8 => WireKind::U8,
        NativeKind::U16 => WireKind::U16,
        NativeKind::U32 => WireKind::U32,
        NativeKind::U64 => WireKind::U64,
        NativeKind::I8 => WireKind::I8,
        NativeKind::I16 => WireKind::I16,
        NativeKind::I32 => WireKind::I32,
        NativeKind::I64 => WireKind::I64,
        NativeKind::FixedBytes { .. } => WireKind::Address,
        NativeKind::ByteSequence => WireKind::Handle,
        NativeKind::U16Sequence => WireKind::Handle,
        NativeKind::OptionU32 => WireKind::Handle,
        NativeKind::ResultU32 => WireKind::Handle,
        NativeKind::Public => WireKind::Address,
        NativeKind::Signature => WireKind::Address,
    }
}

/// How many bits of the boundary word a wire primitive occupies.
pub open spec fn spec_wire_width_bits(w: WireKind) -> int {
    match w {
        WireKind::U8 => 8,
        WireKind::U16 => 16,
        WireKind::U32 => 32,
        WireKind::U64 => 64,
        WireKind::I8 => 8,
        WireKind::I16 => 16,
        WireKind::I32 => 32,
        WireKind::I64 => 64,
        WireKind::Address => 32,
        WireKind::Handle => 64,
    }
}

/// Looks up the width in bits of a wire primitive.
pub fn wire_width_bits(w: WireKind) -> (r: u32)
    ensures
        r as int == spec_wire_width_bits(w),
{
    match w {
        WireKind::U8 => 8,
        WireKind::U16 => 16,
        WireKind::U32 => 32,
        WireKind::U64 => 64,
        WireKind::I8 => 8,
        WireKind::I16 => 16,
        WireKind::I32 => 32,
        WireKind::I64 => 64,
        WireKind::Address => 32,
        WireKind::Handle => 64,
    }
}

} // verus!
