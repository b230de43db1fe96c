//! A value-marshaling layer for calls between a trusted host process and a
//! sandboxed guest with its own isolated linear memory.
//!
//! The call boundary between the two sides can only carry raw machine
//! integers (8/16/32/64-bit words).  Any richer value — a byte buffer, a
//! dynamically sized sequence, a fixed-size cryptographic value, an optional
//! or fallible union — is placed into one side's linear memory and referenced
//! across the call by a packed pointer-and-length handle.
//!
//! The crate is organised around the layers of that protocol:
//! - [`handle`]: packing and unpacking of the 64-bit (address, length) handle,
//!   and its canonical little-endian byte layout;
//! - [`descriptor`]: the static mapping from each supported native type to the
//!   wire primitive that represents it;
//! - [`primitives`]: conversion of bare integers and booleans;
//! - [`memory`]: the memory-access interface the host uses to reach guest
//!   memory, with a verified linear-memory implementation;
//! - [`host`]: host-side converters, which go through an injected memory
//!   context;
//! - [`guest`]: guest-side converters, which operate on the guest's own
//!   linear memory;
//! - [`codec`]: the external structured codec used as the fallback serializer
//!   for composite types;
//! - [`pass_by`]: the per-type choice between the codec fallback and the
//!   direct inner-bytes path for fixed-size cryptographic values.

use vstd::prelude::*;

pub mod codec;
pub mod descriptor;
pub mod error;
pub mod guest;
pub mod handle;
pub mod host;
pub mod memory;
pub mod pass_by;
pub mod primitives;

verus! {

/// Largest number of bytes a fixed-size array may have and still be passed
/// as a bare address with its length implied by the type.  This bound is a
/// policy choice of the boundary contract, not a structural limit.
pub const MAX_FIXED_BYTES: usize = 64;

} // verus!
