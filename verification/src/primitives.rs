//! Conversion of bare integers and booleans to and from their wire form.
//!
//! An integer crosses the boundary as the wire primitive of its own width
//! and signedness, so the conversion is a direct bit conversion that keeps
//! the numeric value; whenever the word is laid out as bytes both sides use
//! the canonical little-endian order (see [`crate::handle`]).  A boolean
//! crosses as an 8-bit integer carrying 0 or 1.

use vstd::prelude::*;

verus! {

/// The 8-bit wire word for a boolean: 1 for true, 0 for false.
pub open spec fn wire_of_bool(b: bool) -> u8 {
    if b {
        1u8
    } else {
        0u8
    }
}

/// The boolean a received 8-bit wire word stands for.  Only 1 means true:
/// any other word, well-formed or not, reads back as false.
pub open spec fn bool_of_wire(w: u8) -> bool {
    w == 1
}

/// A boolean sent across the boundary and read back is unchanged.
pub proof fn lemma_bool_round_trip(b: bool)
    ensures
        bool_of_wire(wire_of_bool(b)) == b,
{
}

/// Converts a boolean to its wire word.
pub fn bool_into_ffi(v: bool) -> (r: u8)
    ensures
        r == wire_of_bool(v),
{
    if v {
        1
    } else {
        0
    }
}

/// Reads a boolean back from its wire word.
pub fn bool_from_ffi(w: u8) -> (r: bool)
    ensures
        r == bool_of_wire(w),
{
    w == 1
}

/// Converts a `u8` to its wire word: the same 8-bit value.
pub fn u8_into_ffi(v: u8) -> (r: u8)
    ensures
        r == v,
{
    v
}

/// Reads a `u8` back from its wire word: the same 8-bit value.
pub fn u8_from_ffi(w: u8) -> (r: u8)
    ensures
        r == w,
{
    w
}

/// Converts a `u16` to its wire word: the same 16-bit value.
pub fn u16_into_ffi(v: u16) -> (r: u16)
    ensures
        r == v,
{
    v
}

/// Reads a `u16` back from its wire word: the same 16-bit value.
pub fn u16_from_ffi(w: u16) -> (r: u16)
    ensures
        r == w,
{
    w
}

/// Converts a `u32` to its wire word: the same 32-bit value.
pub fn u32_into_ffi(v: u32) -> (r: u32)
    ensures
        r == v,
{
    v
}

/// Reads a `u32` back from its wire word: the same 32-bit value.
pub fn u32_from_ffi(w: u32) -> (r: u32)
    ensures
        r == w,
{
    w
}

/// Converts a `u64` to its wire word: the same 64-bit value.
pub fn u64_into_ffi(v: u64) -> (r: u64)
    ensures
        r == v,
{
    v
}

/// Reads a `u64` back from its wire word: the same 64-bit value.
pub fn u64_from_ffi(w: u64) -> (r: u64)
    ensures
        r == w,
{
    w
}

/// Converts an `i8` to its wire word: the same 8-bit value.
pub fn i8_into_ffi(v: i8) -> (r: i8)
    ensures
        r == v,
{
    v
}

/// Reads an `i8` back from its wire word: the same 8-bit value.
pub fn i8_from_ffi(w: i8) -> (r: i8)
    ensures
        r == w,
{
    w
}

/// Converts an `i16` to its wire word: the same 16-bit value.
pub fn i16_into_ffi(v: i16) -> (r: i16)
    ensures
        r == v,
{
    v
}

/// Reads an `i16` back from its wire word: the same 16-bit value.
pub fn i16_from_ffi(w: i16) -> (r: i16)
    ensures
        r == w,
{
    w
}

/// Converts an `i32` to its wire word: the same 32-bit value.
pub fn i32_into_ffi(v: i32) -> (r: i32)
    ensures
        r == v,
{
    v
}

/// Reads an `i32` back from its wire word: the same 32-bit value.
pub fn i32_from_ffi(w: i32) -> (r: i32)
    ensures
        r == w,
{
    w
}

/// Converts an `i64` to its wire word: the same 64-bit value.
pub fn i64_into_ffi(v: i64) -> (r: i64)
    ensures
        r == v,
{
    v
}

/// Reads an `i64` back from its wire word: the same 64-bit value.
pub fn i64_from_ffi(w: i64) -> (r: i64)
    ensures
        r == w,
{
    w
}

} // verus!
