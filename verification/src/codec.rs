//! The external structured codec, the fallback serializer for composite
//! types.
//!
//! Sequences whose elements are not single bytes, and optional or fallible
//! unions, cross the boundary as the byte sequence the codec makes of them.
//! The codec is consumed, not reimplemented: each encoding is named by an
//! uninterpreted spec function, the trusted wrappers below state that the
//! outside calls compute exactly those encodings and invert them, and the
//! converters are verified against that.  Encoding is total and
//! deterministic for every supported type; decoding bytes that are not a
//! well-formed encoding fails, which the converters surface as
//! [`MarshalError::DecodeFailed`].

use crate::error::MarshalError;
use vstd::prelude::*;

verus! {

/// The codec's encoding of a sequence of 16-bit integers: a length prefix
/// followed by the elements.  Determined by the elements alone.
pub uninterp spec fn u16_seq_encoding(s: Seq<u16>) -> Seq<u8>;

/// The codec's encoding of an optional 32-bit integer: an arm tag, then the
/// value if present.  Determined by the value alone.
pub uninterp spec fn option_u32_encoding(v: Option<u32>) -> Seq<u8>;

/// The codec's encoding of a fallible 32-bit result union: an arm tag, then
/// the carried value.  Determined by the value alone.
pub uninterp spec fn result_u32_encoding(v: Result<u32, u32>) -> Seq<u8>;

/// Relies on `parity_scale_codec::Encode` for `Vec<u16>`: the encoding is a
/// deterministic function of the elements (a compact length prefix, then
/// each element as a 16-bit little-endian word).  The length bound keeps the
/// encoder away from its one panic, on more elements than a 32-bit length
/// prefix can count.
#[verifier::external_body]
pub(crate) fn scale_encode_u16s(v: &Vec<u16>) -> (r: Vec<u8>)
    requires
        v@.len() <= 0xFFFF_FFFF,
    ensures
        r@ == u16_seq_encoding(v@),
{
    parity_scale_codec::Encode::encode(v)
}

/// Relies on `parity_scale_codec::Decode` for `Vec<u16>`: decoding inverts
/// encoding, so on the encoding of any sequence it returns exactly that
/// sequence; any codec error is surfaced as `DecodeFailed`.
#[verifier::external_body]
pub(crate) fn scale_decode_u16s(b: &Vec<u8>) -> (r: Result<Vec<u16>, MarshalError>)
    ensures
        r is Ok <== exists|s: Seq<u16>| b@ == #[trigger] u16_seq_encoding(s),
        r matches Ok(v) ==> forall|s: Seq<u16>| b@ == #[trigger] u16_seq_encoding(s) ==> v@ == s,
        r matches Err(e) ==> e == MarshalError::DecodeFailed,
{
    match <Vec<u16> as parity_scale_codec::Decode>::decode(&mut &b[..]) {
        Ok(v) => Ok(v),
        Err(_) => Err(MarshalError::DecodeFailed),
    }
}

/// Relies on `parity_scale_codec::Encode` for `Option<u32>`: the encoding
/// is a deterministic function of the value (an arm tag byte, then the
/// 32-bit value little-endian if present), and never fails.
#[verifier::external_body]
pub(crate) fn scale_encode_option_u32(v: &Option<u32>) -> (r: Vec<u8>)
    ensures
        r@ == option_u32_encoding(*v),
{
    parity_scale_codec::Encode::encode(v)
}

/// Relies on `parity_scale_codec::Decode` for `Option<u32>`: decoding
/// inverts encoding; any codec error is surfaced as `DecodeFailed`.
#[verifier::external_body]
pub(crate) fn scale_decode_option_u32(b: &Vec<u8>) -> (r: Result<Option<u32>, MarshalError>)
    ensures
        r is Ok <== exists|v: Option<u32>| b@ == #[trigger] option_u32_encoding(v),
        r matches Ok(d) ==> forall|v: Option<u32>|
            b@ == #[trigger] option_u32_encoding(v) ==> d == v,
        r matches Err(e) ==> e == MarshalError::DecodeFailed,
{
    match <Option<u32> as parity_scale_codec::Decode>::decode(&mut &b[..]) {
        Ok(v) => Ok(v),
        Err(_) => Err(MarshalError::DecodeFailed),
    }
}

/// Relies on `parity_scale_codec::Encode` for `Result<u32, u32>`: the
/// encoding is a deterministic function of the value (an arm tag byte, then
/// the carried 32-bit value little-endian), and never fails.
#[verifier::external_body]
pub(crate) fn scale_encode_result_u32(v: &Result<u32, u32>) -> (r: Vec<u8>)
    ensures
        r@ == result_u32_encoding(*v),
{
    parity_scale_codec::Encode::encode(v)
}

/// Relies on `parity_scale_codec::Decode` for `Result<u32, u32>`: decoding
/// inverts encoding; any codec error is surfaced as `DecodeFailed`.
#[verifier::external_body]
pub(crate) fn scale_decode_result_u32(b: &Vec<u8>) -> (r: Result<Result<u32, u32>, MarshalError>)
    ensures
        r is Ok <== exists|v: Result<u32, u32>| b@ == #[trigger] result_u32_encoding(v),
        r matches Ok(d) ==> forall|v: Result<u32, u32>|
            b@ == #[trigger] result_u32_encoding(v) ==> d == v,
        r matches Err(e) ==> e == MarshalError::DecodeFailed,
{
    match <Result<u32, u32> as parity_scale_codec::Decode>::decode(&mut &b[..]) {
        Ok(v) => Ok(v),
        Err(_) => Err(MarshalError::DecodeFailed),
    }
}

} // verus!
