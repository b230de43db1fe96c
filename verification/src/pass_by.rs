//! The per-type pass-by strategy for composite values.
//!
//! Composite, optional and fallible-union types default to `ByCodec`: the
//! whole value is serialized through the external codec and crosses the
//! boundary as the byte sequence of its encoding.  Designated fixed-size
//! cryptographic value types — a public key, a signature — instead use
//! `ByInnerBytes`: their only content is a fixed-size byte array, so that
//! array itself is the wire payload, with no codec envelope around bytes
//! that are already bare.  A `ByInnerBytes` type exposes exactly one
//! extraction function (value to inner array) and one construction
//! function (inner array to value); no type ever takes both strategies.

use crate::descriptor::{spec_wire_kind, NativeKind, WireKind};
use crate::error::MarshalError;
use crate::host;
use crate::memory::MemoryContext;
use vstd::prelude::*;

verus! {

/// How many bytes a public key's inner array holds.
pub const PUBLIC_BYTES: usize = 32;

/// How many bytes a signature's inner array holds.
pub const SIGNATURE_BYTES: usize = 64;

/// How a composite native type crosses the boundary.
#[derive(Clone, Copy, Debug, PartialEq, Eq, Structural)]
pub enum PassStrategy {
    /// Serialize the whole value through the external codec and pass the
    /// encoding as a byte sequence.
    ByCodec,
    /// Pass the value's sole fixed-size inner byte array directly, with no
    /// codec framing.
    ByInnerBytes,
}

/// The strategy of each composite native kind, and `None` for the bare
/// types that need no strategy at all.  Chosen once per type: optionals
/// and result unions go through the codec, the fixed-size cryptographic
/// values by their inner bytes.
pub open spec fn spec_strategy(k: NativeKind) -> Option<PassStrategy> {
    match k {
        NativeKind::OptionU32 => Some(PassStrategy::ByCodec),
        NativeKind::ResultU32 => Some(PassStrategy::ByCodec),
        NativeKind::Public => Some(PassStrategy::ByInnerBytes),
        NativeKind::Signature => Some(PassStrategy::ByInnerBytes),
        _ => None,
    }
}

/// Looks up the pass-by strategy of a native kind.
pub fn strategy_of(k: NativeKind) -> (r: Option<PassStrategy>)
    ensures
        r == spec_strategy(k),
{
    match k {
        NativeKind::OptionU32 => Some(PassStrategy::ByCodec),
        NativeKind::ResultU32 => Some(PassStrategy::ByCodec),
        NativeKind::Public => Some(PassStrategy::ByInnerBytes),
        NativeKind::Signature => Some(PassStrategy::ByInnerBytes),
        _ => None,
    }
}

/// The strategy agrees with the type descriptor: a `ByInnerBytes` type
/// crosses as the bare address of its inner array, while a `ByCodec` type
/// crosses as the packed handle of its encoded byte sequence.
pub proof fn lemma_strategy_matches_descriptor(k: NativeKind)
    ensures
        spec_strategy(k) == Some(PassStrategy::ByInnerBytes) ==> spec_wire_kind(k)
            == WireKind::Address,
        spec_strategy(k) == Some(PassStrategy::ByCodec) ==> spec_wire_kind(k) == WireKind::Handle,
{
}

/// Compares two byte buffers for equality of their contents.
fn bytes_equal(a: &Vec<u8>, b: &Vec<u8>) -> (r: bool)
    ensures
        r <==> a@ == b@,
{
    if a.len() != b.len() {
        return false;
    }
    let mut i: usize = 0;
    while i < a.len()
        invariant
            i <= a@.len(),
            a@.len() == b@.len(),
            forall|j: int| 0 <= j < i as int ==> a@[j] == b@[j],
        decreases a@.len() - i as int,
    {
        if a[i] != b[i] {
            return false;
        }
        i = i + 1;
    }
    proof {
        assert(a@ =~= b@);
    }
    true
}

/// A public key: a fixed-size cryptographic value whose only content is
/// its 32-byte inner array.  Its pass-by strategy is `ByInnerBytes`, so it
/// crosses the boundary exactly as that array does.
#[derive(Clone, Debug)]
pub struct Public {
    bytes: Vec<u8>,
}

impl View for Public {
    type V = Seq<u8>;

    closed spec fn view(&self) -> Seq<u8> {
        self.bytes@
    }
}

impl Public {
    /// Well-formedness: the inner array has exactly its fixed size.
    pub open spec fn wf(&self) -> bool {
        self@.len() == PUBLIC_BYTES as int
    }

    /// The one construction function: builds the value from its inner
    /// fixed-size byte array.
    pub fn from_inner(inner: Vec<u8>) -> (r: Public)
        requires
            inner@.len() == PUBLIC_BYTES as int,
        ensures
            r.wf(),
            r@ == inner@,
    {
        Public { bytes: inner }
    }

    /// Borrows the inner fixed-size byte array.
    pub fn inner(&self) -> (r: &Vec<u8>)
        ensures
            r@ == self@,
    {
        &self.bytes
    }

    /// The one extraction function: consumes the value into its inner
    /// fixed-size byte array.
    pub fn into_inner(self) -> (r: Vec<u8>)
        ensures
            r@ == self@,
    {
        self.bytes
    }
}

impl PartialEq for Public {
    /// Two public keys are equal exactly when their inner bytes are.
    fn eq(&self, other: &Public) -> (r: bool) {
        bytes_equal(&self.bytes, &other.bytes)
    }
}

impl Eq for Public {

}

impl vstd::std_specs::cmp::PartialEqSpecImpl for Public {
    open spec fn obeys_eq_spec() -> bool {
        true
    }

    open spec fn eq_spec(&self, other: &Public) -> bool {
        self@ == other@
    }
}

/// A signature: a fixed-size cryptographic value whose only content is its
/// 64-byte inner array.  Its pass-by strategy is `ByInnerBytes`.
#[derive(Clone, Debug)]
pub struct Signature {
    bytes: Vec<u8>,
}

impl View for Signature {
    type V = Seq<u8>;

    closed spec fn view(&self) -> Seq<u8> {
        self.bytes@
    }
}

impl Signature {
    /// Well-formedness: the inner array has exactly its fixed size.
    pub open spec fn wf(&self) -> bool {
        self@.len() == SIGNATURE_BYTES as int
    }

    /// The one construction function: builds the value from its inner
    /// fixed-size byte array.
    pub fn from_inner(inner: Vec<u8>) -> (r: Signature)
        requires
            inner@.len() == SIGNATURE_BYTES as int,
        ensures
            r.wf(),
            r@ == inner@,
    {
        Signature { bytes: inner }
    }

    /// Borrows the inner fixed-size byte array.
    pub fn inner(&self) -> (r: &Vec<u8>)
        ensures
            r@ == self@,
    {
        &self.bytes
    }

    /// The one extraction function: consumes the value into its inner
    /// fixed-size byte array.
    pub fn into_inner(self) -> (r: Vec<u8>)
        ensures
            r@ == self@,
    {
        self.bytes
    }
}

impl PartialEq for Signature {
    /// Two signatures are equal exactly when their inner bytes are.
    fn eq(&self, other: &Signature) -> (r: bool) {
        bytes_equal(&self.bytes, &other.bytes)
    }
}

impl Eq for Signature {

}

impl vstd::std_specs::cmp::PartialEqSpecImpl for Signature {
    open spec fn obeys_eq_spec() -> bool {
        true
    }

    open spec fn eq_spec(&self, other: &Signature) -> bool {
        self@ == other@
    }
}

/// Places a public key into guest memory by its inner bytes and returns
/// the bare address: the `ByInnerBytes` path, with no codec envelope.
pub fn public_into_ffi<C: MemoryContext>(ctx: &mut C, v: &Public) -> (r: Result<u32, MarshalError>)
    requires
        old(ctx).inv(),
        v.wf(),
    ensures
        final(ctx).inv(),
        final(ctx).mem().len() == old(ctx).mem().len(),
        r matches Ok(ptr) ==> ptr as int + PUBLIC_BYTES as int <= final(ctx).mem().len()
            && final(ctx).mem().subrange(ptr as int, ptr as int + PUBLIC_BYTES as int) == v@,
        r is Err ==> final(ctx).mem() == old(ctx).mem(),
        r matches Err(e) ==> e == MarshalError::AllocationFailed,
        r is Ok <==> old(ctx).can_allocate(PUBLIC_BYTES as u32),
{
    host::fixed_into_ffi(ctx, v.inner())
}

/// Reconstructs a public key from the bare address of its inner bytes.
pub fn public_from_ffi<C: MemoryContext>(ctx: &C, ptr: u32) -> (r: Result<Public, MarshalError>)
    requires
        ctx.inv(),
    ensures
        r is Ok <==> ptr as int + PUBLIC_BYTES as int <= ctx.mem().len(),
        r matches Ok(p) ==> p.wf() && p@ == ctx.mem().subrange(
            ptr as int,
            ptr as int + PUBLIC_BYTES as int,
        ),
        r matches Err(e) ==> e == MarshalError::ReadFailed,
{
    match host::fixed_from_ffi(ctx, ptr, PUBLIC_BYTES as u32) {
        Ok(bytes) => Ok(Public::from_inner(bytes)),
        Err(e) => Err(e),
    }
}

/// The `ByInnerBytes` strategy loses nothing: a public key passed by its
/// inner bytes and reconstructed on the other side is equal to the
/// original, by the type's own equality.  Succeeds exactly when the
/// context admits the allocation.
pub fn public_round_trip<C: MemoryContext>(ctx: &mut C, v: &Public) -> (r: Result<
    Public,
    MarshalError,
>)
    requires
        old(ctx).inv(),
        v.wf(),
    ensures
        final(ctx).inv(),
        r matches Ok(p) ==> p.wf() && p@ == v@,
        r matches Err(e) ==> e == MarshalError::AllocationFailed,
        r is Ok <==> old(ctx).can_allocate(PUBLIC_BYTES as u32),
{
    let ptr = match public_into_ffi(ctx, v) {
        Ok(p) => p,
        Err(e) => {
            return Err(e);
        },
    };
    public_from_ffi(ctx, ptr)
}

/// Places a signature into guest memory by its inner bytes and returns the
/// bare address: the `ByInnerBytes` path, with no codec envelope.
pub fn signature_into_ffi<C: MemoryContext>(ctx: &mut C, v: &Signature) -> (r: Result<
    u32,
    MarshalError,
>)
    requires
        old(ctx).inv(),
        v.wf(),
    ensures
        final(ctx).inv(),
        final(ctx).mem().len() == old(ctx).mem().len(),
        r matches Ok(ptr) ==> ptr as int + SIGNATURE_BYTES as int <= final(ctx).mem().len()
            && final(ctx).mem().subrange(ptr as int, ptr as int + SIGNATURE_BYTES as int) == v@,
        r is Err ==> final(ctx).mem() == old(ctx).mem(),
        r matches Err(e) ==> e == MarshalError::AllocationFailed,
        r is Ok <==> old(ctx).can_allocate(SIGNATURE_BYTES as u32),
{
    host::fixed_into_ffi(ctx, v.inner())
}

/// Reconstructs a signature from the bare address of its inner bytes.
pub fn signature_from_ffi<C: MemoryContext>(ctx: &C, ptr: u32) -> (r: Result<
    Signature,
    MarshalError,
>)
    requires
        ctx.inv(),
    ensures
        r is Ok <==> ptr as int + SIGNATURE_BYTES as int <= ctx.mem().len(),
        r matches Ok(s) ==> s.wf() && s@ == ctx.mem().subrange(
            ptr as int,
            ptr as int + SIGNATURE_BYTES as int,
        ),
        r matches Err(e) ==> e == MarshalError::ReadFailed,
{
    match host::fixed_from_ffi(ctx, ptr, SIGNATURE_BYTES as u32) {
        Ok(bytes) => Ok(Signature::from_inner(bytes)),
        Err(e) => Err(e),
    }
}

/// The `ByInnerBytes` strategy loses nothing for signatures either: passed
/// by its inner bytes and reconstructed, a signature is equal to the
/// original by the type's own equality.  Succeeds exactly when the context
/// admits the allocation.
pub fn signature_round_trip<C: MemoryContext>(ctx: &mut C, v: &Signature) -> (r: Result<
    Signature,
    MarshalError,
>)
    requires
        old(ctx).inv(),
        v.wf(),
    ensures
        final(ctx).inv(),
        r matches Ok(s) ==> s.wf() && s@ == v@,
        r matches Err(e) ==> e == MarshalError::AllocationFailed,
        r is Ok <==> old(ctx).can_allocate(SIGNATURE_BYTES as u32),
{
    let ptr = match signature_into_ffi(ctx, v) {
        Ok(p) => p,
        Err(e) => {
            return Err(e);
        },
    };
    signature_from_ffi(ctx, ptr)
}

} // verus!
