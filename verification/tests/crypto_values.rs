use runtime_interface::memory::LinearMemory;
use runtime_interface::pass_by::{
    public_from_ffi, public_into_ffi, public_round_trip, signature_from_ffi, signature_into_ffi,
    signature_round_trip, Public, Signature,
};

#[test]
fn public_key_inner_accessors() {
    let p = Public::from_inner(vec![5; 32]);
    assert_eq!(p.inner(), &vec![5; 32]);
    assert_eq!(p.into_inner(), vec![5; 32]);
}

#[test]
fn signature_inner_accessors() {
    let s = Signature::from_inner(vec![7; 64]);
    assert_eq!(s.inner(), &vec![7; 64]);
    assert_eq!(s.into_inner(), vec![7; 64]);
}

#[test]
fn public_key_equality_is_by_inner_bytes() {
    let a = Public::from_inner(vec![1; 32]);
    let b = Public::from_inner(vec![1; 32]);
    let c = Public::from_inner(vec![2; 32]);
    assert_eq!(a, b);
    assert_ne!(a, c);
}

#[test]
fn all_zero_public_key_round_trips_by_inner_bytes() {
    let mut m = LinearMemory::new(128);
    let p = Public::from_inner(vec![0x00; 32]);
    assert_eq!(public_round_trip(&mut m, &p), Ok(Public::from_inner(vec![0x00; 32])));
}

#[test]
fn all_ones_public_key_round_trips_by_inner_bytes() {
    let mut m = LinearMemory::new(128);
    let p = Public::from_inner(vec![0xFF; 32]);
    let ptr = public_into_ffi(&mut m, &p).unwrap();
    // no codec framing: guest memory holds the inner bytes themselves
    assert_eq!(m.read_at(ptr, 32), Ok(vec![0xFF; 32]));
    assert_eq!(public_from_ffi(&m, ptr), Ok(p));
}

#[test]
fn all_zero_signature_round_trips_by_inner_bytes() {
    let mut m = LinearMemory::new(128);
    let s = Signature::from_inner(vec![0x00; 64]);
    assert_eq!(signature_round_trip(&mut m, &s), Ok(Signature::from_inner(vec![0x00; 64])));
}

#[test]
fn all_ones_signature_round_trips_by_inner_bytes() {
    let mut m = LinearMemory::new(128);
    let s = Signature::from_inner(vec![0xFF; 64]);
    let ptr = signature_into_ffi(&mut m, &s).unwrap();
    assert_eq!(m.read_at(ptr, 64), Ok(vec![0xFF; 64]));
    assert_eq!(signature_from_ffi(&m, ptr), Ok(s));
}
