//! Hashing into bytes and into the scalar field.
//!
//! SHAKE256 does the byte-level work; a hash into the field is the 64-byte
//! extendable output reduced modulo the field order. Domain separation is by
//! persona prefix.

use vstd::prelude::*;

use crate::curve::Fr;

verus! {

/// What the SHAKE256 extendable-output function returns at a given output
/// length.
pub uninterp spec fn shake256_s(data: Seq<u8>, out_len: usize) -> Seq<u8>;

/// What reducing little-endian bytes modulo the field order returns.
pub uninterp spec fn fr_from_le_bytes_s(bytes: Seq<u8>) -> Fr;

/// Relies on `sha3::Shake256`: the extendable output depends on the input
/// bytes and the output length alone, and fills the whole output buffer.
#[verifier::external_body]
pub fn shake256(data: &Vec<u8>, out_len: usize) -> (r: Vec<u8>)
    ensures
        r@ == shake256_s(data@, out_len),
        r@.len() == out_len,
{
    let mut hasher = sha3::Shake256::default();
    sha3::digest::Update::update(&mut hasher, &data[..]);
    let mut reader = sha3::digest::ExtendableOutput::finalize_xof(hasher);
    let mut out = vec![0u8; out_len];
    sha3::digest::XofReader::read(&mut reader, &mut out);
    out
}

/// Relies on `PrimeField::from_le_bytes_mod_order`: the reduced field
/// element depends on the bytes alone.
#[verifier::external_body]
pub fn fr_from_le_bytes(bytes: &Vec<u8>) -> (r: Fr)
    ensures
        r == fr_from_le_bytes_s(bytes@),
{
    <Fr as ark_ff::PrimeField>::from_le_bytes_mod_order(&bytes[..])
}

/// Appends a copy of `src` to `dst`.
pub fn extend_bytes(dst: &mut Vec<u8>, src: &Vec<u8>)
    ensures
        final(dst)@ == old(dst)@ + src@,
{
    let mut i: usize = 0;
    while i < src.len()
        invariant
            i <= src@.len(),
            dst@ == old(dst)@ + src@.take(i as int),
        decreases src@.len() - i,
    {
        dst.push(src[i]);
        i = i + 1;
        proof {
            assert(src@.take(i as int) =~= src@.take(i as int - 1).push(src@[i as int - 1]));
        }
    }
    proof {
        assert(src@.take(src@.len() as int) =~= src@);
    }
}

/// What a hash into the scalar field is: the 64-byte SHAKE256 output of the
/// persona followed by the message, reduced modulo the field order.
pub open spec fn hash_to_field_s(persona: Seq<u8>, message: Seq<u8>) -> Fr {
    fr_from_le_bytes_s(shake256_s(persona + message, 64))
}

/// Hashes a persona-separated message into the scalar field.
pub fn hash_to_field(persona: &Vec<u8>, message: &Vec<u8>) -> (r: Fr)
    ensures
        r == hash_to_field_s(persona@, message@),
{
    let mut data: Vec<u8> = Vec::new();
    extend_bytes(&mut data, persona);
    extend_bytes(&mut data, message);
    proof {
        assert(data@ =~= persona@ + message@);
    }
    let digest = shake256(&data, 64);
    fr_from_le_bytes(&digest)
}

} // verus!
