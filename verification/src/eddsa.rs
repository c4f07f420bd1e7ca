//! The attestation layer: Ed25519 keys, signatures over 32-byte digests,
//! and base64 text encodings of all three.
//!
//! Verification keys are 32 bytes, signing keys 64 bytes (seed followed by
//! the public key), signatures 64 bytes split in two halves. Signing and
//! verification are reached through trusted wrappers around the
//! `ed25519_dalek` crate; both are deterministic, so their results carry
//! names that the contracts of the protocol layer reuse.

use vstd::prelude::*;

use crate::errors::CryptoError;

verus! {

/// A 32-byte message digest.
#[derive(Clone, Copy, PartialEq, Eq, Debug)]
pub struct Digest(pub [u8; 32]);

impl View for Digest {
    type V = Seq<u8>;

    open spec fn view(&self) -> Seq<u8> {
        self.0@
    }
}

/// Something that can be digested into 32 bytes.
pub trait Hash {
    fn digest(&self) -> Digest;
}

/// An Ed25519 verification key.
#[derive(Clone, Copy, PartialEq, Eq, Debug)]
pub struct PublicKey(pub [u8; 32]);

impl View for PublicKey {
    type V = Seq<u8>;

    open spec fn view(&self) -> Seq<u8> {
        self.0@
    }
}

/// An Ed25519 signing key: the 32-byte seed followed by the 32-byte
/// verification key. Exclusively owned by its dealer.
pub struct SecretKey([u8; 64]);

impl Clone for SecretKey {
    fn clone(&self) -> (r: Self)
        ensures
            r@ == self@,
    {
        SecretKey(self.0)
    }
}

impl View for SecretKey {
    type V = Seq<u8>;

    closed spec fn view(&self) -> Seq<u8> {
        self.0@
    }
}

/// An Ed25519 signature, split into its two 32-byte halves.
#[derive(Clone, Copy, PartialEq, Eq, Debug)]
pub struct Signature {
    part1: [u8; 32],
    part2: [u8; 32],
}

impl View for Signature {
    type V = Seq<u8>;

    closed spec fn view(&self) -> Seq<u8> {
        self.part1@ + self.part2@
    }
}

/// Copies a byte array into a vector.
pub fn bytes_of<const N: usize>(a: &[u8; N]) -> (r: Vec<u8>)
    ensures
        r@ == a@,
{
    let mut v: Vec<u8> = Vec::new();
    let mut i: usize = 0;
    while i < N
        invariant
            i <= N,
            v@ == a@.take(i as int),
        decreases N - i,
    {
        v.push(a[i]);
        i = i + 1;
        proof {
            assert(a@.take(i as int) =~= a@.take(i as int - 1).push(a@[i as int - 1]));
        }
    }
    proof {
        assert(a@.take(N as int) =~= a@);
    }
    v
}

impl Digest {
    /// The digest as a byte vector.
    pub fn to_vec(&self) -> (r: Vec<u8>)
        ensures
            r@ == self@,
    {
        bytes_of(&self.0)
    }

    /// The size of the digest in bytes.
    pub fn size(&self) -> (r: usize)
        ensures
            r == self@.len(),
    {
        32
    }
}

/// Whether 64 signing-key bytes load as an Ed25519 keypair. Relies on
/// `Keypair::from_bytes`: acceptance depends on the bytes alone.
pub uninterp spec fn ed_keypair_ok_s(sk: Seq<u8>) -> bool;

/// What signing a message under a signing key returns. Relies on Ed25519
/// signing being deterministic in the key and the message.
pub uninterp spec fn ed_sign_s(sk: Seq<u8>, msg: Seq<u8>) -> Seq<u8>;

/// Whether a signature verifies under a verification key and message.
/// Relies on `PublicKey::verify_strict`: the outcome depends on the three
/// inputs alone; malformed keys or signatures never verify.
pub uninterp spec fn ed_verify_s(pk: Seq<u8>, msg: Seq<u8>, sig: Seq<u8>) -> bool;

/// What the base64 encoding of bytes is.
pub uninterp spec fn b64_encode_s(bytes: Seq<u8>) -> Seq<char>;

/// What base64 decoding of text returns, or that the text is rejected.
pub uninterp spec fn b64_decode_s(text: Seq<char>) -> Option<Seq<u8>>;

/// Relies on `SecretKey::generate`-equivalent construction: a fresh seed
/// from a cryptographic RNG, expanded by `ed25519_dalek` into a keypair
/// whose 64 bytes always load back (`Keypair::from_bytes` accepts them).
#[verifier::external_body]
pub fn generate_keypair() -> (r: (PublicKey, SecretKey))
    ensures
        ed_keypair_ok_s(r.1@),
{
    let mut seed = [0u8; 32];
    rand::RngCore::fill_bytes(&mut rand::thread_rng(), &mut seed);
    let secret = ed25519_dalek::SecretKey::from_bytes(&seed).expect("seed length is fixed");
    let public = ed25519_dalek::PublicKey::from(&secret);
    let mut sk = [0u8; 64];
    sk[..32].copy_from_slice(&seed);
    sk[32..].copy_from_slice(&public.to_bytes());
    (PublicKey(public.to_bytes()), SecretKey(sk))
}

/// Generates a production keypair from the process RNG.
pub fn generate_production_keypair() -> (r: (PublicKey, SecretKey))
    ensures
        ed_keypair_ok_s(r.1@),
{
    generate_keypair()
}

/// Relies on `Keypair::from_bytes` and `Signer::sign`: loading succeeds
/// exactly on well-formed keypair bytes, and the signature is a function
/// of the keypair bytes and the message.
#[verifier::external_body]
fn ed_sign(sk: &SecretKey, msg: &Digest) -> (r: Option<Signature>)
    ensures
        r is Some <==> ed_keypair_ok_s(sk@),
        r matches Some(sig) ==> sig@ == ed_sign_s(sk@, msg@),
{
    match ed25519_dalek::Keypair::from_bytes(&sk.0) {
        Ok(keypair) => {
            let sig = ed25519_dalek::Signer::sign(&keypair, &msg.0).to_bytes();
            let mut part1 = [0u8; 32];
            let mut part2 = [0u8; 32];
            part1.copy_from_slice(&sig[..32]);
            part2.copy_from_slice(&sig[32..]);
            Some(Signature { part1, part2 })
        },
        Err(_) => None,
    }
}

/// Relies on `PublicKey::from_bytes` and `verify_strict`: the outcome is a
/// function of key bytes, message and signature bytes; parse failures of
/// the key or the signature count as rejection.
#[verifier::external_body]
fn ed_verify(pk: &PublicKey, msg: &Digest, sig: &Signature) -> (r: bool)
    ensures
        r == ed_verify_s(pk@, msg@, sig@),
{
    let mut flat = [0u8; 64];
    flat[..32].copy_from_slice(&sig.part1);
    flat[32..].copy_from_slice(&sig.part2);
    let signature = match ed25519_dalek::ed25519::Signature::from_bytes(&flat) {
        Ok(s) => s,
        Err(_) => return false,
    };
    let key = match ed25519_dalek::PublicKey::from_bytes(&pk.0) {
        Ok(k) => k,
        Err(_) => return false,
    };
    key.verify_strict(&msg.0, &signature).is_ok()
}

/// Relies on `base64::encode`: the text depends on the bytes alone.
#[verifier::external_body]
fn b64_encode(bytes: &Vec<u8>) -> (r: String)
    ensures
        r@ == b64_encode_s(bytes@),
{
    base64::encode(&bytes[..])
}

/// Relies on `base64::decode`: acceptance and the decoded bytes depend on
/// the text alone.
#[verifier::external_body]
fn b64_decode(text: &str) -> (r: Option<Vec<u8>>)
    ensures
        r matches Some(v) ==> b64_decode_s(text@) == Some(v@),
        r is None ==> b64_decode_s(text@) is None,
{
    match base64::decode(text) {
        Ok(v) => Some(v),
        Err(_) => None,
    }
}

impl PublicKey {
    /// The key as base64 text.
    pub fn to_base64(&self) -> (r: String)
        ensures
            r@ == b64_encode_s(self@),
    {
        let v = bytes_of(&self.0);
        b64_encode(&v)
    }

    /// Reads a key back from base64 text: the first 32 decoded bytes.
    pub fn from_base64(s: &str) -> (r: Result<Self, CryptoError>)
        ensures
            r is Ok <==> (b64_decode_s(s@) matches Some(b) && b.len() >= 32),
            r matches Ok(pk) ==> (b64_decode_s(s@) matches Some(b) && pk@ == b.take(32)),
            r matches Err(e) ==> e == CryptoError::DecodeError,
    {
        let bytes = match b64_decode(s) {
            Some(b) => b,
            None => {
                return Err(CryptoError::DecodeError);
            },
        };
        if bytes.len() < 32 {
            return Err(CryptoError::DecodeError);
        }
        let mut arr = [0u8; 32];
        let mut i: usize = 0;
        while i < 32
            invariant
                i <= 32,
                bytes@.len() >= 32,
                arr@.take(i as int) == bytes@.take(i as int),
            decreases 32 - i,
        {
            arr[i] = bytes[i];
            i = i + 1;
        }
        proof {
            assert(arr@ =~= bytes@.take(32));
        }
        Ok(PublicKey(arr))
    }
}

impl SecretKey {
    /// The key as base64 text.
    pub fn to_base64(&self) -> (r: String)
        ensures
            r@ == b64_encode_s(self@),
    {
        let v = bytes_of(&self.0);
        b64_encode(&v)
    }

    /// Reads a key back from base64 text: the first 64 decoded bytes.
    pub fn from_base64(s: &str) -> (r: Result<Self, CryptoError>)
        ensures
            r is Ok <==> (b64_decode_s(s@) matches Some(b) && b.len() >= 64),
            r matches Ok(sk) ==> (b64_decode_s(s@) matches Some(b) && sk@ == b.take(64)),
            r matches Err(e) ==> e == CryptoError::DecodeError,
    {
        let bytes = match b64_decode(s) {
            Some(b) => b,
            None => {
                return Err(CryptoError::DecodeError);
            },
        };
        if bytes.len() < 64 {
            return Err(CryptoError::DecodeError);
        }
        let mut arr = [0u8; 64];
        let mut i: usize = 0;
        while i < 64
            invariant
                i <= 64,
                bytes@.len() >= 64,
                arr@.take(i as int) == bytes@.take(i as int),
            decreases 64 - i,
        {
            arr[i] = bytes[i];
            i = i + 1;
        }
        proof {
            assert(arr@ =~= bytes@.take(64));
        }
        Ok(SecretKey(arr))
    }
}

impl Signature {
    /// Signs a digest. Returns `None` exactly when the signing-key bytes
    /// do not load as a keypair; keys from `generate_keypair` always do.
    pub fn new(digest: &Digest, secret: &SecretKey) -> (r: Option<Signature>)
        ensures
            r is Some <==> ed_keypair_ok_s(secret@),
            r matches Some(sig) ==> sig@ == ed_sign_s(secret@, digest@),
    {
        ed_sign(secret, digest)
    }

    /// The signature as one 64-byte array.
    pub fn flatten(&self) -> (r: [u8; 64])
        ensures
            r@ == self@,
    {
        let mut flat = [0u8; 64];
        let mut i: usize = 0;
        while i < 32
            invariant
                i <= 32,
                flat@.take(i as int) == self.part1@.take(i as int),
                flat@.len() == 64,
            decreases 32 - i,
        {
            flat[i] = self.part1[i];
            i = i + 1;
        }
        proof {
            assert(self.part1@.take(32) =~= self.part1@);
        }
        let mut j: usize = 0;
        while j < 32
            invariant
                j <= 32,
                flat@.take(32) == self.part1@,
                flat@.len() == 64,
                flat@.subrange(32, 32 + j as int) == self.part2@.take(j as int),
            decreases 32 - j,
        {
            flat[32 + j] = self.part2[j];
            j = j + 1;
        }
        proof {
            assert(self.part2@.take(32) =~= self.part2@);
            assert(flat@ =~= flat@.take(32) + flat@.subrange(32, 64));
        }
        flat
    }

    /// Verifies the signature on a digest under a verification key.
    pub fn verify(&self, digest: &Digest, public_key: &PublicKey) -> (r: Result<(), CryptoError>)
        ensures
            r is Ok <==> ed_verify_s(public_key@, digest@, self@),
            r matches Err(e) ==> e == CryptoError::InvalidSignature,
    {
        if ed_verify(public_key, digest, self) {
            Ok(())
        } else {
            Err(CryptoError::InvalidSignature)
        }
    }

    /// Verifies one digest against many key-and-signature votes: accepts
    /// exactly when every vote verifies individually.
    pub fn verify_batch(digest: &Digest, votes: &Vec<(PublicKey, Signature)>) -> (r: Result<
        (),
        CryptoError,
    >)
        ensures
            r is Ok <==> (forall|i: int|
                0 <= i < votes@.len() ==> ed_verify_s(votes@[i].0@, digest@, votes@[i].1@)),
            r matches Err(e) ==> e == CryptoError::InvalidSignature,
    {
        let mut i: usize = 0;
        while i < votes.len()
            invariant
                i <= votes@.len(),
                forall|k: int| 0 <= k < i ==> ed_verify_s(votes@[k].0@, digest@, votes@[k].1@),
            decreases votes@.len() - i,
        {
            if !ed_verify(&votes[i].0, digest, &votes[i].1) {
                return Err(CryptoError::InvalidSignature);
            }
            i = i + 1;
        }
        Ok(())
    }

    /// The signature as base64 text.
    pub fn to_base64(&self) -> (r: String)
        ensures
            r@ == b64_encode_s(self@),
    {
        let flat = self.flatten();
        let v = bytes_of(&flat);
        b64_encode(&v)
    }
}

} // verus!
