//! A Schnorr signature scheme over either source group of the pairing. Its
//! key pairs double as the encryption key pairs of the PVSS scheme.
//!
//! A signature on a message is `(V, z)` with `V = g * v` for a fresh nonce
//! `v` and `z = v - sk * c`, where the challenge `c` hashes the message, the
//! generator and the commitment. Batch verification folds all verification
//! equations into one multi-scalar multiplication weighted by powers of a
//! random scalar.

use vstd::prelude::*;

use crate::curve::{
    EcGroup, Fr, fr_from_u64, fr_from_u64_s, fr_mul, fr_mul_s, fr_neg, fr_neg_s, fr_rand, fr_sub,
    fr_sub_s,
};
use crate::errors::SignatureError;
use crate::hashing::{extend_bytes, hash_to_field, hash_to_field_s};

verus! {

/// The SRS of the Schnorr scheme: one group generator.
#[derive(Clone, Copy, PartialEq)]
pub struct SRS<C: EcGroup> {
    /// The generator keys are stated over.
    pub g_public_key: C,
}

impl<C: EcGroup> SRS<C> {
    /// Sets the SRS to the group's fixed generator.
    pub fn setup() -> (r: Result<Self, SignatureError>)
        ensures
            r is Ok,
    {
        Ok(SRS { g_public_key: C::generator() })
    }

    /// Sets the SRS to a caller-chosen generator.
    pub fn from_generator(g: C) -> (r: Result<Self, SignatureError>)
        ensures
            r matches Ok(srs) && srs.g_public_key == g,
    {
        Ok(SRS { g_public_key: g })
    }
}

/// The persona separating Schnorr challenges from other hashes: `SCHSIGNA`.
pub open spec fn schnorr_persona_s() -> Seq<u8> {
    seq![83u8, 67u8, 72u8, 83u8, 73u8, 71u8, 78u8, 65u8]
}

fn schnorr_persona() -> (r: Vec<u8>)
    ensures
        r@ == schnorr_persona_s(),
{
    let v = vec![83u8, 67u8, 72u8, 83u8, 73u8, 71u8, 78u8, 65u8];
    proof {
        assert(v@ =~= schnorr_persona_s());
    }
    v
}

/// The challenge of a message and a nonce commitment: the hash of message,
/// generator and commitment under the scheme's persona.
pub open spec fn schnorr_challenge_s<C: EcGroup>(message: Seq<u8>, g: C, v_g: C) -> Fr {
    hash_to_field_s(schnorr_persona_s(), message + g.ser_s() + v_g.ser_s())
}

/// What an honestly generated signature under nonce `v` looks like.
pub open spec fn schnorr_sig_for_s<C: EcGroup>(g: C, sk: Fr, message: Seq<u8>, v: Fr, sig: (
    C,
    Fr,
)) -> bool {
    &&& sig.0 == g.mul_s(v)
    &&& sig.1 == fr_sub_s(v, fr_mul_s(sk, schnorr_challenge_s(message, g, sig.0)))
}

/// The verification equation: `g * z + pk * c` reproduces the commitment.
pub open spec fn schnorr_verifies_s<C: EcGroup>(g: C, pk: C, message: Seq<u8>, sig: (
    C,
    Fr,
)) -> bool {
    g.mul_s(sig.1).add_s(pk.mul_s(schnorr_challenge_s(message, g, sig.0))) == sig.0
}

/// The powers of the batching scalar: `alpha_pow_s(alpha, i) == alpha ^ i`.
pub open spec fn alpha_pow_s(alpha: Fr, i: int) -> Fr
    decreases i,
{
    if i <= 0 {
        fr_from_u64_s(1)
    } else {
        fr_mul_s(alpha_pow_s(alpha, i - 1), alpha)
    }
}

/// The bases of the batched verification equation: for each signature, the
/// generator, the public key, and the nonce commitment.
pub open spec fn batch_bases_s<C: EcGroup>(g: C, pks: Seq<C>, sigs: Seq<(C, Fr)>, i: int) -> Seq<C>
    decreases i,
{
    if i <= 0 {
        seq![]
    } else {
        batch_bases_s(g, pks, sigs, i - 1) + seq![g, pks[i - 1], sigs[i - 1].0]
    }
}

/// The scalars of the batched verification equation: the response, the
/// challenge, and minus one, each weighted by the `i`-th power of the
/// batching scalar.
pub open spec fn batch_scalars_s<C: EcGroup>(
    g: C,
    pks: Seq<C>,
    messages: Seq<Seq<u8>>,
    sigs: Seq<(C, Fr)>,
    alpha: Fr,
    i: int,
) -> Seq<Fr>
    decreases i,
{
    if i <= 0 {
        seq![]
    } else {
        batch_scalars_s(g, pks, messages, sigs, alpha, i - 1) + seq![
            fr_mul_s(sigs[i - 1].1, alpha_pow_s(alpha, i - 1)),
            fr_mul_s(
                schnorr_challenge_s(messages[i - 1], g, sigs[i - 1].0),
                alpha_pow_s(alpha, i - 1),
            ),
            fr_neg_s(alpha_pow_s(alpha, i - 1)),
        ]
    }
}

/// The views of a vector of messages.
pub open spec fn msg_views_s(messages: Seq<Vec<u8>>) -> Seq<Seq<u8>> {
    messages.map_values(|m: Vec<u8>| m@)
}

/// The Schnorr signature scheme over a group generator.
#[derive(Clone, Copy, PartialEq)]
pub struct SchnorrSignature<C: EcGroup> {
    /// The scheme's SRS.
    pub srs: SRS<C>,
}

impl<C: EcGroup> SchnorrSignature<C> {
    /// Builds the scheme from a given SRS.
    pub fn from_srs(srs: SRS<C>) -> (r: Result<Self, SignatureError>)
        ensures
            r matches Ok(s) && s.srs == srs,
    {
        Ok(SchnorrSignature { srs })
    }

    /// Samples a key pair.
    pub fn generate_keypair(&self) -> (r: Result<(Fr, C), SignatureError>)
        ensures
            r matches Ok(p) && p.1 == self.srs.g_public_key.mul_s(p.0),
    {
        let sk = fr_rand();
        Ok((sk, self.srs.g_public_key.mul_by(&sk)))
    }

    /// Computes the key pair of a given secret key.
    pub fn from_sk(&self, sk: &Fr) -> (r: Result<(Fr, C), SignatureError>)
        ensures
            r matches Ok(p) && (p.0 == *sk && p.1 == self.srs.g_public_key.mul_s(*sk)),
    {
        Ok((*sk, self.srs.g_public_key.mul_by(sk)))
    }

    /// The challenge of a message and a commitment under this SRS.
    fn challenge(&self, message: &[u8], v_g: &C) -> (c: Fr)
        ensures
            c == schnorr_challenge_s(message@, self.srs.g_public_key, *v_g),
    {
        let mut data: Vec<u8> = Vec::new();
        let mut i: usize = 0;
        while i < message.len()
            invariant
                i <= message@.len(),
                data@ == message@.take(i as int),
            decreases message@.len() - i,
        {
            data.push(message[i]);
            i = i + 1;
            proof {
                assert(message@.take(i as int) =~= message@.take(i as int - 1).push(
                    message@[i as int - 1],
                ));
            }
        }
        let gb = self.srs.g_public_key.to_bytes();
        extend_bytes(&mut data, &gb);
        let vb = v_g.to_bytes();
        extend_bytes(&mut data, &vb);
        proof {
            assert(message@.take(message@.len() as int) =~= message@);
            assert(data@ =~= message@ + self.srs.g_public_key.ser_s() + v_g.ser_s());
        }
        let persona = schnorr_persona();
        hash_to_field(&persona, &data)
    }

    /// Signs a message under a secret key.
    pub fn sign(&self, sk: &Fr, message: &[u8]) -> (r: Result<(C, Fr), SignatureError>)
        ensures
            r is Ok,
            exists|v: Fr|
                #[trigger] schnorr_sig_for_s(self.srs.g_public_key, *sk, message@, v, r->Ok_0),
    {
        let v = fr_rand();
        let v_g = self.srs.g_public_key.mul_by(&v);
        let c = self.challenge(message, &v_g);
        let skc = fr_mul(sk, &c);
        let z = fr_sub(&v, &skc);
        let result: Result<(C, Fr), SignatureError> = Ok((v_g, z));
        proof {
            assert(schnorr_sig_for_s(self.srs.g_public_key, *sk, message@, v, (v_g, z)));
            assert(result->Ok_0 == (v_g, z));
            assert(exists|n: Fr|
                #[trigger] schnorr_sig_for_s(
                    self.srs.g_public_key,
                    *sk,
                    message@,
                    n,
                    result->Ok_0,
                ));
        }
        result
    }

    /// Verifies a signature on a message against a public key: accepts
    /// exactly when the verification equation holds.
    pub fn verify(&self, pk: &C, message: &[u8], signature: &(C, Fr)) -> (r: Result<
        (),
        SignatureError,
    >)
        ensures
            r is Ok <==> schnorr_verifies_s(self.srs.g_public_key, *pk, message@, *signature),
            r matches Err(e) ==> e == SignatureError::SchnorrVerify,
    {
        let c = self.challenge(message, &signature.0);
        let gz = self.srs.g_public_key.mul_by(&signature.1);
        let pkc = pk.mul_by(&c);
        let check = gz.add_to(&pkc);
        if check.equals(&signature.0) {
            Ok(())
        } else {
            Err(SignatureError::SchnorrVerify)
        }
    }

    /// Batch verification against a caller-supplied batching scalar:
    /// accepts exactly when the inputs agree in length and the accumulated
    /// multi-scalar multiplication vanishes.
    pub fn batch_verify_with(
        &self,
        alpha: &Fr,
        public_keys: &Vec<C>,
        messages: &Vec<Vec<u8>>,
        signatures: &Vec<(C, Fr)>,
    ) -> (r: Result<(), SignatureError>)
        ensures
            r is Ok <==> ((public_keys@.len() == messages@.len() && public_keys@.len()
                == signatures@.len()) && C::msm_s(
                batch_bases_s(
                    self.srs.g_public_key,
                    public_keys@,
                    signatures@,
                    public_keys@.len() as int,
                ),
                batch_scalars_s(
                    self.srs.g_public_key,
                    public_keys@,
                    msg_views_s(messages@),
                    signatures@,
                    *alpha,
                    public_keys@.len() as int,
                ),
            ).is_id_s()),
            r matches Err(e) ==> e == (if public_keys@.len() != messages@.len()
                || public_keys@.len() != signatures@.len() {
                SignatureError::BatchVerification(
                    public_keys@.len() as usize,
                    messages@.len() as usize,
                    signatures@.len() as usize,
                )
            } else {
                SignatureError::SchnorrVerify
            }),
    {
        if public_keys.len() != messages.len() || public_keys.len() != signatures.len() {
            return Err(
                SignatureError::BatchVerification(
                    public_keys.len(),
                    messages.len(),
                    signatures.len(),
                ),
            );
        }
        let ghost msgs = msg_views_s(messages@);
        let mut bases: Vec<C> = Vec::new();
        let mut scalars: Vec<Fr> = Vec::new();
        let mut current_alpha = fr_from_u64(1);
        let mut i: usize = 0;
        while i < public_keys.len()
            invariant
                i <= public_keys@.len(),
                messages@.len() == public_keys@.len(),
                signatures@.len() == public_keys@.len(),
                msgs == msg_views_s(messages@),
                current_alpha == alpha_pow_s(*alpha, i as int),
                bases@.len() == 3 * i,
                scalars@.len() == 3 * i,
                bases@ == batch_bases_s(self.srs.g_public_key, public_keys@, signatures@, i as int),
                scalars@ == batch_scalars_s(
                    self.srs.g_public_key,
                    public_keys@,
                    msgs,
                    signatures@,
                    *alpha,
                    i as int,
                ),
            decreases public_keys@.len() - i,
        {
            let c = self.challenge(messages[i].as_slice(), &signatures[i].0);
            proof {
                assert(msgs[i as int] == messages@[i as int]@);
            }
            bases.push(self.srs.g_public_key);
            scalars.push(fr_mul(&signatures[i].1, &current_alpha));
            bases.push(public_keys[i]);
            scalars.push(fr_mul(&c, &current_alpha));
            bases.push(signatures[i].0);
            scalars.push(fr_neg(&current_alpha));
            current_alpha = fr_mul(&current_alpha, alpha);
            i = i + 1;
            proof {
                assert(bases@ =~= batch_bases_s(
                    self.srs.g_public_key,
                    public_keys@,
                    signatures@,
                    i as int,
                ));
                assert(scalars@ =~= batch_scalars_s(
                    self.srs.g_public_key,
                    public_keys@,
                    msgs,
                    signatures@,
                    *alpha,
                    i as int,
                ));
            }
        }
        let acc = C::msm(&bases, &scalars);
        if acc.is_identity() {
            Ok(())
        } else {
            Err(SignatureError::SchnorrVerify)
        }
    }

    /// Batch verification: samples a random batching scalar and accepts
    /// exactly when the accumulated multi-scalar multiplication under it
    /// vanishes. Every batch of individually valid signatures passes; an
    /// invalid batch escapes only with negligible probability over the
    /// scalar.
    pub fn batch_verify(
        &self,
        public_keys: &Vec<C>,
        messages: &Vec<Vec<u8>>,
        signatures: &Vec<(C, Fr)>,
    ) -> (r: Result<(), SignatureError>)
        ensures
            (public_keys@.len() != messages@.len() || public_keys@.len() != signatures@.len())
                <==> r == Err::<(), SignatureError>(
                SignatureError::BatchVerification(
                    public_keys@.len() as usize,
                    messages@.len() as usize,
                    signatures@.len() as usize,
                ),
            ),
            r is Ok ==> exists|alpha: Fr|
                (#[trigger] C::msm_s(
                    batch_bases_s(
                        self.srs.g_public_key,
                        public_keys@,
                        signatures@,
                        public_keys@.len() as int,
                    ),
                    batch_scalars_s(
                        self.srs.g_public_key,
                        public_keys@,
                        msg_views_s(messages@),
                        signatures@,
                        alpha,
                        public_keys@.len() as int,
                    ),
                )).is_id_s(),
    {
        if public_keys.len() != messages.len() || public_keys.len() != signatures.len() {
            return Err(
                SignatureError::BatchVerification(
                    public_keys.len(),
                    messages.len(),
                    signatures.len(),
                ),
            );
        }
        let alpha = fr_rand();
        let r = self.batch_verify_with(&alpha, public_keys, messages, signatures);
        proof {
            if r is Ok {
                assert((C::msm_s(
                    batch_bases_s(
                        self.srs.g_public_key,
                        public_keys@,
                        signatures@,
                        public_keys@.len() as int,
                    ),
                    batch_scalars_s(
                        self.srs.g_public_key,
                        public_keys@,
                        msg_views_s(messages@),
                        signatures@,
                        alpha,
                        public_keys@.len() as int,
                    ),
                )).is_id_s());
            }
        }
        r
    }
}

} // verus!
