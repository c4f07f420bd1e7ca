//! A Fiat-Shamir NIZK of knowledge of discrete logarithm (DLK), over either
//! source group of the pairing.
//!
//! Statement `Y = g * w`; the prover samples a nonce `r`, commits `R = g * r`,
//! derives the challenge `c` by hashing the generator and the commitment
//! under the scheme's persona, and responds with `z = r - w * c`. The
//! verifier recomputes the challenge and accepts exactly when
//! `g * z + Y * c == R` and the supplied challenge matches.

use vstd::prelude::*;

use crate::curve::{EcGroup, Fr, fr_eq, fr_mul, fr_mul_s, fr_rand, fr_sub, fr_sub_s};
use crate::errors::NIZKError;
use crate::hashing::{extend_bytes, hash_to_field, hash_to_field_s};

verus! {

/// The SRS of the DLK proof system: one group generator.
#[derive(Clone, Copy, PartialEq)]
pub struct SRS<C: EcGroup> {
    /// The generator the statements are stated over.
    pub g_public_key: C,
}

impl<C: EcGroup> SRS<C> {
    /// Sets the SRS to the group's fixed generator.
    pub fn setup() -> (r: Result<Self, NIZKError>)
        ensures
            r is Ok,
    {
        Ok(SRS { g_public_key: C::generator() })
    }
}

/// The persona separating DLK challenges from other hashes: `DLKNIZK`.
pub open spec fn dlk_persona_s() -> Seq<u8> {
    seq![68u8, 76u8, 75u8, 78u8, 73u8, 90u8, 75u8]
}

fn dlk_persona() -> (r: Vec<u8>)
    ensures
        r@ == dlk_persona_s(),
{
    let v = vec![68u8, 76u8, 75u8, 78u8, 73u8, 90u8, 75u8];
    proof {
        assert(v@ =~= dlk_persona_s());
    }
    v
}

/// The Fiat-Shamir challenge of a DLK round: the hash of the generator and
/// the nonce commitment.
pub open spec fn dlk_challenge_s<C: EcGroup>(g: C, g_r: C) -> Fr {
    hash_to_field_s(dlk_persona_s(), g.ser_s() + g_r.ser_s())
}

/// What an honestly generated proof for witness `w` under nonce `nonce`
/// looks like: the commitment, the challenge, and the response.
pub open spec fn dlk_proof_for_s<C: EcGroup>(g: C, w: Fr, nonce: Fr, p: (C, Fr, Fr)) -> bool {
    &&& p.0 == g.mul_s(nonce)
    &&& p.1 == dlk_challenge_s(g, p.0)
    &&& p.2 == fr_sub_s(nonce, fr_mul_s(w, p.1))
}

/// The verification equation: the recomputed challenge matches the supplied
/// one, and `g * z + Y * c` reproduces the commitment.
pub open spec fn dlk_verifies_s<C: EcGroup>(g: C, stmnt: C, p: (C, Fr, Fr)) -> bool {
    &&& p.1 == dlk_challenge_s(g, p.0)
    &&& g.mul_s(p.2).add_s(stmnt.mul_s(dlk_challenge_s(g, p.0))) == p.0
}

/// The DLK proof system over a group generator.
#[derive(Clone, Copy, PartialEq)]
pub struct DLKProof<C: EcGroup> {
    /// The scheme's SRS.
    pub srs: SRS<C>,
}

impl<C: EcGroup> DLKProof<C> {
    /// Builds the proof system from a given SRS.
    pub fn from_srs(srs: SRS<C>) -> (r: Result<Self, NIZKError>)
        ensures
            r matches Ok(p) && p.srs == srs,
    {
        Ok(DLKProof { srs })
    }

    /// Samples a witness and computes its statement.
    pub fn generate_pair(&self) -> (r: Result<(Fr, C), NIZKError>)
        ensures
            r matches Ok(p) && p.1 == self.srs.g_public_key.mul_s(p.0),
    {
        let w = fr_rand();
        Ok((w, self.srs.g_public_key.mul_by(&w)))
    }

    /// Computes the statement of a given witness.
    pub fn from_witness(&self, w: &Fr) -> (r: Result<(Fr, C), NIZKError>)
        ensures
            r matches Ok(p) && (p.0 == *w && p.1 == self.srs.g_public_key.mul_s(*w)),
    {
        Ok((*w, self.srs.g_public_key.mul_by(w)))
    }

    /// The challenge of a commitment under this SRS.
    fn challenge(&self, g_r: &C) -> (c: Fr)
        ensures
            c == dlk_challenge_s(self.srs.g_public_key, *g_r),
    {
        let mut data = self.srs.g_public_key.to_bytes();
        let r_bytes = g_r.to_bytes();
        extend_bytes(&mut data, &r_bytes);
        proof {
            assert(data@ =~= self.srs.g_public_key.ser_s() + g_r.ser_s());
        }
        let persona = dlk_persona();
        hash_to_field(&persona, &data)
    }

    /// Proves knowledge of the discrete logarithm `w`.
    pub fn prove(&self, w: &Fr) -> (r: Result<(C, Fr, Fr), NIZKError>)
        ensures
            r is Ok,
            exists|nonce: Fr|
                #[trigger] dlk_proof_for_s(self.srs.g_public_key, *w, nonce, r->Ok_0),
    {
        let nonce = fr_rand();
        let g_r = self.srs.g_public_key.mul_by(&nonce);
        let c = self.challenge(&g_r);
        let wc = fr_mul(w, &c);
        let z = fr_sub(&nonce, &wc);
        let result: Result<(C, Fr, Fr), NIZKError> = Ok((g_r, c, z));
        proof {
            assert(dlk_proof_for_s(self.srs.g_public_key, *w, nonce, (g_r, c, z)));
            assert(result->Ok_0 == (g_r, c, z));
            assert(exists|n: Fr|
                #[trigger] dlk_proof_for_s(self.srs.g_public_key, *w, n, result->Ok_0));
        }
        result
    }

    /// Verifies a proof against a statement: accepts exactly when the
    /// verification equation holds.
    pub fn verify(&self, stmnt: &C, proof: &(C, Fr, Fr)) -> (r: Result<(), NIZKError>)
        ensures
            r is Ok <==> dlk_verifies_s(self.srs.g_public_key, *stmnt, *proof),
            r matches Err(e) ==> e == NIZKError::DLKVerify,
    {
        let c = self.challenge(&proof.0);
        let gz = self.srs.g_public_key.mul_by(&proof.2);
        let yc = stmnt.mul_by(&c);
        let check = gz.add_to(&yc);
        if check.equals(&proof.0) && fr_eq(&c, &proof.1) {
            Ok(())
        } else {
            Err(NIZKError::DLKVerify)
        }
    }
}

} // verus!
