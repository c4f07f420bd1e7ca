//! A Fiat-Shamir NIZK of discrete-logarithm equality (DLEQ) across two
//! groups that share a scalar field.
//!
//! Statement `(Y1 = g * w, Y2 = h * w)`; the prover commits to one nonce in
//! both groups, derives the challenge by hashing both generators, both
//! statement halves and both commitments, and responds with `z = r - w * c`.
//! The verifier checks the equation in each group and that the supplied
//! challenge matches.

use vstd::prelude::*;

use crate::curve::{EcGroup, Fr, fr_eq, fr_mul, fr_mul_s, fr_rand, fr_sub, fr_sub_s};
use crate::errors::NIZKError;
use crate::hashing::{extend_bytes, hash_to_field, hash_to_field_s};

verus! {

/// The SRS of the DLEQ proof system: one generator per group.
#[derive(Clone, Copy, PartialEq)]
pub struct SRS<C1: EcGroup, C2: EcGroup> {
    /// The generator of the first group.
    pub g_public_key: C1,
    /// The generator of the second group.
    pub h_public_key: C2,
}

impl<C1: EcGroup, C2: EcGroup> SRS<C1, C2> {
    /// Sets the SRS to the two groups' fixed generators.
    pub fn setup() -> (r: Result<Self, NIZKError>)
        ensures
            r is Ok,
    {
        Ok(SRS { g_public_key: C1::generator(), h_public_key: C2::generator() })
    }
}

/// The persona separating DLEQ challenges from other hashes: `DLEQNIZK`.
pub open spec fn dleq_persona_s() -> Seq<u8> {
    seq![68u8, 76u8, 69u8, 81u8, 78u8, 73u8, 90u8, 75u8]
}

fn dleq_persona() -> (r: Vec<u8>)
    ensures
        r@ == dleq_persona_s(),
{
    let v = vec![68u8, 76u8, 69u8, 81u8, 78u8, 73u8, 90u8, 75u8];
    proof {
        assert(v@ =~= dleq_persona_s());
    }
    v
}

/// The Fiat-Shamir challenge of a DLEQ round: the hash of both generators,
/// both statement halves, and both nonce commitments.
pub open spec fn dleq_challenge_s<C1: EcGroup, C2: EcGroup>(
    g: C1,
    h: C2,
    s1: C1,
    s2: C2,
    r1: C1,
    r2: C2,
) -> Fr {
    hash_to_field_s(
        dleq_persona_s(),
        g.ser_s() + s1.ser_s() + h.ser_s() + s2.ser_s() + r1.ser_s() + r2.ser_s(),
    )
}

/// What an honestly generated DLEQ proof for witness `w` under nonce
/// `nonce` looks like.
pub open spec fn dleq_proof_for_s<C1: EcGroup, C2: EcGroup>(
    g: C1,
    h: C2,
    w: Fr,
    nonce: Fr,
    p: ((C1, C2), Fr, Fr),
) -> bool {
    &&& p.0.0 == g.mul_s(nonce)
    &&& p.0.1 == h.mul_s(nonce)
    &&& p.1 == dleq_challenge_s(g, h, g.mul_s(w), h.mul_s(w), p.0.0, p.0.1)
    &&& p.2 == fr_sub_s(nonce, fr_mul_s(w, p.1))
}

/// The verification equations: the recomputed challenge matches, and
/// `g * z + Y * c` reproduces the commitment in each group.
pub open spec fn dleq_verifies_s<C1: EcGroup, C2: EcGroup>(
    g: C1,
    h: C2,
    stmnt: (C1, C2),
    p: ((C1, C2), Fr, Fr),
) -> bool {
    &&& p.1 == dleq_challenge_s(g, h, stmnt.0, stmnt.1, p.0.0, p.0.1)
    &&& g.mul_s(p.2).add_s(stmnt.0.mul_s(p.1)) == p.0.0
    &&& h.mul_s(p.2).add_s(stmnt.1.mul_s(p.1)) == p.0.1
}

/// The DLEQ proof system over a pair of group generators.
#[derive(Clone, Copy, PartialEq)]
pub struct DLEQProof<C1: EcGroup, C2: EcGroup> {
    /// The scheme's SRS.
    pub srs: SRS<C1, C2>,
}

impl<C1: EcGroup, C2: EcGroup> DLEQProof<C1, C2> {
    /// Builds the proof system from a given SRS.
    pub fn from_srs(srs: SRS<C1, C2>) -> (r: Result<Self, NIZKError>)
        ensures
            r matches Ok(p) && p.srs == srs,
    {
        Ok(DLEQProof { srs })
    }

    /// Samples a witness and computes its two-group statement.
    pub fn generate_pair(&self) -> (r: Result<(Fr, (C1, C2)), NIZKError>)
        ensures
            r matches Ok(p) && (p.1.0 == self.srs.g_public_key.mul_s(p.0) && p.1.1
                == self.srs.h_public_key.mul_s(p.0)),
    {
        let w = fr_rand();
        let s1 = self.srs.g_public_key.mul_by(&w);
        let s2 = self.srs.h_public_key.mul_by(&w);
        Ok((w, (s1, s2)))
    }

    /// Computes the statement of a given witness.
    pub fn from_witness(&self, w: &Fr) -> (r: Result<(Fr, (C1, C2)), NIZKError>)
        ensures
            r matches Ok(p) && (p.0 == *w && p.1.0 == self.srs.g_public_key.mul_s(*w) && p.1.1
                == self.srs.h_public_key.mul_s(*w)),
    {
        let s1 = self.srs.g_public_key.mul_by(w);
        let s2 = self.srs.h_public_key.mul_by(w);
        Ok((*w, (s1, s2)))
    }

    /// The challenge of a statement and a commitment pair under this SRS.
    fn challenge(&self, s1: &C1, s2: &C2, r1: &C1, r2: &C2) -> (c: Fr)
        ensures
            c == dleq_challenge_s(
                self.srs.g_public_key,
                self.srs.h_public_key,
                *s1,
                *s2,
                *r1,
                *r2,
            ),
    {
        let mut data = self.srs.g_public_key.to_bytes();
        let b1 = s1.to_bytes();
        extend_bytes(&mut data, &b1);
        let b2 = self.srs.h_public_key.to_bytes();
        extend_bytes(&mut data, &b2);
        let b3 = s2.to_bytes();
        extend_bytes(&mut data, &b3);
        let b4 = r1.to_bytes();
        extend_bytes(&mut data, &b4);
        let b5 = r2.to_bytes();
        extend_bytes(&mut data, &b5);
        proof {
            assert(data@ =~= self.srs.g_public_key.ser_s() + s1.ser_s()
                + self.srs.h_public_key.ser_s() + s2.ser_s() + r1.ser_s() + r2.ser_s());
        }
        let persona = dleq_persona();
        hash_to_field(&persona, &data)
    }

    /// Proves equality of the discrete logarithms of `g * w` and `h * w`.
    pub fn prove(&self, w: &Fr) -> (r: Result<((C1, C2), Fr, Fr), NIZKError>)
        ensures
            r is Ok,
            exists|nonce: Fr|
                #[trigger] dleq_proof_for_s(
                    self.srs.g_public_key,
                    self.srs.h_public_key,
                    *w,
                    nonce,
                    r->Ok_0,
                ),
    {
        let g_w = self.srs.g_public_key.mul_by(w);
        let h_w = self.srs.h_public_key.mul_by(w);
        let nonce = fr_rand();
        let g_r = self.srs.g_public_key.mul_by(&nonce);
        let h_r = self.srs.h_public_key.mul_by(&nonce);
        let c = self.challenge(&g_w, &h_w, &g_r, &h_r);
        let wc = fr_mul(w, &c);
        let z = fr_sub(&nonce, &wc);
        let result: Result<((C1, C2), Fr, Fr), NIZKError> = Ok(((g_r, h_r), c, z));
        proof {
            assert(dleq_proof_for_s(
                self.srs.g_public_key,
                self.srs.h_public_key,
                *w,
                nonce,
                ((g_r, h_r), c, z),
            ));
            assert(result->Ok_0 == ((g_r, h_r), c, z));
            assert(exists|n: Fr|
                #[trigger] dleq_proof_for_s(
                    self.srs.g_public_key,
                    self.srs.h_public_key,
                    *w,
                    n,
                    result->Ok_0,
                ));
        }
        result
    }

    /// Verifies a proof against a two-group statement: accepts exactly when
    /// both verification equations hold.
    pub fn verify(&self, statement: &(C1, C2), proof: &((C1, C2), Fr, Fr)) -> (r: Result<
        (),
        NIZKError,
    >)
        ensures
            r is Ok <==> dleq_verifies_s(
                self.srs.g_public_key,
                self.srs.h_public_key,
                *statement,
                *proof,
            ),
            r matches Err(e) ==> e == NIZKError::DLEQVerify,
    {
        let c = self.challenge(&statement.0, &statement.1, &proof.0.0, &proof.0.1);
        let gz = self.srs.g_public_key.mul_by(&proof.2);
        let yc1 = statement.0.mul_by(&c);
        let lhs1 = gz.add_to(&yc1);
        let hz = self.srs.h_public_key.mul_by(&proof.2);
        let yc2 = statement.1.mul_by(&c);
        let lhs2 = hz.add_to(&yc2);
        if lhs1.equals(&proof.0.0) && lhs2.equals(&proof.0.1) && fr_eq(&c, &proof.1) {
            Ok(())
        } else {
            Err(NIZKError::DLEQVerify)
        }
    }
}

} // verus!
