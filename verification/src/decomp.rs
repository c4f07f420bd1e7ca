//! The decomposition proof: a DLK proof over the commitment group for the
//! statement `gs = g2 * s`, where `s` is the free term of the dealer's
//! sharing polynomial. Its 32-byte digest is what the dealer attests with
//! its EdDSA key.

use vstd::prelude::*;

use crate::config::Config;
use crate::curve::{EcGroup, Fr, G2, fr_ser_s, fr_to_bytes, g2_mul_s};
use crate::dlk;
use crate::dlk::{DLKProof, dlk_proof_for_s, dlk_verifies_s};
use crate::eddsa::Digest;
use crate::errors::PVSSError;
use crate::hashing::{extend_bytes, shake256, shake256_s};

verus! {

/// The decomposition proof: the DLK transcript and its public statement.
#[derive(Clone, Copy, PartialEq)]
pub struct DecompProof {
    /// The proof of knowledge of the discrete log of `gs`.
    pub proof: (G2, Fr, Fr),
    /// The statement: the commitment to the shared secret.
    pub gs: G2,
}

/// The canonical serialization of a decomposition proof: its components in
/// declaration order.
pub open spec fn decomp_proof_bytes_s(d: DecompProof) -> Seq<u8> {
    d.proof.0.ser_s() + fr_ser_s(d.proof.1) + fr_ser_s(d.proof.2) + d.gs.ser_s()
}

/// The 32-byte SHAKE256 digest of a decomposition proof.
pub open spec fn decomp_digest_s(d: DecompProof) -> Seq<u8> {
    shake256_s(decomp_proof_bytes_s(d), 32)
}

/// The decomposition proof system.
pub struct Decomp {}

impl Decomp {
    /// Generates a decomposition proof for the free term `p_0` under the
    /// configuration's commitment-group generator.
    pub fn generate(config: &Config, p_0: &Fr) -> (r: Result<DecompProof, PVSSError>)
        ensures
            r is Ok,
            (r->Ok_0).gs == g2_mul_s(config.srs.g2, *p_0),
            exists|nonce: Fr|
                #[trigger] dlk_proof_for_s(config.srs.g2, *p_0, nonce, (r->Ok_0).proof),
    {
        let gs = config.srs.g2.mul_by(p_0);
        let dlk_scheme = DLKProof { srs: dlk::SRS { g_public_key: config.srs.g2 } };
        let proof = dlk_scheme.prove(p_0).unwrap();
        let result: Result<DecompProof, PVSSError> = Ok(DecompProof { proof, gs });
        proof {
            assert((result->Ok_0).proof == proof);
        }
        result
    }
}

impl DecompProof {
    /// Verifies the proof against its own statement under a configuration.
    pub fn verify(&self, config: &Config) -> (r: Result<(), PVSSError>)
        ensures
            r is Ok <==> dlk_verifies_s(config.srs.g2, self.gs, self.proof),
            r matches Err(e) ==> e == PVSSError::NIZKProofDoesNotVerifyError,
    {
        let dlk_scheme = DLKProof { srs: dlk::SRS { g_public_key: config.srs.g2 } };
        match dlk_scheme.verify(&self.gs, &self.proof) {
            Ok(()) => Ok(()),
            Err(_) => Err(PVSSError::NIZKProofDoesNotVerifyError),
        }
    }

    /// The 32-byte digest that the dealer signs: SHAKE256 of the serialized
    /// proof followed by the serialized statement.
    pub fn digest(&self) -> (r: Digest)
        ensures
            r@ == decomp_digest_s(*self),
    {
        let mut data = self.proof.0.to_bytes();
        let b1 = fr_to_bytes(&self.proof.1);
        extend_bytes(&mut data, &b1);
        let b2 = fr_to_bytes(&self.proof.2);
        extend_bytes(&mut data, &b2);
        let bg = self.gs.to_bytes();
        extend_bytes(&mut data, &bg);
        proof {
            assert(data@ =~= decomp_proof_bytes_s(*self));
        }
        let h = shake256(&data, 32);
        let mut arr = [0u8; 32];
        let mut i: usize = 0;
        while i < 32
            invariant
                i <= 32,
                h@.len() == 32,
                arr@.take(i as int) == h@.take(i as int),
            decreases 32 - i,
        {
            arr[i] = h[i];
            i = i + 1;
        }
        proof {
            assert(arr@ =~= h@.take(32));
            assert(h@.take(32) =~= h@);
        }
        Digest(arr)
    }
}

/// The serialized form of a decomposition proof, as broadcast to peers.
pub fn message_from_pi_i(pi_i: DecompProof) -> (r: Result<Vec<u8>, PVSSError>)
    ensures
        r matches Ok(v) && v@ == decomp_proof_bytes_s(pi_i),
{
    let mut data = pi_i.proof.0.to_bytes();
    let b1 = fr_to_bytes(&pi_i.proof.1);
    extend_bytes(&mut data, &b1);
    let b2 = fr_to_bytes(&pi_i.proof.2);
    extend_bytes(&mut data, &b2);
    let bg = pi_i.gs.to_bytes();
    extend_bytes(&mut data, &bg);
    proof {
        assert(data@ =~= decomp_proof_bytes_s(pi_i));
    }
    Ok(data)
}

} // verus!
