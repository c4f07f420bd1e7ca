//! Decrypted shares and reconstruction.
//!
//! A node cancels its secret scalar out of its own encrypted evaluation to
//! obtain a decrypted share. Any `t + 1` decrypted shares with distinct
//! origins reconstruct the group element `g1 * s` by Lagrange interpolation,
//! and pairing it with the epoch generator yields the beacon value.

use vstd::prelude::*;

use crate::curve::{
    EcGroup, Fr, G1, G2, Gt, fr_from_u64, fr_from_u64_s, fr_inv_s, fr_inverse, g1_mul_s, pairing,
    pairing_s,
};
use crate::errors::PVSSError;
use crate::poly::{coincident_points_s, lag_sum_s, lagrange_interpolation_g1};

verus! {

/// A decrypted share: the decrypted group element and the index it was
/// decrypted at.
#[derive(Clone, Copy, PartialEq)]
pub struct DecryptedShare {
    /// The decrypted share `encs[origin] * sk^{-1}`.
    pub dec: G1,
    /// The index this share was decrypted at.
    pub origin: usize,
}

impl DecryptedShare {
    /// Decrypts the share at `my_id` by cancelling the secret scalar out of
    /// the encrypted evaluation.
    pub fn generate(enc: &Vec<G1>, sk: &Fr, my_id: usize) -> (r: Result<DecryptedShare, PVSSError>)
        ensures
            r is Ok <==> (my_id < enc@.len() && *sk != fr_from_u64_s(0)),
            r matches Ok(d) ==> (d.origin == my_id && d.dec == g1_mul_s(
                enc@[my_id as int],
                fr_inv_s(*sk),
            )),
            r matches Err(e) ==> e == (if my_id >= enc@.len() {
                PVSSError::InvalidParticipantId(my_id)
            } else {
                PVSSError::EvaluationDomainError
            }),
    {
        if my_id >= enc.len() {
            return Err(PVSSError::InvalidParticipantId(my_id));
        }
        let inv = match fr_inverse(sk) {
            Some(v) => v,
            None => {
                return Err(PVSSError::EvaluationDomainError);
            },
        };
        let dec = enc[my_id].mul_by(&inv);
        Ok(DecryptedShare { dec, origin: my_id })
    }
}

/// The interpolation points of a list of decrypted shares: each origin,
/// shifted to the one-based evaluation point it was dealt at.
pub open spec fn decryption_points_s(decs: Seq<DecryptedShare>) -> Seq<Fr> {
    decs.map_values(|d: DecryptedShare| fr_from_u64_s((d.origin + 1) as u64))
}

/// The evaluations of a list of decrypted shares.
pub open spec fn decryption_evals_s(decs: Seq<DecryptedShare>) -> Seq<G1> {
    decs.map_values(|d: DecryptedShare| d.dec)
}

/// Reconstructs `g1 * s` from at least `degree + 1` decrypted shares with
/// distinct origins, by Lagrange interpolation at zero in the encryption
/// group.
pub fn reconstruct_secret(decryptions: &Vec<DecryptedShare>, degree: usize) -> (r: Result<
    G1,
    PVSSError,
>)
    requires
        forall|j: int|
            0 <= j < decryptions@.len() ==> (#[trigger] decryptions@[j]).origin < usize::MAX,
    ensures
        r is Ok <==> (decryptions@.len() > degree && !coincident_points_s(
            decryption_points_s(decryptions@),
            degree + 1,
        )),
        r matches Ok(v) ==> v == lag_sum_s(
            decryption_evals_s(decryptions@),
            decryption_points_s(decryptions@),
            degree as int,
            degree + 1,
        ),
        r matches Err(e) ==> e == (if decryptions@.len() <= degree {
            PVSSError::InsufficientEvaluationsError
        } else {
            PVSSError::EvaluationDomainError
        }),
{
    let mut points: Vec<Fr> = Vec::new();
    let mut evals: Vec<G1> = Vec::new();
    let mut i: usize = 0;
    while i < decryptions.len()
        invariant
            i <= decryptions@.len(),
            forall|j: int|
                0 <= j < decryptions@.len() ==> (#[trigger] decryptions@[j]).origin < usize::MAX,
            points@.len() == i,
            evals@.len() == i,
            forall|j: int|
                0 <= j < i ==> (#[trigger] points@[j]) == fr_from_u64_s(
                    (decryptions@[j].origin + 1) as u64,
                ),
            forall|j: int| 0 <= j < i ==> (#[trigger] evals@[j]) == decryptions@[j].dec,
        decreases decryptions@.len() - i,
    {
        let x = fr_from_u64((decryptions[i].origin as u64) + 1);
        points.push(x);
        evals.push(decryptions[i].dec);
        i = i + 1;
    }
    proof {
        assert(points@ =~= decryption_points_s(decryptions@));
        assert(evals@ =~= decryption_evals_s(decryptions@));
    }
    lagrange_interpolation_g1(&evals, &points, degree)
}

/// Reconstructs the beacon value: the pairing of the reconstructed secret
/// with the epoch generator.
pub fn reconstruct_beacon(
    decryptions: &Vec<DecryptedShare>,
    degree: usize,
    epoch_generator: &G2,
) -> (r: Result<Gt, PVSSError>)
    requires
        forall|j: int|
            0 <= j < decryptions@.len() ==> (#[trigger] decryptions@[j]).origin < usize::MAX,
    ensures
        r is Ok <==> (decryptions@.len() > degree && !coincident_points_s(
            decryption_points_s(decryptions@),
            degree + 1,
        )),
        r matches Ok(v) ==> v == pairing_s(
            lag_sum_s(
                decryption_evals_s(decryptions@),
                decryption_points_s(decryptions@),
                degree as int,
                degree + 1,
            ),
            *epoch_generator,
        ),
        r matches Err(e) ==> e == (if decryptions@.len() <= degree {
            PVSSError::InsufficientEvaluationsError
        } else {
            PVSSError::EvaluationDomainError
        }),
{
    let secret = match reconstruct_secret(decryptions, degree) {
        Ok(s) => s,
        Err(e) => {
            return Err(e);
        },
    };
    Ok(pairing(&secret, epoch_generator))
}

} // verus!
