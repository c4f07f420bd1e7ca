//! The aggregator: verifies incoming shares and aggregated shares against
//! the public configuration, and folds accepted ones into its local
//! aggregated transcript.
//!
//! The two randomized checks (the dual-code degree test and the batched
//! pairing test) are split into deterministic cores that take the sampled
//! scalars as arguments and carry exact contracts, and sampling front ends
//! whose contracts quantify over the sample.

use vstd::prelude::*;

use crate::config::Config;
use crate::curve::{
    EcGroup, Fr, G1, G2, fr_from_u64, fr_from_u64_s, fr_rand, g1_add_s, g1_mul_s, g1_neg_s,
    g2_add_s, g2_is_id_s, g2_mul_s, gt_is_one, gt_is_one_s, pairing_prod_s, pairing_product,
};
use crate::decomp::{DecompProof, decomp_digest_s};
use crate::dlk::dlk_verifies_s;
use crate::eddsa::ed_verify_s;
use crate::errors::PVSSError;
use crate::participant::Participant;
use crate::poly::{
    dual_sum_s, ensure_degree_with, lag_sum_s, lagrange_interpolation_simple, nat_points_s,
    sample_polynomial,
};
use crate::schnorr::SchnorrSignature;
use crate::share::{
    PVSSAggregatedShare, PVSSCore, PVSSShare, SignedProof, agg_result_s, core_sum_s,
    merged_contribution_s,
};

verus! {

/// What the deterministic part of core verification returns: size check,
/// dual-code check under the given random polynomial, and the consistency
/// of the decomposition statement with the interpolated commitment to the
/// free term.
pub open spec fn core_verify_spec(
    config: Config,
    d: DecompProof,
    core: PVSSCore,
    coeffs: Seq<Fr>,
) -> Result<(), PVSSError> {
    let n = config.num_participants as int;
    let t = config.degree as int;
    if !core.wf_s(n) {
        Err(
            PVSSError::MismatchedCommitsEncryptionsParticipantsError(
                core.encs@.len() as usize,
                core.comms@.len() as usize,
                config.num_participants,
            ),
        )
    } else if !(n >= t && (n < t + 2 || g2_is_id_s(
        dual_sum_s(core.comms@, coeffs, core.comms@.len() as u64),
    ))) {
        Err(PVSSError::DualCodeError)
    } else if n <= t {
        Err(PVSSError::InsufficientEvaluationsError)
    } else if lag_sum_s(core.comms@, nat_points_s(n), t, t + 1) != d.gs {
        Err(PVSSError::GSCheckError)
    } else {
        Ok(())
    }
}

/// What the deterministic part of share verification returns: participant
/// lookup, size check, the pairing check for correctness of encryption at
/// the issuer's index, core verification, and the signed proof.
pub open spec fn share_verify_spec(
    config: Config,
    participants: Seq<Participant>,
    share: PVSSShare,
    coeffs: Seq<Fr>,
) -> Result<(), PVSSError> {
    let id = share.participant_id as int;
    if id >= participants.len() {
        Err(PVSSError::InvalidParticipantId(share.participant_id))
    } else if !share.pvss_core.wf_s(config.num_participants as int) {
        Err(
            PVSSError::MismatchedCommitsEncryptionsParticipantsError(
                share.pvss_core.encs@.len() as usize,
                share.pvss_core.comms@.len() as usize,
                config.num_participants,
            ),
        )
    } else if !gt_is_one_s(
        pairing_prod_s(
            seq![
                (participants[id].public_key_sig, share.pvss_core.comms@[id]),
                (g1_neg_s(share.pvss_core.encs@[id]), config.srs.g2),
            ],
        ),
    ) {
        Err(PVSSError::EncryptionCorrectnessError)
    } else if core_verify_spec(config, share.signed_proof.decomp_proof, share.pvss_core, coeffs)
        is Err {
        core_verify_spec(config, share.signed_proof.decomp_proof, share.pvss_core, coeffs)
    } else if !(dlk_verifies_s(
        config.srs.g2,
        share.signed_proof.decomp_proof.gs,
        share.signed_proof.decomp_proof.proof,
    ) && ed_verify_s(
        participants[id].public_key_ed@,
        decomp_digest_s(share.signed_proof.decomp_proof),
        share.signed_proof.signature_on_decomp@,
    )) {
        Err(PVSSError::InvalidSignedProofError)
    } else {
        Ok(())
    }
}

/// The random linear combination of the encryptions: the first `i` terms of
/// `sum r_j * encs[j]`.
pub open spec fn eps_sum_s(encs: Seq<G1>, rs: Seq<Fr>, i: int) -> G1
    decreases i,
{
    if i <= 1 {
        g1_mul_s(encs[0], rs[0])
    } else {
        g1_add_s(eps_sum_s(encs, rs, i - 1), g1_mul_s(encs[i - 1], rs[i - 1]))
    }
}

/// The pairs of the batched pairing check: the negated combination of the
/// encryptions against the commitment-group generator, then each weighted
/// public key against its commitment. `n + 1` pairings in all.
pub open spec fn agg_pairs_s(
    participants: Seq<Participant>,
    core: PVSSCore,
    rs: Seq<Fr>,
    g2: G2,
    n: int,
) -> Seq<(G1, G2)> {
    seq![(g1_neg_s(eps_sum_s(core.encs@, rs, n)), g2)] + Seq::new(
        n as nat,
        |i: int| (g1_mul_s(participants[i].public_key_sig, rs[i]), core.comms@[i]),
    )
}

/// The weighted sum of decomposition statements over the contribution
/// entries before index `i`: each statement scaled by its weight, or
/// nothing when no entry contributes.
pub open spec fn weighted_gs_s(contribs: Seq<Option<(SignedProof, u64)>>, i: int) -> Option<G2>
    decreases i,
{
    if i <= 0 {
        None
    } else {
        let rest = weighted_gs_s(contribs, i - 1);
        match contribs[i - 1] {
            None => rest,
            Some(e) => {
                let term = g2_mul_s(e.0.decomp_proof.gs, fr_from_u64_s(e.1));
                match rest {
                    None => Some(term),
                    Some(acc) => Some(g2_add_s(acc, term)),
                }
            },
        }
    }
}

/// That the contribution at `id` carries a decomposition proof that does
/// not verify.
pub open spec fn bad_contrib_proof_s(
    config: Config,
    contribs: Seq<Option<(SignedProof, u64)>>,
    id: int,
) -> bool {
    contribs[id] matches Some(e) && !dlk_verifies_s(
        config.srs.g2,
        e.0.decomp_proof.gs,
        e.0.decomp_proof.proof,
    )
}

/// That the contribution at `id` carries a signature that does not verify
/// under the participant's attestation key.
pub open spec fn bad_contrib_sig_s(
    participants: Seq<Participant>,
    contribs: Seq<Option<(SignedProof, u64)>>,
    id: int,
) -> bool {
    contribs[id] matches Some(e) && !ed_verify_s(
        participants[id].public_key_ed@,
        decomp_digest_s(e.0.decomp_proof),
        e.0.signature_on_decomp@,
    )
}

/// That the weighted sum of contribution statements matches the commitment
/// to the free term interpolated from the aggregated commitments: with no
/// contributions at all, the interpolated point must be the identity.
pub open spec fn gs_total_matches_s(
    agg: PVSSAggregatedShare,
    point: G2,
) -> bool {
    match weighted_gs_s(agg.contributions@, agg.contributions@.len() as int) {
        None => g2_is_id_s(point),
        Some(total) => total == point,
    }
}

/// What the deterministic part of aggregation verification returns: size
/// checks, the dual-code check, the batched pairing check for correctness
/// of encryption, and the consistency of the weighted statements with the
/// interpolated commitment, followed by the per-contribution proof and
/// signature checks.
pub open spec fn aggregation_verify_spec(
    config: Config,
    participants: Seq<Participant>,
    agg: PVSSAggregatedShare,
    coeffs: Seq<Fr>,
    rs: Seq<Fr>,
) -> Result<(), PVSSError> {
    let n = config.num_participants as int;
    let t = config.degree as int;
    if !(agg.pvss_core.wf_s(n) && agg.contributions@.len() == n) {
        Err(
            PVSSError::MismatchedCommitsEncryptionsParticipantsError(
                agg.pvss_core.encs@.len() as usize,
                agg.pvss_core.comms@.len() as usize,
                config.num_participants,
            ),
        )
    } else if !(n >= t && (n < t + 2 || g2_is_id_s(
        dual_sum_s(agg.pvss_core.comms@, coeffs, agg.pvss_core.comms@.len() as u64),
    ))) {
        Err(PVSSError::DualCodeError)
    } else if n > 0 && !gt_is_one_s(
        pairing_prod_s(agg_pairs_s(participants, agg.pvss_core, rs, config.srs.g2, n)),
    ) {
        Err(PVSSError::EncryptionCorrectnessError)
    } else if n <= t {
        Err(PVSSError::InsufficientEvaluationsError)
    } else if exists|id: int| 0 <= id < n && bad_contrib_proof_s(config, agg.contributions@, id) {
        Err(PVSSError::DecompProofVerificationError)
    } else if !gs_total_matches_s(agg, lag_sum_s(agg.pvss_core.comms@, nat_points_s(n), t, t + 1)) {
        Err(PVSSError::AggregationReconstructionMismatchError)
    } else if exists|id: int|
        0 <= id < n && bad_contrib_sig_s(participants, agg.contributions@, id) {
        Err(PVSSError::EdDSAInvalidSignatureError)
    } else {
        Ok(())
    }
}

/// A node's aggregator: the public configuration, the encryption-signature
/// scheme, the participant table indexed by id, and the local aggregated
/// transcript.
pub struct PVSSAggregator {
    /// The public configuration.
    pub config: Config,
    /// The Schnorr scheme the encryption key pairs live in.
    pub scheme_sig: SchnorrSignature<G1>,
    /// The participants, at their ids.
    pub participants: Vec<Participant>,
    /// The aggregated transcript of every share accepted so far.
    pub aggregated_tx: PVSSAggregatedShare,
}

impl PVSSAggregator {
    /// The participant table has one entry per id, and the local transcript
    /// matches the configuration.
    pub open spec fn wf_s(self) -> bool {
        &&& self.participants@.len() == self.config.num_participants
        &&& forall|i: int|
            0 <= i < self.participants@.len() ==> (#[trigger] self.participants@[i]).id == i
        &&& self.aggregated_tx.wf_s()
        &&& self.aggregated_tx.num_participants == self.config.num_participants
        &&& self.aggregated_tx.degree == self.config.degree
    }

    /// Builds an aggregator with an empty transcript. The participant table
    /// must hold participant `i` at index `i`, one for each of the `n` ids.
    pub fn new(
        config: Config,
        scheme_sig: SchnorrSignature<G1>,
        participants: Vec<Participant>,
    ) -> (r: Result<Self, PVSSError>)
        ensures
            r is Ok <==> (participants@.len() == config.num_participants && forall|i: int|
                0 <= i < participants@.len() ==> (#[trigger] participants@[i]).id == i),
            r matches Ok(a) ==> (a.wf_s() && a.config == config && a.scheme_sig == scheme_sig
                && a.participants@ == participants@ && a.aggregated_tx.degree == config.degree
                && a.aggregated_tx.num_participants == config.num_participants),
            r matches Ok(a) ==> (forall|id: int|
                0 <= id < config.num_participants ==> (#[trigger] a.aggregated_tx.contributions@[id])
                    is None),
            r matches Err(e) ==> e matches PVSSError::InvalidParticipantId(_),
    {
        if participants.len() != config.num_participants {
            return Err(PVSSError::InvalidParticipantId(participants.len()));
        }
        let mut i: usize = 0;
        while i < participants.len()
            invariant
                i <= participants@.len(),
                forall|k: int| 0 <= k < i ==> (#[trigger] participants@[k]).id == k,
            decreases participants@.len() - i,
        {
            if participants[i].id != i {
                return Err(PVSSError::InvalidParticipantId(participants[i].id));
            }
            i = i + 1;
        }
        let aggregated_tx = PVSSAggregatedShare::empty(config.degree, config.num_participants);
        Ok(PVSSAggregator { config, scheme_sig, participants, aggregated_tx })
    }

    /// Core verification against a caller-supplied dual-code polynomial:
    /// size check, dual-code check, and the consistency of the statement
    /// with the interpolation of the commitments.
    pub fn core_verify_with(
        &self,
        decomp_proof: &DecompProof,
        core: &PVSSCore,
        coeffs: &Vec<Fr>,
    ) -> (r: Result<(), PVSSError>)
        ensures
            r == core_verify_spec(self.config, *decomp_proof, *core, coeffs@),
    {
        let n = self.config.num_participants;
        if core.encs.len() != n || core.comms.len() != n {
            return Err(
                PVSSError::MismatchedCommitsEncryptionsParticipantsError(
                    core.encs.len(),
                    core.comms.len(),
                    n,
                ),
            );
        }
        match ensure_degree_with(&core.comms, self.config.degree, coeffs) {
            Ok(()) => {},
            Err(_) => {
                return Err(PVSSError::DualCodeError);
            },
        }
        let point = match lagrange_interpolation_simple(&core.comms, self.config.degree) {
            Ok(p) => p,
            Err(_) => {
                return Err(PVSSError::InsufficientEvaluationsError);
            },
        };
        if !point.equals(&decomp_proof.gs) {
            return Err(PVSSError::GSCheckError);
        }
        Ok(())
    }

    /// Core verification: samples the dual-code polynomial and hands off to
    /// the deterministic check.
    pub fn core_verify(&self, decomp_proof: &DecompProof, core: &PVSSCore) -> (r: Result<
        (),
        PVSSError,
    >)
        requires
            self.wf_s(),
        ensures
            exists|coeffs: Seq<Fr>|
                r == #[trigger] core_verify_spec(self.config, *decomp_proof, *core, coeffs),
    {
        let coeffs = self.sample_dual_poly(core.comms.len());
        let r = self.core_verify_with(decomp_proof, core, &coeffs);
        proof {
            assert(r == core_verify_spec(self.config, *decomp_proof, *core, coeffs@));
        }
        r
    }

    /// Samples the random polynomial of the dual-code check, of degree
    /// `len - t - 2` where it is defined and trivial otherwise.
    fn sample_dual_poly(&self, len: usize) -> (r: Vec<Fr>)
    {
        let t = self.config.degree;
        let d: usize = if len >= 2 && t <= len - 2 {
            len - t - 2
        } else {
            0
        };
        sample_polynomial(d)
    }

    /// Share verification against a caller-supplied dual-code polynomial:
    /// participant lookup, size check, the pairing check at the issuer's
    /// index, core verification, and the signed decomposition proof.
    pub fn share_verify_with(&self, share: &PVSSShare, coeffs: &Vec<Fr>) -> (r: Result<
        (),
        PVSSError,
    >)
        requires
            self.wf_s(),
        ensures
            r == share_verify_spec(self.config, self.participants@, *share, coeffs@),
    {
        let id = share.participant_id;
        if id >= self.participants.len() {
            return Err(PVSSError::InvalidParticipantId(id));
        }
        let n = self.config.num_participants;
        if share.pvss_core.comms.len() != n || share.pvss_core.encs.len() != n {
            return Err(
                PVSSError::MismatchedCommitsEncryptionsParticipantsError(
                    share.pvss_core.encs.len(),
                    share.pvss_core.comms.len(),
                    n,
                ),
            );
        }
        let mut pairs: Vec<(G1, G2)> = Vec::new();
        pairs.push((self.participants[id].public_key_sig, share.pvss_core.comms[id]));
        pairs.push((share.pvss_core.encs[id].negate(), self.config.srs.g2));
        proof {
            assert(pairs@ =~= seq![
                (
                    self.participants@[id as int].public_key_sig,
                    share.pvss_core.comms@[id as int],
                ),
                (g1_neg_s(share.pvss_core.encs@[id as int]), self.config.srs.g2),
            ]);
        }
        let prod = pairing_product(&pairs);
        if !gt_is_one(&prod) {
            return Err(PVSSError::EncryptionCorrectnessError);
        }
        match self.core_verify_with(&share.signed_proof.decomp_proof, &share.pvss_core, coeffs) {
            Ok(()) => {},
            Err(e) => {
                return Err(e);
            },
        }
        match share.signed_proof.verify(&self.config, &self.participants[id].public_key_ed) {
            Ok(()) => Ok(()),
            Err(_) => Err(PVSSError::InvalidSignedProofError),
        }
    }

    /// Share verification: samples the dual-code polynomial and hands off
    /// to the deterministic check.
    pub fn share_verify(&self, share: &PVSSShare) -> (r: Result<(), PVSSError>)
        requires
            self.wf_s(),
        ensures
            exists|coeffs: Seq<Fr>|
                r == #[trigger] share_verify_spec(self.config, self.participants@, *share, coeffs),
    {
        let coeffs = self.sample_dual_poly(share.pvss_core.comms.len());
        let r = self.share_verify_with(share, &coeffs);
        proof {
            assert(r == share_verify_spec(self.config, self.participants@, *share, coeffs@));
        }
        r
    }

    /// Aggregation verification against caller-supplied randomness: size
    /// checks, the dual-code check under `coeffs`, the batched pairing
    /// check under the `n` scalars `rs`, the consistency of the weighted
    /// statements with the interpolated commitment, and each contribution's
    /// proof and signature.
    #[verifier::loop_isolation(false)]
    pub fn aggregation_verify_with(
        &self,
        agg_share: &PVSSAggregatedShare,
        coeffs: &Vec<Fr>,
        rs: &Vec<Fr>,
    ) -> (r: Result<(), PVSSError>)
        requires
            self.wf_s(),
            rs@.len() == self.config.num_participants,
        ensures
            r == aggregation_verify_spec(
                self.config,
                self.participants@,
                *agg_share,
                coeffs@,
                rs@,
            ),
    {
        let n = self.config.num_participants;
        if agg_share.pvss_core.encs.len() != n || agg_share.pvss_core.comms.len() != n
            || agg_share.contributions.len() != n {
            return Err(
                PVSSError::MismatchedCommitsEncryptionsParticipantsError(
                    agg_share.pvss_core.encs.len(),
                    agg_share.pvss_core.comms.len(),
                    n,
                ),
            );
        }
        match ensure_degree_with(&agg_share.pvss_core.comms, self.config.degree, coeffs) {
            Ok(()) => {},
            Err(_) => {
                return Err(PVSSError::DualCodeError);
            },
        }
        if n > 0 {
            let mut eps = agg_share.pvss_core.encs[0].mul_by(&rs[0]);
            let mut i: usize = 1;
            while i < n
                invariant
                    1 <= i <= n,
                    n == self.config.num_participants,
                    rs@.len() == n,
                    agg_share.pvss_core.encs@.len() == n,
                    eps == eps_sum_s(agg_share.pvss_core.encs@, rs@, i as int),
                decreases n - i,
            {
                let term = agg_share.pvss_core.encs[i].mul_by(&rs[i]);
                eps = eps.add_to(&term);
                i = i + 1;
            }
            let mut pairs: Vec<(G1, G2)> = Vec::new();
            pairs.push((eps.negate(), self.config.srs.g2));
            let mut j: usize = 0;
            while j < n
                invariant
                    j <= n,
                    n == self.config.num_participants,
                    rs@.len() == n,
                    self.participants@.len() == n,
                    agg_share.pvss_core.comms@.len() == n,
                    agg_share.pvss_core.encs@.len() == n,
                    pairs@.len() == j + 1,
                    pairs@[0] == (
                        g1_neg_s(eps_sum_s(agg_share.pvss_core.encs@, rs@, n as int)),
                        self.config.srs.g2,
                    ),
                    forall|k: int|
                        0 <= k < j ==> (#[trigger] pairs@[k + 1]) == (
                            g1_mul_s(self.participants@[k].public_key_sig, rs@[k]),
                            agg_share.pvss_core.comms@[k],
                        ),
                decreases n - j,
            {
                let wpk = self.participants[j].public_key_sig.mul_by(&rs[j]);
                pairs.push((wpk, agg_share.pvss_core.comms[j]));
                j = j + 1;
            }
            proof {
                let spec_pairs = agg_pairs_s(
                    self.participants@,
                    agg_share.pvss_core,
                    rs@,
                    self.config.srs.g2,
                    n as int,
                );
                assert forall|m: int| 0 <= m < pairs@.len() implies pairs@[m] == spec_pairs[m] by {
                    if m > 0 {
                        assert(pairs@[(m - 1) + 1] == (
                            g1_mul_s(self.participants@[m - 1].public_key_sig, rs@[m - 1]),
                            agg_share.pvss_core.comms@[m - 1],
                        ));
                    }
                }
                assert(pairs@ =~= spec_pairs);
            }
            let prod = pairing_product(&pairs);
            if !gt_is_one(&prod) {
                return Err(PVSSError::EncryptionCorrectnessError);
            }
        }
        let point = match lagrange_interpolation_simple(
            &agg_share.pvss_core.comms,
            self.config.degree,
        ) {
            Ok(p) => p,
            Err(_) => {
                return Err(PVSSError::InsufficientEvaluationsError);
            },
        };
        let mut total: Option<G2> = None;
        let mut id: usize = 0;
        while id < n
            invariant
                id <= n,
                n == self.config.num_participants,
                agg_share.contributions@.len() == n,
                total == weighted_gs_s(agg_share.contributions@, id as int),
                forall|k: int|
                    0 <= k < id ==> !bad_contrib_proof_s(self.config, agg_share.contributions@, k),
            decreases n - id,
        {
            match agg_share.contributions[id] {
                None => {},
                Some(e) => {
                    match e.0.decomp_proof.verify(&self.config) {
                        Ok(()) => {},
                        Err(_) => {
                            proof {
                                assert(bad_contrib_proof_s(
                                    self.config,
                                    agg_share.contributions@,
                                    id as int,
                                ));
                            }
                            return Err(PVSSError::DecompProofVerificationError);
                        },
                    }
                    let w = fr_from_u64(e.1);
                    let term = e.0.decomp_proof.gs.mul_by(&w);
                    total = match total {
                        None => Some(term),
                        Some(acc) => Some(acc.add_to(&term)),
                    };
                },
            }
            id = id + 1;
        }
        let matches_point: bool = match &total {
            None => point.is_identity(),
            Some(tot) => tot.equals(&point),
        };
        if !matches_point {
            return Err(PVSSError::AggregationReconstructionMismatchError);
        }
        let mut id2: usize = 0;
        while id2 < n
            invariant
                id2 <= n,
                n == self.config.num_participants,
                self.participants@.len() == n,
                agg_share.contributions@.len() == n,
                forall|k: int|
                    0 <= k < id2 ==> !bad_contrib_sig_s(
                        self.participants@,
                        agg_share.contributions@,
                        k,
                    ),
            decreases n - id2,
        {
            match agg_share.contributions[id2] {
                None => {},
                Some(e) => {
                    let digest = e.0.decomp_proof.digest();
                    match e.0.signature_on_decomp.verify(
                        &digest,
                        &self.participants[id2].public_key_ed,
                    ) {
                        Ok(()) => {},
                        Err(_) => {
                            proof {
                                assert(bad_contrib_sig_s(
                                    self.participants@,
                                    agg_share.contributions@,
                                    id2 as int,
                                ));
                            }
                            return Err(PVSSError::EdDSAInvalidSignatureError);
                        },
                    }
                },
            }
            id2 = id2 + 1;
        }
        Ok(())
    }

    /// Aggregation verification: samples the dual-code polynomial and the
    /// batching scalars, and hands off to the deterministic check.
    pub fn aggregation_verify(&self, agg_share: &PVSSAggregatedShare) -> (r: Result<(), PVSSError>)
        requires
            self.wf_s(),
        ensures
            exists|coeffs: Seq<Fr>, rs: Seq<Fr>|
                r == #[trigger] aggregation_verify_spec(
                    self.config,
                    self.participants@,
                    *agg_share,
                    coeffs,
                    rs,
                ),
    {
        let coeffs = self.sample_dual_poly(agg_share.pvss_core.comms.len());
        let mut rs: Vec<Fr> = Vec::new();
        let mut i: usize = 0;
        while i < self.config.num_participants
            invariant
                i <= self.config.num_participants,
                rs@.len() == i,
            decreases self.config.num_participants - i,
        {
            rs.push(fr_rand());
            i = i + 1;
        }
        let r = self.aggregation_verify_with(agg_share, &coeffs, &rs);
        proof {
            assert(r == aggregation_verify_spec(
                self.config,
                self.participants@,
                *agg_share,
                coeffs@,
                rs@,
            ));
        }
        r
    }

    /// Handles a received share: verifies it, and on success folds it into
    /// the local aggregated transcript. On failure the aggregator is left
    /// unchanged.
    pub fn receive_share(&mut self, share: &PVSSShare) -> (r: Result<(), PVSSError>)
        requires
            old(self).wf_s(),
        ensures
            final(self).wf_s(),
            final(self).config == old(self).config,
            final(self).scheme_sig == old(self).scheme_sig,
            final(self).participants@ == old(self).participants@,
            r is Err ==> final(self).aggregated_tx == old(self).aggregated_tx,
            r is Ok ==> (exists|coeffs: Seq<Fr>|
                #[trigger] share_verify_spec(
                    old(self).config,
                    old(self).participants@,
                    *share,
                    coeffs,
                ) is Ok),
            r is Ok ==> (share.participant_id < old(self).config.num_participants && core_sum_s(
                old(self).aggregated_tx.pvss_core,
                share.pvss_core,
                final(self).aggregated_tx.pvss_core,
            ) && (forall|k: int|
                (0 <= k < old(self).config.num_participants && k != share.participant_id) ==> (
                #[trigger] final(self).aggregated_tx.contributions@[k])
                    == old(self).aggregated_tx.contributions@[k])
                && final(self).aggregated_tx.contributions@[share.participant_id as int]
                == merged_contribution_s(
                old(self).aggregated_tx.contributions@[share.participant_id as int],
                Some((share.signed_proof, 1u64)),
            )),
    {
        match self.share_verify(share) {
            Ok(()) => {},
            Err(e) => {
                return Err(e);
            },
        }
        match self.aggregated_tx.aggregate_pvss_share(share) {
            Ok(tx) => {
                self.aggregated_tx = tx;
                Ok(())
            },
            Err(e) => Err(e),
        }
    }

    /// Handles a received aggregated share: verifies the aggregation, and
    /// on success merges it into the local aggregated transcript. On
    /// failure the aggregator is left unchanged.
    pub fn receive_aggregated_share(&mut self, agg_share: &PVSSAggregatedShare) -> (r: Result<
        (),
        PVSSError,
    >)
        requires
            old(self).wf_s(),
        ensures
            final(self).wf_s(),
            final(self).config == old(self).config,
            final(self).scheme_sig == old(self).scheme_sig,
            final(self).participants@ == old(self).participants@,
            r is Err ==> final(self).aggregated_tx == old(self).aggregated_tx,
            r is Ok ==> (exists|coeffs: Seq<Fr>, rs: Seq<Fr>|
                #[trigger] aggregation_verify_spec(
                    old(self).config,
                    old(self).participants@,
                    *agg_share,
                    coeffs,
                    rs,
                ) is Ok),
            r is Ok ==> agg_result_s(
                old(self).aggregated_tx,
                *agg_share,
                final(self).aggregated_tx,
            ),
    {
        let v = self.aggregation_verify(agg_share);
        match v {
            Ok(()) => {},
            Err(e) => {
                return Err(e);
            },
        }
        proof {
            let (coeffs, rs) = choose|coeffs: Seq<Fr>, rs: Seq<Fr>|
                v == #[trigger] aggregation_verify_spec(
                    self.config,
                    self.participants@,
                    *agg_share,
                    coeffs,
                    rs,
                );
            assert(aggregation_verify_spec(
                self.config,
                self.participants@,
                *agg_share,
                coeffs,
                rs,
            ) is Ok);
            assert(agg_share.pvss_core.wf_s(self.config.num_participants as int));
            assert(agg_share.contributions@.len() == self.config.num_participants);
        }
        if agg_share.degree != self.config.degree || agg_share.num_participants
            != self.config.num_participants {
            return Err(
                PVSSError::TranscriptDifferentConfig(
                    self.aggregated_tx.degree,
                    agg_share.degree,
                    self.aggregated_tx.num_participants,
                    agg_share.num_participants,
                ),
            );
        }
        match self.aggregated_tx.aggregate(agg_share) {
            Ok(tx) => {
                self.aggregated_tx = tx;
                Ok(())
            },
            Err(e) => Err(e),
        }
    }
}

} // verus!
