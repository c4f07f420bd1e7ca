//! Shares and aggregated shares.
//!
//! A `PVSSCore` is the bare pair of commitment and encryption vectors. A
//! `PVSSShare` augments it with its issuer's id and a signed decomposition
//! proof. A `PVSSAggregatedShare` is the homomorphic combination of many
//! dealers' shares: the component-wise sum of their cores, and one signed
//! proof per contributing dealer together with a weight that counts how
//! many times that dealer's share was folded in. Weights make aggregation a
//! multiset fold, so re-aggregating a share never desynchronizes the core
//! from the contributions.

use vstd::prelude::*;

use crate::config::Config;
use crate::curve::{EcGroup, G1, G2, g1_add_s, g1_is_id_s, g2_add_s, g2_is_id_s};
use crate::curve::Fr;
use crate::decomp::{DecompProof, decomp_digest_s};
use crate::dlk::dlk_verifies_s;
use crate::eddsa::{PublicKey, Signature, ed_verify_s};
use crate::errors::PVSSError;

verus! {

/// A signed decomposition proof: the proof and an EdDSA signature over its
/// 32-byte digest.
#[derive(Clone, Copy, PartialEq)]
pub struct SignedProof {
    /// The proof of knowledge of the shared secret's commitment.
    pub decomp_proof: DecompProof,
    /// The dealer's signature on the proof's digest.
    pub signature_on_decomp: Signature,
}

impl SignedProof {
    /// Verifies the proof and the signature on its digest: accepts exactly
    /// when both hold under the given configuration and verification key.
    pub fn verify(&self, conf: &Config, pk_sig: &PublicKey) -> (r: Result<(), PVSSError>)
        ensures
            r is Ok <==> (dlk_verifies_s(conf.srs.g2, self.decomp_proof.gs, self.decomp_proof.proof)
                && ed_verify_s(
                pk_sig@,
                decomp_digest_s(self.decomp_proof),
                self.signature_on_decomp@,
            )),
            r matches Err(e) ==> e == (if !dlk_verifies_s(
                conf.srs.g2,
                self.decomp_proof.gs,
                self.decomp_proof.proof,
            ) {
                PVSSError::NIZKProofDoesNotVerifyError
            } else {
                PVSSError::EdDSAInvalidSignatureError
            }),
    {
        match self.decomp_proof.verify(conf) {
            Ok(()) => {},
            Err(_) => {
                return Err(PVSSError::NIZKProofDoesNotVerifyError);
            },
        }
        let digest = self.decomp_proof.digest();
        match self.signature_on_decomp.verify(&digest, pk_sig) {
            Ok(()) => Ok(()),
            Err(_) => Err(PVSSError::EdDSAInvalidSignatureError),
        }
    }
}

/// The bare PVSS pair: commitments in the commitment group and encrypted
/// evaluations in the encryption group, one of each per participant.
#[derive(Clone, PartialEq)]
pub struct PVSSCore {
    /// `comms[j]` commits to the evaluation at `j + 1`.
    pub comms: Vec<G2>,
    /// `encs[j]` encrypts the evaluation at `j + 1` under participant `j`'s
    /// public key.
    pub encs: Vec<G1>,
}

impl PVSSCore {
    /// Both vectors have one entry per participant.
    pub open spec fn wf_s(self, n: int) -> bool {
        self.comms@.len() == n && self.encs@.len() == n
    }

    /// The all-identity core: the neutral element of core aggregation.
    pub fn empty(num_participants: usize) -> (r: Self)
        ensures
            r.wf_s(num_participants as int),
            forall|j: int| 0 <= j < num_participants ==> (#[trigger] r.comms@[j]).is_id_s(),
            forall|j: int| 0 <= j < num_participants ==> (#[trigger] r.encs@[j]).is_id_s(),
    {
        let mut comms: Vec<G2> = Vec::new();
        let mut encs: Vec<G1> = Vec::new();
        let mut j: usize = 0;
        while j < num_participants
            invariant
                j <= num_participants,
                comms@.len() == j,
                encs@.len() == j,
                forall|k: int| 0 <= k < j ==> (#[trigger] comms@[k]).is_id_s(),
                forall|k: int| 0 <= k < j ==> (#[trigger] encs@[k]).is_id_s(),
            decreases num_participants - j,
        {
            comms.push(G2::identity());
            encs.push(G1::identity());
            j = j + 1;
        }
        PVSSCore { comms, encs }
    }

    /// An exact copy of the core.
    pub fn duplicate(&self) -> (r: Self)
        ensures
            r.comms@ == self.comms@,
            r.encs@ == self.encs@,
    {
        let mut comms: Vec<G2> = Vec::new();
        let mut encs: Vec<G1> = Vec::new();
        let mut j: usize = 0;
        while j < self.comms.len()
            invariant
                j <= self.comms@.len(),
                comms@ == self.comms@.take(j as int),
            decreases self.comms@.len() - j,
        {
            comms.push(self.comms[j]);
            j = j + 1;
            proof {
                assert(self.comms@.take(j as int) =~= self.comms@.take(j as int - 1).push(
                    self.comms@[j as int - 1],
                ));
            }
        }
        let mut k: usize = 0;
        while k < self.encs.len()
            invariant
                k <= self.encs@.len(),
                encs@ == self.encs@.take(k as int),
            decreases self.encs@.len() - k,
        {
            encs.push(self.encs[k]);
            k = k + 1;
            proof {
                assert(self.encs@.take(k as int) =~= self.encs@.take(k as int - 1).push(
                    self.encs@[k as int - 1],
                ));
            }
        }
        proof {
            assert(self.comms@.take(self.comms@.len() as int) =~= self.comms@);
            assert(self.encs@.take(self.encs@.len() as int) =~= self.encs@);
        }
        PVSSCore { comms, encs }
    }

    /// The component-wise group sum of two cores of equal shape.
    pub fn aggregate(&self, other: &Self) -> (r: Result<Self, PVSSError>)
        ensures
            r is Ok <==> (self.comms@.len() == other.comms@.len() && self.encs@.len()
                == other.encs@.len()),
            r matches Ok(c) ==> core_sum_s(*self, *other, c),
            r matches Err(e) ==> e == PVSSError::MismatchedCommitsEncryptionsParticipantsError(
                other.encs@.len() as usize,
                other.comms@.len() as usize,
                self.comms@.len() as usize,
            ),
    {
        if self.comms.len() != other.comms.len() || self.encs.len() != other.encs.len() {
            return Err(
                PVSSError::MismatchedCommitsEncryptionsParticipantsError(
                    other.encs.len(),
                    other.comms.len(),
                    self.comms.len(),
                ),
            );
        }
        let mut comms: Vec<G2> = Vec::new();
        let mut encs: Vec<G1> = Vec::new();
        let mut j: usize = 0;
        while j < self.comms.len()
            invariant
                j <= self.comms@.len(),
                other.comms@.len() == self.comms@.len(),
                comms@.len() == j,
                forall|k: int|
                    0 <= k < j ==> ((#[trigger] comms@[k]) == g2_add_s(
                        self.comms@[k],
                        other.comms@[k],
                    ) && comms@[k] == g2_add_s(other.comms@[k], self.comms@[k]) && (g2_is_id_s(
                        self.comms@[k],
                    ) ==> comms@[k] == other.comms@[k]) && (g2_is_id_s(other.comms@[k])
                        ==> comms@[k] == self.comms@[k])),
            decreases self.comms@.len() - j,
        {
            let sum = self.comms[j].add_to(&other.comms[j]);
            comms.push(sum);
            j = j + 1;
        }
        let mut k: usize = 0;
        while k < self.encs.len()
            invariant
                k <= self.encs@.len(),
                other.encs@.len() == self.encs@.len(),
                encs@.len() == k,
                forall|m: int|
                    0 <= m < k ==> ((#[trigger] encs@[m]) == g1_add_s(self.encs@[m], other.encs@[m])
                        && encs@[m] == g1_add_s(other.encs@[m], self.encs@[m]) && (g1_is_id_s(
                        self.encs@[m],
                    ) ==> encs@[m] == other.encs@[m]) && (g1_is_id_s(other.encs@[m]) ==> encs@[m]
                        == self.encs@[m])),
            decreases self.encs@.len() - k,
        {
            let sum = self.encs[k].add_to(&other.encs[k]);
            encs.push(sum);
            k = k + 1;
        }
        Ok(PVSSCore { comms, encs })
    }
}

/// That `c` is the component-wise sum of the cores `a` and `b`: each entry
/// is the group sum of the matching entries, in either order, and an
/// identity entry on one side leaves the other side's entry unchanged.
pub open spec fn core_sum_s(a: PVSSCore, b: PVSSCore, c: PVSSCore) -> bool {
    &&& a.comms@.len() == b.comms@.len()
    &&& a.encs@.len() == b.encs@.len()
    &&& c.comms@.len() == a.comms@.len()
    &&& c.encs@.len() == a.encs@.len()
    &&& forall|j: int|
        0 <= j < a.comms@.len() ==> ((#[trigger] c.comms@[j]) == g2_add_s(a.comms@[j], b.comms@[j])
            && c.comms@[j] == g2_add_s(b.comms@[j], a.comms@[j]) && (g2_is_id_s(a.comms@[j])
            ==> c.comms@[j] == b.comms@[j]) && (g2_is_id_s(b.comms@[j]) ==> c.comms@[j]
            == a.comms@[j]))
    &&& forall|j: int|
        0 <= j < a.encs@.len() ==> ((#[trigger] c.encs@[j]) == g1_add_s(a.encs@[j], b.encs@[j])
            && c.encs@[j] == g1_add_s(b.encs@[j], a.encs@[j]) && (g1_is_id_s(a.encs@[j])
            ==> c.encs@[j] == b.encs@[j]) && (g1_is_id_s(b.encs@[j]) ==> c.encs@[j] == a.encs@[j]))
}

/// The secrets a dealer keeps after issuing a share: the free term of its
/// polynomial and its own encrypted evaluation, lifted to the encryption
/// group by the SRS generator.
pub struct PVSSShareSecrets {
    /// The free term `p(0)` of the sharing polynomial.
    pub p_0: Fr,
    /// The dealer's own secret share `g1 * p(id + 1)`.
    pub my_secret: G1,
}

/// One dealer's share: the core, the issuer id, and the signed proof.
#[derive(Clone, PartialEq)]
pub struct PVSSShare {
    /// The id of the issuing dealer.
    pub participant_id: usize,
    /// The core of the share.
    pub pvss_core: PVSSCore,
    /// The signed decomposition proof.
    pub signed_proof: SignedProof,
}

/// An aggregation of PVSS shares: the summed core, and one weighted signed
/// proof per contributing dealer, stored at the dealer's id.
#[derive(Clone, PartialEq)]
pub struct PVSSAggregatedShare {
    /// The number of participants `n`.
    pub num_participants: usize,
    /// The degree `t` of the sharing polynomials.
    pub degree: usize,
    /// The component-wise sum of every contribution's core.
    pub pvss_core: PVSSCore,
    /// At id `i`: the signed proof of dealer `i` and the number of times
    /// that dealer's share was folded in, or nothing.
    pub contributions: Vec<Option<(SignedProof, u64)>>,
}

/// How two contribution entries merge: weights add, and the first side's
/// signed proof is kept (the caller has checked that the statements agree).
pub open spec fn merged_contribution_s(
    a: Option<(SignedProof, u64)>,
    b: Option<(SignedProof, u64)>,
) -> Option<(SignedProof, u64)> {
    match (a, b) {
        (Some(x), Some(y)) => Some((x.0, (x.1 + y.1) as u64)),
        (Some(x), None) => Some(x),
        (None, Some(y)) => Some(y),
        (None, None) => None,
    }
}

/// That contributions for the same id on the two sides carry different
/// statements, which forbids merging.
pub open spec fn conflicting_gs_s(
    a: Seq<Option<(SignedProof, u64)>>,
    b: Seq<Option<(SignedProof, u64)>>,
    id: int,
) -> bool {
    &&& a[id] is Some
    &&& b[id] is Some
    &&& (a[id]->0).0.decomp_proof.gs != (b[id]->0).0.decomp_proof.gs
}

/// That the weights for one id cannot be added without overflow.
pub open spec fn weight_overflow_s(
    a: Seq<Option<(SignedProof, u64)>>,
    b: Seq<Option<(SignedProof, u64)>>,
    id: int,
) -> bool {
    &&& a[id] is Some
    &&& b[id] is Some
    &&& (a[id]->0).1 + (b[id]->0).1 > u64::MAX
}

/// That `c` is the aggregation of the transcripts `a` and `b`: same
/// parameters, summed core, and contribution maps merged id by id with
/// weights added.
pub open spec fn agg_result_s(
    a: PVSSAggregatedShare,
    b: PVSSAggregatedShare,
    c: PVSSAggregatedShare,
) -> bool {
    &&& c.num_participants == a.num_participants
    &&& c.degree == a.degree
    &&& core_sum_s(a.pvss_core, b.pvss_core, c.pvss_core)
    &&& c.contributions@.len() == a.num_participants
    &&& forall|id: int|
        0 <= id < a.num_participants ==> (#[trigger] c.contributions@[id])
            == merged_contribution_s(a.contributions@[id], b.contributions@[id])
}

impl PVSSAggregatedShare {
    /// The core and the contribution slots both have one entry per
    /// participant.
    pub open spec fn wf_s(self) -> bool {
        &&& self.pvss_core.wf_s(self.num_participants as int)
        &&& self.contributions@.len() == self.num_participants
    }

    /// The empty transcript: identity core, no contributions.
    pub fn empty(degree: usize, num_participants: usize) -> (r: Self)
        ensures
            r.wf_s(),
            r.degree == degree,
            r.num_participants == num_participants,
            forall|id: int| 0 <= id < num_participants ==> (#[trigger] r.contributions@[id]) is None,
            forall|j: int|
                0 <= j < num_participants ==> (#[trigger] r.pvss_core.comms@[j]).is_id_s(),
            forall|j: int| 0 <= j < num_participants ==> (#[trigger] r.pvss_core.encs@[j]).is_id_s(),
    {
        let mut contributions: Vec<Option<(SignedProof, u64)>> = Vec::new();
        let mut id: usize = 0;
        while id < num_participants
            invariant
                id <= num_participants,
                contributions@.len() == id,
                forall|k: int| 0 <= k < id ==> (#[trigger] contributions@[k]) is None,
            decreases num_participants - id,
        {
            contributions.push(None);
            id = id + 1;
        }
        PVSSAggregatedShare {
            num_participants,
            degree,
            pvss_core: PVSSCore::empty(num_participants),
            contributions,
        }
    }

    /// Aggregates two transcripts under the same parameters: the cores add
    /// component-wise and the weights add id by id. Contributions for one
    /// id must carry the same statement, and the first side's signed proof
    /// is the one kept.
    pub fn aggregate(&self, other: &Self) -> (r: Result<Self, PVSSError>)
        requires
            self.wf_s(),
            other.wf_s(),
        ensures
            (self.degree != other.degree || self.num_participants != other.num_participants)
                <==> r == Err::<PVSSAggregatedShare, PVSSError>(
                PVSSError::TranscriptDifferentConfig(
                    self.degree,
                    other.degree,
                    self.num_participants,
                    other.num_participants,
                ),
            ),
            (self.degree == other.degree && self.num_participants == other.num_participants) ==> (r
                is Ok <==> ((forall|id: int|
                0 <= id < self.num_participants ==> !conflicting_gs_s(
                    self.contributions@,
                    other.contributions@,
                    id,
                )) && (forall|id: int|
                0 <= id < self.num_participants ==> !weight_overflow_s(
                    self.contributions@,
                    other.contributions@,
                    id,
                )))),
            r matches Ok(c) ==> (agg_result_s(*self, *other, c) && c.wf_s()),
            (r matches Err(e) && e is TranscriptDifferentCommitments) ==> exists|id: int|
                0 <= id < self.num_participants && conflicting_gs_s(
                    self.contributions@,
                    other.contributions@,
                    id,
                ),
            (r matches Err(e) && e is EvaluationDomainError) ==> exists|id: int|
                0 <= id < self.num_participants && weight_overflow_s(
                    self.contributions@,
                    other.contributions@,
                    id,
                ),
            r matches Err(e) ==> (e is TranscriptDifferentConfig || e
                is TranscriptDifferentCommitments || e is EvaluationDomainError),
    {
        if self.degree != other.degree || self.num_participants != other.num_participants {
            return Err(
                PVSSError::TranscriptDifferentConfig(
                    self.degree,
                    other.degree,
                    self.num_participants,
                    other.num_participants,
                ),
            );
        }
        let n = self.num_participants;
        let mut contributions: Vec<Option<(SignedProof, u64)>> = Vec::new();
        let mut id: usize = 0;
        while id < n
            invariant
                id <= n,
                n == self.num_participants,
                self.degree == other.degree,
                self.num_participants == other.num_participants,
                self.contributions@.len() == n,
                other.contributions@.len() == n,
                contributions@.len() == id,
                forall|k: int|
                    0 <= k < id ==> !conflicting_gs_s(self.contributions@, other.contributions@, k),
                forall|k: int|
                    0 <= k < id ==> !weight_overflow_s(self.contributions@, other.contributions@, k),
                forall|k: int|
                    0 <= k < id ==> (#[trigger] contributions@[k]) == merged_contribution_s(
                        self.contributions@[k],
                        other.contributions@[k],
                    ),
            decreases n - id,
        {
            let merged: Option<(SignedProof, u64)> = match (
                self.contributions[id],
                other.contributions[id],
            ) {
                (Some(x), Some(y)) => {
                    if !x.0.decomp_proof.gs.equals(&y.0.decomp_proof.gs) {
                        proof {
                            assert(conflicting_gs_s(
                                self.contributions@,
                                other.contributions@,
                                id as int,
                            ));
                        }
                        return Err(PVSSError::TranscriptDifferentCommitments);
                    }
                    if x.1 > u64::MAX - y.1 {
                        proof {
                            assert(weight_overflow_s(
                                self.contributions@,
                                other.contributions@,
                                id as int,
                            ));
                        }
                        return Err(PVSSError::EvaluationDomainError);
                    }
                    Some((x.0, x.1 + y.1))
                },
                (Some(x), None) => Some(x),
                (None, Some(y)) => Some(y),
                (None, None) => None,
            };
            contributions.push(merged);
            id = id + 1;
        }
        let core = match self.pvss_core.aggregate(&other.pvss_core) {
            Ok(c) => c,
            Err(e) => {
                return Err(e);
            },
        };
        Ok(
            PVSSAggregatedShare {
                num_participants: n,
                degree: self.degree,
                pvss_core: core,
                contributions,
            },
        )
    }

    /// Folds one share into the transcript: the share becomes a singleton
    /// transcript of weight one and the two are aggregated, so an id seen
    /// again keeps its first signed proof and gains weight.
    pub fn aggregate_pvss_share(&self, other: &PVSSShare) -> (r: Result<Self, PVSSError>)
        requires
            self.wf_s(),
        ensures
            r matches Ok(c) ==> (c.wf_s() && other.participant_id < self.num_participants
                && other.pvss_core.wf_s(self.num_participants as int) && core_sum_s(
                self.pvss_core,
                other.pvss_core,
                c.pvss_core,
            ) && c.num_participants == self.num_participants && c.degree == self.degree && (forall|
                k: int,
            |
                (0 <= k < self.num_participants && k != other.participant_id) ==> (
                #[trigger] c.contributions@[k]) == self.contributions@[k]) && c.contributions@[other.participant_id as int]
                == merged_contribution_s(
                self.contributions@[other.participant_id as int],
                Some((other.signed_proof, 1u64)),
            )),
            other.participant_id >= self.num_participants <==> r == Err::<
                PVSSAggregatedShare,
                PVSSError,
            >(PVSSError::InvalidParticipantId(other.participant_id)),
            (other.participant_id < self.num_participants && !other.pvss_core.wf_s(
                self.num_participants as int,
            )) <==> r == Err::<PVSSAggregatedShare, PVSSError>(
                PVSSError::MismatchedCommitsEncryptionsParticipantsError(
                    other.pvss_core.encs@.len() as usize,
                    other.pvss_core.comms@.len() as usize,
                    self.num_participants,
                ),
            ),
            (r matches Err(e) && e is TranscriptDifferentCommitments) ==> (
            self.contributions@[other.participant_id as int] matches Some(x)
                && x.0.decomp_proof.gs != other.signed_proof.decomp_proof.gs),
            (r matches Err(e) && e is EvaluationDomainError) ==> (
            self.contributions@[other.participant_id as int] matches Some(x) && x.1 + 1
                > u64::MAX),
            (other.participant_id < self.num_participants && other.pvss_core.wf_s(
                self.num_participants as int,
            )) ==> (r is Ok <==> !(self.contributions@[other.participant_id as int] matches Some(x)
                && (x.0.decomp_proof.gs != other.signed_proof.decomp_proof.gs || x.1 + 1
                    > u64::MAX))),
    {
        let n = self.num_participants;
        if other.participant_id >= n {
            return Err(PVSSError::InvalidParticipantId(other.participant_id));
        }
        if other.pvss_core.comms.len() != n || other.pvss_core.encs.len() != n {
            return Err(
                PVSSError::MismatchedCommitsEncryptionsParticipantsError(
                    other.pvss_core.encs.len(),
                    other.pvss_core.comms.len(),
                    n,
                ),
            );
        }
        let mut contributions: Vec<Option<(SignedProof, u64)>> = Vec::new();
        let mut id: usize = 0;
        while id < n
            invariant
                id <= n,
                other.participant_id < n,
                contributions@.len() == id,
                forall|k: int|
                    0 <= k < id ==> (#[trigger] contributions@[k]) == (if k
                        == other.participant_id {
                        Some((other.signed_proof, 1u64))
                    } else {
                        None::<(SignedProof, u64)>
                    }),
            decreases n - id,
        {
            if id == other.participant_id {
                contributions.push(Some((other.signed_proof, 1u64)));
            } else {
                contributions.push(None);
            }
            id = id + 1;
        }
        let other_agg = PVSSAggregatedShare {
            num_participants: n,
            degree: self.degree,
            pvss_core: other.pvss_core.duplicate(),
            contributions,
        };
        let r = self.aggregate(&other_agg);
        proof {
            let pid = other.participant_id as int;
            assert(other_agg.contributions@[pid] == Some((other.signed_proof, 1u64)));
            assert(conflicting_gs_s(self.contributions@, other_agg.contributions@, pid) <==> (
            self.contributions@[pid] matches Some(x) && x.0.decomp_proof.gs
                != other.signed_proof.decomp_proof.gs));
            assert(weight_overflow_s(self.contributions@, other_agg.contributions@, pid) <==> (
            self.contributions@[pid] matches Some(x) && x.1 + 1 > u64::MAX));
            assert forall|k: int| 0 <= k < n && k != pid implies !conflicting_gs_s(
                self.contributions@,
                other_agg.contributions@,
                k,
            ) && !weight_overflow_s(self.contributions@, other_agg.contributions@, k) by {
                assert(other_agg.contributions@[k] is None);
            }
            if r is Ok {
                let c = r->Ok_0;
                assert forall|k: int| 0 <= k < n && k != pid implies (#[trigger] c.contributions@[k])
                    == self.contributions@[k] by {
                    assert(c.contributions@[k] == merged_contribution_s(
                        self.contributions@[k],
                        other_agg.contributions@[k],
                    ));
                    assert(other_agg.contributions@[k] is None);
                }
            }
        }
        r
    }
}

/// Aggregation of transcripts is commutative: under the same parameters,
/// with contributions whose statements agree and whose common entries carry
/// the same signed proof, the two orders of aggregation give the same
/// transcript, entry for entry.
pub proof fn lemma_aggregate_commutes(
    a: PVSSAggregatedShare,
    b: PVSSAggregatedShare,
    x: PVSSAggregatedShare,
    y: PVSSAggregatedShare,
)
    requires
        a.wf_s(),
        b.wf_s(),
        a.num_participants == b.num_participants,
        a.degree == b.degree,
        agg_result_s(a, b, x),
        agg_result_s(b, a, y),
        forall|id: int|
            0 <= id < a.num_participants ==> ((a.contributions@[id] is Some
                && b.contributions@[id] is Some) ==> ((#[trigger] a.contributions@[id])->0).0
                == (b.contributions@[id]->0).0),
    ensures
        x.num_participants == y.num_participants,
        x.degree == y.degree,
        x.pvss_core.comms@ == y.pvss_core.comms@,
        x.pvss_core.encs@ == y.pvss_core.encs@,
        x.contributions@ == y.contributions@,
{
    assert(x.pvss_core.comms@ =~= y.pvss_core.comms@);
    assert(x.pvss_core.encs@ =~= y.pvss_core.encs@);
    assert forall|id: int| 0 <= id < a.num_participants implies (#[trigger] x.contributions@[id])
        == y.contributions@[id] by {
        assert(x.contributions@[id] == merged_contribution_s(
            a.contributions@[id],
            b.contributions@[id],
        ));
        assert(y.contributions@[id] == merged_contribution_s(
            b.contributions@[id],
            a.contributions@[id],
        ));
    }
    assert(x.contributions@ =~= y.contributions@);
}

} // verus!
