//! A protocol node: one party acting as both dealer (issuing a share of a
//! fresh random secret) and aggregator (verifying and folding the shares of
//! its peers).

use vstd::prelude::*;

use crate::aggregator::PVSSAggregator;
use crate::config::Config;
use crate::curve::{EcGroup, Fr, G1, fr_from_u64, fr_from_u64_s, g1_mul_s, g2_mul_s};
use crate::decomp::{Decomp, decomp_digest_s};
use crate::dlk::dlk_proof_for_s;
use crate::eddsa::{Signature, ed_keypair_ok_s, ed_sign_s};
use crate::errors::PVSSError;
use crate::participant::{Dealer, Participant};
use crate::poly::{poly_eval, poly_eval_s, sample_polynomial};
use crate::schnorr::SchnorrSignature;
use crate::share::{PVSSCore, PVSSShare, PVSSShareSecrets, SignedProof};

verus! {

/// That `core` is an honest dealing under the polynomial `coeffs`: each
/// commitment is the evaluation at `j + 1` lifted by the commitment-group
/// generator, and each encryption is the same evaluation lifted by the
/// recipient's public key.
pub open spec fn honest_core_s(
    config: Config,
    participants: Seq<Participant>,
    coeffs: Seq<Fr>,
    core: PVSSCore,
) -> bool {
    let n = config.num_participants as int;
    &&& coeffs.len() == config.degree + 1
    &&& core.comms@.len() == n
    &&& core.encs@.len() == n
    &&& forall|j: int|
        0 <= j < n ==> (#[trigger] core.comms@[j]) == g2_mul_s(
            config.srs.g2,
            poly_eval_s(coeffs, fr_from_u64_s((j + 1) as u64)),
        )
    &&& forall|j: int|
        0 <= j < n ==> (#[trigger] core.encs@[j]) == g1_mul_s(
            participants[j].public_key_sig,
            poly_eval_s(coeffs, fr_from_u64_s((j + 1) as u64)),
        )
}

/// That an honest dealing also kept the right secrets: the polynomial's
/// free term, and the dealer's own evaluation lifted by the encryption
/// generator.
pub open spec fn honest_deal_s(
    config: Config,
    participants: Seq<Participant>,
    id: usize,
    coeffs: Seq<Fr>,
    core: PVSSCore,
    secrets: PVSSShareSecrets,
) -> bool {
    &&& honest_core_s(config, participants, coeffs, core)
    &&& secrets.p_0 == coeffs[0]
    &&& secrets.my_secret == g1_mul_s(
        config.srs.g1,
        poly_eval_s(coeffs, fr_from_u64_s((id + 1) as u64)),
    )
}

/// That `share` is an honest share of the dealer under polynomial `coeffs`
/// and proof nonce `nonce`: an honest core, a decomposition proof for the
/// free term, and the dealer's signature on the proof's digest.
pub open spec fn honest_share_s(
    config: Config,
    participants: Seq<Participant>,
    dealer: Dealer,
    coeffs: Seq<Fr>,
    nonce: Fr,
    share: PVSSShare,
) -> bool {
    &&& share.participant_id == dealer.participant.id
    &&& honest_core_s(config, participants, coeffs, share.pvss_core)
    &&& share.signed_proof.decomp_proof.gs == g2_mul_s(config.srs.g2, coeffs[0])
    &&& dlk_proof_for_s(config.srs.g2, coeffs[0], nonce, share.signed_proof.decomp_proof.proof)
    &&& share.signed_proof.signature_on_decomp@ == ed_sign_s(
        dealer.private_key_ed@,
        decomp_digest_s(share.signed_proof.decomp_proof),
    )
}

/// One party of the protocol: its aggregator half and its dealer half.
pub struct Node {
    /// The aggregator aspect of the node.
    pub aggregator: PVSSAggregator,
    /// The dealer aspect of the node.
    pub dealer: Dealer,
}

impl Node {
    /// Builds a node around a fresh, empty aggregator.
    pub fn new(
        config: Config,
        scheme_sig: SchnorrSignature<G1>,
        dealer: Dealer,
        participants: Vec<Participant>,
    ) -> (r: Result<Node, PVSSError>)
        ensures
            r is Ok <==> (participants@.len() == config.num_participants && forall|i: int|
                0 <= i < participants@.len() ==> (#[trigger] participants@[i]).id == i),
            r matches Ok(node) ==> (node.aggregator.wf_s() && node.aggregator.config == config
                && node.aggregator.participants@ == participants@
                && node.dealer.participant == dealer.participant
                && node.dealer.private_key_sig == dealer.private_key_sig
                && node.dealer.private_key_ed@ == dealer.private_key_ed@ && forall|id: int|
                0 <= id < config.num_participants ==> (
                #[trigger] node.aggregator.aggregated_tx.contributions@[id]) is None),
    {
        let aggregator = match PVSSAggregator::new(config, scheme_sig, participants) {
            Ok(a) => a,
            Err(e) => {
                return Err(e);
            },
        };
        Ok(Node { aggregator, dealer })
    }

    /// Samples a fresh degree-`t` polynomial and deals it: commitments and
    /// encryptions of its evaluations at `1 ..= n`, plus the dealer's own
    /// secrets.
    pub fn share_pvss(&self) -> (r: Result<(PVSSCore, PVSSShareSecrets), PVSSError>)
        requires
            self.aggregator.wf_s(),
            self.aggregator.config.degree < usize::MAX,
        ensures
            r is Ok <==> self.dealer.participant.id < self.aggregator.config.num_participants,
            r matches Ok(p) ==> exists|coeffs: Seq<Fr>|
                #[trigger] honest_deal_s(
                    self.aggregator.config,
                    self.aggregator.participants@,
                    self.dealer.participant.id,
                    coeffs,
                    p.0,
                    p.1,
                ),
            r matches Err(e) ==> e == PVSSError::InvalidParticipantId(self.dealer.participant.id),
    {
        let t = self.aggregator.config.degree;
        let n = self.aggregator.config.num_participants;
        let id = self.dealer.participant.id;
        if id >= n {
            return Err(PVSSError::InvalidParticipantId(id));
        }
        let coeffs = sample_polynomial(t);
        let mut evals: Vec<Fr> = Vec::new();
        let mut j: usize = 0;
        while j < n
            invariant
                j <= n,
                evals@.len() == j,
                forall|k: int|
                    0 <= k < j ==> (#[trigger] evals@[k]) == poly_eval_s(
                        coeffs@,
                        fr_from_u64_s((k + 1) as u64),
                    ),
            decreases n - j,
        {
            let x = fr_from_u64((j as u64) + 1);
            evals.push(poly_eval(&coeffs, &x));
            j = j + 1;
        }
        let mut comms: Vec<crate::curve::G2> = Vec::new();
        let mut encs: Vec<G1> = Vec::new();
        let mut k: usize = 0;
        while k < n
            invariant
                k <= n,
                n == self.aggregator.config.num_participants,
                self.aggregator.participants@.len() == n,
                evals@.len() == n,
                comms@.len() == k,
                encs@.len() == k,
                forall|m: int|
                    0 <= m < n ==> (#[trigger] evals@[m]) == poly_eval_s(
                        coeffs@,
                        fr_from_u64_s((m + 1) as u64),
                    ),
                forall|m: int|
                    0 <= m < k ==> (#[trigger] comms@[m]) == g2_mul_s(
                        self.aggregator.config.srs.g2,
                        evals@[m],
                    ),
                forall|m: int|
                    0 <= m < k ==> (#[trigger] encs@[m]) == g1_mul_s(
                        self.aggregator.participants@[m].public_key_sig,
                        evals@[m],
                    ),
            decreases n - k,
        {
            comms.push(self.aggregator.config.srs.g2.mul_by(&evals[k]));
            encs.push(self.aggregator.participants[k].public_key_sig.mul_by(&evals[k]));
            k = k + 1;
        }
        let my_secret = self.aggregator.config.srs.g1.mul_by(&evals[id]);
        let p_0 = coeffs[0];
        let core = PVSSCore { comms, encs };
        let secrets = PVSSShareSecrets { p_0, my_secret };
        let result: Result<(PVSSCore, PVSSShareSecrets), PVSSError> = Ok((core, secrets));
        proof {
            assert(honest_deal_s(
                self.aggregator.config,
                self.aggregator.participants@,
                self.dealer.participant.id,
                coeffs@,
                core,
                secrets,
            ));
            assert((result->Ok_0).0 == core);
            assert((result->Ok_0).1 == secrets);
            assert(exists|cs: Seq<Fr>|
                #[trigger] honest_deal_s(
                    self.aggregator.config,
                    self.aggregator.participants@,
                    self.dealer.participant.id,
                    cs,
                    (result->Ok_0).0,
                    (result->Ok_0).1,
                ));
        }
        result
    }

    /// Issues this node's share: deals a fresh polynomial, proves knowledge
    /// of its free term, and signs the proof's digest. Fails only when the
    /// dealer's id is out of range or its signing key does not load.
    pub fn share(&self) -> (r: Result<PVSSShare, PVSSError>)
        requires
            self.aggregator.wf_s(),
            self.aggregator.config.degree < usize::MAX,
        ensures
            r is Ok <==> (self.dealer.participant.id < self.aggregator.config.num_participants
                && ed_keypair_ok_s(self.dealer.private_key_ed@)),
            r matches Ok(share) ==> exists|coeffs: Seq<Fr>, nonce: Fr|
                #[trigger] honest_share_s(
                    self.aggregator.config,
                    self.aggregator.participants@,
                    self.dealer,
                    coeffs,
                    nonce,
                    share,
                ),
            r matches Err(e) ==> e == (if self.dealer.participant.id
                >= self.aggregator.config.num_participants {
                PVSSError::InvalidParticipantId(self.dealer.participant.id)
            } else {
                PVSSError::SerializationError
            }),
    {
        let deal = match self.share_pvss() {
            Ok(p) => p,
            Err(e) => {
                return Err(e);
            },
        };
        proof {
            assert(exists|cs: Seq<Fr>|
                #[trigger] honest_deal_s(
                    self.aggregator.config,
                    self.aggregator.participants@,
                    self.dealer.participant.id,
                    cs,
                    deal.0,
                    deal.1,
                ));
        }
        let ghost coeffs = choose|cs: Seq<Fr>|
            #[trigger] honest_deal_s(
                self.aggregator.config,
                self.aggregator.participants@,
                self.dealer.participant.id,
                cs,
                deal.0,
                deal.1,
            );
        let (pvss_core, pvss_share_secrets) = deal;
        let decomp_proof = Decomp::generate(
            &self.aggregator.config,
            &pvss_share_secrets.p_0,
        ).unwrap();
        let ghost nonce = choose|nn: Fr|
            #[trigger] dlk_proof_for_s(
                self.aggregator.config.srs.g2,
                pvss_share_secrets.p_0,
                nn,
                decomp_proof.proof,
            );
        let digest = decomp_proof.digest();
        let signature_on_decomp = match Signature::new(&digest, &self.dealer.private_key_ed) {
            Some(s) => s,
            None => {
                return Err(PVSSError::SerializationError);
            },
        };
        let share = PVSSShare {
            participant_id: self.dealer.participant.id,
            pvss_core,
            signed_proof: SignedProof { decomp_proof, signature_on_decomp },
        };
        let result: Result<PVSSShare, PVSSError> = Ok(share);
        proof {
            assert(honest_deal_s(
                self.aggregator.config,
                self.aggregator.participants@,
                self.dealer.participant.id,
                coeffs,
                share.pvss_core,
                pvss_share_secrets,
            ));
            assert(dlk_proof_for_s(
                self.aggregator.config.srs.g2,
                coeffs[0],
                nonce,
                share.signed_proof.decomp_proof.proof,
            ));
            assert(honest_share_s(
                self.aggregator.config,
                self.aggregator.participants@,
                self.dealer,
                coeffs,
                nonce,
                share,
            ));
            assert(result->Ok_0 == share);
            assert(exists|cs: Seq<Fr>, nn: Fr|
                #[trigger] honest_share_s(
                    self.aggregator.config,
                    self.aggregator.participants@,
                    self.dealer,
                    cs,
                    nn,
                    result->Ok_0,
                ));
        }
        result
    }
}

} // verus!
