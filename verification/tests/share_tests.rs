use pvss::config::Config;
use pvss::curve::{fr_from_u64, EcGroup, G1, G2};
use pvss::decomp::Decomp;
use pvss::eddsa::{generate_production_keypair, Signature};
use pvss::poly::{poly_eval, sample_polynomial};
use pvss::schnorr::{SchnorrSignature, SRS as SCHSRS};
use pvss::share::{PVSSAggregatedShare, PVSSCore, PVSSShare, SignedProof};
use pvss::srs::SRS;

#[test]
fn test_generate_valid_signed_proof() {
    let t = 3;
    let n = 10;

    let p_0 = fr_from_u64(10);

    // PVSS setup
    let srs = SRS::setup().unwrap();
    let conf = Config { srs, degree: t, num_participants: n };

    // EdDSA setup
    let (pk_sig, sk_sig) = generate_production_keypair();

    // generate decomposition proof
    let dproof = Decomp::generate(&conf, &p_0).unwrap();

    // sign the proof
    let sig = Signature::new(&dproof.digest(), &sk_sig).unwrap();

    let sproof = SignedProof { decomp_proof: dproof, signature_on_decomp: sig };

    // verify the signed proof
    sproof.verify(&conf, &pk_sig).unwrap();
}

#[test]
fn test_create_empty_aggregated_pvss_share() {
    let t = 3;
    let n = 10;

    // create an empty aggregated share
    let empty_share = PVSSAggregatedShare::empty(t, n);

    // the expected result
    let exp_result = PVSSAggregatedShare {
        num_participants: n,
        degree: t,
        pvss_core: PVSSCore {
            comms: vec![G2::identity(); n],
            encs: vec![G1::identity(); n],
        },
        contributions: vec![None; n],
    };

    assert!(empty_share == exp_result);
}

#[test]
fn test_create_pvss_share() {
    let t = 3;
    let n = 10;

    let id = 5_usize;

    // sample a random degree t polynomial
    let poly = sample_polynomial(t);
    let p_0 = poly[0]; // the free term

    // PVSS setup
    let srs = SRS::setup().unwrap();
    let conf = Config { srs, degree: t, num_participants: n };

    // Schnorr setup (over group G1)
    let schnorr_srs = SCHSRS::<G1>::setup().unwrap();
    let schnorr_sig = SchnorrSignature { srs: schnorr_srs };
    let (_schnorr_sk, schnorr_pk) = schnorr_sig.generate_keypair().unwrap();

    // EdDSA setup
    let (_pk_sig, sk_sig) = generate_production_keypair();

    // generate decomposition proof
    let dproof = Decomp::generate(&conf, &p_0).unwrap();

    // sign the proof
    let sig = Signature::new(&dproof.digest(), &sk_sig).unwrap();

    let sproof = SignedProof { decomp_proof: dproof, signature_on_decomp: sig };

    // evaluate poly(j) for all j in {1, ..., n}
    let evals: Vec<_> = (1..=n).map(|j| poly_eval(&poly, &fr_from_u64(j as u64))).collect();

    // commitments for all nodes in {0, ..., n-1}
    let comms: Vec<G2> = (0..=(n - 1)).map(|j| conf.srs.g2.mul_by(&evals[j])).collect();

    // dummy vector of random Schnorr public keys; only party id's is genuine
    let mut schnorr_pks = vec![G1::sample(); n];
    schnorr_pks[id] = schnorr_pk;

    // encryptions for all nodes in {0, ..., n-1}
    let encs: Vec<G1> = (0..=(n - 1)).map(|j| schnorr_pks[j].mul_by(&evals[j])).collect();

    // compose the PVSS core
    let pvss_core = PVSSCore { comms, encs };

    // create the PVSS share
    let _pvss_share = PVSSShare { participant_id: id, pvss_core, signed_proof: sproof };
}

#[test]
fn test_aggregation_of_pvss_share() {
    let t = 3;
    let n = 10;

    let id = 5_usize;

    let poly = sample_polynomial(t);
    let p_0 = poly[0];

    let srs = SRS::setup().unwrap();
    let conf = Config { srs, degree: t, num_participants: n };

    let schnorr_srs = SCHSRS::<G1>::setup().unwrap();
    let schnorr_sig = SchnorrSignature { srs: schnorr_srs };
    let (_schnorr_sk, schnorr_pk) = schnorr_sig.generate_keypair().unwrap();

    let (_pk_sig, sk_sig) = generate_production_keypair();

    let dproof = Decomp::generate(&conf, &p_0).unwrap();
    let sig = Signature::new(&dproof.digest(), &sk_sig).unwrap();
    let sproof = SignedProof { decomp_proof: dproof, signature_on_decomp: sig };

    let evals: Vec<_> = (1..=n).map(|j| poly_eval(&poly, &fr_from_u64(j as u64))).collect();
    let comms: Vec<G2> = (0..=(n - 1)).map(|j| conf.srs.g2.mul_by(&evals[j])).collect();

    let mut schnorr_pks = vec![G1::sample(); n];
    schnorr_pks[id] = schnorr_pk;

    let encs: Vec<G1> = (0..=(n - 1)).map(|j| schnorr_pks[j].mul_by(&evals[j])).collect();

    let pvss_core = PVSSCore { comms, encs };

    let pvss_share = PVSSShare {
        participant_id: id,
        pvss_core: pvss_core.clone(),
        signed_proof: sproof.clone(),
    };

    // aggregate the share into an empty aggregated share
    let mut aggr_share = PVSSAggregatedShare::empty(t, n);
    aggr_share = aggr_share.aggregate_pvss_share(&pvss_share).unwrap();

    // the expected contributions hold only the party's signed proof
    let mut contribs: Vec<Option<(SignedProof, u64)>> = vec![None; n];
    contribs[id] = Some((sproof, 1));

    // the expected result
    let exp_result = PVSSAggregatedShare {
        num_participants: n,
        degree: t,
        pvss_core,
        contributions: contribs,
    };

    assert!(aggr_share == exp_result);
}

#[test]
fn test_aggregation_of_two_pvss_shares() {
    let t = 3;
    let n = 10;

    let id_a = 2_usize;
    let id_b = 3_usize;

    let srs = SRS::setup().unwrap();
    let conf = Config { srs, degree: t, num_participants: n };

    let schnorr_srs = SCHSRS::<G1>::setup().unwrap();
    let schnorr_sig = SchnorrSignature { srs: schnorr_srs };

    // a random degree t polynomial per party
    let poly_a = sample_polynomial(t);
    let p_0_a = poly_a[0];
    let poly_b = sample_polynomial(t);
    let p_0_b = poly_b[0];

    let (_schnorr_sk_a, schnorr_pk_a) = schnorr_sig.generate_keypair().unwrap();
    let (_schnorr_sk_b, schnorr_pk_b) = schnorr_sig.generate_keypair().unwrap();

    let (_pk_sig_a, sk_sig_a) = generate_production_keypair();
    let (_pk_sig_b, sk_sig_b) = generate_production_keypair();

    let dproof_a = Decomp::generate(&conf, &p_0_a).unwrap();
    let dproof_b = Decomp::generate(&conf, &p_0_b).unwrap();

    let sig_a = Signature::new(&dproof_a.digest(), &sk_sig_a).unwrap();
    let sig_b = Signature::new(&dproof_b.digest(), &sk_sig_b).unwrap();

    let sproof_a = SignedProof { decomp_proof: dproof_a, signature_on_decomp: sig_a };
    let sproof_b = SignedProof { decomp_proof: dproof_b, signature_on_decomp: sig_b };

    let evals_a: Vec<_> = (1..=n).map(|j| poly_eval(&poly_a, &fr_from_u64(j as u64))).collect();
    let evals_b: Vec<_> = (1..=n).map(|j| poly_eval(&poly_b, &fr_from_u64(j as u64))).collect();

    let comms_a: Vec<G2> = (0..=(n - 1)).map(|j| conf.srs.g2.mul_by(&evals_a[j])).collect();
    let comms_b: Vec<G2> = (0..=(n - 1)).map(|j| conf.srs.g2.mul_by(&evals_b[j])).collect();

    let mut schnorr_pks = vec![G1::sample(); n];
    schnorr_pks[id_a] = schnorr_pk_a;
    schnorr_pks[id_b] = schnorr_pk_b;

    let encs_a: Vec<G1> = (0..=(n - 1)).map(|j| schnorr_pks[j].mul_by(&evals_a[j])).collect();
    let encs_b: Vec<G1> = (0..=(n - 1)).map(|j| schnorr_pks[j].mul_by(&evals_b[j])).collect();

    let pvss_core_a = PVSSCore { comms: comms_a.clone(), encs: encs_a.clone() };
    let pvss_core_b = PVSSCore { comms: comms_b.clone(), encs: encs_b.clone() };

    let pvss_share_a = PVSSShare {
        participant_id: id_a,
        pvss_core: pvss_core_a.clone(),
        signed_proof: sproof_a.clone(),
    };
    let pvss_share_b = PVSSShare {
        participant_id: id_b,
        pvss_core: pvss_core_b.clone(),
        signed_proof: sproof_b.clone(),
    };

    // aggregate the two shares; the order of aggregation is irrelevant
    let mut aggr_share = PVSSAggregatedShare::empty(t, n);
    aggr_share = aggr_share.aggregate_pvss_share(&pvss_share_a).unwrap();
    aggr_share = aggr_share.aggregate_pvss_share(&pvss_share_b).unwrap();

    let pvss_core = PVSSCore::empty(n)
        .aggregate(&pvss_core_a)
        .unwrap()
        .aggregate(&pvss_core_b)
        .unwrap();

    // the expected contributions hold both parties' signed proofs
    let mut contribs: Vec<Option<(SignedProof, u64)>> = vec![None; n];
    contribs[id_a] = Some((sproof_a, 1));
    contribs[id_b] = Some((sproof_b, 1));

    let exp_result = PVSSAggregatedShare {
        num_participants: n,
        degree: t,
        pvss_core,
        contributions: contribs,
    };

    assert!(aggr_share == exp_result);
}
