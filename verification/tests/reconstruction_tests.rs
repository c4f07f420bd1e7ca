use pvss::config::Config;
use pvss::curve::{fr_from_u64, gt_eq, pairing, EcGroup, G1};
use pvss::decryption::{reconstruct_beacon, reconstruct_secret, DecryptedShare};
use pvss::eddsa::generate_production_keypair;
use pvss::errors::PVSSError;
use pvss::node::Node;
use pvss::participant::{Dealer, Participant};
use pvss::poly::{poly_eval, sample_polynomial};
use pvss::schnorr::{SchnorrSignature, SRS as SCHSRS};
use pvss::srs::SRS;

#[test]
fn test_reconstruct_secret_exact() {
    // decrypted shares of a known polynomial reconstruct g1 * p(0)
    let t: usize = 3;
    let srs = SRS::setup().unwrap();

    let p = sample_polynomial(t);
    let expected = srs.g1.mul_by(&p[0]);

    let mut decs: Vec<DecryptedShare> = Vec::new();
    for origin in 0..(t + 1) {
        let eval = poly_eval(&p, &fr_from_u64((origin + 1) as u64));
        decs.push(DecryptedShare { dec: srs.g1.mul_by(&eval), origin });
    }

    let reconstructed = reconstruct_secret(&decs, t).unwrap();
    assert!(reconstructed == expected);
}

#[test]
fn test_reconstruct_insufficient_decryptions() {
    let t: usize = 3;
    let srs = SRS::setup().unwrap();
    let p = sample_polynomial(t);

    let mut decs: Vec<DecryptedShare> = Vec::new();
    for origin in 0..t {
        let eval = poly_eval(&p, &fr_from_u64((origin + 1) as u64));
        decs.push(DecryptedShare { dec: srs.g1.mul_by(&eval), origin });
    }

    let r = reconstruct_secret(&decs, t);
    assert!(matches!(r, Err(PVSSError::InsufficientEvaluationsError)));
}

#[test]
fn test_reconstruct_duplicate_origin() {
    let t: usize = 2;
    let srs = SRS::setup().unwrap();
    let p = sample_polynomial(t);

    let eval = poly_eval(&p, &fr_from_u64(1));
    let share = DecryptedShare { dec: srs.g1.mul_by(&eval), origin: 0 };
    let decs = vec![share.clone(), share.clone(), share];

    let r = reconstruct_secret(&decs, t);
    assert!(matches!(r, Err(PVSSError::EvaluationDomainError)));
}

#[test]
fn test_reconstruct_beacon_across_subcommittees() {
    // two disjoint committees of size t + 1 reconstruct the same beacon
    let t: usize = 3;
    let n: usize = 8;
    let srs = SRS::setup().unwrap();
    let epoch_generator = srs.g2;

    let p = sample_polynomial(t);

    let mut decs: Vec<DecryptedShare> = Vec::new();
    for origin in 0..n {
        let eval = poly_eval(&p, &fr_from_u64((origin + 1) as u64));
        decs.push(DecryptedShare { dec: srs.g1.mul_by(&eval), origin });
    }

    let left: Vec<DecryptedShare> = decs[0..4].to_vec();
    let right: Vec<DecryptedShare> = decs[4..8].to_vec();
    let mixed: Vec<DecryptedShare> = vec![decs[2], decs[4], decs[0], decs[6]];

    let b1 = reconstruct_beacon(&left, t, &epoch_generator).unwrap();
    let b2 = reconstruct_beacon(&right, t, &epoch_generator).unwrap();
    let b3 = reconstruct_beacon(&mixed, t, &epoch_generator).unwrap();

    assert!(gt_eq(&b1, &b2));
    assert!(gt_eq(&b2, &b3));
}

fn make_dealer(schnorr_sig: &SchnorrSignature<G1>, id: usize) -> Dealer {
    let dealer_keypair_sig = schnorr_sig.generate_keypair().unwrap();
    let eddsa_keypair = generate_production_keypair();
    Dealer {
        private_key_sig: dealer_keypair_sig.0,
        private_key_ed: eddsa_keypair.1,
        participant: Participant {
            id,
            public_key_sig: dealer_keypair_sig.1,
            public_key_ed: eddsa_keypair.0,
        },
    }
}

#[test]
fn test_reconstruction_fidelity_from_transcript() {
    // from a fully aggregated transcript, any t + 1 correctly decrypted
    // shares reconstruct S with e(S, g2) equal to e(g1, sum of statements)
    let srs = SRS::setup().unwrap();
    let schnorr_srs = SCHSRS::<G1>::from_generator(srs.g1).unwrap();
    let schnorr_sig = SchnorrSignature { srs: schnorr_srs };
    let config = Config { srs: srs.clone(), degree: 2, num_participants: 4 };

    let dealers: Vec<Dealer> = (0..4).map(|id| make_dealer(&schnorr_sig, id)).collect();
    let participants: Vec<Participant> =
        dealers.iter().map(|d| d.participant.clone()).collect();

    let mut nodes: Vec<Node> = dealers
        .into_iter()
        .map(|d| Node::new(config.clone(), schnorr_sig.clone(), d, participants.clone()).unwrap())
        .collect();

    let shares: Vec<_> = nodes.iter().map(|n| n.share().unwrap()).collect();
    for s in shares.iter() {
        nodes[0].aggregator.receive_share(s).unwrap();
    }
    let tx = nodes[0].aggregator.aggregated_tx.clone();

    // each node decrypts its own position
    let mut decs: Vec<DecryptedShare> = Vec::new();
    for i in 0..3 {
        decs.push(
            DecryptedShare::generate(
                &tx.pvss_core.encs,
                &nodes[i].dealer.private_key_sig,
                i,
            )
            .unwrap(),
        );
    }

    let s_point = reconstruct_secret(&decs, 2).unwrap();

    // the sum of the contribution statements commits to the same secret
    let mut gs_total = tx.contributions[0].clone().unwrap().0.decomp_proof.gs;
    for id in 1..4 {
        let gs = tx.contributions[id].clone().unwrap().0.decomp_proof.gs;
        gs_total = gs_total.add_to(&gs);
    }

    let lhs = pairing(&s_point, &srs.g2);
    let rhs = pairing(&srs.g1, &gs_total);
    assert!(gt_eq(&lhs, &rhs));
}
