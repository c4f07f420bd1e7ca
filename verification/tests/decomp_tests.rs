use pvss::config::Config;
use pvss::curve::fr_rand;
use pvss::decomp::{Decomp, DecompProof};
use pvss::poly::sample_polynomial;
use pvss::srs::SRS;

#[test]
fn test_simple_decomp_proof() {
    let srs = SRS::setup().unwrap();

    let t = 3;
    let n = 10;
    let conf = Config { srs, degree: t, num_participants: n };
    let poly = sample_polynomial(t);

    let dproof = Decomp::generate(&conf, &poly[0]).unwrap();

    dproof.verify(&conf).unwrap()
}

#[test]
#[should_panic]
fn test_invalid_decomp_proof() {
    let srs = SRS::setup().unwrap();

    let t = 3;
    let n = 10;
    let conf = Config { srs, degree: t, num_participants: n };
    let poly = sample_polynomial(t);

    let dproof = Decomp::generate(&conf, &poly[0]).unwrap();

    // malform the proof
    let malformed = (dproof.proof.0, fr_rand(), dproof.proof.2);

    // create a "bad" proof
    let dproof_bad = DecompProof { proof: malformed, gs: dproof.gs };

    dproof_bad.verify(&conf).unwrap(); // PVSSError::NIZKProofDoesNotVerifyError
}

#[test]
fn test_decomp_digest_size() {
    let srs = SRS::setup().unwrap();

    let t = 3;
    let n = 10;
    let conf = Config { srs, degree: t, num_participants: n };
    let poly = sample_polynomial(t);

    let dproof = Decomp::generate(&conf, &poly[0]).unwrap();
    let digest = dproof.digest();
    assert_eq!(digest.size(), 32);
    assert_eq!(digest.to_vec().len(), 32);
}

#[test]
fn test_decomp_digest_tracks_proof() {
    // two proofs for different secrets digest differently
    let srs = SRS::setup().unwrap();

    let t = 3;
    let n = 10;
    let conf = Config { srs, degree: t, num_participants: n };

    let d1 = Decomp::generate(&conf, &fr_rand()).unwrap();
    let d2 = Decomp::generate(&conf, &fr_rand()).unwrap();

    assert!(d1.digest() != d2.digest());
}

#[test]
fn test_message_from_pi_i_matches_digest_input() {
    let srs = SRS::setup().unwrap();

    let t = 3;
    let n = 10;
    let conf = Config { srs, degree: t, num_participants: n };
    let poly = sample_polynomial(t);

    let dproof = Decomp::generate(&conf, &poly[0]).unwrap();
    let bytes = pvss::decomp::message_from_pi_i(dproof).unwrap();
    // compressed G2 points are 96 bytes and scalars 32 bytes:
    // the serialized proof is (96 + 32 + 32) + 96 bytes
    assert_eq!(bytes.len(), 256);
}
