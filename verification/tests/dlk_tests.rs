use pvss::curve::{fr_rand, EcGroup, Fr, G1, G2};
use pvss::dlk::{DLKProof, SRS};

fn simple_nizk<C: EcGroup>() {
    let srs = SRS::<C>::setup().unwrap();
    let dlk = DLKProof { srs };
    let pair = dlk.generate_pair().unwrap();

    let proof = dlk.prove(&pair.0).unwrap();
    dlk.verify(&pair.1, &proof).unwrap();
}

#[test]
fn test_simple_nizk_g1() {
    simple_nizk::<G1>();
}

#[test]
fn test_simple_nizk_g2() {
    simple_nizk::<G2>();
}

fn simple_nizk_wrong_statement<C: EcGroup>() {
    let srs = SRS::<C>::setup().unwrap();
    let dlk = DLKProof { srs };
    let pair = dlk.generate_pair().unwrap();

    let proof = dlk.prove(&pair.0).unwrap();

    let pair2 = dlk.generate_pair().unwrap();
    dlk.verify(&pair2.1, &proof).unwrap();
}

#[test]
#[should_panic]
fn test_simple_nizk_wrong_statement_g1() {
    simple_nizk_wrong_statement::<G1>();
}

#[test]
#[should_panic]
fn test_simple_nizk_wrong_statement_g2() {
    simple_nizk_wrong_statement::<G2>();
}

fn simple_nizk_malformed_commitment<C: EcGroup>() {
    let srs = SRS::<C>::setup().unwrap();
    let dlk = DLKProof { srs };
    let pair = dlk.generate_pair().unwrap();

    let (_, c, z) = dlk.prove(&pair.0).unwrap();

    let new_commitment = dlk.srs.g_public_key.mul_by(&fr_rand());
    let malformed_proof = (new_commitment, c, z);

    dlk.verify(&pair.1, &malformed_proof).unwrap();
}

#[test]
#[should_panic]
fn test_simple_nizk_malformed_commitment_g1() {
    simple_nizk_malformed_commitment::<G1>();
}

#[test]
#[should_panic]
fn test_simple_nizk_malformed_commitment_g2() {
    simple_nizk_malformed_commitment::<G2>();
}

fn simple_nizk_malformed_challenge<C: EcGroup>() {
    let srs = SRS::<C>::setup().unwrap();
    let dlk = DLKProof { srs };
    let pair = dlk.generate_pair().unwrap();

    let (g_r, _, z) = dlk.prove(&pair.0).unwrap();

    let new_challenge: Fr = fr_rand();
    let malformed_proof = (g_r, new_challenge, z);

    dlk.verify(&pair.1, &malformed_proof).unwrap();
}

#[test]
#[should_panic]
fn test_simple_nizk_malformed_challenge_g1() {
    simple_nizk_malformed_challenge::<G1>();
}

#[test]
#[should_panic]
fn test_simple_nizk_malformed_challenge_g2() {
    simple_nizk_malformed_challenge::<G2>();
}

fn simple_nizk_malformed_response<C: EcGroup>() {
    let srs = SRS::<C>::setup().unwrap();
    let dlk = DLKProof { srs };
    let pair = dlk.generate_pair().unwrap();

    let (g_r, c, _) = dlk.prove(&pair.0).unwrap();

    let new_response: Fr = fr_rand();
    let malformed_proof = (g_r, c, new_response);

    dlk.verify(&pair.1, &malformed_proof).unwrap();
}

#[test]
#[should_panic]
fn test_simple_nizk_malformed_response_g1() {
    simple_nizk_malformed_response::<G1>();
}

#[test]
#[should_panic]
fn test_simple_nizk_malformed_response_g2() {
    simple_nizk_malformed_response::<G2>();
}
