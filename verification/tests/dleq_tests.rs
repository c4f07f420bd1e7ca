use pvss::curve::{fr_rand, EcGroup, Fr, G1, G2};
use pvss::dleq::{DLEQProof, SRS};

use std::time::Instant;

fn simple_nizk<C1: EcGroup, C2: EcGroup>() {
    let srs = SRS::<C1, C2>::setup().unwrap();
    let dleq = DLEQProof { srs };
    let pair = dleq.generate_pair().unwrap();

    let proof = dleq.prove(&pair.0).unwrap();
    dleq.verify(&pair.1, &proof).unwrap();
}

#[test]
fn test_simple_nizk_g1_g1() {
    simple_nizk::<G1, G1>();
}

#[test]
fn test_simple_nizk_g1_g2() {
    simple_nizk::<G1, G2>();
}

#[test]
fn test_simple_nizk_g2_g1() {
    simple_nizk::<G2, G1>();
}

#[test]
fn test_simple_nizk_g2_g2() {
    simple_nizk::<G2, G2>();
}

fn simple_nizk_wrong_statement<C1: EcGroup, C2: EcGroup>() {
    let srs = SRS::<C1, C2>::setup().unwrap();
    let dleq = DLEQProof { srs };
    let pair = dleq.generate_pair().unwrap();

    let proof = dleq.prove(&pair.0).unwrap();

    let pair2 = dleq.generate_pair().unwrap();
    dleq.verify(&pair2.1, &proof).unwrap();
}

#[test]
#[should_panic]
fn test_simple_nizk_wrong_statement_g1_g1() {
    simple_nizk_wrong_statement::<G1, G1>();
}

#[test]
#[should_panic]
fn test_simple_nizk_wrong_statement_g1_g2() {
    simple_nizk_wrong_statement::<G1, G2>();
}

#[test]
#[should_panic]
fn test_simple_nizk_wrong_statement_g2_g1() {
    simple_nizk_wrong_statement::<G2, G1>();
}

#[test]
#[should_panic]
fn test_simple_nizk_wrong_statement_g2_g2() {
    simple_nizk_wrong_statement::<G2, G2>();
}

fn simple_nizk_malformed_commitment<C1: EcGroup, C2: EcGroup>() {
    let srs = SRS::<C1, C2>::setup().unwrap();
    let dleq = DLEQProof { srs };
    let pair = dleq.generate_pair().unwrap();

    let ((_, h_r), c, z) = dleq.prove(&pair.0).unwrap();

    let new_commitment = dleq.srs.g_public_key.mul_by(&fr_rand());
    let malformed_proof = ((new_commitment, h_r), c, z);

    dleq.verify(&pair.1, &malformed_proof).unwrap();
}

#[test]
#[should_panic]
fn test_simple_nizk_malformed_commitment_g1_g1() {
    simple_nizk_malformed_commitment::<G1, G1>();
}

#[test]
#[should_panic]
fn test_simple_nizk_malformed_commitment_g1_g2() {
    simple_nizk_malformed_commitment::<G1, G2>();
}

#[test]
#[should_panic]
fn test_simple_nizk_malformed_commitment_g2_g1() {
    simple_nizk_malformed_commitment::<G2, G1>();
}

#[test]
#[should_panic]
fn test_simple_nizk_malformed_commitment_g2_g2() {
    simple_nizk_malformed_commitment::<G2, G2>();
}

fn simple_nizk_malformed_challenge<C1: EcGroup, C2: EcGroup>() {
    let srs = SRS::<C1, C2>::setup().unwrap();
    let dleq = DLEQProof { srs };
    let pair = dleq.generate_pair().unwrap();

    let (commitments, _, z) = dleq.prove(&pair.0).unwrap();

    let new_challenge: Fr = fr_rand();
    let malformed_proof = (commitments, new_challenge, z);

    dleq.verify(&pair.1, &malformed_proof).unwrap();
}

#[test]
#[should_panic]
fn test_simple_nizk_malformed_challenge_g1_g1() {
    simple_nizk_malformed_challenge::<G1, G1>();
}

#[test]
#[should_panic]
fn test_simple_nizk_malformed_challenge_g1_g2() {
    simple_nizk_malformed_challenge::<G1, G2>();
}

#[test]
#[should_panic]
fn test_simple_nizk_malformed_challenge_g2_g1() {
    simple_nizk_malformed_challenge::<G2, G1>();
}

#[test]
#[should_panic]
fn test_simple_nizk_malformed_challenge_g2_g2() {
    simple_nizk_malformed_challenge::<G2, G2>();
}

fn simple_nizk_malformed_response<C1: EcGroup, C2: EcGroup>() {
    let srs = SRS::<C1, C2>::setup().unwrap();
    let dleq = DLEQProof { srs };
    let pair = dleq.generate_pair().unwrap();

    let (commitments, c, _) = dleq.prove(&pair.0).unwrap();

    let new_response: Fr = fr_rand();
    let malformed_proof = (commitments, c, new_response);

    dleq.verify(&pair.1, &malformed_proof).unwrap();
}

#[test]
#[should_panic]
fn test_simple_nizk_malformed_response_g1_g1() {
    simple_nizk_malformed_response::<G1, G1>();
}

#[test]
#[should_panic]
fn test_simple_nizk_malformed_response_g1_g2() {
    simple_nizk_malformed_response::<G1, G2>();
}

#[test]
#[should_panic]
fn test_simple_nizk_malformed_response_g2_g1() {
    simple_nizk_malformed_response::<G2, G1>();
}

#[test]
#[should_panic]
fn test_simple_nizk_malformed_response_g2_g2() {
    simple_nizk_malformed_response::<G2, G2>();
}

fn benchmark_round<C1: EcGroup, C2: EcGroup>() {
    let srs = SRS::<C1, C2>::setup().unwrap();
    let dleq = DLEQProof { srs };
    let pair = dleq.generate_pair().unwrap();

    let proof = dleq.prove(&pair.0).unwrap();
    dleq.verify(&pair.1, &proof).unwrap();
}

#[test]
fn test_benchmark_g1_g2() {
    let now = Instant::now();

    benchmark_round::<G1, G2>();

    let elapsed = now.elapsed();
    println!("Elapsed time for 1 DLEQ: {:.2?}", elapsed);

    assert_eq!(2 + 2, 4);
}

#[test]
fn test_benchmark_g2_g1() {
    let now = Instant::now();

    benchmark_round::<G2, G1>();

    let elapsed = now.elapsed();
    println!("Elapsed time for 1 DLEQ: {:.2?}", elapsed);

    assert_eq!(2 + 2, 4);
}

#[test]
fn test_benchmark_g1_g2_64() {
    let now = Instant::now();

    for _ in 0..64 {
        benchmark_round::<G1, G2>();
    }

    let elapsed = now.elapsed();
    println!("Elapsed time for 64 DLEQs: {:.2?}", elapsed);

    assert_eq!(2 + 2, 4);
}

#[test]
fn test_benchmark_g2_g1_64() {
    let now = Instant::now();

    for _ in 0..64 {
        benchmark_round::<G2, G1>();
    }

    let elapsed = now.elapsed();
    println!("Elapsed time for 64 DLEQs: {:.2?}", elapsed);

    assert_eq!(2 + 2, 4);
}
