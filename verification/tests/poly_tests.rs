use pvss::curve::{fr_from_u64, fr_rand, pairing, EcGroup, Fr, G1, G2};
use pvss::errors::PVSSError;
use pvss::poly::{
    ensure_degree, lagrange_interpolation_g2, lagrange_interpolation_gt,
    lagrange_interpolation_simple, poly_eval, sample_polynomial,
};
use pvss::srs::SRS;

use rand::Rng;

const MIN_DEGREE: usize = 3;
const MAX_DEGREE: usize = 100;

#[test]
fn test_sample_poly() {
    let deg = rand::thread_rng().gen_range(MIN_DEGREE..MAX_DEGREE);

    // generate a random polynomial
    let p = sample_polynomial(deg);
    assert!(p.len() == deg + 1);

    assert_eq!(2 + 2, 4);
}

#[test]
fn test_ensure_degree() {
    let deg = rand::thread_rng().gen_range(MIN_DEGREE..MAX_DEGREE);

    // random group elements from the commitment group, since it does not
    // matter here
    let evals = vec![G2::sample(); deg + 4];
    assert_eq!(ensure_degree(&evals, deg).unwrap(), ());
}

#[test]
#[should_panic]
fn test_ensure_degree_insufficient_evals() {
    let deg = rand::thread_rng().gen_range(MIN_DEGREE..MAX_DEGREE);

    let evals = vec![G2::sample(); deg - 1];
    ensure_degree(&evals, deg).unwrap();
}

#[test]
#[should_panic]
fn test_lagrange_interpolation_simple_insufficient_evals() {
    let deg = rand::thread_rng().gen_range(MIN_DEGREE..MAX_DEGREE);

    let evals = vec![G2::sample(); deg - 1];

    _ = lagrange_interpolation_simple(&evals, deg).unwrap();
}

#[test]
fn test_lagrange_interpolation_simple() {
    let deg = rand::thread_rng().gen_range(MIN_DEGREE..MAX_DEGREE);

    let srs = SRS::setup().unwrap();
    let generator = srs.g2;

    let p = sample_polynomial(deg);
    let secret = p[0];
    let shared_secret = generator.mul_by(&secret);

    let mut evals: Vec<G2> = Vec::new();
    for x in 1..(deg + 2) {
        let e = poly_eval(&p, &fr_from_u64(x as u64));
        evals.push(generator.mul_by(&e));
    }

    let reconstructed_secret = lagrange_interpolation_simple(&evals, deg).unwrap();

    assert!(reconstructed_secret == shared_secret);
}

#[test]
#[should_panic]
fn test_lagrange_interpolation_insufficient_evals() {
    let deg = rand::thread_rng().gen_range(MIN_DEGREE..MAX_DEGREE);

    let evals = vec![G2::sample(); deg - 1];
    let points = vec![fr_rand(); deg - 1];

    _ = lagrange_interpolation_g2(&evals, &points, deg).unwrap();
}

#[test]
#[should_panic]
fn test_lagrange_interpolation_different_points_evals() {
    let deg = rand::thread_rng().gen_range(MIN_DEGREE..MAX_DEGREE);

    let evals = vec![G2::sample(); deg + 1];
    let points = vec![fr_rand(); deg + 2];

    _ = lagrange_interpolation_g2(&evals, &points, deg).unwrap();
}

#[test]
fn test_lagrange_interpolation() {
    let deg = rand::thread_rng().gen_range(MIN_DEGREE..MAX_DEGREE);

    let srs = SRS::setup().unwrap();
    let generator = srs.g2;

    let p = sample_polynomial(deg);
    let secret = p[0];
    let shared_secret = generator.mul_by(&secret);

    let mut points: Vec<Fr> = Vec::new();
    let mut evals: Vec<G2> = Vec::new();
    for j in 1..(deg + 2) {
        let x = fr_from_u64(j as u64);
        points.push(x);
        evals.push(generator.mul_by(&poly_eval(&p, &x)));
    }

    let reconstructed_secret = lagrange_interpolation_g2(&evals, &points, deg).unwrap();

    assert!(reconstructed_secret == shared_secret);
}

#[test]
fn test_reconstruction_over_target_group() {
    let deg = rand::thread_rng().gen_range(MIN_DEGREE..MAX_DEGREE);

    let srs = SRS::setup().unwrap();
    let g1 = srs.g1;
    let epoch_generator = srs.g2; // assume g2 is the epoch generator in G2

    // random points in G1 representing the decrypted shares
    let mut sks: Vec<G1> = Vec::new();
    for _ in 1..=(deg + 1) {
        sks.push(g1.mul_by(&fr_rand()));
    }

    // sigma_{j, 2} := e(SK_j, g_r)
    let mut evals = Vec::new();
    for i in 0..sks.len() {
        evals.push(pairing(&sks[i], &epoch_generator));
    }

    // assume for simplicity that the shares come from the first t+1 parties
    let mut points: Vec<u64> = Vec::new();
    for j in 0..=deg {
        points.push((j + 1) as u64);
    }

    let _reconstructed_secret = lagrange_interpolation_gt(&evals, &points, deg).unwrap();

    assert_eq!(2 + 2, 4);
}

#[test]
fn test_lagrange_interpolation_target_group_different_sets() {
    let num_participants: usize = 8; // number of nodes n
    let degree: usize = 3; // degree t

    let srs = SRS::setup().unwrap();

    // one secret key and one decrypted share per party
    let f = sample_polynomial(degree);

    let mut sks: Vec<G1> = Vec::new();
    for i in 1..=num_participants {
        let eval = poly_eval(&f, &fr_from_u64(i as u64));
        sks.push(srs.g1.mul_by(&eval));
    }

    // per-epoch generator of the commitment group
    let epoch_generator = G2::sample();

    // two disjoint sets of evaluation points, and a mixed one
    let points1: Vec<u64> = vec![1, 2, 3, 4];
    let evals1: Vec<_> = points1
        .iter()
        .map(|j| pairing(&sks[(*j as usize) - 1], &epoch_generator))
        .collect();
    let rec1 = lagrange_interpolation_gt(&evals1, &points1, degree).unwrap();

    let points2: Vec<u64> = vec![5, 6, 7, 8];
    let evals2: Vec<_> = points2
        .iter()
        .map(|j| pairing(&sks[(*j as usize) - 1], &epoch_generator))
        .collect();
    let rec2 = lagrange_interpolation_gt(&evals2, &points2, degree).unwrap();

    let points3: Vec<u64> = vec![3, 5, 1, 7];
    let evals3: Vec<_> = points3
        .iter()
        .map(|j| pairing(&sks[(*j as usize) - 1], &epoch_generator))
        .collect();
    let rec3 = lagrange_interpolation_gt(&evals3, &points3, degree).unwrap();

    // a larger set of points
    let points4: Vec<u64> = (1..=num_participants).map(|i| i as u64).collect();
    let evals4: Vec<_> = points4
        .iter()
        .map(|j| pairing(&sks[(*j as usize) - 1], &epoch_generator))
        .collect();
    let rec4 = lagrange_interpolation_gt(&evals4, &points4, degree).unwrap();

    assert!(rec1 == rec2);
    assert!(rec2 == rec3);
    assert!(rec3 == rec4);
}

#[test]
fn test_dual_code_rejects_high_degree() {
    // commitments to a polynomial of degree t + 1 must fail the check
    let t: usize = 3;
    let n: usize = 10;

    let srs = SRS::setup().unwrap();
    let q = sample_polynomial(t + 1);

    let mut comms: Vec<G2> = Vec::new();
    for j in 0..n {
        let e = poly_eval(&q, &fr_from_u64((j + 1) as u64));
        comms.push(srs.g2.mul_by(&e));
    }

    let r = ensure_degree(&comms, t);
    assert!(matches!(r, Err(PVSSError::DualCodeError)));
}

#[test]
fn test_dual_code_accepts_low_degree() {
    let t: usize = 3;
    let n: usize = 10;

    let srs = SRS::setup().unwrap();
    let p = sample_polynomial(t);

    let mut comms: Vec<G2> = Vec::new();
    for j in 0..n {
        let e = poly_eval(&p, &fr_from_u64((j + 1) as u64));
        comms.push(srs.g2.mul_by(&e));
    }

    assert!(ensure_degree(&comms, t).is_ok());
}
