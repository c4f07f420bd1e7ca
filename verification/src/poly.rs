//! Polynomials over the scalar field, the dual-code degree check, and
//! Lagrange interpolation in the three pairing groups.
//!
//! A polynomial is its coefficient vector, lowest degree first. Evaluation
//! is Horner's rule over the field operations, and every contract below is
//! stated over `poly_eval_s` and the named field and group operations.

use vstd::prelude::*;

use crate::curve::{
    EcGroup, Fr, G2, Gt, fr_add, fr_add_s, fr_eq, fr_from_u64, fr_from_u64_s, fr_inv_s,
    fr_inverse, fr_mul, fr_mul_s, fr_rand, fr_sub, fr_sub_s, g2_add_s, g2_is_id_s, g2_mul_s,
    gt_mul, gt_mul_s, gt_pow, gt_pow_s,
};
use crate::errors::PVSSError;

verus! {

/// The value of the polynomial with the given coefficients (lowest degree
/// first) at `x`, by Horner's rule. The empty polynomial is zero.
pub open spec fn poly_eval_s(coeffs: Seq<Fr>, x: Fr) -> Fr
    decreases coeffs.len(),
{
    if coeffs.len() == 0 {
        fr_from_u64_s(0)
    } else {
        fr_add_s(coeffs[0], fr_mul_s(x, poly_eval_s(coeffs.drop_first(), x)))
    }
}

/// Samples a uniformly random polynomial of the given degree, as its
/// `degree + 1` coefficients.
pub fn sample_polynomial(degree: usize) -> (r: Vec<Fr>)
    requires
        degree < usize::MAX,
    ensures
        r@.len() == degree + 1,
{
    let mut coeffs: Vec<Fr> = Vec::new();
    let mut i: usize = 0;
    while i < degree + 1
        invariant
            i <= degree + 1,
            coeffs@.len() == i,
            degree < usize::MAX,
        decreases degree + 1 - i,
    {
        coeffs.push(fr_rand());
        i = i + 1;
    }
    coeffs
}

/// Evaluates the polynomial at `x` by Horner's rule.
pub fn poly_eval(coeffs: &Vec<Fr>, x: &Fr) -> (r: Fr)
    ensures
        r == poly_eval_s(coeffs@, *x),
{
    let mut acc = fr_from_u64(0);
    let mut i: usize = coeffs.len();
    while i > 0
        invariant
            i <= coeffs@.len(),
            acc == poly_eval_s(coeffs@.subrange(i as int, coeffs@.len() as int), *x),
        decreases i,
    {
        i = i - 1;
        let t = fr_mul(x, &acc);
        acc = fr_add(&coeffs[i], &t);
        proof {
            let tail = coeffs@.subrange(i as int, coeffs@.len() as int);
            assert(tail.drop_first() =~= coeffs@.subrange(i as int + 1, coeffs@.len() as int));
        }
    }
    proof {
        assert(coeffs@.subrange(0, coeffs@.len() as int) =~= coeffs@);
    }
    acc
}

/// The dual-code weight of index `i` (numbered from 1), after folding in
/// the inverses for indices `1..=j`: the random polynomial evaluated at
/// `i`, times the inverses of `i - j'` for every other index `j'` so far.
pub open spec fn dual_coeff_s(coeffs: Seq<Fr>, i: u64, j: u64) -> Fr
    decreases j,
{
    if j == 0 {
        poly_eval_s(coeffs, fr_from_u64_s(i))
    } else if j == i {
        dual_coeff_s(coeffs, i, (j - 1) as u64)
    } else {
        fr_mul_s(
            dual_coeff_s(coeffs, i, (j - 1) as u64),
            fr_inv_s(fr_sub_s(fr_from_u64_s(i), fr_from_u64_s(j))),
        )
    }
}

/// The weighted sum of the first `i` commitments (numbered from 1) under
/// the dual-code weights for the random polynomial `coeffs`.
pub open spec fn dual_sum_s(comms: Seq<G2>, coeffs: Seq<Fr>, i: u64) -> G2
    decreases i,
{
    if i <= 1 {
        g2_mul_s(comms[0], dual_coeff_s(coeffs, 1, comms.len() as u64))
    } else {
        g2_add_s(
            dual_sum_s(comms, coeffs, (i - 1) as u64),
            g2_mul_s(comms[i - 1], dual_coeff_s(coeffs, i, comms.len() as u64)),
        )
    }
}

/// Computes the dual-code weight of index `i` for the sampled polynomial.
fn dual_weight(comms: &Vec<G2>, coeffs: &Vec<Fr>, i: usize) -> (w: Fr)
    requires
        1 <= i <= comms@.len(),
    ensures
        w == dual_coeff_s(coeffs@, i as u64, comms@.len() as u64),
{
    let num = comms.len();
    let xi = fr_from_u64(i as u64);
    let mut w = poly_eval(coeffs, &xi);
    let mut j: usize = 0;
    while j < num
        invariant
            j <= num,
            num == comms@.len(),
            1 <= i <= num,
            xi == fr_from_u64_s(i as u64),
            forall|y: u64| y != i as u64 ==> xi != fr_from_u64_s(y),
            w == dual_coeff_s(coeffs@, i as u64, j as u64),
        decreases num - j,
    {
        j = j + 1;
        if j != i {
            let xj = fr_from_u64(j as u64);
            let d = fr_sub(&xi, &xj);
            let inv = fr_inverse(&d).unwrap();
            w = fr_mul(&w, &inv);
        }
    }
    w
}

/// The dual-code degree check against a caller-supplied random polynomial:
/// accepts exactly when the commitment vector is long enough and the
/// weighted sum of commitments vanishes (vacuously, when fewer than
/// `degree + 2` commitments are given, since any such vector interpolates
/// a polynomial of degree at most `degree`).
pub fn ensure_degree_with(comms: &Vec<G2>, degree: usize, coeffs: &Vec<Fr>) -> (r: Result<
    (),
    PVSSError,
>)
    ensures
        r is Ok <==> (comms@.len() >= degree && (comms@.len() < degree + 2 || g2_is_id_s(
            dual_sum_s(comms@, coeffs@, comms@.len() as u64),
        ))),
        r matches Err(e) ==> e == (if comms@.len() < degree {
            PVSSError::InsufficientEvaluationsError
        } else {
            PVSSError::DualCodeError
        }),
{
    let num = comms.len();
    if num < degree {
        return Err(PVSSError::InsufficientEvaluationsError);
    }
    if num - degree < 2 {
        return Ok(());
    }
    let w1 = dual_weight(comms, coeffs, 1);
    let mut sum = comms[0].mul_by(&w1);
    let mut i: usize = 1;
    while i < num
        invariant
            1 <= i <= num,
            num == comms@.len(),
            num >= 2,
            sum == dual_sum_s(comms@, coeffs@, i as u64),
        decreases num - i,
    {
        let w = dual_weight(comms, coeffs, i + 1);
        let term = comms[i].mul_by(&w);
        sum = sum.add_to(&term);
        i = i + 1;
    }
    if sum.is_identity() {
        Ok(())
    } else {
        Err(PVSSError::DualCodeError)
    }
}

/// The dual-code degree check: samples a random polynomial of degree
/// `n - degree - 2` and rejects exactly when its weighted commitment sum
/// does not vanish. A vector committing to a polynomial of degree greater
/// than `degree` escapes rejection only with probability `1/|F|` over the
/// sample.
pub fn ensure_degree(comms: &Vec<G2>, degree: usize) -> (r: Result<(), PVSSError>)
    ensures
        comms@.len() < degree ==> (r matches Err(e) && e == PVSSError::InsufficientEvaluationsError),
        (degree <= comms@.len() && comms@.len() < degree + 2) ==> r is Ok,
        r is Ok ==> comms@.len() >= degree,
        (r is Err && comms@.len() >= degree) ==> ((r matches Err(e) && e
            == PVSSError::DualCodeError) && exists|coeffs: Seq<Fr>|
            !(#[trigger] dual_sum_s(comms@, coeffs, comms@.len() as u64)).is_id_s()),
        (r is Ok && comms@.len() >= degree + 2) ==> exists|coeffs: Seq<Fr>|
            (#[trigger] dual_sum_s(comms@, coeffs, comms@.len() as u64)).is_id_s(),
{
    let num = comms.len();
    if num < degree {
        return Err(PVSSError::InsufficientEvaluationsError);
    }
    if num - degree < 2 {
        return Ok(());
    }
    let coeffs = sample_polynomial(num - degree - 2);
    let r = ensure_degree_with(comms, degree, &coeffs);
    proof {
        if r is Ok {
            assert(g2_is_id_s(dual_sum_s(comms@, coeffs@, comms@.len() as u64)));
        } else {
            assert(!g2_is_id_s(dual_sum_s(comms@, coeffs@, comms@.len() as u64)));
        }
    }
    r
}

/// The Lagrange coefficient of interpolation point `j` for recovering the
/// value at zero, folded over points `0 ..= k-1`: the product of
/// `x_k' * (x_k' - x_j)^{-1}` over every other point so far.
pub open spec fn lag_coeff_s(points: Seq<Fr>, j: int, k: int) -> Fr
    decreases k,
{
    if k <= 0 {
        fr_from_u64_s(1)
    } else if k - 1 == j {
        lag_coeff_s(points, j, k - 1)
    } else {
        fr_mul_s(
            lag_coeff_s(points, j, k - 1),
            fr_mul_s(points[k - 1], fr_inv_s(fr_sub_s(points[k - 1], points[j]))),
        )
    }
}

/// The interpolated value at zero, folded over evaluations `0 ..= j`, with
/// `count` points in play.
pub open spec fn lag_sum_s<C: EcGroup>(evals: Seq<C>, points: Seq<Fr>, j: int, count: int) -> C
    decreases j,
{
    if j <= 0 {
        evals[0].mul_s(lag_coeff_s(points, 0, count))
    } else {
        lag_sum_s(evals, points, j - 1, count).add_s(evals[j].mul_s(lag_coeff_s(points, j, count)))
    }
}

/// Whether two of the first `count` interpolation points coincide.
pub open spec fn coincident_points_s(points: Seq<Fr>, count: int) -> bool {
    exists|j: int, k: int|
        0 <= j < count && 0 <= k < count && j != k && points[j] == points[k]
}

/// Computes the Lagrange coefficient of point `j` over the first `count`
/// points, or reports that some other point coincides with point `j`.
fn lag_coeff(points: &Vec<Fr>, j: usize, count: usize) -> (r: Result<Fr, PVSSError>)
    requires
        j < count,
        count <= points@.len(),
    ensures
        r matches Ok(w) ==> w == lag_coeff_s(points@, j as int, count as int),
        r is Ok <==> !(exists|k: int|
            0 <= k < count && k != j && points@[k] == points@[j as int]),
        r matches Err(e) ==> e == PVSSError::EvaluationDomainError,
{
    let xj = points[j];
    let mut w = fr_from_u64(1);
    let mut k: usize = 0;
    while k < count
        invariant
            k <= count,
            j < count,
            count <= points@.len(),
            xj == points@[j as int],
            w == lag_coeff_s(points@, j as int, k as int),
            forall|k2: int| 0 <= k2 < k && k2 != j ==> points@[k2] != points@[j as int],
        decreases count - k,
    {
        if k != j {
            if fr_eq(&points[k], &xj) {
                return Err(PVSSError::EvaluationDomainError);
            }
            let d = fr_sub(&points[k], &xj);
            let inv = fr_inverse(&d).unwrap();
            let t = fr_mul(&points[k], &inv);
            w = fr_mul(&w, &t);
        }
        k = k + 1;
    }
    Ok(w)
}

/// Lagrange interpolation at zero from caller-chosen points, in either
/// source group. Exactly the first `degree + 1` evaluations take part.
pub fn lagrange_interpolate<C: EcGroup>(evals: &Vec<C>, points: &Vec<Fr>, degree: usize) -> (r:
    Result<C, PVSSError>)
    ensures
        r is Ok <==> (evals@.len() > degree && evals@.len() == points@.len()
            && !coincident_points_s(points@, degree + 1)),
        r matches Ok(v) ==> v == lag_sum_s(evals@, points@, degree as int, degree + 1),
        r matches Err(e) ==> e == (if evals@.len() <= degree {
            PVSSError::InsufficientEvaluationsError
        } else if evals@.len() != points@.len() {
            PVSSError::DifferentPointsEvalsError
        } else {
            PVSSError::EvaluationDomainError
        }),
{
    if evals.len() <= degree {
        return Err(PVSSError::InsufficientEvaluationsError);
    }
    if evals.len() != points.len() {
        return Err(PVSSError::DifferentPointsEvalsError);
    }
    let count = degree + 1;
    let w0 = match lag_coeff(points, 0, count) {
        Ok(w) => w,
        Err(e) => {
            return Err(e);
        },
    };
    let mut sum = evals[0].mul_by(&w0);
    let mut j: usize = 1;
    while j < count
        invariant
            1 <= j <= count,
            count == degree + 1,
            evals@.len() > degree,
            points@.len() == evals@.len(),
            sum == lag_sum_s(evals@, points@, j - 1, count as int),
            forall|j2: int, k: int|
                0 <= j2 < j && 0 <= k < count && k != j2 ==> points@[k] != points@[j2],
        decreases count - j,
    {
        let w = match lag_coeff(points, j, count) {
            Ok(w) => w,
            Err(e) => {
                return Err(e);
            },
        };
        let term = evals[j].mul_by(&w);
        sum = sum.add_to(&term);
        j = j + 1;
    }
    Ok(sum)
}

/// The canonical interpolation points `1, 2, 3, ...` as field elements.
pub open spec fn nat_points_s(count: int) -> Seq<Fr> {
    Seq::new(count as nat, |i: int| fr_from_u64_s((i + 1) as u64))
}

/// Builds the first `count` canonical interpolation points.
fn nat_points(count: usize) -> (r: Vec<Fr>)
    ensures
        r@ == nat_points_s(count as int),
        !coincident_points_s(r@, count as int),
{
    let mut points: Vec<Fr> = Vec::new();
    let mut i: usize = 0;
    while i < count
        invariant
            i <= count,
            points@.len() == i,
            forall|k: int| 0 <= k < i ==> points@[k] == fr_from_u64_s((k + 1) as u64),
            forall|k: int, y: u64|
                0 <= k < i && y != (k + 1) as u64 ==> points@[k] != fr_from_u64_s(y),
        decreases count - i,
    {
        let x = fr_from_u64((i as u64) + 1);
        points.push(x);
        i = i + 1;
    }
    proof {
        assert(points@ =~= nat_points_s(count as int));
        assert forall|j: int, k: int|
            0 <= j < count && 0 <= k < count && j != k implies points@[j] != points@[k] by {
            assert(points@[j] == fr_from_u64_s((j + 1) as u64));
            assert(points@[k] != fr_from_u64_s((j + 1) as u64));
        }
    }
    points
}

/// Lagrange interpolation at zero over the fixed points `1 ..= degree + 1`
/// in the commitment group: recovers the commitment to the free term from
/// the first `degree + 1` commitments.
pub fn lagrange_interpolation_simple(evals: &Vec<G2>, degree: usize) -> (r: Result<G2, PVSSError>)
    ensures
        r is Ok <==> evals@.len() > degree,
        r matches Ok(v) ==> v == lag_sum_s(
            evals@,
            nat_points_s(evals@.len() as int),
            degree as int,
            degree + 1,
        ),
        r matches Err(e) ==> e == PVSSError::InsufficientEvaluationsError,
{
    if evals.len() <= degree {
        return Err(PVSSError::InsufficientEvaluationsError);
    }
    let points = nat_points(evals.len());
    let r = lagrange_interpolate(evals, &points, degree);
    proof {
        assert(!coincident_points_s(points@, degree + 1)) by {
            if coincident_points_s(points@, degree + 1) {
                let (j, k) = choose|j: int, k: int|
                    0 <= j < degree + 1 && 0 <= k < degree + 1 && j != k && points@[j]
                        == points@[k];
                assert(0 <= j < points@.len() && 0 <= k < points@.len());
                assert(!coincident_points_s(points@, points@.len() as int));
            }
        }
    }
    r
}

/// Lagrange interpolation at zero from caller-chosen points in the
/// encryption group.
pub fn lagrange_interpolation_g1(evals: &Vec<crate::curve::G1>, points: &Vec<Fr>, degree: usize)
    -> (r: Result<crate::curve::G1, PVSSError>)
    ensures
        r is Ok <==> (evals@.len() > degree && evals@.len() == points@.len()
            && !coincident_points_s(points@, degree + 1)),
        r matches Ok(v) ==> v == lag_sum_s(evals@, points@, degree as int, degree + 1),
        r matches Err(e) ==> e == (if evals@.len() <= degree {
            PVSSError::InsufficientEvaluationsError
        } else if evals@.len() != points@.len() {
            PVSSError::DifferentPointsEvalsError
        } else {
            PVSSError::EvaluationDomainError
        }),
{
    lagrange_interpolate(evals, points, degree)
}

/// Lagrange interpolation at zero from caller-chosen points in the
/// commitment group.
pub fn lagrange_interpolation_g2(evals: &Vec<G2>, points: &Vec<Fr>, degree: usize) -> (r: Result<
    G2,
    PVSSError,
>)
    ensures
        r is Ok <==> (evals@.len() > degree && evals@.len() == points@.len()
            && !coincident_points_s(points@, degree + 1)),
        r matches Ok(v) ==> v == lag_sum_s(evals@, points@, degree as int, degree + 1),
        r matches Err(e) ==> e == (if evals@.len() <= degree {
            PVSSError::InsufficientEvaluationsError
        } else if evals@.len() != points@.len() {
            PVSSError::DifferentPointsEvalsError
        } else {
            PVSSError::EvaluationDomainError
        }),
{
    lagrange_interpolate(evals, points, degree)
}

/// The embedded interpolation points of the target-group variant.
pub open spec fn u64_points_s(points: Seq<u64>) -> Seq<Fr> {
    points.map_values(|v: u64| fr_from_u64_s(v))
}

/// The interpolated value at zero in the target group, where the group is
/// written multiplicatively: sums become products and scalar
/// multiplications become exponentiations.
pub open spec fn lag_prod_gt_s(evals: Seq<Gt>, xs: Seq<Fr>, j: int, count: int) -> Gt
    decreases j,
{
    if j <= 0 {
        gt_pow_s(evals[0], lag_coeff_s(xs, 0, count))
    } else {
        gt_mul_s(
            lag_prod_gt_s(evals, xs, j - 1, count),
            gt_pow_s(evals[j], lag_coeff_s(xs, j, count)),
        )
    }
}

/// Lagrange interpolation at zero in the target group, from points given
/// as integers (a subset of `{1, ..., n}` in the protocol).
pub fn lagrange_interpolation_gt(evals: &Vec<Gt>, points: &Vec<u64>, degree: usize) -> (r: Result<
    Gt,
    PVSSError,
>)
    ensures
        r is Ok <==> (evals@.len() > degree && evals@.len() == points@.len() && !(exists|
            j: int,
            k: int,
        |
            0 <= j < degree + 1 && 0 <= k < degree + 1 && j != k && points@[j] == points@[k])),
        r matches Ok(v) ==> v == lag_prod_gt_s(
            evals@,
            u64_points_s(points@),
            degree as int,
            degree + 1,
        ),
        r matches Err(e) ==> e == (if evals@.len() <= degree {
            PVSSError::InsufficientEvaluationsError
        } else if evals@.len() != points@.len() {
            PVSSError::DifferentPointsEvalsError
        } else {
            PVSSError::EvaluationDomainError
        }),
{
    if evals.len() <= degree {
        return Err(PVSSError::InsufficientEvaluationsError);
    }
    if evals.len() != points.len() {
        return Err(PVSSError::DifferentPointsEvalsError);
    }
    let mut xs: Vec<Fr> = Vec::new();
    let mut i: usize = 0;
    while i < points.len()
        invariant
            i <= points@.len(),
            xs@.len() == i,
            forall|k: int| 0 <= k < i ==> xs@[k] == fr_from_u64_s(points@[k]),
            forall|k: int, y: u64|
                0 <= k < i && y != points@[k] ==> xs@[k] != fr_from_u64_s(y),
        decreases points@.len() - i,
    {
        let x = fr_from_u64(points[i]);
        xs.push(x);
        i = i + 1;
    }
    proof {
        assert(xs@ =~= u64_points_s(points@));
        assert forall|j: int, k: int|
            0 <= j < xs@.len() && 0 <= k < xs@.len() && j != k implies (xs@[j] == xs@[k]
            <==> points@[j] == points@[k]) by {
            if points@[j] == points@[k] {
                assert(xs@[j] == fr_from_u64_s(points@[j]));
            } else {
                assert(xs@[k] != fr_from_u64_s(points@[j]));
            }
        }
    }
    let count = degree + 1;
    let w0 = match lag_coeff(&xs, 0, count) {
        Ok(w) => w,
        Err(e) => {
            return Err(e);
        },
    };
    let mut prod = gt_pow(&evals[0], &w0);
    let mut j: usize = 1;
    while j < count
        invariant
            1 <= j <= count,
            count == degree + 1,
            evals@.len() > degree,
            xs@.len() == evals@.len(),
            xs@ == u64_points_s(points@),
            points@.len() == evals@.len(),
            forall|j2: int, k: int|
                0 <= j2 < xs@.len() && 0 <= k < xs@.len() && j2 != k ==> (xs@[j2] == xs@[k]
                    <==> points@[j2] == points@[k]),
            prod == lag_prod_gt_s(evals@, xs@, j - 1, count as int),
            forall|j2: int, k: int|
                0 <= j2 < j && 0 <= k < count && k != j2 ==> xs@[k] != xs@[j2],
        decreases count - j,
    {
        let w = match lag_coeff(&xs, j, count) {
            Ok(w) => w,
            Err(e) => {
                return Err(e);
            },
        };
        let term = gt_pow(&evals[j], &w);
        prod = gt_mul(&prod, &term);
        j = j + 1;
    }
    Ok(prod)
}

} // verus!
