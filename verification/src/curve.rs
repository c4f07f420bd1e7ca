//! The algebraic backend: the BLS12-381 pairing groups and their scalar
//! field, as provided by the arkworks crates.
//!
//! Verus sees every curve point and field element as an opaque value. Each
//! arithmetic operation of the outside crates is reached through a trusted
//! wrapper whose result is pinned to an uninterpreted name, so that the
//! contracts of the library can speak about the algebra exactly, without
//! restating curve arithmetic.
//!
//! The affine point types of `ark_ec` carry trait bounds that Verus refuses
//! to declare directly, so each group element is held in a private field of
//! an `external_body` struct of this crate; the scalar field is declared as
//! the outside type itself. Since the fields are private, every point in
//! circulation was produced by the wrappers below and is in canonical
//! affine form, which is what the equality and identity contracts rely on.

use vstd::prelude::*;

verus! {

/// The scalar field of BLS12-381.
pub type Fr = ark_bls12_381::Fr;

#[verifier::external_type_specification]
#[verifier::external_body]
#[verifier::reject_recursive_types(P)]
pub struct ExFp256<P>(ark_ff::Fp256<P>);

#[verifier::external_type_specification]
#[verifier::external_body]
pub struct ExFrParameters(ark_bls12_381::FrParameters);

/// A point of the encryption group G1 (public keys, encrypted evaluations).
#[verifier::external_body]
pub struct G1 {
    p: ark_bls12_381::G1Affine,
}

/// A point of the commitment group G2 (commitments, proof statements).
#[verifier::external_body]
pub struct G2 {
    p: ark_bls12_381::G2Affine,
}

/// An element of the target group GT of the pairing.
#[verifier::external_body]
pub struct Gt {
    v: ark_bls12_381::Fq12,
}

impl Copy for G1 {

}

impl Clone for G1 {
    fn clone(&self) -> (r: Self)
        ensures
            r == *self,
    {
        *self
    }
}

impl Copy for G2 {

}

impl Clone for G2 {
    fn clone(&self) -> (r: Self)
        ensures
            r == *self,
    {
        *self
    }
}

impl Copy for Gt {

}

impl Clone for Gt {
    fn clone(&self) -> (r: Self)
        ensures
            r == *self,
    {
        *self
    }
}

impl PartialEq for G1 {
    fn eq(&self, o: &G1) -> (r: bool) {
        g1_eq(self, o)
    }
}

impl vstd::std_specs::cmp::PartialEqSpecImpl for G1 {
    open spec fn obeys_eq_spec() -> bool {
        true
    }

    open spec fn eq_spec(&self, o: &G1) -> bool {
        *self == *o
    }
}

impl PartialEq for G2 {
    fn eq(&self, o: &G2) -> (r: bool) {
        g2_eq(self, o)
    }
}

impl vstd::std_specs::cmp::PartialEqSpecImpl for G2 {
    open spec fn obeys_eq_spec() -> bool {
        true
    }

    open spec fn eq_spec(&self, o: &G2) -> bool {
        *self == *o
    }
}

impl PartialEq for Gt {
    fn eq(&self, o: &Gt) -> (r: bool) {
        gt_eq(self, o)
    }
}

impl vstd::std_specs::cmp::PartialEqSpecImpl for Gt {
    open spec fn obeys_eq_spec() -> bool {
        true
    }

    open spec fn eq_spec(&self, o: &Gt) -> bool {
        *self == *o
    }
}

/// What `Fr::from(u64)` returns.
pub uninterp spec fn fr_from_u64_s(x: u64) -> Fr;

/// What field addition returns.
pub uninterp spec fn fr_add_s(a: Fr, b: Fr) -> Fr;

/// What field subtraction returns.
pub uninterp spec fn fr_sub_s(a: Fr, b: Fr) -> Fr;

/// What field multiplication returns.
pub uninterp spec fn fr_mul_s(a: Fr, b: Fr) -> Fr;

/// What field inversion returns on a nonzero argument.
pub uninterp spec fn fr_inv_s(a: Fr) -> Fr;

/// What field negation returns.
pub uninterp spec fn fr_neg_s(a: Fr) -> Fr;

/// What the canonical serialization of a scalar is.
pub uninterp spec fn fr_ser_s(a: Fr) -> Seq<u8>;

/// Relies on `Fr: From<u64>`: embedding a 64-bit integer into the scalar
/// field depends on the integer alone, and is injective because the field
/// modulus exceeds 2^64.
#[verifier::external_body]
pub fn fr_from_u64(x: u64) -> (r: Fr)
    ensures
        r == fr_from_u64_s(x),
        forall|y: u64| y != x ==> r != fr_from_u64_s(y),
{
    <Fr as core::convert::From<u64>>::from(x)
}

/// Relies on `Fr: Add`: the sum depends on the operands alone, and field
/// addition is commutative.
#[verifier::external_body]
pub fn fr_add(a: &Fr, b: &Fr) -> (r: Fr)
    ensures
        r == fr_add_s(*a, *b),
        r == fr_add_s(*b, *a),
{
    *a + *b
}

/// Relies on `Fr: Sub`: the difference depends on the operands alone, and
/// is zero exactly when the operands are equal.
#[verifier::external_body]
pub fn fr_sub(a: &Fr, b: &Fr) -> (r: Fr)
    ensures
        r == fr_sub_s(*a, *b),
        (r == fr_from_u64_s(0)) <==> (a == b),
{
    *a - *b
}

/// Relies on `Fr: Mul`: the product depends on the operands alone, and
/// field multiplication is commutative.
#[verifier::external_body]
pub fn fr_mul(a: &Fr, b: &Fr) -> (r: Fr)
    ensures
        r == fr_mul_s(*a, *b),
        r == fr_mul_s(*b, *a),
{
    *a * *b
}

/// Relies on `Field::inverse`: it returns `None` exactly on the zero
/// element, and the inverse of a nonzero element depends on it alone.
#[verifier::external_body]
pub fn fr_inverse(a: &Fr) -> (r: Option<Fr>)
    ensures
        r is Some <==> *a != fr_from_u64_s(0),
        r matches Some(v) ==> v == fr_inv_s(*a),
{
    ark_ff::Field::inverse(a)
}

/// Relies on `Fr: Neg`: the negation depends on the operand alone.
#[verifier::external_body]
pub fn fr_neg(a: &Fr) -> (r: Fr)
    ensures
        r == fr_neg_s(*a),
{
    -*a
}

/// Relies on `Fr: PartialEq`: equality of scalars is equality of their
/// canonical representations.
#[verifier::external_body]
pub fn fr_eq(a: &Fr, b: &Fr) -> (r: bool)
    ensures
        r == (a == b),
{
    a == b
}

/// Relies on `CanonicalSerialize::serialize`: the byte encoding of a scalar
/// depends on the scalar alone.
#[verifier::external_body]
pub fn fr_to_bytes(a: &Fr) -> (r: Vec<u8>)
    ensures
        r@ == fr_ser_s(*a),
{
    let mut bytes = std::vec::Vec::new();
    let _ = ark_serialize::CanonicalSerialize::serialize(a, &mut bytes);
    bytes
}

/// Relies on `UniformRand::rand`: a fresh scalar from a cryptographic RNG.
/// Nothing is promised of the value.
#[verifier::external_body]
pub fn fr_rand() -> (r: Fr)
{
    <Fr as ark_ff::UniformRand>::rand(&mut rand::thread_rng())
}

/// The operations that the two source groups of the pairing share. The
/// library's sigma protocols and interpolation routines are generic over
/// this trait; `G1` and `G2` implement it by calling into the arkworks
/// curve arithmetic, which Verus takes on trust one wrapper at a time.
pub trait EcGroup: Sized + Copy {
    /// What scalar multiplication returns.
    spec fn mul_s(self, s: Fr) -> Self;

    /// What group addition returns.
    spec fn add_s(self, o: Self) -> Self;

    /// What negation returns.
    spec fn neg_s(self) -> Self;

    /// What the canonical compressed serialization of a point is.
    spec fn ser_s(self) -> Seq<u8>;

    /// Whether the point is the identity of the group.
    spec fn is_id_s(self) -> bool;

    /// What a multi-scalar multiplication over equal-length vectors returns.
    spec fn msm_s(bases: Seq<Self>, scalars: Seq<Fr>) -> Self;

    fn mul_by(&self, s: &Fr) -> (r: Self)
        ensures
            r == self.mul_s(*s),
            self.is_id_s() ==> r.is_id_s(),
    ;

    fn add_to(&self, o: &Self) -> (r: Self)
        ensures
            r == self.add_s(*o),
            r == o.add_s(*self),
            self.is_id_s() ==> r == *o,
            o.is_id_s() ==> r == *self,
    ;

    fn negate(&self) -> (r: Self)
        ensures
            r == self.neg_s(),
            self.is_id_s() ==> r.is_id_s(),
    ;

    fn equals(&self, o: &Self) -> (r: bool)
        ensures
            r == (self == o),
    ;

    fn is_identity(&self) -> (r: bool)
        ensures
            r == self.is_id_s(),
    ;

    fn to_bytes(&self) -> (r: Vec<u8>)
        ensures
            r@ == self.ser_s(),
    ;

    fn identity() -> (r: Self)
        ensures
            r.is_id_s(),
    ;

    fn generator() -> Self;

    fn sample() -> Self;

    fn msm(bases: &Vec<Self>, scalars: &Vec<Fr>) -> (r: Self)
        requires
            bases@.len() == scalars@.len(),
        ensures
            r == Self::msm_s(bases@, scalars@),
    ;
}

/// What scalar multiplication in G1 returns.
pub uninterp spec fn g1_mul_s(p: G1, s: Fr) -> G1;

/// What addition in G1 returns.
pub uninterp spec fn g1_add_s(a: G1, b: G1) -> G1;

/// What negation in G1 returns.
pub uninterp spec fn g1_neg_s(a: G1) -> G1;

/// What the canonical compressed serialization of a G1 point is.
pub uninterp spec fn g1_ser_s(a: G1) -> Seq<u8>;

/// Whether a G1 point is the identity.
pub uninterp spec fn g1_is_id_s(a: G1) -> bool;

/// What a multi-scalar multiplication in G1 returns.
pub uninterp spec fn g1_msm_s(bases: Seq<G1>, scalars: Seq<Fr>) -> G1;

/// What scalar multiplication in G2 returns.
pub uninterp spec fn g2_mul_s(p: G2, s: Fr) -> G2;

/// What addition in G2 returns.
pub uninterp spec fn g2_add_s(a: G2, b: G2) -> G2;

/// What negation in G2 returns.
pub uninterp spec fn g2_neg_s(a: G2) -> G2;

/// What the canonical compressed serialization of a G2 point is.
pub uninterp spec fn g2_ser_s(a: G2) -> Seq<u8>;

/// Whether a G2 point is the identity.
pub uninterp spec fn g2_is_id_s(a: G2) -> bool;

/// What a multi-scalar multiplication in G2 returns.
pub uninterp spec fn g2_msm_s(bases: Seq<G2>, scalars: Seq<Fr>) -> G2;

/// Relies on `AffineCurve::mul`: scalar multiplication of a point, a
/// function of point and scalar alone; it maps the identity to itself.
#[verifier::external_body]
fn g1_mul(p: &G1, s: &Fr) -> (r: G1)
    ensures
        r == g1_mul_s(*p, *s),
        g1_is_id_s(*p) ==> g1_is_id_s(r),
{
    let q = ark_ec::AffineCurve::mul(&p.p, ark_ff::PrimeField::into_repr(s));
    G1 { p: ark_ec::ProjectiveCurve::into_affine(&q) }
}

/// Relies on curve point addition: a function of the two points alone,
/// commutative, with the identity as neutral element.
#[verifier::external_body]
fn g1_add(a: &G1, b: &G1) -> (r: G1)
    ensures
        r == g1_add_s(*a, *b),
        r == g1_add_s(*b, *a),
        g1_is_id_s(*a) ==> r == *b,
        g1_is_id_s(*b) ==> r == *a,
{
    let sum = ark_ec::ProjectiveCurve::add_mixed(ark_ec::AffineCurve::into_projective(&a.p), &b.p);
    G1 { p: ark_ec::ProjectiveCurve::into_affine(&sum) }
}

/// Relies on `Neg for GroupAffine`: a function of the point alone that
/// maps the identity to itself.
#[verifier::external_body]
fn g1_neg(a: &G1) -> (r: G1)
    ensures
        r == g1_neg_s(*a),
        g1_is_id_s(*a) ==> g1_is_id_s(r),
{
    G1 { p: -a.p }
}

/// Relies on `PartialEq for GroupAffine`: equality of the canonical
/// affine coordinates.
#[verifier::external_body]
fn g1_eq(a: &G1, b: &G1) -> (r: bool)
    ensures
        r == (a == b),
{
    a.p == b.p
}

/// Relies on `Zero::is_zero`: whether the point is the group identity.
#[verifier::external_body]
fn g1_is_zero(a: &G1) -> (r: bool)
    ensures
        r == g1_is_id_s(*a),
{
    ark_ff::Zero::is_zero(&a.p)
}

/// Relies on `CanonicalSerialize::serialize`: the compressed encoding of a
/// point depends on the point alone.
#[verifier::external_body]
fn g1_bytes(a: &G1) -> (r: Vec<u8>)
    ensures
        r@ == g1_ser_s(*a),
{
    let mut bytes = std::vec::Vec::new();
    let _ = ark_serialize::CanonicalSerialize::serialize(&a.p, &mut bytes);
    bytes
}

/// Relies on `Zero::zero`: the identity point of the group.
#[verifier::external_body]
fn g1_zero() -> (r: G1)
    ensures
        g1_is_id_s(r),
{
    G1 { p: ark_ff::Zero::zero() }
}

/// Relies on `AffineCurve::prime_subgroup_generator`. Nothing is promised
/// of the value.
#[verifier::external_body]
fn g1_gen() -> G1
{
    G1 { p: ark_ec::AffineCurve::prime_subgroup_generator() }
}

/// Relies on `UniformRand::rand`: a fresh group element from a
/// cryptographic RNG. Nothing is promised of the value.
#[verifier::external_body]
fn g1_rand() -> G1
{
    let q = <ark_bls12_381::G1Projective as ark_ff::UniformRand>::rand(&mut rand::thread_rng());
    G1 { p: ark_ec::ProjectiveCurve::into_affine(&q) }
}

/// Relies on `VariableBaseMSM::multi_scalar_mul`: a function of the bases
/// and scalars alone.
#[verifier::external_body]
fn g1_msm(bases: &Vec<G1>, scalars: &Vec<Fr>) -> (r: G1)
    ensures
        r == g1_msm_s(bases@, scalars@),
{
    let bs: std::vec::Vec<ark_bls12_381::G1Affine> = bases.iter().map(|b| b.p).collect();
    let ss: std::vec::Vec<_> = scalars.iter().map(|s| ark_ff::PrimeField::into_repr(s)).collect();
    let sum = ark_ec::msm::VariableBaseMSM::multi_scalar_mul(&bs, &ss);
    G1 { p: ark_ec::ProjectiveCurve::into_affine(&sum) }
}

impl EcGroup for G1 {
    open spec fn mul_s(self, s: Fr) -> Self {
        g1_mul_s(self, s)
    }

    open spec fn add_s(self, o: Self) -> Self {
        g1_add_s(self, o)
    }

    open spec fn neg_s(self) -> Self {
        g1_neg_s(self)
    }

    open spec fn ser_s(self) -> Seq<u8> {
        g1_ser_s(self)
    }

    open spec fn is_id_s(self) -> bool {
        g1_is_id_s(self)
    }

    open spec fn msm_s(bases: Seq<Self>, scalars: Seq<Fr>) -> Self {
        g1_msm_s(bases, scalars)
    }

    fn mul_by(&self, s: &Fr) -> (r: Self) {
        g1_mul(self, s)
    }

    fn add_to(&self, o: &Self) -> (r: Self) {
        g1_add(self, o)
    }

    fn negate(&self) -> (r: Self) {
        g1_neg(self)
    }

    fn equals(&self, o: &Self) -> (r: bool) {
        g1_eq(self, o)
    }

    fn is_identity(&self) -> (r: bool) {
        g1_is_zero(self)
    }

    fn to_bytes(&self) -> (r: Vec<u8>) {
        g1_bytes(self)
    }

    fn identity() -> (r: Self) {
        g1_zero()
    }

    fn generator() -> Self {
        g1_gen()
    }

    fn sample() -> Self {
        g1_rand()
    }

    fn msm(bases: &Vec<Self>, scalars: &Vec<Fr>) -> (r: Self) {
        g1_msm(bases, scalars)
    }
}

/// Relies on `AffineCurve::mul`: scalar multiplication of a point, a
/// function of point and scalar alone; it maps the identity to itself.
#[verifier::external_body]
fn g2_mul(p: &G2, s: &Fr) -> (r: G2)
    ensures
        r == g2_mul_s(*p, *s),
        g2_is_id_s(*p) ==> g2_is_id_s(r),
{
    let q = ark_ec::AffineCurve::mul(&p.p, ark_ff::PrimeField::into_repr(s));
    G2 { p: ark_ec::ProjectiveCurve::into_affine(&q) }
}

/// Relies on curve point addition: a function of the two points alone,
/// commutative, with the identity as neutral element.
#[verifier::external_body]
fn g2_add(a: &G2, b: &G2) -> (r: G2)
    ensures
        r == g2_add_s(*a, *b),
        r == g2_add_s(*b, *a),
        g2_is_id_s(*a) ==> r == *b,
        g2_is_id_s(*b) ==> r == *a,
{
    let sum = ark_ec::ProjectiveCurve::add_mixed(ark_ec::AffineCurve::into_projective(&a.p), &b.p);
    G2 { p: ark_ec::ProjectiveCurve::into_affine(&sum) }
}

/// Relies on `Neg for GroupAffine`: a function of the point alone that
/// maps the identity to itself.
#[verifier::external_body]
fn g2_neg(a: &G2) -> (r: G2)
    ensures
        r == g2_neg_s(*a),
        g2_is_id_s(*a) ==> g2_is_id_s(r),
{
    G2 { p: -a.p }
}

/// Relies on `PartialEq for GroupAffine`: equality of the canonical
/// affine coordinates.
#[verifier::external_body]
fn g2_eq(a: &G2, b: &G2) -> (r: bool)
    ensures
        r == (a == b),
{
    a.p == b.p
}

/// Relies on `Zero::is_zero`: whether the point is the group identity.
#[verifier::external_body]
fn g2_is_zero(a: &G2) -> (r: bool)
    ensures
        r == g2_is_id_s(*a),
{
    ark_ff::Zero::is_zero(&a.p)
}

/// Relies on `CanonicalSerialize::serialize`: the compressed encoding of a
/// point depends on the point alone.
#[verifier::external_body]
fn g2_bytes(a: &G2) -> (r: Vec<u8>)
    ensures
        r@ == g2_ser_s(*a),
{
    let mut bytes = std::vec::Vec::new();
    let _ = ark_serialize::CanonicalSerialize::serialize(&a.p, &mut bytes);
    bytes
}

/// Relies on `Zero::zero`: the identity point of the group.
#[verifier::external_body]
fn g2_zero() -> (r: G2)
    ensures
        g2_is_id_s(r),
{
    G2 { p: ark_ff::Zero::zero() }
}

/// Relies on `AffineCurve::prime_subgroup_generator`. Nothing is promised
/// of the value.
#[verifier::external_body]
fn g2_gen() -> G2
{
    G2 { p: ark_ec::AffineCurve::prime_subgroup_generator() }
}

/// Relies on `UniformRand::rand`: a fresh group element from a
/// cryptographic RNG. Nothing is promised of the value.
#[verifier::external_body]
fn g2_rand() -> G2
{
    let q = <ark_bls12_381::G2Projective as ark_ff::UniformRand>::rand(&mut rand::thread_rng());
    G2 { p: ark_ec::ProjectiveCurve::into_affine(&q) }
}

/// Relies on `VariableBaseMSM::multi_scalar_mul`: a function of the bases
/// and scalars alone.
#[verifier::external_body]
fn g2_msm(bases: &Vec<G2>, scalars: &Vec<Fr>) -> (r: G2)
    ensures
        r == g2_msm_s(bases@, scalars@),
{
    let bs: std::vec::Vec<ark_bls12_381::G2Affine> = bases.iter().map(|b| b.p).collect();
    let ss: std::vec::Vec<_> = scalars.iter().map(|s| ark_ff::PrimeField::into_repr(s)).collect();
    let sum = ark_ec::msm::VariableBaseMSM::multi_scalar_mul(&bs, &ss);
    G2 { p: ark_ec::ProjectiveCurve::into_affine(&sum) }
}

impl EcGroup for G2 {
    open spec fn mul_s(self, s: Fr) -> Self {
        g2_mul_s(self, s)
    }

    open spec fn add_s(self, o: Self) -> Self {
        g2_add_s(self, o)
    }

    open spec fn neg_s(self) -> Self {
        g2_neg_s(self)
    }

    open spec fn ser_s(self) -> Seq<u8> {
        g2_ser_s(self)
    }

    open spec fn is_id_s(self) -> bool {
        g2_is_id_s(self)
    }

    open spec fn msm_s(bases: Seq<Self>, scalars: Seq<Fr>) -> Self {
        g2_msm_s(bases, scalars)
    }

    fn mul_by(&self, s: &Fr) -> (r: Self) {
        g2_mul(self, s)
    }

    fn add_to(&self, o: &Self) -> (r: Self) {
        g2_add(self, o)
    }

    fn negate(&self) -> (r: Self) {
        g2_neg(self)
    }

    fn equals(&self, o: &Self) -> (r: bool) {
        g2_eq(self, o)
    }

    fn is_identity(&self) -> (r: bool) {
        g2_is_zero(self)
    }

    fn to_bytes(&self) -> (r: Vec<u8>) {
        g2_bytes(self)
    }

    fn identity() -> (r: Self) {
        g2_zero()
    }

    fn generator() -> Self {
        g2_gen()
    }

    fn sample() -> Self {
        g2_rand()
    }

    fn msm(bases: &Vec<Self>, scalars: &Vec<Fr>) -> (r: Self) {
        g2_msm(bases, scalars)
    }
}

/// What the pairing of a G1 point and a G2 point is.
pub uninterp spec fn pairing_s(a: G1, b: G2) -> Gt;

/// What the product of pairings over a sequence of pairs is.
pub uninterp spec fn pairing_prod_s(pairs: Seq<(G1, G2)>) -> Gt;

/// What multiplication in the target group returns.
pub uninterp spec fn gt_mul_s(a: Gt, b: Gt) -> Gt;

/// What exponentiation in the target group returns.
pub uninterp spec fn gt_pow_s(a: Gt, e: Fr) -> Gt;

/// Whether a target-group element is the multiplicative identity.
pub uninterp spec fn gt_is_one_s(a: Gt) -> bool;

/// Relies on `PairingEngine::pairing`: a function of the two points alone.
#[verifier::external_body]
pub fn pairing(a: &G1, b: &G2) -> (r: Gt)
    ensures
        r == pairing_s(*a, *b),
{
    Gt { v: <ark_bls12_381::Bls12_381 as ark_ec::PairingEngine>::pairing(a.p, b.p) }
}

/// Relies on `PairingEngine::product_of_pairings`: a function of the list
/// of pairs alone.
#[verifier::external_body]
pub fn pairing_product(pairs: &Vec<(G1, G2)>) -> (r: Gt)
    ensures
        r == pairing_prod_s(pairs@),
{
    let prepared: std::vec::Vec<_> =
        pairs.iter().map(|(a, b)| (a.p.into(), b.p.into())).collect();
    Gt { v: <ark_bls12_381::Bls12_381 as ark_ec::PairingEngine>::product_of_pairings(
        prepared.iter(),
    ) }
}

/// Relies on `Fq12: Mul`: the product depends on the operands alone, it is
/// commutative, and the multiplicative identity is neutral.
#[verifier::external_body]
pub fn gt_mul(a: &Gt, b: &Gt) -> (r: Gt)
    ensures
        r == gt_mul_s(*a, *b),
        r == gt_mul_s(*b, *a),
        gt_is_one_s(*a) ==> r == *b,
        gt_is_one_s(*b) ==> r == *a,
{
    Gt { v: a.v * b.v }
}

/// Relies on `Field::pow`: exponentiation depends on base and exponent
/// alone.
#[verifier::external_body]
pub fn gt_pow(a: &Gt, e: &Fr) -> (r: Gt)
    ensures
        r == gt_pow_s(*a, *e),
{
    Gt { v: ark_ff::Field::pow(&a.v, ark_ff::PrimeField::into_repr(e)) }
}

/// Relies on `One::is_one`: whether the element is the multiplicative
/// identity of the target group.
#[verifier::external_body]
pub fn gt_is_one(a: &Gt) -> (r: bool)
    ensures
        r == gt_is_one_s(*a),
{
    ark_ff::One::is_one(&a.v)
}

/// Relies on `Fq12: PartialEq`: equality of the canonical representations.
#[verifier::external_body]
pub fn gt_eq(a: &Gt, b: &Gt) -> (r: bool)
    ensures
        r == (a == b),
{
    a.v == b.v
}

} // verus!
