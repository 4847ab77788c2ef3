//! The group of the curve library.
//!
//! The library's points form a cyclic group whose order is the prime
//! `modulus()`: every point is `k` times the curve's standard generator for
//! exactly one `k` below the order. That `k` is `point_index`, the one
//! number by which the rest of the crate knows a point. The group operation
//! adds indices, and multiplying a point by a scalar multiplies its index,
//! both modulo the order.

use vstd::prelude::*;
use ark_bls12_381::Fr;
use ark_bls12_381::G1Affine;
use ark_bls12_381::G1Projective;
use ark_ec::AffineCurve;
use ark_ec::ProjectiveCurve;
use ark_ff::FromBytes;
use ark_ff::ToBytes;
use ark_ff::Zero;
use ark_std::UniformRand;
use rand::rngs::StdRng;
use rand::SeedableRng;
use crate::curve::coordinates_reduced;
use crate::curve::satisfies_curve_equation;
use crate::field::modulus;
use crate::trusted::fr::fr_value;

verus! {

/// A point of the group, held as the library's `G1Projective`. The
/// library's type has a bound by one of its own traits, so it cannot be
/// made known to the verifier and is kept inside this struct, of which
/// nothing is visible. Only the functions of this file make one, and each
/// makes a point of the group.
#[verifier::external_body]
pub struct GroupElement {
    inner: G1Projective,
}

/// Two coordinates and a flag as the library's `G1Affine` holds them after
/// reading, before anything is known of the point they describe.
#[verifier::external_body]
pub struct AffineCandidate {
    inner: G1Affine,
}

/// The `k` in `0 .. modulus()` for which the point is `k` times the curve's
/// standard generator.
pub uninterp spec fn point_index(p: GroupElement) -> nat;

/// The index of the point that `UniformRand::rand` draws first from a
/// `StdRng` started from `seed` with `SeedableRng::seed_from_u64`.
pub uninterp spec fn seeded_index(seed: u64) -> nat;

/// The bytes that `ToBytes::write` gives for the affine form of the point
/// of index `k`.
pub uninterp spec fn point_encoding(k: nat) -> Seq<u8>;

/// The bytes that `ToBytes::write` gives for a candidate: its two
/// coordinates and its flag.
pub uninterp spec fn candidate_encoding(c: AffineCandidate) -> Seq<u8>;

/// Whether the point on the curve that `enc` holds lies in the subgroup of
/// order `modulus()`: what `is_in_correct_subgroup_assuming_on_curve` finds.
pub uninterp spec fn in_prime_subgroup(enc: Seq<u8>) -> bool;

/// The index of the point of the group that `enc` holds.
pub uninterp spec fn encoding_index(enc: Seq<u8>) -> nat;

/// `Zero::zero` of `G1Projective`: the identity of the group, which is 0
/// times the generator.
#[verifier::external_body]
pub(crate) fn g1_identity() -> (r: GroupElement)
    ensures
        point_index(r) == 0,
{
    GroupElement { inner: G1Projective::zero() }
}

/// `Clone` of `G1Projective`: the same point once more.
#[verifier::external_body]
pub(crate) fn g1_clone(p: &GroupElement) -> (r: GroupElement)
    ensures
        point_index(r) == point_index(*p),
{
    GroupElement { inner: p.inner.clone() }
}

/// `UniformRand::rand` on a `StdRng` from `SeedableRng::seed_from_u64`: the
/// point that the seed determines. The draw multiplies a point of the curve
/// by the cofactor, so the result is in the group.
#[verifier::external_body]
pub(crate) fn g1_from_seed(seed: u64) -> (r: GroupElement)
    ensures
        point_index(r) == seeded_index(seed),
        point_index(r) < modulus(),
{
    GroupElement { inner: G1Projective::rand(&mut StdRng::seed_from_u64(seed)) }
}

/// `AffineCurve::mul` on the affine form of a point: the point times the
/// scalar, whose index is the product of index and scalar modulo the order.
#[verifier::external_body]
pub(crate) fn g1_mul(p: &GroupElement, s: &Fr) -> (r: GroupElement)
    requires
        fr_value(*s) < modulus(),
    ensures
        point_index(r) == (point_index(*p) * fr_value(*s)) % modulus(),
{
    GroupElement { inner: p.inner.into_affine().mul(*s) }
}

/// `Neg` of `G1Projective`: the inverse of a point in the group, whose
/// index is the negative of the point's modulo the order.
#[verifier::external_body]
pub(crate) fn g1_neg(p: &GroupElement) -> (r: GroupElement)
    ensures
        point_index(r) == (0 - point_index(*p)) % (modulus() as int),
{
    GroupElement { inner: -p.inner }
}

/// `Add` of `G1Projective`: the group operation, which adds indices modulo
/// the order.
#[verifier::external_body]
pub(crate) fn g1_add(a: &GroupElement, b: &GroupElement) -> (r: GroupElement)
    ensures
        point_index(r) == (point_index(*a) + point_index(*b)) % modulus(),
{
    GroupElement { inner: a.inner + b.inner }
}

/// `Sub` of `G1Projective`: the first point plus the inverse of the second,
/// which subtracts indices modulo the order.
#[verifier::external_body]
pub(crate) fn g1_sub(a: &GroupElement, b: &GroupElement) -> (r: GroupElement)
    ensures
        point_index(r) == (point_index(*a) - point_index(*b)) % (modulus() as int),
{
    GroupElement { inner: a.inner - b.inner }
}

/// `PartialEq` of the affine forms of two points: whether they are the same
/// point of the group.
#[verifier::external_body]
pub(crate) fn g1_eq(a: &GroupElement, b: &GroupElement) -> (r: bool)
    ensures
        r == (point_index(*a) == point_index(*b)),
{
    a.inner.into_affine() == b.inner.into_affine()
}

/// `ToBytes::write` of the affine form into an empty vector: the encoding
/// of the point. The bytes hold two reduced coordinates and a flag, of a
/// point on the curve and in the group, which is the point written.
#[verifier::external_body]
pub(crate) fn g1_write(p: &GroupElement) -> (r: Vec<u8>)
    ensures
        r@ == point_encoding(point_index(*p)),
        coordinates_reduced(r@),
        satisfies_curve_equation(r@),
        in_prime_subgroup(r@),
        encoding_index(r@) == point_index(*p),
{
    let mut buf: Vec<u8> = Vec::new();
    p.inner.into_affine().write(&mut buf).expect("a vector takes every write");
    buf
}

/// `FromBytes::read` of `G1Affine` from 97 bytes: a candidate, if both
/// coordinates are reduced and the flag is 0 or 1, and nothing otherwise.
/// The candidate holds what was read, so writing it gives the same bytes.
#[verifier::external_body]
pub(crate) fn g1_read(bytes: &[u8]) -> (r: Option<AffineCandidate>)
    requires
        bytes@.len() == 97,
    ensures
        r is Some <==> coordinates_reduced(bytes@),
        r is Some ==> candidate_encoding(r->Some_0) == bytes@,
{
    G1Affine::read(bytes).ok().map(|a| AffineCandidate { inner: a })
}

/// `GroupAffine::is_on_curve`: whether the candidate is marked as the point
/// at infinity or its coordinates satisfy the curve's equation.
#[verifier::external_body]
pub(crate) fn candidate_on_curve(c: &AffineCandidate) -> (r: bool)
    requires
        coordinates_reduced(candidate_encoding(*c)),
    ensures
        r == satisfies_curve_equation(candidate_encoding(*c)),
{
    c.inner.is_on_curve()
}

/// `GroupAffine::is_in_correct_subgroup_assuming_on_curve`: whether the
/// order of the group times the candidate, a point on the curve, is the
/// identity.
#[verifier::external_body]
pub(crate) fn candidate_in_subgroup(c: &AffineCandidate) -> (r: bool)
    requires
        coordinates_reduced(candidate_encoding(*c)),
        satisfies_curve_equation(candidate_encoding(*c)),
    ensures
        r == in_prime_subgroup(candidate_encoding(*c)),
{
    c.inner.is_in_correct_subgroup_assuming_on_curve()
}

/// `AffineCurve::into_projective` of a candidate that is on the curve and
/// in the group: that point of the group.
#[verifier::external_body]
pub(crate) fn candidate_into_group(c: AffineCandidate) -> (r: GroupElement)
    requires
        coordinates_reduced(candidate_encoding(c)),
        satisfies_curve_equation(candidate_encoding(c)),
        in_prime_subgroup(candidate_encoding(c)),
    ensures
        point_index(r) == encoding_index(candidate_encoding(c)),
        point_index(r) < modulus(),
{
    GroupElement { inner: c.inner.into_projective() }
}

} // verus!
