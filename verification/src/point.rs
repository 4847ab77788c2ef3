//! Points: the elements of the curve group.
//!
//! The group is cyclic and its order is the prime `modulus()`. The view of a
//! point is its index: the `k` below the order for which the point is `k`
//! times the curve's standard generator. The point at infinity has index 0,
//! the sum of two points the sum of their indices, and a point times a
//! scalar the product of index and scalar, all modulo the order.

use vstd::prelude::*;
use crate::curve::coordinates_reduced;
use crate::curve::satisfies_curve_equation;
use crate::curve::POINT_BYTES;
use crate::encoding::same_bytes;
use crate::error::CurveError;
use crate::field::field_add;
use crate::field::field_mul;
use crate::field::field_neg;
use crate::field::field_sub;
use crate::field::lemma_add_neg;
use crate::field::lemma_add_zero;
use crate::field::lemma_mul_associative;
use crate::field::lemma_mul_distributes;
use crate::field::lemma_results_reduced;
use crate::field::lemma_sub_is_add_neg;
use crate::field::modulus;
use crate::scalar::Scalar;
use crate::trusted::g1::candidate_in_subgroup;
use crate::trusted::g1::candidate_into_group;
use crate::trusted::g1::candidate_on_curve;
use crate::trusted::g1::encoding_index;
use crate::trusted::g1::g1_add;
use crate::trusted::g1::g1_clone;
use crate::trusted::g1::g1_eq;
use crate::trusted::g1::g1_from_seed;
use crate::trusted::g1::g1_identity;
use crate::trusted::g1::g1_mul;
use crate::trusted::g1::g1_neg;
use crate::trusted::g1::g1_read;
use crate::trusted::g1::g1_sub;
use crate::trusted::g1::g1_write;
use crate::trusted::g1::in_prime_subgroup;
use crate::trusted::g1::point_encoding;
use crate::trusted::g1::point_index;
use crate::trusted::g1::seeded_index;
use crate::trusted::g1::GroupElement;

verus! {

/// The seed from which the base point of this crate is drawn. The base
/// point is not the curve's standard generator: it is the point that a
/// seeded pseudo-random generator gives first, and every public key derived
/// from it depends on this seed.
pub const GENERATOR_SEED: u64 = 42;

/// An element of the group. Its view is its index; two points are equal
/// when their views are.
pub struct Point {
    point: GroupElement,
}

impl View for Point {
    type V = nat;

    closed spec fn view(&self) -> nat {
        point_index(self.point)
    }
}

/// The identity of the group.
fn get_point_at_infinity() -> (r: GroupElement)
    ensures
        point_index(r) == 0,
{
    g1_identity()
}

/// The base point: the point drawn from `GENERATOR_SEED`.
fn curve_generator() -> (r: GroupElement)
    ensures
        point_index(r) == Point::spec_generator(),
        point_index(r) < modulus(),
{
    g1_from_seed(GENERATOR_SEED)
}

impl Point {
    /// Every point is in the group: its index lies below the order.
    #[verifier::type_invariant]
    pub open spec fn wf(self) -> bool {
        self@ < modulus()
    }

    /// The index of the base point.
    pub open spec fn spec_generator() -> nat {
        seeded_index(GENERATOR_SEED)
    }

    /// The index of the base point times the scalar `s`.
    pub open spec fn spec_from_scalar(s: nat) -> nat {
        field_mul(Self::spec_generator(), s)
    }

    /// The canonical encoding of the point of index `k`.
    pub open spec fn spec_to_bytes(k: nat) -> Seq<u8> {
        point_encoding(k)
    }

    /// The index of the point that `bytes` encode, if they are the
    /// canonical encoding of one: two reduced coordinates and a flag, of a
    /// point that is on the curve and in the group and whose encoding is
    /// these bytes.
    pub open spec fn spec_from_bytes(bytes: Seq<u8>) -> Option<nat> {
        if coordinates_reduced(bytes) && satisfies_curve_equation(bytes) && in_prime_subgroup(bytes)
            && point_encoding(encoding_index(bytes)) == bytes {
            Some(encoding_index(bytes))
        } else {
            None
        }
    }

    /// The indices of a sequence of points, in their order.
    pub open spec fn indices(points: Seq<Point>) -> Seq<nat> {
        Seq::new(points.len(), |i: int| points[i]@)
    }

    /// The encodings of the points of the given indices, one after the
    /// other.
    pub open spec fn spec_transcript(indices: Seq<nat>) -> Seq<u8>
        decreases indices.len(),
    {
        if indices.len() == 0 {
            Seq::empty()
        } else {
            Self::spec_transcript(indices.drop_last()) + Self::spec_to_bytes(indices.last())
        }
    }

    /// The point at infinity, which is the identity of the group.
    pub fn infinity() -> (r: Point)
        ensures
            r@ == 0,
    {
        Point { point: get_point_at_infinity() }
    }

    /// The base point of this crate: the point drawn from `GENERATOR_SEED`,
    /// the same at every call, and not the curve's standard generator.
    pub fn generator() -> (r: Point)
        ensures
            r@ == Self::spec_generator(),
    {
        Point { point: curve_generator() }
    }

    /// The base point times the scalar `s`.
    pub fn from_scalar(s: &Scalar) -> (r: Point)
        ensures
            r@ == Self::spec_from_scalar(s@),
    {
        let base = Self::generator();
        base.mul(s)
    }

    /// This point times the scalar `s`.
    pub fn mul(&self, s: &Scalar) -> (r: Point)
        ensures
            r@ == field_mul(self@, s@),
    {
        proof {
            lemma_results_reduced(self@, s@);
        }
        Point { point: g1_mul(&self.point, s.element()) }
    }

    /// The inverse of this point in the group.
    pub fn inverse(&self) -> (r: Point)
        ensures
            r@ == field_neg(self@),
    {
        proof {
            lemma_results_reduced(self@, 0);
        }
        Point { point: g1_neg(&self.point) }
    }

    /// The canonical encoding of this point, which `from_bytes` decodes to
    /// an equal point.
    pub fn to_bytes(&self) -> (r: Vec<u8>)
        ensures
            r@ == Self::spec_to_bytes(self@),
            r@.len() == POINT_BYTES,
            Self::spec_from_bytes(r@) == Some(self@),
    {
        g1_write(&self.point)
    }

    /// The point that `bytes` encode. Bytes that are not the canonical
    /// encoding of a point of the group give `DecodeError`: by their
    /// number, by a coordinate that is not reduced, by a point that is not
    /// on the curve or not in the group, or by another spelling of the
    /// point at infinity than the canonical one.
    pub fn from_bytes(bytes: &[u8]) -> (r: Result<Point, CurveError>)
        ensures
            match r {
                Ok(p) => Self::spec_from_bytes(bytes@) == Some(p@),
                Err(e) => Self::spec_from_bytes(bytes@) is None && e == CurveError::DecodeError,
            },
    {
        if bytes.len() != POINT_BYTES {
            return Err(CurveError::DecodeError);
        }
        let candidate = match g1_read(bytes) {
            Some(c) => c,
            None => {
                return Err(CurveError::DecodeError);
            },
        };
        if !candidate_on_curve(&candidate) {
            return Err(CurveError::DecodeError);
        }
        if !candidate_in_subgroup(&candidate) {
            return Err(CurveError::DecodeError);
        }
        let point = candidate_into_group(candidate);
        let canonical = g1_write(&point);
        if !same_bytes(canonical.as_slice(), bytes) {
            return Err(CurveError::DecodeError);
        }
        Ok(Point { point })
    }

    /// The encodings of the points, one after the other in their order:
    /// 97 bytes for each.
    pub fn transcript(points: &Vec<Point>) -> (r: Vec<u8>)
        ensures
            r@ == Self::spec_transcript(Self::indices(points@)),
            r@.len() == points@.len() * POINT_BYTES,
    {
        let ghost all = Self::indices(points@);
        let mut data: Vec<u8> = Vec::new();
        let mut i: usize = 0;
        while i < points.len()
            invariant
                i <= points@.len(),
                all == Self::indices(points@),
                data@ == Self::spec_transcript(all.take(i as int)),
                data@.len() == i * POINT_BYTES,
            decreases points@.len() - i,
        {
            let mut encoded = points[i].to_bytes();
            proof {
                let next = all.take(i + 1);
                assert(next.drop_last() =~= all.take(i as int));
                assert(next.last() == points@[i as int]@);
            }
            data.append(&mut encoded);
            i = i + 1;
        }
        assert(all.take(i as int) =~= all);
        data
    }

    /// Bytes that decode are the encoding of what they decode to: a point
    /// has one encoding only.
    pub proof fn law_encode_of_decode(bytes: Seq<u8>)
        requires
            Self::spec_from_bytes(bytes) is Some,
        ensures
            Self::spec_to_bytes(Self::spec_from_bytes(bytes)->Some_0) == bytes,
    {
    }

    /// The group operation is commutative.
    pub proof fn law_add_commutative(p: Point, q: Point)
        ensures
            field_add(p@, q@) == field_add(q@, p@),
    {
    }

    /// The point at infinity is neutral: a point plus it is the point.
    pub proof fn law_add_infinity(p: Point)
        requires
            p.wf(),
        ensures
            field_add(p@, 0) == p@,
    {
        lemma_add_zero(p@);
    }

    /// A point plus its inverse is the point at infinity.
    pub proof fn law_add_inverse(p: Point)
        requires
            p.wf(),
        ensures
            field_add(p@, field_neg(p@)) == 0,
    {
        lemma_add_neg(p@);
    }

    /// Multiplying by one scalar and then by another is multiplying by
    /// their product.
    pub proof fn law_mul_mul(p: Point, s: Scalar, t: Scalar)
        ensures
            field_mul(field_mul(p@, s@), t@) == field_mul(p@, field_mul(s@, t@)),
    {
        lemma_mul_associative(p@, s@, t@);
    }

    /// Multiplying by a sum of scalars is adding the two products.
    pub proof fn law_mul_add(p: Point, s: Scalar, t: Scalar)
        ensures
            field_mul(p@, field_add(s@, t@)) == field_add(field_mul(p@, s@), field_mul(p@, t@)),
    {
        lemma_mul_distributes(p@, s@, t@);
    }
}

impl Clone for Point {
    /// A point equal to this one.
    fn clone(&self) -> (r: Point)
        ensures
            r@ == self@,
    {
        proof {
            use_type_invariant(self);
        }
        Point { point: g1_clone(&self.point) }
    }
}

impl core::ops::Add for Point {
    type Output = Point;

    /// The sum of two points.
    fn add(self, p: Point) -> (r: Point)
        ensures
            r@ == field_add(self@, p@),
    {
        proof {
            lemma_results_reduced(self@, p@);
        }
        Point { point: g1_add(&self.point, &p.point) }
    }
}

impl core::ops::Sub for Point {
    type Output = Point;

    /// The first point plus the inverse of the second.
    fn sub(self, p: Point) -> (r: Point)
        ensures
            r@ == field_sub(self@, p@),
            r@ == field_add(self@, field_neg(p@)),
    {
        proof {
            use_type_invariant(&self);
            use_type_invariant(&p);
            lemma_results_reduced(self@, p@);
            lemma_sub_is_add_neg(self@, p@);
        }
        Point { point: g1_sub(&self.point, &p.point) }
    }
}

impl PartialEq for Point {
    /// Whether two points are the same element of the group.
    fn eq(&self, other: &Point) -> (r: bool) {
        g1_eq(&self.point, &other.point)
    }
}

/// `==` on points is the equality of their views.
impl vstd::std_specs::cmp::PartialEqSpecImpl for Point {
    open spec fn obeys_eq_spec() -> bool {
        true
    }

    open spec fn eq_spec(&self, other: &Point) -> bool {
        self@ == other@
    }
}

/// What `+` returns is stated by the `ensures` of `add`, over views: the
/// result has the index of `add_spec`, and need not be the same in any
/// other respect.
impl vstd::std_specs::ops::AddSpecImpl for Point {
    open spec fn obeys_add_spec() -> bool {
        false
    }

    open spec fn add_req(self, rhs: Point) -> bool {
        true
    }

    open spec fn add_spec(self, rhs: Point) -> Point {
        choose|r: Point| r@ == field_add(self@, rhs@)
    }
}

/// What `-` returns is stated by the `ensures` of `sub`, as for `+`.
impl vstd::std_specs::ops::SubSpecImpl for Point {
    open spec fn obeys_sub_spec() -> bool {
        false
    }

    open spec fn sub_req(self, rhs: Point) -> bool {
        true
    }

    open spec fn sub_spec(self, rhs: Point) -> Point {
        choose|r: Point| r@ == field_sub(self@, rhs@)
    }
}

} // verus!
