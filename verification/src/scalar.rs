//! Scalars: the elements of the field of integers modulo the group order.

use vstd::prelude::*;
use ark_bls12_381::Fr;
use crate::curve::POINT_BYTES;
use crate::encoding::le_bytes;
use crate::encoding::le_value;
use crate::encoding::lemma_le_bytes_len;
use crate::encoding::lemma_le_bytes_of_value;
use crate::encoding::lemma_radix_32;
use crate::encoding::lemma_value_of_le_bytes;
use crate::error::CurveError;
use crate::field::field_add;
use crate::field::field_mul;
use crate::field::field_neg;
use crate::field::field_pow;
use crate::field::field_sub;
use crate::field::lemma_add_associative;
use crate::field::lemma_add_neg;
use crate::field::lemma_mul_distributes;
use crate::field::lemma_results_reduced;
use crate::field::lemma_sub_is_add_neg;
use crate::field::modulus;
use crate::point::Point;
use crate::trusted::fr::fr_add;
use crate::trusted::fr::fr_eq;
use crate::trusted::fr::fr_from_seed;
use crate::trusted::fr::fr_from_u32;
use crate::trusted::fr::fr_inverse;
use crate::trusted::fr::fr_mul;
use crate::trusted::fr::fr_pow;
use crate::trusted::fr::fr_random;
use crate::trusted::fr::fr_read;
use crate::trusted::fr::fr_sub;
use crate::trusted::fr::fr_value;
use crate::trusted::fr::fr_write;
use crate::trusted::fr::seeded_scalar;
use crate::trusted::sha::sha256;
use crate::trusted::sha::sha256_digest;

verus! {

/// An element of the scalar field. Its view is the integer below the
/// modulus that it stands for; two scalars are equal when their views are.
pub struct Scalar {
    bn: Fr,
}

impl View for Scalar {
    type V = nat;

    closed spec fn view(&self) -> nat {
        fr_value(self.bn)
    }
}

impl Scalar {
    /// Every scalar is reduced: its value lies below the modulus.
    #[verifier::type_invariant]
    pub open spec fn wf(self) -> bool {
        self@ < modulus()
    }

    /// The canonical encoding of the value `v`: 32 bytes, least significant
    /// first.
    pub open spec fn spec_to_bytes(v: nat) -> Seq<u8> {
        le_bytes(v, 32)
    }

    /// The value that `bytes` encode, if they are the canonical encoding of
    /// one: 32 bytes that spell a number below the modulus.
    pub open spec fn spec_from_bytes(bytes: Seq<u8>) -> Option<nat> {
        if bytes.len() == 32 && le_value(bytes) < modulus() {
            Some(le_value(bytes))
        } else {
            None
        }
    }

    /// The field element that this scalar holds.
    pub(crate) fn element(&self) -> (r: &Fr)
        ensures
            fr_value(*r) == self@,
            fr_value(*r) < modulus(),
    {
        proof {
            use_type_invariant(self);
        }
        &self.bn
    }

    /// The challenge that a sequence of points of the given indices
    /// determines: the scalar drawn from the generator seeded with the
    /// SHA-256 digest of the points' encodings, one after the other.
    pub open spec fn spec_hash_points(indices: Seq<nat>) -> nat {
        seeded_scalar(sha256(Point::spec_transcript(indices)))
    }

    /// The scalar of the integer `v`.
    pub fn from_u32(v: u32) -> (r: Scalar)
        ensures
            r@ == v,
    {
        Scalar { bn: fr_from_u32(v) }
    }

    /// A scalar drawn at random. Each call seeds a generator of its own
    /// from the entropy of the operating system, so calls share no state,
    /// from one thread or from several. Nothing is promised of the result
    /// but that it is a scalar.
    pub fn generate() -> (r: Scalar)
        ensures
            r.wf(),
    {
        Scalar { bn: fr_random() }
    }

    /// The scalar 1.
    pub fn multiplicative_identity() -> (r: Scalar)
        ensures
            r@ == 1,
    {
        Self::from_u32(1)
    }

    /// The challenge that the points determine, in their order: the
    /// encodings of the points are hashed with SHA-256, and the digest seeds
    /// a pseudo-random generator from which one scalar is drawn. No points
    /// at all give the challenge of the empty string. The hash is defined
    /// for less than 2 to the power 61 bytes, which bounds the number of
    /// points.
    pub fn hash_points(points: Vec<Point>) -> (r: Scalar)
        requires
            points@.len() * POINT_BYTES < 0x2000_0000_0000_0000,
        ensures
            r@ == Self::spec_hash_points(Point::indices(points@)),
    {
        let data = Point::transcript(&points);
        let dig = sha256_digest(data.as_slice());
        Scalar { bn: fr_from_seed(dig) }
    }

    /// The challenge depends on the indices of the points and on their
    /// order only: two sequences of equal points give the same challenge.
    pub proof fn law_hash_points_deterministic(a: Seq<Point>, b: Seq<Point>)
        requires
            a.len() == b.len(),
            forall|i: int| 0 <= i < a.len() ==> a[i]@ == b[i]@,
        ensures
            Self::spec_hash_points(Point::indices(a)) == Self::spec_hash_points(Point::indices(b)),
    {
        assert(Point::indices(a) =~= Point::indices(b));
    }

    /// This scalar raised to the power `pow`; the power 0 is 1.
    pub fn pow(&self, pow: u32) -> (r: Scalar)
        ensures
            r@ == field_pow(self@, pow as nat),
    {
        proof {
            use_type_invariant(self);
            lemma_results_reduced(self@, pow as nat);
        }
        Scalar { bn: fr_pow(&self.bn, pow as u64) }
    }

    /// The multiplicative inverse of this scalar. Zero has none: for it,
    /// and only for it, the result is `InvalidOperand`.
    pub fn inverse(&self) -> (r: Result<Scalar, CurveError>)
        ensures
            match r {
                Ok(inv) => self@ != 0 && inv.wf() && field_mul(self@, inv@) == 1,
                Err(e) => self@ == 0 && e == CurveError::InvalidOperand,
            },
    {
        proof {
            use_type_invariant(self);
        }
        match fr_inverse(&self.bn) {
            Some(x) => Ok(Scalar { bn: x }),
            None => Err(CurveError::InvalidOperand),
        }
    }

    /// The canonical encoding of this scalar, which `from_bytes` decodes to
    /// an equal scalar.
    pub fn to_bytes(&self) -> (r: Vec<u8>)
        ensures
            r@ == Self::spec_to_bytes(self@),
            Self::spec_from_bytes(r@) == Some(self@),
    {
        proof {
            use_type_invariant(self);
            Self::law_decode_of_encode(*self);
        }
        fr_write(&self.bn)
    }

    /// The scalar that `bytes` encode. Bytes that are not the canonical
    /// encoding of a scalar, by their number or by the value they spell,
    /// give `DecodeError`.
    pub fn from_bytes(bytes: &[u8]) -> (r: Result<Scalar, CurveError>)
        ensures
            match r {
                Ok(s) => Self::spec_from_bytes(bytes@) == Some(s@),
                Err(e) => Self::spec_from_bytes(bytes@) is None && e == CurveError::DecodeError,
            },
    {
        if bytes.len() != 32 {
            return Err(CurveError::DecodeError);
        }
        match fr_read(bytes) {
            Some(x) => Ok(Scalar { bn: x }),
            None => Err(CurveError::DecodeError),
        }
    }

    /// Decoding the encoding of a scalar gives the scalar back, and
    /// encoding that again gives the same bytes.
    pub proof fn law_decode_of_encode(s: Scalar)
        requires
            s.wf(),
        ensures
            Self::spec_from_bytes(Self::spec_to_bytes(s@)) == Some(s@),
            Self::spec_to_bytes(Self::spec_from_bytes(Self::spec_to_bytes(s@))->Some_0)
                == Self::spec_to_bytes(s@),
    {
        lemma_radix_32();
        lemma_le_bytes_len(s@, 32);
        lemma_value_of_le_bytes(s@, 32);
    }

    /// Bytes that decode are the encoding of what they decode to: a scalar
    /// has one encoding only.
    pub proof fn law_encode_of_decode(bytes: Seq<u8>)
        requires
            Self::spec_from_bytes(bytes) is Some,
        ensures
            Self::spec_to_bytes(Self::spec_from_bytes(bytes)->Some_0) == bytes,
    {
        lemma_le_bytes_of_value(bytes);
    }

    /// Addition of scalars is associative and commutative.
    pub proof fn law_add(a: Scalar, b: Scalar, c: Scalar)
        ensures
            field_add(field_add(a@, b@), c@) == field_add(a@, field_add(b@, c@)),
            field_add(a@, b@) == field_add(b@, a@),
    {
        lemma_add_associative(a@, b@, c@);
    }

    /// Multiplication of scalars distributes over their addition.
    pub proof fn law_mul_distributes(a: Scalar, b: Scalar, c: Scalar)
        ensures
            field_mul(a@, field_add(b@, c@)) == field_add(field_mul(a@, b@), field_mul(a@, c@)),
    {
        lemma_mul_distributes(a@, b@, c@);
    }

    /// A scalar and its negative, which is zero minus the scalar, sum to
    /// zero.
    pub proof fn law_add_negative(a: Scalar)
        requires
            a.wf(),
        ensures
            field_add(a@, field_neg(a@)) == 0,
    {
        lemma_add_neg(a@);
    }
}

impl Clone for Scalar {
    /// A scalar equal to this one.
    fn clone(&self) -> (r: Scalar)
        ensures
            r@ == self@,
    {
        proof {
            use_type_invariant(self);
        }
        Scalar { bn: self.bn }
    }
}

impl core::ops::Add for Scalar {
    type Output = Scalar;

    /// The sum of two scalars.
    fn add(self, s: Scalar) -> (r: Scalar)
        ensures
            r@ == field_add(self@, s@),
    {
        proof {
            use_type_invariant(&self);
            use_type_invariant(&s);
            lemma_results_reduced(self@, s@);
        }
        Scalar { bn: fr_add(&self.bn, &s.bn) }
    }
}

impl core::ops::Sub for Scalar {
    type Output = Scalar;

    /// The difference of two scalars, which is the first plus the negative
    /// of the second.
    fn sub(self, s: Scalar) -> (r: Scalar)
        ensures
            r@ == field_sub(self@, s@),
            r@ == field_add(self@, field_neg(s@)),
    {
        proof {
            use_type_invariant(&self);
            use_type_invariant(&s);
            lemma_results_reduced(self@, s@);
            lemma_sub_is_add_neg(self@, s@);
        }
        Scalar { bn: fr_sub(&self.bn, &s.bn) }
    }
}

impl core::ops::Mul for Scalar {
    type Output = Scalar;

    /// The product of two scalars.
    fn mul(self, s: Scalar) -> (r: Scalar)
        ensures
            r@ == field_mul(self@, s@),
    {
        proof {
            use_type_invariant(&self);
            use_type_invariant(&s);
            lemma_results_reduced(self@, s@);
        }
        Scalar { bn: fr_mul(&self.bn, &s.bn) }
    }
}

impl PartialEq for Scalar {
    /// Whether two scalars stand for the same integer.
    fn eq(&self, other: &Scalar) -> (r: bool) {
        proof {
            use_type_invariant(self);
            use_type_invariant(other);
        }
        fr_eq(&self.bn, &other.bn)
    }
}

/// `==` on scalars is the equality of their views.
impl vstd::std_specs::cmp::PartialEqSpecImpl for Scalar {
    open spec fn obeys_eq_spec() -> bool {
        true
    }

    open spec fn eq_spec(&self, other: &Scalar) -> bool {
        self@ == other@
    }
}

/// What `+` returns is stated by the `ensures` of `add`, over views: the
/// result has the value of `add_spec`, and need not be the same in any
/// other respect.
impl vstd::std_specs::ops::AddSpecImpl for Scalar {
    open spec fn obeys_add_spec() -> bool {
        false
    }

    open spec fn add_req(self, rhs: Scalar) -> bool {
        true
    }

    open spec fn add_spec(self, rhs: Scalar) -> Scalar {
        choose|r: Scalar| r@ == field_add(self@, rhs@)
    }
}

/// What `-` returns is stated by the `ensures` of `sub`, as for `+`.
impl vstd::std_specs::ops::SubSpecImpl for Scalar {
    open spec fn obeys_sub_spec() -> bool {
        false
    }

    open spec fn sub_req(self, rhs: Scalar) -> bool {
        true
    }

    open spec fn sub_spec(self, rhs: Scalar) -> Scalar {
        choose|r: Scalar| r@ == field_sub(self@, rhs@)
    }
}

/// What `*` returns is stated by the `ensures` of `mul`, as for `+`.
impl vstd::std_specs::ops::MulSpecImpl for Scalar {
    open spec fn obeys_mul_spec() -> bool {
        false
    }

    open spec fn mul_req(self, rhs: Scalar) -> bool {
        true
    }

    open spec fn mul_spec(self, rhs: Scalar) -> Scalar {
        choose|r: Scalar| r@ == field_mul(self@, rhs@)
    }
}

} // verus!
