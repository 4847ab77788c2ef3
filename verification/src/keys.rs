//! Key pairs: a private scalar and the public point derived from it.

use vstd::prelude::*;
use crate::error::CurveError;
use crate::point::Point;
use crate::scalar::Scalar;

verus! {

/// A private key: one scalar.
pub struct PrivateKey {
    pub scalar: Scalar,
}

/// A public key: one point. The public key of a private key is the base
/// point times the private scalar; nothing holds the two together once they
/// are made.
pub struct PublicKey {
    pub point: Point,
}

impl PublicKey {
    /// The encoding of the key, which is that of its point.
    pub fn to_bytes(&self) -> (r: Vec<u8>)
        ensures
            r@ == Point::spec_to_bytes(self.point@),
            Point::spec_from_bytes(r@) == Some(self.point@),
    {
        self.point.to_bytes()
    }

    /// The key that `bytes` encode, or `DecodeError` where they are not the
    /// canonical encoding of a point of the group.
    pub fn from_bytes(bytes: &[u8]) -> (r: Result<PublicKey, CurveError>)
        ensures
            match r {
                Ok(key) => Point::spec_from_bytes(bytes@) == Some(key.point@),
                Err(e) => Point::spec_from_bytes(bytes@) is None && e == CurveError::DecodeError,
            },
    {
        match Point::from_bytes(bytes) {
            Ok(point) => Ok(PublicKey { point }),
            Err(e) => Err(e),
        }
    }
}

impl PrivateKey {
    /// The encoding of the key, which is that of its scalar.
    pub fn to_bytes(&self) -> (r: Vec<u8>)
        ensures
            r@ == Scalar::spec_to_bytes(self.scalar@),
            Scalar::spec_from_bytes(r@) == Some(self.scalar@),
    {
        self.scalar.to_bytes()
    }

    /// The key that `bytes` encode, or `DecodeError` where they are not the
    /// canonical encoding of a scalar.
    pub fn from_bytes(bytes: &[u8]) -> (r: Result<PrivateKey, CurveError>)
        ensures
            match r {
                Ok(key) => Scalar::spec_from_bytes(bytes@) == Some(key.scalar@),
                Err(e) => Scalar::spec_from_bytes(bytes@) is None && e == CurveError::DecodeError,
            },
    {
        match Scalar::from_bytes(bytes) {
            Ok(scalar) => Ok(PrivateKey { scalar }),
            Err(e) => Err(e),
        }
    }
}

/// The key pair of the private scalar `s`: the base point times `s`, and
/// `s` itself.
pub fn keypair_from_scalar(s: Scalar) -> (r: (PublicKey, PrivateKey))
    ensures
        r.1.scalar@ == s@,
        r.0.point@ == Point::spec_from_scalar(s@),
{
    let p = Point::from_scalar(&s);
    (PublicKey { point: p }, PrivateKey { scalar: s })
}

/// A fresh key pair: the key pair of a scalar drawn at random. Whatever
/// scalar is drawn, the public point is the base point times it.
pub fn create_keypair() -> (r: (PublicKey, PrivateKey))
    ensures
        r.0.point@ == Point::spec_from_scalar(r.1.scalar@),
{
    let s = Scalar::generate();
    keypair_from_scalar(s)
}

impl PartialEq for PrivateKey {
    /// Whether the two keys hold equal scalars.
    fn eq(&self, other: &PrivateKey) -> (r: bool) {
        self.scalar == other.scalar
    }
}

/// `==` on private keys is the equality of their scalars.
impl vstd::std_specs::cmp::PartialEqSpecImpl for PrivateKey {
    open spec fn obeys_eq_spec() -> bool {
        true
    }

    open spec fn eq_spec(&self, other: &PrivateKey) -> bool {
        self.scalar@ == other.scalar@
    }
}

impl PartialEq for PublicKey {
    /// Whether the two keys hold equal points.
    fn eq(&self, other: &PublicKey) -> (r: bool) {
        self.point == other.point
    }
}

/// `==` on public keys is the equality of their points.
impl vstd::std_specs::cmp::PartialEqSpecImpl for PublicKey {
    open spec fn obeys_eq_spec() -> bool {
        true
    }

    open spec fn eq_spec(&self, other: &PublicKey) -> bool {
        self.point@ == other.point@
    }
}

} // verus!
