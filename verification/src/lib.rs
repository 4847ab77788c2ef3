//! Scalars and points of a prime-order curve group, with their canonical
//! encodings, key pairs and the derivation of a challenge from points.
//!
//! Every value is described by a number: a scalar by the integer below the
//! group order that it stands for, a point by the multiple of the group's
//! standard generator that it is. The contracts of this crate are stated
//! over those numbers. The arithmetic itself is done by the curve library,
//! behind the contracts collected in `trusted`.

pub mod curve;
pub mod encoding;
pub mod error;
pub mod field;
pub mod trusted;
pub mod keys;
pub mod point;
pub mod scalar;

pub use error::CurveError;
pub use keys::create_keypair;
pub use keys::keypair_from_scalar;
pub use keys::PrivateKey;
pub use keys::PublicKey;
pub use point::Point;
pub use scalar::Scalar;
