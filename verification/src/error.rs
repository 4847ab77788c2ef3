//! The error type of the crate.

use vstd::prelude::*;

verus! {

/// The two ways in which an operation of this crate can fail.
#[derive(Clone, Copy, Debug, PartialEq, Eq, Structural)]
pub enum CurveError {
    /// The bytes are not the canonical encoding of a scalar or of a point.
    DecodeError,
    /// The operand has no result: zero has no multiplicative inverse.
    InvalidOperand,
}

} // verus!
