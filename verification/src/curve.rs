//! The curve `y^2 = x^3 + 4` over its base field, and the layout of an
//! encoded point: 48 bytes of `x`, 48 bytes of `y`, both least significant
//! byte first, and one byte that is 1 for the point at infinity and 0 for
//! every other point.

use vstd::prelude::*;
use crate::encoding::le_value;

verus! {

/// The number of bytes of an encoded point.
pub const POINT_BYTES: usize = 97;

/// The order of the base field, over which the coordinates are taken: a
/// prime of 381 bits.
pub open spec fn base_modulus() -> nat {
    4002409555221667393417789825735904156556882819939007885332058136124031650490837864442687629129015664037894272559787nat
}

/// The `x` coordinate that an encoding holds.
pub open spec fn coordinate_x(enc: Seq<u8>) -> nat
    recommends
        enc.len() == POINT_BYTES,
{
    le_value(enc.subrange(0, 48))
}

/// The `y` coordinate that an encoding holds.
pub open spec fn coordinate_y(enc: Seq<u8>) -> nat
    recommends
        enc.len() == POINT_BYTES,
{
    le_value(enc.subrange(48, 96))
}

/// Whether `enc` has the layout of an encoded point: the right length, both
/// coordinates reduced, and a last byte that is 0 or 1.
pub open spec fn coordinates_reduced(enc: Seq<u8>) -> bool {
    &&& enc.len() == POINT_BYTES
    &&& coordinate_x(enc) < base_modulus()
    &&& coordinate_y(enc) < base_modulus()
    &&& enc[96] <= 1
}

/// Whether what `enc` holds satisfies the curve's equation: it is marked as
/// the point at infinity, or `y^2 = x^3 + 4` in the base field.
pub open spec fn satisfies_curve_equation(enc: Seq<u8>) -> bool
    recommends
        enc.len() == POINT_BYTES,
{
    let x = coordinate_x(enc);
    let y = coordinate_y(enc);
    enc[96] == 1 || (y * y) % base_modulus() == (x * x * x + 4) % base_modulus()
}

} // verus!
