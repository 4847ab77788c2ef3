//! The scalar field of the curve library.
//!
//! A field element is known to the rest of the crate by one number only,
//! `fr_value`: the integer that the element stands for. The library keeps
//! every element reduced, that is, its value below the modulus; the
//! functions here make reduced elements and ask for reduced elements.

use vstd::prelude::*;
use ark_bls12_381::Fr;
use ark_ff::Field;
use ark_ff::FromBytes;
use ark_ff::ToBytes;
use ark_std::UniformRand;
use rand::rngs::StdRng;
use rand::SeedableRng;
use crate::encoding::le_bytes;
use crate::encoding::le_value;
use crate::field::field_pow;
use crate::field::modulus;

verus! {

/// `ark_ff::Fp256`, the library's element of a prime field of up to 256
/// bits. Nothing of its inside is visible here.
#[verifier::external_type_specification]
#[verifier::external_body]
#[verifier::reject_recursive_types(P)]
pub struct ExFp256<P>(ark_ff::Fp256<P>);

/// `ark_bls12_381::FrParameters`, the marker type that fixes the modulus of
/// the scalar field.
#[verifier::external_type_specification]
#[verifier::external_body]
pub struct ExFrParameters(ark_bls12_381::FrParameters);

/// The integer that the field element `x` stands for: what
/// `PrimeField::into_repr` gives for it, read as a number.
pub uninterp spec fn fr_value(x: Fr) -> nat;

/// The value of the field element that `UniformRand::rand` draws first from
/// a `StdRng` started from `seed` with `SeedableRng::from_seed`. The
/// generator is an algorithm without other input, so the seed fixes it.
pub uninterp spec fn seeded_scalar(seed: Seq<u8>) -> nat;

/// `Fr::from(u32)`: the field element of the integer `v`, which is below the
/// modulus.
#[verifier::external_body]
pub(crate) fn fr_from_u32(v: u32) -> (r: Fr)
    ensures
        fr_value(r) == v,
{
    Fr::from(v)
}

/// `UniformRand::rand` on a `StdRng` from `SeedableRng::from_entropy`: some
/// field element. The draw takes 255 bits from the generator and is repeated
/// until the candidate is reduced, so the value is below the modulus;
/// nothing else is known of it. The call panics where the operating system
/// gives no entropy.
#[verifier::external_body]
pub(crate) fn fr_random() -> (r: Fr)
    ensures
        fr_value(r) < modulus(),
{
    Fr::rand(&mut StdRng::from_entropy())
}

/// `UniformRand::rand` on a `StdRng` from `SeedableRng::from_seed`: the
/// field element that the seed determines, reduced as every draw is. The
/// draw rejects candidates and reduces none, so it favours no value beyond
/// what the generator's own output does.
#[verifier::external_body]
pub(crate) fn fr_from_seed(seed: [u8; 32]) -> (r: Fr)
    ensures
        fr_value(r) == seeded_scalar(seed@),
        fr_value(r) < modulus(),
{
    Fr::rand(&mut StdRng::from_seed(seed))
}

/// `Add` of two field elements: their sum modulo the modulus.
#[verifier::external_body]
pub(crate) fn fr_add(a: &Fr, b: &Fr) -> (r: Fr)
    requires
        fr_value(*a) < modulus(),
        fr_value(*b) < modulus(),
    ensures
        fr_value(r) == (fr_value(*a) + fr_value(*b)) % modulus(),
{
    *a + *b
}

/// `Sub` of two field elements: their difference modulo the modulus.
#[verifier::external_body]
pub(crate) fn fr_sub(a: &Fr, b: &Fr) -> (r: Fr)
    requires
        fr_value(*a) < modulus(),
        fr_value(*b) < modulus(),
    ensures
        fr_value(r) == (fr_value(*a) - fr_value(*b)) % (modulus() as int),
{
    *a - *b
}

/// `Mul` of two field elements: their product modulo the modulus.
#[verifier::external_body]
pub(crate) fn fr_mul(a: &Fr, b: &Fr) -> (r: Fr)
    requires
        fr_value(*a) < modulus(),
        fr_value(*b) < modulus(),
    ensures
        fr_value(r) == (fr_value(*a) * fr_value(*b)) % modulus(),
{
    *a * *b
}

/// `Field::pow` with an exponent of one limb: `a` multiplied `e` times
/// into 1, modulo the modulus.
#[verifier::external_body]
pub(crate) fn fr_pow(a: &Fr, e: u64) -> (r: Fr)
    requires
        fr_value(*a) < modulus(),
    ensures
        fr_value(r) == field_pow(fr_value(*a), e as nat),
{
    a.pow([e])
}

/// `Field::inverse`: nothing for zero; for any other element the reduced
/// element whose product with it is 1.
#[verifier::external_body]
pub(crate) fn fr_inverse(a: &Fr) -> (r: Option<Fr>)
    requires
        fr_value(*a) < modulus(),
    ensures
        r is None <==> fr_value(*a) == 0,
        r is Some ==> fr_value(r->Some_0) < modulus(),
        r is Some ==> (fr_value(*a) * fr_value(r->Some_0)) % modulus() == 1,
{
    a.inverse()
}

/// `PartialEq` of two field elements: whether they stand for the same
/// integer.
#[verifier::external_body]
pub(crate) fn fr_eq(a: &Fr, b: &Fr) -> (r: bool)
    requires
        fr_value(*a) < modulus(),
        fr_value(*b) < modulus(),
    ensures
        r == (fr_value(*a) == fr_value(*b)),
{
    a == b
}

/// `ToBytes::write` into an empty vector: the value in 32 bytes, least
/// significant byte first.
#[verifier::external_body]
pub(crate) fn fr_write(a: &Fr) -> (r: Vec<u8>)
    requires
        fr_value(*a) < modulus(),
    ensures
        r@ == le_bytes(fr_value(*a), 32),
{
    let mut buf: Vec<u8> = Vec::new();
    a.write(&mut buf).expect("a vector takes every write");
    buf
}

/// `FromBytes::read` from 32 bytes: the element whose value the bytes
/// spell, least significant byte first, if that value is below the modulus,
/// and nothing otherwise.
#[verifier::external_body]
pub(crate) fn fr_read(bytes: &[u8]) -> (r: Option<Fr>)
    requires
        bytes@.len() == 32,
    ensures
        r is Some <==> le_value(bytes@) < modulus(),
        r is Some ==> fr_value(r->Some_0) == le_value(bytes@),
{
    Fr::read(bytes).ok()
}

} // verus!
