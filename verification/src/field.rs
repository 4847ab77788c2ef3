//! Arithmetic modulo the group order, as mathematics.
//!
//! The scalars form the field of integers modulo `modulus()`. The points form
//! a cyclic group of the same order, so the indices of points add and scale
//! by the same arithmetic. The lemmas here are the algebra that the laws of
//! `Scalar` and `Point` rest on.

use vstd::prelude::*;
use vstd::arithmetic::div_mod::lemma_add_mod_noop;
use vstd::arithmetic::div_mod::lemma_add_mod_noop_right;
use vstd::arithmetic::div_mod::lemma_mod_multiples_vanish;
use vstd::arithmetic::div_mod::lemma_mul_mod_noop_left;
use vstd::arithmetic::div_mod::lemma_mul_mod_noop_right;
use vstd::arithmetic::div_mod::lemma_small_mod;
use vstd::arithmetic::mul::lemma_mul_is_associative;
use vstd::arithmetic::mul::lemma_mul_is_distributive_add;

verus! {

/// The order of the group and of its scalar field: a prime of 255 bits,
/// `0x73eda753299d7d483339d80809a1d80553bda402fffe5bfeffffffff00000001`.
pub open spec fn modulus() -> nat {
    52435875175126190479447740508185965837690552500527637822603658699938581184513nat
}

/// The sum of `a` and `b` in the field.
pub open spec fn field_add(a: nat, b: nat) -> nat {
    (a + b) % modulus()
}

/// The difference of `a` and `b` in the field.
pub open spec fn field_sub(a: nat, b: nat) -> nat {
    ((a - b) % (modulus() as int)) as nat
}

/// The product of `a` and `b` in the field.
pub open spec fn field_mul(a: nat, b: nat) -> nat {
    (a * b) % modulus()
}

/// The additive inverse of `a` in the field.
pub open spec fn field_neg(a: nat) -> nat {
    field_sub(0, a)
}

/// `a` raised to the power `e` in the field; the power 0 of every element,
/// zero included, is 1.
pub open spec fn field_pow(a: nat, e: nat) -> nat
    decreases e,
{
    if e == 0 {
        1
    } else {
        field_mul(a, field_pow(a, (e - 1) as nat))
    }
}

/// Every sum, difference, product and power lies below the modulus.
pub proof fn lemma_results_reduced(a: nat, b: nat)
    ensures
        field_add(a, b) < modulus(),
        field_sub(a, b) < modulus(),
        field_mul(a, b) < modulus(),
        field_neg(a) < modulus(),
        field_pow(a, b) < modulus(),
{
    reveal_with_fuel(field_pow, 1);
}

/// Addition modulo the order is associative.
pub proof fn lemma_add_associative(a: nat, b: nat, c: nat)
    ensures
        field_add(field_add(a, b), c) == field_add(a, field_add(b, c)),
{
    let m = modulus() as int;
    lemma_add_mod_noop((a + b) as int, c as int, m);
    lemma_add_mod_noop(a as int, (b + c) as int, m);
    lemma_small_mod(field_add(a, b), modulus());
    lemma_small_mod(field_add(b, c), modulus());
    lemma_add_mod_noop_right(a as int, (b + c) as int, m);
    lemma_add_mod_noop_right(c as int, (a + b) as int, m);
}

/// Zero is neutral for addition on reduced values.
pub proof fn lemma_add_zero(a: nat)
    requires
        a < modulus(),
    ensures
        field_add(a, 0) == a,
        field_add(0, a) == a,
{
    lemma_small_mod(a, modulus());
}

/// A reduced value and its additive inverse sum to zero.
pub proof fn lemma_add_neg(a: nat)
    requires
        a < modulus(),
    ensures
        field_add(a, field_neg(a)) == 0,
        field_add(field_neg(a), a) == 0,
{
    let m = modulus() as int;
    if a == 0 {
        lemma_small_mod(0, modulus());
    } else {
        lemma_mod_multiples_vanish(1, -(a as int), m);
        lemma_small_mod((modulus() - a) as nat, modulus());
        assert(field_neg(a) == modulus() - a);
        assert(a + field_neg(a) == m);
        lemma_mod_multiples_vanish(1, 0, m);
        lemma_small_mod(0, modulus());
    }
}

/// Subtracting is adding the additive inverse.
pub proof fn lemma_sub_is_add_neg(a: nat, b: nat)
    requires
        a < modulus(),
        b < modulus(),
    ensures
        field_sub(a, b) == field_add(a, field_neg(b)),
{
    let m = modulus() as int;
    if b == 0 {
        lemma_small_mod(0, modulus());
    } else {
        lemma_mod_multiples_vanish(1, -(b as int), m);
        lemma_small_mod((modulus() - b) as nat, modulus());
        assert(field_neg(b) == modulus() - b);
        lemma_mod_multiples_vanish(1, a - b, m);
    }
}

/// Multiplication modulo the order is associative.
pub proof fn lemma_mul_associative(a: nat, b: nat, c: nat)
    ensures
        field_mul(field_mul(a, b), c) == field_mul(a, field_mul(b, c)),
{
    let m = modulus() as int;
    lemma_mul_mod_noop_left((a * b) as int, c as int, m);
    lemma_mul_mod_noop_right(a as int, (b * c) as int, m);
    lemma_mul_is_associative(a as int, b as int, c as int);
}

/// Multiplication distributes over addition modulo the order.
pub proof fn lemma_mul_distributes(a: nat, b: nat, c: nat)
    ensures
        field_mul(a, field_add(b, c)) == field_add(field_mul(a, b), field_mul(a, c)),
{
    let m = modulus() as int;
    lemma_mul_mod_noop_right(a as int, (b + c) as int, m);
    lemma_mul_is_distributive_add(a as int, b as int, c as int);
    lemma_add_mod_noop((a * b) as int, (a * c) as int, m);
}

} // verus!
