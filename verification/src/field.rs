//! Trusted interface to the BLS12-381 scalar field.
//!
//! The field itself is an external primitive: its elements are opaque to the
//! verifier, and its operations are named, uninterpreted functions.  Every
//! contract in this crate speaks of field values through these names, so a
//! verified caller's result is pinned down exactly as a composition of field
//! operations on its inputs.

use vstd::prelude::*;

use ark_bls12_381::Fr;
use ark_ff::Field;

verus! {

/// Declares `ark_ff`'s 256-bit prime-field element type, so that `Fr` can
/// stand in signatures and fields; its values stay opaque.
#[verifier::external_type_specification]
#[verifier::external_body]
#[verifier::reject_recursive_types(P)]
pub struct ExFp256<P>(ark_ff::Fp256<P>);

/// Declares the parameter marker of the BLS12-381 scalar field.
#[verifier::external_type_specification]
#[verifier::external_body]
pub struct ExFrParameters(ark_bls12_381::FrParameters);

/// The field element that `ark_ff`'s `From<u64>` embedding returns for `x`.
pub uninterp spec fn spec_fr_from(x: u64) -> Fr;

/// The sum of two field elements, as `ark_ff`'s `Add` returns it.
pub uninterp spec fn spec_fr_add(a: Fr, b: Fr) -> Fr;

/// The difference of two field elements, as `ark_ff`'s `Sub` returns it.
pub uninterp spec fn spec_fr_sub(a: Fr, b: Fr) -> Fr;

/// The product of two field elements, as `ark_ff`'s `Mul` returns it.
pub uninterp spec fn spec_fr_mul(a: Fr, b: Fr) -> Fr;

/// The multiplicative inverse that `ark_ff`'s `Field::inverse` returns for a
/// nonzero field element.
pub uninterp spec fn spec_fr_inv(a: Fr) -> Fr;

/// Relies on `ark_ff`'s `From<u64>` embedding of machine integers into the
/// field.
#[verifier::external_body]
pub fn fr_of(x: u64) -> (r: Fr)
    ensures
        r == spec_fr_from(x),
{
    Fr::from(x)
}

/// Relies on `ark_ff`'s field addition.
#[verifier::external_body]
pub fn fr_add(a: Fr, b: Fr) -> (r: Fr)
    ensures
        r == spec_fr_add(a, b),
{
    a + b
}

/// Relies on `ark_ff`'s field subtraction.
#[verifier::external_body]
pub fn fr_sub(a: Fr, b: Fr) -> (r: Fr)
    ensures
        r == spec_fr_sub(a, b),
{
    a - b
}

/// Relies on `ark_ff`'s field multiplication.
#[verifier::external_body]
pub fn fr_mul(a: Fr, b: Fr) -> (r: Fr)
    ensures
        r == spec_fr_mul(a, b),
{
    a * b
}

/// Relies on `ark_ff`'s `Field::square`, documented to return `self * self`.
#[verifier::external_body]
pub fn fr_square(a: Fr) -> (r: Fr)
    ensures
        r == spec_fr_mul(a, a),
{
    a.square()
}

/// Relies on `ark_ff`'s `Field::inverse`, which returns the multiplicative
/// inverse of every nonzero element and `None` exactly for zero.
#[verifier::external_body]
pub fn fr_inverse(a: Fr) -> (r: Option<Fr>)
    ensures
        r matches Some(v) ==> v == spec_fr_inv(a),
        r is Some <==> a != spec_fr_from(0),
{
    a.inverse()
}

} // verus!
