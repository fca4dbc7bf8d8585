//! Arbitrary-precision operands: `num_bigint::BigUint` as a number for the
//! hyperoperation. The arithmetic is that crate's; what is assumed of it is
//! stated on each function below and taken on trust.

use crate::notation::{decimal, ToDecimal};
use crate::num::NumForKnuth;
use num_bigint::BigUint;
use vstd::prelude::*;

verus! {

/// `num_bigint::BigUint`, an unsigned integer of any size. Nothing inside it is
/// read here.
#[verifier::external_type_specification]
#[verifier::external_body]
pub struct ExBigUint(num_bigint::BigUint);

/// The natural number that a `BigUint` holds. That each one holds exactly one
/// is the assumption on which everything below rests.
pub uninterp spec fn biguint_value(x: BigUint) -> nat;

/// `<BigUint as Clone>::clone`: the copy holds the same number.
pub assume_specification[ <BigUint as Clone>::clone ](x: &BigUint) -> (copy: BigUint)
    ensures
        biguint_value(copy) == biguint_value(*x),
;

/// `<BigUint as num_traits::One>::one`: the number one.
#[verifier::external_body]
fn biguint_one() -> (r: BigUint)
    ensures
        biguint_value(r) == 1,
{
    <BigUint as num_traits::One>::one()
}

/// `BigUint * &BigUint`: the product; no product is too large.
#[verifier::external_body]
fn biguint_times(x: BigUint, y: &BigUint) -> (r: BigUint)
    ensures
        biguint_value(r) == biguint_value(x) * biguint_value(*y),
{
    x * y
}

/// `BigUint + BigUint`: the sum; no sum is too large.
#[verifier::external_body]
fn biguint_plus(x: BigUint, y: BigUint) -> (r: BigUint)
    ensures
        biguint_value(r) == biguint_value(x) + biguint_value(y),
{
    x + y
}

/// `BigUint - BigUint`: the difference. The subtraction panics where `y` is
/// the larger, so that is left out.
#[verifier::external_body]
fn biguint_minus(x: BigUint, y: BigUint) -> (r: BigUint)
    requires
        biguint_value(y) <= biguint_value(x),
    ensures
        biguint_value(r) == biguint_value(x) - biguint_value(y),
{
    x - y
}

/// `BigUint <= BigUint`: the order of the numbers held.
#[verifier::external_body]
fn biguint_at_most(x: &BigUint, y: &BigUint) -> (r: bool)
    ensures
        r == (biguint_value(*x) <= biguint_value(*y)),
{
    x <= y
}

/// `BigUint::to_str_radix` with radix ten, which is also what the type's
/// `Display` writes: the decimal numeral of the number held.
#[verifier::external_body]
fn biguint_to_decimal(x: &BigUint) -> (text: String)
    ensures
        text@ == decimal(biguint_value(*x)),
{
    x.to_str_radix(10)
}

impl NumForKnuth for BigUint {
    open spec fn value(&self) -> nat {
        biguint_value(*self)
    }

    open spec fn limit() -> Option<nat> {
        None
    }

    proof fn lemma_within_limit(&self) {
    }

    proof fn lemma_clone_keeps_value(&self, copy: &Self) {
    }

    fn one() -> (r: Self) {
        biguint_one()
    }

    fn times(self, rhs: &Self) -> (r: Self) {
        biguint_times(self, rhs)
    }

    fn plus(self, rhs: Self) -> (r: Self) {
        biguint_plus(self, rhs)
    }

    fn minus(self, rhs: Self) -> (r: Self) {
        biguint_minus(self, rhs)
    }

    fn at_most(&self, rhs: &Self) -> (r: bool) {
        biguint_at_most(self, rhs)
    }
}

impl ToDecimal for BigUint {
    fn to_decimal(&self) -> (text: String) {
        biguint_to_decimal(self)
    }
}

} // verus!
