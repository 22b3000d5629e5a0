//! Durations from the arbitrary-precision integers of the `num` crate.

use num::{BigInt, BigUint, ToPrimitive};
use vstd::prelude::*;
use super::{DurationNum, DurationNumExtFallible};

verus! {

#[verifier::external_type_specification]
#[verifier::external_body]
pub struct ExBigInt(BigInt);

#[verifier::external_type_specification]
#[verifier::external_body]
pub struct ExBigUint(BigUint);

/// What `ToPrimitive::to_u64` returns for a `BigInt`.
pub uninterp spec fn bigint_to_u64(x: BigInt) -> Option<u64>;

/// What `ToPrimitive::to_u64` returns for a `BigUint`.
pub uninterp spec fn biguint_to_u64(x: BigUint) -> Option<u64>;

/// Relies on `<BigInt as ToPrimitive>::to_u64`: the value as a `u64`, or
/// `None` where it is negative or too large.
#[verifier::external_body]
fn bigint_as_u64(x: &BigInt) -> (r: Option<u64>)
    ensures
        r == bigint_to_u64(*x),
{
    x.to_u64()
}

/// Relies on `<BigUint as ToPrimitive>::to_u64`: the value as a `u64`, or
/// `None` where it is too large.
#[verifier::external_body]
fn biguint_as_u64(x: &BigUint) -> (r: Option<u64>)
    ensures
        r == biguint_to_u64(*x),
{
    x.to_u64()
}

impl DurationNum for BigInt {
    open spec fn whole_u64(&self) -> Option<u64> {
        bigint_to_u64(*self)
    }

    fn to_whole_u64(&self) -> (r: Option<u64>) {
        bigint_as_u64(self)
    }
}

impl DurationNumExtFallible for BigInt {
}

impl DurationNum for BigUint {
    open spec fn whole_u64(&self) -> Option<u64> {
        biguint_to_u64(*self)
    }

    fn to_whole_u64(&self) -> (r: Option<u64>) {
        biguint_as_u64(self)
    }
}

impl DurationNumExtFallible for BigUint {
}

} // verus!
