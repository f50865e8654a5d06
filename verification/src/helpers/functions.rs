//! Comparison helpers on integers, and the test for lab compounds.

use vstd::prelude::*;
use crate::constants::resources::{is_lab_compound, LabResource};

verus! {

/// The quotient of `amount` by `divisor`, rounded up.
pub open spec fn ceiling_quotient(amount: nat, divisor: nat) -> nat
    recommends
        divisor > 0,
{
    if amount % divisor == 0 {
        amount / divisor
    } else {
        amount / divisor + 1
    }
}

/// `u32::div_ceil` of std: the quotient rounded towards positive infinity.
/// It panics on a zero divisor.
pub assume_specification[ u32::div_ceil ](amount: u32, divisor: u32) -> (quotient: u32)
    requires
        divisor != 0,
    ensures
        quotient == ceiling_quotient(amount as nat, divisor as nat),
;

/// The quotient rounded up is the least count of divisors that reaches the
/// amount.
pub proof fn lemma_ceiling_quotient_is_least(amount: nat, divisor: nat, count: nat)
    requires
        divisor > 0,
    ensures
        ceiling_quotient(amount, divisor) * divisor >= amount,
        count * divisor >= amount <==> count >= ceiling_quotient(amount, divisor),
{
    let quotient = amount / divisor;
    let remainder = amount % divisor;
    assert(amount == quotient * divisor + remainder && 0 <= remainder < divisor) by {
        vstd::arithmetic::div_mod::lemma_fundamental_div_mod(amount as int, divisor as int);
        vstd::arithmetic::div_mod::lemma_mod_bound(amount as int, divisor as int);
        assert(divisor * quotient == quotient * divisor) by (nonlinear_arith);
    }
    assert((quotient + 1) * divisor == quotient * divisor + divisor) by (nonlinear_arith);
    if count >= quotient + 1 {
        assert(count * divisor >= (quotient + 1) * divisor) by (nonlinear_arith)
            requires
                count >= quotient + 1,
        ;
    }
    if count >= quotient {
        assert(count * divisor >= quotient * divisor) by (nonlinear_arith)
            requires
                count >= quotient,
        ;
    }
    if count <= quotient {
        assert(count * divisor <= quotient * divisor) by (nonlinear_arith)
            requires
                count <= quotient,
        ;
    }
    if count + 1 <= quotient {
        assert((count + 1) * divisor <= quotient * divisor) by (nonlinear_arith)
            requires
                count + 1 <= quotient,
        ;
        assert((count + 1) * divisor == count * divisor + divisor) by (nonlinear_arith);
    }
}

/// Returns the minimum of two u32 values.
pub fn const_min_u32(a: u32, b: u32) -> (min: u32)
    ensures
        min == if a <= b { a } else { b },
{
    if let Some(_) = a.checked_sub(b) {
        // a is at least b, because the subtraction did not underflow
        b
    } else {
        a
    }
}

/// Returns the maximum of two u32 values.
pub fn const_max_u32(a: u32, b: u32) -> (max: u32)
    ensures
        max == if a >= b { a } else { b },
{
    if let Some(_) = a.checked_sub(b) {
        // a is at least b, because the subtraction did not underflow
        a
    } else {
        b
    }
}

/// Returns true if a < b.
pub fn const_lt_u32(a: u32, b: u32) -> (lt: bool)
    ensures
        lt == (a < b),
{
    a < b
}

/// Returns true if a <= b.
pub fn const_lte_u32(a: u32, b: u32) -> (lte: bool)
    ensures
        lte == (a <= b),
{
    a <= b
}

/// Returns true if a > b.
pub fn const_gt_u32(a: u32, b: u32) -> (gt: bool)
    ensures
        gt == (a > b),
{
    a > b
}

/// Returns true if a >= b.
pub fn const_gte_u32(a: u32, b: u32) -> (gte: bool)
    ensures
        gte == (a >= b),
{
    a >= b
}

/// Whether a lab reaction can produce the resource.
pub fn resource_is_lab_compound(resource: &LabResource) -> (is_compound: bool)
    ensures
        is_compound == is_lab_compound(*resource),
{
    match resource {
        // Base minerals
        LabResource::Hydrogen => false,
        LabResource::Oxygen => false,
        LabResource::Utrium => false,
        LabResource::Lemergium => false,
        LabResource::Keanium => false,
        LabResource::Zynthium => false,
        LabResource::Catalyst => false,
        // Everything else is produced in a lab
        _ => true,
    }
}

} // verus!
