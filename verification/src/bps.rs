//! Fixed-point basis-point arithmetic: the platform fee taken from an
//! amount, and the pro-rata part of an amount that a holding of shares
//! carries. All ratios are integers over a denominator of 10,000.

use vstd::prelude::*;
use vstd::arithmetic::div_mod::{
    lemma_div_by_multiple, lemma_div_is_ordered, lemma_div_multiples_vanish,
    lemma_div_pos_is_pos,
};
use vstd::arithmetic::mul::{lemma_mul_inequality, lemma_mul_nonnegative};
use crate::types::BPS_DENOMINATOR;

verus! {

/// The platform fee carved out of `amount` at `fee_bps` basis points,
/// rounded down.
pub open spec fn fee_of(amount: u64, fee_bps: u64) -> int {
    amount * fee_bps / (BPS_DENOMINATOR as int)
}

/// What remains of `amount` once the platform fee is taken.
pub open spec fn distributable_of(amount: u64, fee_bps: u64) -> int {
    amount - fee_of(amount, fee_bps)
}

/// The basis-point share of the issued supply that `owned` shares
/// represent, rounded down.
pub open spec fn ownership_bps_of(owned: u64, issued: u64) -> int
    recommends
        issued > 0,
{
    owned * (BPS_DENOMINATOR as int) / (issued as int)
}

/// The pro-rata part of `amount` carried by `owned` of `issued` shares,
/// going through the rounded basis-point ratio exactly as the executable
/// arithmetic does.
pub open spec fn entitled_of(amount: u64, owned: u64, issued: u64) -> int
    recommends
        issued > 0,
{
    amount * ownership_bps_of(owned, issued) / (BPS_DENOMINATOR as int)
}

/// A fee at no more than 10,000 basis points never exceeds the amount it
/// is taken from.
pub proof fn lemma_fee_bounds(amount: u64, fee_bps: u64)
    requires
        fee_bps <= BPS_DENOMINATOR,
    ensures
        0 <= fee_of(amount, fee_bps) <= amount,
{
    let d = BPS_DENOMINATOR as int;
    lemma_mul_nonnegative(amount as int, fee_bps as int);
    lemma_div_pos_is_pos(amount * fee_bps, d);
    lemma_mul_inequality(fee_bps as int, d, amount as int);
    lemma_div_is_ordered(amount * fee_bps, amount * d, d);
    lemma_div_by_multiple(amount as int, d);
}

/// Owning part of the issued supply is worth between 0 and 10,000 basis
/// points.
pub proof fn lemma_ownership_bps_bounds(owned: u64, issued: u64)
    requires
        0 < issued,
        owned <= issued,
    ensures
        0 <= ownership_bps_of(owned, issued) <= BPS_DENOMINATOR,
{
    let d = BPS_DENOMINATOR as int;
    lemma_mul_nonnegative(owned as int, d);
    lemma_div_pos_is_pos(owned * d, issued as int);
    lemma_mul_inequality(owned as int, issued as int, d);
    lemma_div_is_ordered(owned * d, issued * d, issued as int);
    lemma_div_multiples_vanish(d, issued as int);
}

/// A pro-rata entitlement never exceeds the amount it is carved from.
pub proof fn lemma_entitled_bounds(amount: u64, owned: u64, issued: u64)
    requires
        0 < issued,
        owned <= issued,
    ensures
        0 <= entitled_of(amount, owned, issued) <= amount,
{
    let d = BPS_DENOMINATOR as int;
    let bps = ownership_bps_of(owned, issued);
    lemma_ownership_bps_bounds(owned, issued);
    lemma_mul_nonnegative(amount as int, bps);
    lemma_div_pos_is_pos(amount * bps, d);
    lemma_mul_inequality(bps, d, amount as int);
    lemma_div_is_ordered(amount * bps, amount * d, d);
    lemma_div_by_multiple(amount as int, d);
}

/// With the holding fixed, the entitlement grows with the amount it is
/// computed from: income accrued later can only raise what a holder is
/// owed, never lower it.
pub proof fn lemma_entitled_monotone(amount1: u64, amount2: u64, owned: u64, issued: u64)
    requires
        0 < issued,
        amount1 <= amount2,
    ensures
        entitled_of(amount1, owned, issued) <= entitled_of(amount2, owned, issued),
{
    let d = BPS_DENOMINATOR as int;
    let bps = ownership_bps_of(owned, issued);
    lemma_mul_nonnegative(owned as int, d);
    lemma_div_pos_is_pos(owned * d, issued as int);
    lemma_mul_inequality(amount1 as int, amount2 as int, bps);
    lemma_div_is_ordered(amount1 * bps, amount2 * bps, d);
}

} // verus!
