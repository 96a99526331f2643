//! Bond-creation fee arithmetic: a configurable basis-points cut of the
//! posted amount, truncating at each step.

use vstd::prelude::*;
use vstd::arithmetic::div_mod::{
    lemma_div_is_ordered, lemma_div_pos_is_pos, lemma_fundamental_div_mod,
    lemma_div_multiples_vanish,
};
use vstd::arithmetic::mul::lemma_mul_inequality;

verus! {

/// Largest accepted fee rate: 10000 basis points = 100%.
pub const MAX_FEE_BPS: u32 = 10_000;

/// The creation fee owed on an amount: `floor(amount * bps / 10000)`, and
/// zero when the rate is zero or the amount is not positive.
pub open spec fn spec_fee(amount: i128, fee_bps: u32) -> int {
    if fee_bps == 0 || amount <= 0 {
        0
    } else {
        amount * fee_bps / 10000
    }
}

/// Whether the fee product fits the machine word, so the fee is computable.
pub open spec fn spec_fee_fits(amount: i128, fee_bps: u32) -> bool {
    fee_bps == 0 || amount <= 0 || amount * fee_bps <= i128::MAX
}

/// The fee is never negative and never exceeds a positive amount.
pub proof fn lemma_fee_bounds(amount: i128, fee_bps: u32)
    requires
        fee_bps <= 10000,
    ensures
        0 <= spec_fee(amount, fee_bps),
        spec_fee(amount, fee_bps) <= if amount >= 0 { amount as int } else { 0 },
{
    if fee_bps != 0 && amount > 0 {
        lemma_mul_inequality(fee_bps as int, 10000, amount as int);
        assert(amount * fee_bps == fee_bps * amount) by (nonlinear_arith);
        lemma_div_pos_is_pos(amount * fee_bps, 10000);
        lemma_div_is_ordered(amount * fee_bps, amount * 10000, 10000);
        lemma_div_multiples_vanish(amount as int, 10000);
        assert(amount * 10000 == 10000 * amount) by (nonlinear_arith);
    }
}

/// Calculates the creation fee for a bond amount; `None` exactly when the
/// intermediate product `amount * fee_bps` does not fit the machine word.
/// On success returns `(fee, net)` with `net = amount - fee`.
pub fn calculate_fee(amount: i128, fee_bps: u32) -> (r: Option<(i128, i128)>)
    requires
        fee_bps <= 10000,
    ensures
        r is Some <==> spec_fee_fits(amount, fee_bps),
        match r {
            Some(p) => p.0 == spec_fee(amount, fee_bps) && p.1 == amount - p.0,
            None => true,
        },
{
    if fee_bps == 0 || amount <= 0 {
        return Some((0, amount));
    }
    let limit = i128::MAX / (fee_bps as i128);
    proof {
        lemma_fundamental_div_mod(i128::MAX as int, fee_bps as int);
        if amount > limit {
            // amount >= limit + 1, so amount * bps >= (limit + 1) * bps > MAX
            lemma_mul_inequality(limit as int + 1, amount as int, fee_bps as int);
            assert((limit + 1) * fee_bps == limit * fee_bps + fee_bps) by (nonlinear_arith);
            assert(limit * fee_bps == fee_bps * limit) by (nonlinear_arith);
        } else {
            lemma_mul_inequality(amount as int, limit as int, fee_bps as int);
            assert(limit * fee_bps == fee_bps * limit) by (nonlinear_arith);
        }
    }
    if amount > limit {
        return None;
    }
    let fee = amount * (fee_bps as i128) / 10_000;
    proof {
        lemma_fee_bounds(amount, fee_bps);
    }
    let net = amount - fee;
    Some((fee, net))
}

} // verus!
