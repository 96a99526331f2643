//! Early-exit penalty arithmetic: a basis-points cut of the withdrawn amount,
//! scaled by the share of lock time still remaining.  Multiply-then-divide at
//! each step, truncating, for bit-exact agreement with ledger history.

use vstd::prelude::*;
use vstd::arithmetic::div_mod::{
    lemma_div_is_ordered, lemma_div_pos_is_pos,
};
use vstd::arithmetic::mul::lemma_mul_inequality;

verus! {

/// The penalty base: `floor(amount * bps / 10000)`, zero when the rate is
/// zero, the amount is not positive, or the product does not fit the machine
/// word: ledger history treats an overflowing base as zero, and this
/// arithmetic must agree with it bit for bit.
pub open spec fn spec_penalty_base(amount: i128, penalty_bps: u32) -> int {
    if penalty_bps == 0 || amount <= 0 {
        0
    } else if amount * penalty_bps > i128::MAX {
        0
    } else {
        amount * penalty_bps / 10000
    }
}

/// The early-exit penalty: `floor(base * remaining / total)`, zero when the
/// total duration or the rate is zero.
pub open spec fn spec_penalty(
    amount: i128,
    remaining_time: u64,
    total_duration: u64,
    penalty_bps: u32,
) -> int {
    if total_duration == 0 || penalty_bps == 0 {
        0
    } else {
        spec_penalty_base(amount, penalty_bps) * remaining_time / total_duration as int
    }
}

/// Whether the penalty product fits the machine word, so the penalty is
/// computable.
pub open spec fn spec_penalty_fits(
    amount: i128,
    remaining_time: u64,
    penalty_bps: u32,
) -> bool {
    spec_penalty_base(amount, penalty_bps) * remaining_time <= i128::MAX
}

/// Calculates the penalty, reporting `None` exactly when the product
/// `base * remaining_time` does not fit the machine word.
pub fn penalty_checked(
    amount: i128,
    remaining_time: u64,
    total_duration: u64,
    penalty_bps: u32,
) -> (r: Option<i128>)
    ensures
        r is Some <==> spec_penalty_fits(amount, remaining_time, penalty_bps),
        match r {
            Some(p) => p == spec_penalty(amount, remaining_time, total_duration, penalty_bps),
            None => true,
        },
{
    if penalty_bps == 0 || amount <= 0 {
        if total_duration == 0 || penalty_bps == 0 {
            return Some(0);
        }
        assert(spec_penalty_base(amount, penalty_bps) == 0);
        assert(0int * remaining_time == 0) by (nonlinear_arith);
        assert(0int / total_duration as int == 0) by {
            vstd::arithmetic::div_mod::lemma_div_of0(total_duration as int);
        }
        return Some(0);
    }
    // amount > 0, penalty_bps > 0
    let limit = i128::MAX / (penalty_bps as i128);
    proof {
        vstd::arithmetic::div_mod::lemma_fundamental_div_mod(
            i128::MAX as int,
            penalty_bps as int,
        );
        if amount > limit {
            lemma_mul_inequality(limit as int + 1, amount as int, penalty_bps as int);
            assert((limit + 1) * penalty_bps == limit * penalty_bps + penalty_bps)
                by (nonlinear_arith);
            assert(limit * penalty_bps == penalty_bps * limit) by (nonlinear_arith);
        } else {
            lemma_mul_inequality(amount as int, limit as int, penalty_bps as int);
            assert(limit * penalty_bps == penalty_bps * limit) by (nonlinear_arith);
        }
    }
    let base: i128 = if amount > limit {
        // an overflowing product leaves a zero base, as ledger history has it
        0
    } else {
        amount * (penalty_bps as i128) / 10_000
    };
    proof {
        if amount <= limit {
            assert(amount * penalty_bps >= 0) by (nonlinear_arith)
                requires amount > 0, penalty_bps > 0;
            lemma_div_pos_is_pos(amount * penalty_bps, 10000);
        }
        assert(base == spec_penalty_base(amount, penalty_bps));
    }
    if base == 0 {
        assert(0int * remaining_time == 0) by (nonlinear_arith);
        if total_duration != 0 {
            assert(0int / total_duration as int == 0) by {
                vstd::arithmetic::div_mod::lemma_div_of0(total_duration as int);
            }
        }
        return Some(0);
    }
    let rlimit = i128::MAX / (base as i128);
    proof {
        vstd::arithmetic::div_mod::lemma_fundamental_div_mod(i128::MAX as int, base as int);
        if remaining_time as i128 > rlimit {
            lemma_mul_inequality(rlimit as int + 1, remaining_time as int, base as int);
            assert((rlimit + 1) * base == rlimit * base + base) by (nonlinear_arith);
            assert(rlimit * base == base * rlimit) by (nonlinear_arith);
            assert(remaining_time * base == base * remaining_time) by (nonlinear_arith);
        } else {
            lemma_mul_inequality(remaining_time as int, rlimit as int, base as int);
            assert(rlimit * base == base * rlimit) by (nonlinear_arith);
            assert(remaining_time * base == base * remaining_time) by (nonlinear_arith);
        }
    }
    let rem = remaining_time as i128;
    if rem > rlimit {
        return None;
    }
    if total_duration == 0 {
        return Some(0);
    }
    let product = base * rem;
    proof {
        assert(0 <= base * rem) by (nonlinear_arith)
            requires 0 <= base, 0 <= rem;
        lemma_div_pos_is_pos(base * rem, total_duration as int);
        lemma_div_is_ordered(base * rem, i128::MAX as int, total_duration as int);
        vstd::arithmetic::div_mod::lemma_fundamental_div_mod(
            i128::MAX as int,
            total_duration as int,
        );
    }
    let penalty = product / (total_duration as i128);
    proof {
        assert(penalty <= i128::MAX as int / total_duration as int <= i128::MAX as int);
    }
    Some(penalty)
}

/// Calculates the early exit penalty from the remaining lock time:
/// `penalty = floor(floor(amount * penalty_bps / 10000) * remaining_time / total_duration)`,
/// zero when the total duration or the rate is zero.
pub fn calculate_penalty(
    amount: i128,
    remaining_time: u64,
    total_duration: u64,
    penalty_bps: u32,
) -> (r: i128)
    requires
        spec_penalty_fits(amount, remaining_time, penalty_bps),
    ensures
        r == spec_penalty(amount, remaining_time, total_duration, penalty_bps),
{
    match penalty_checked(amount, remaining_time, total_duration, penalty_bps) {
        Some(p) => p,
        None => unreached(),
    }
}

} // verus!
