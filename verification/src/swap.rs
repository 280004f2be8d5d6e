//! The swap engine: fee-adjusted constant-product pricing with slippage,
//! price-impact, custody and invariant guards.

use vstd::arithmetic::div_mod::{
    lemma_div_decreases, lemma_div_pos_is_pos, lemma_fundamental_div_mod, lemma_mod_bound,
    lemma_multiply_divide_lt,
};
use vstd::arithmetic::mul::{
    lemma_mul_inequality, lemma_mul_is_commutative, lemma_mul_nonnegative,
    lemma_mul_strict_inequality, lemma_mul_upper_bound,
};
use vstd::prelude::*;

use crate::error::ErrorCode;
use crate::math::{checked_mul_div, lemma_mul_div_lt, mul_div, spec_checked_mul_div};
use crate::state::{
    PoolState, BPS_DENOMINATOR, MAX_PRICE_IMPACT_BPS, MINIMUM_OUTPUT, PRICE_SCALE,
};

verus! {

/// Structured record of an executed swap, including pre- and post-swap
/// reserve-ratio prices and the realized price impact in basis points.
#[derive(Clone, Copy, Debug, PartialEq, Eq)]
pub struct SwapExecuted {
    /// Amount of the input asset paid in, fee included.
    pub amount_in: u64,
    /// Amount of the output asset paid out.
    pub amount_out: u64,
    /// Fee retained by the pool, in input-asset units.
    pub fee_amount: u64,
    /// Reserve of asset A after the swap.
    pub reserve_a: u64,
    /// Reserve of asset B after the swap.
    pub reserve_b: u64,
    /// Output-per-input reserve ratio before the swap, scaled by
    /// `PRICE_SCALE`.
    pub price_before: u128,
    /// Output-per-input reserve ratio after the swap, scaled by
    /// `PRICE_SCALE`.
    pub price_after: u128,
    /// Share of the output reserve drained, in basis points.
    pub price_impact: u64,
    /// Execution time, supplied by the caller's clock.
    pub timestamp: i64,
}

/// The outcome of `calculate_swap_output`: the constant-product output
/// `floor(amount_in * reserve_out / (reserve_in + amount_in))`, with a
/// zero input, an empty reserve and a zero output reported.
pub open spec fn spec_calculate_swap_output(
    amount_in: u64,
    reserve_in: u64,
    reserve_out: u64,
) -> Result<u64, ErrorCode> {
    if amount_in == 0 {
        Err(ErrorCode::InvalidAmount)
    } else if reserve_in == 0 || reserve_out == 0 {
        Err(ErrorCode::EmptyReserves)
    } else {
        let amount_out = mul_div(
            amount_in as int,
            reserve_out as int,
            reserve_in + amount_in,
        );
        if amount_out == 0 {
            Err(ErrorCode::OutputBelowMinimum)
        } else {
            Ok(amount_out as u64)
        }
    }
}

/// The constant-product output never drains the output reserve, and the
/// product of the updated reserves never falls: paying in `amount_in` of
/// which `x` is priced (the rest being fee retained by the pool) yields
/// `out = floor(x * reserve_out / (reserve_in + x))` with
/// `(reserve_in + amount_in) * (reserve_out - out) >= reserve_in * reserve_out`.
pub proof fn lemma_swap_output_product(x: int, amount_in: int, reserve_in: int, reserve_out: int)
    requires
        1 <= reserve_in,
        1 <= reserve_out,
        1 <= x <= amount_in,
    ensures
        0 <= mul_div(x, reserve_out, reserve_in + x) < reserve_out,
        (reserve_in + amount_in) * (reserve_out - mul_div(x, reserve_out, reserve_in + x))
            >= reserve_in * reserve_out,
{
    let d = reserve_in + x;
    let out = x * reserve_out / d;
    lemma_mul_nonnegative(x, reserve_out);
    lemma_div_pos_is_pos(x * reserve_out, d);
    lemma_mul_strict_inequality(x, d, reserve_out);
    lemma_multiply_divide_lt(x * reserve_out, d, reserve_out);
    lemma_fundamental_div_mod(x * reserve_out, d);
    lemma_mod_bound(x * reserve_out, d);
    let rem = (x * reserve_out) % d;
    // (reserve_in + x)(reserve_out - out) = d*reserve_out - (x*reserve_out - rem)
    //                                     = reserve_in*reserve_out + rem.
    assert((reserve_in + x) * (reserve_out - out) >= reserve_in * reserve_out)
        by (nonlinear_arith)
        requires
            d == reserve_in + x,
            x * reserve_out == d * out + rem,
            rem >= 0,
    ;
    lemma_mul_inequality(reserve_in + x, reserve_in + amount_in, reserve_out - out);
}

/// Computes the constant-product output for `amount_in` paid into a pool
/// with reserves `(reserve_in, reserve_out)`, with no fee applied here.
///
/// On success the output is positive, strictly below the output reserve,
/// and leaves the reserve product non-decreasing.
pub fn calculate_swap_output(amount_in: u64, reserve_in: u64, reserve_out: u64) -> (r: Result<
    u64,
    ErrorCode,
>)
    ensures
        r == spec_calculate_swap_output(amount_in, reserve_in, reserve_out),
        r matches Ok(out) ==> 0 < out < reserve_out && (reserve_in + amount_in) * (reserve_out
            - out) >= reserve_in * reserve_out,
{
    if amount_in == 0 {
        return Err(ErrorCode::InvalidAmount);
    }
    if reserve_in == 0 || reserve_out == 0 {
        return Err(ErrorCode::EmptyReserves);
    }
    proof {
        lemma_mul_upper_bound(
            amount_in as int,
            u64::MAX as int,
            reserve_out as int,
            u64::MAX as int,
        );
        lemma_swap_output_product(
            amount_in as int,
            amount_in as int,
            reserve_in as int,
            reserve_out as int,
        );
    }
    let numerator: u128 = (amount_in as u128) * (reserve_out as u128);
    let denominator: u128 = (reserve_in as u128) + (amount_in as u128);
    let amount_out_wide: u128 = numerator / denominator;
    let amount_out: u64 = amount_out_wide as u64;
    if amount_out == 0 {
        return Err(ErrorCode::OutputBelowMinimum);
    }
    Ok(amount_out)
}

/// The outcome of `PoolState::swap`, as a function of the state before
/// the call: either the updated state with its record, or the error, in
/// the engine's order of checks. The fee is deducted from the input side
/// before the constant-product formula, and the full input, fee included,
/// is added to the input reserve, which is what keeps the product
/// non-decreasing.
pub open spec fn spec_swap(
    pool: PoolState,
    amount_in: u64,
    min_amount_out: u64,
    is_a_to_b: bool,
    user_balance: u64,
    vault_out_balance: u64,
    timestamp: i64,
) -> Result<(PoolState, SwapExecuted), ErrorCode> {
    if amount_in == 0 || min_amount_out == 0 {
        Err(ErrorCode::InvalidAmount)
    } else {
        let reserve_in = if is_a_to_b { pool.reserve_a } else { pool.reserve_b };
        let reserve_out = if is_a_to_b { pool.reserve_b } else { pool.reserve_a };
        if reserve_in == 0 || reserve_out == 0 {
            Err(ErrorCode::EmptyReserves)
        } else if user_balance < amount_in {
            Err(ErrorCode::InsufficientBalance)
        } else {
            match spec_checked_mul_div(amount_in, pool.fee_numerator, pool.fee_denominator) {
                Err(e) => Err(e),
                Ok(fee_amount) => {
                    let amount_in_after_fee = (amount_in - fee_amount) as u64;
                    match spec_calculate_swap_output(amount_in_after_fee, reserve_in, reserve_out) {
                        Err(e) => Err(e),
                        Ok(amount_out) => if amount_out < min_amount_out {
                            Err(ErrorCode::SlippageExceeded)
                        } else if amount_out < MINIMUM_OUTPUT {
                            Err(ErrorCode::OutputTooSmall)
                        } else {
                            match spec_checked_mul_div(amount_out, BPS_DENOMINATOR, reserve_out) {
                                Err(e) => Err(e),
                                Ok(price_impact) => if price_impact > MAX_PRICE_IMPACT_BPS {
                                    Err(ErrorCode::PriceImpactTooHigh)
                                } else if vault_out_balance < amount_out {
                                    Err(ErrorCode::InsufficientPoolLiquidity)
                                } else if reserve_in + amount_in > u64::MAX {
                                    Err(ErrorCode::MathOverflow)
                                } else {
                                    let new_reserve_in = (reserve_in + amount_in) as u64;
                                    let new_reserve_out = (reserve_out - amount_out) as u64;
                                    let new_reserve_a = if is_a_to_b {
                                        new_reserve_in
                                    } else {
                                        new_reserve_out
                                    };
                                    let new_reserve_b = if is_a_to_b {
                                        new_reserve_out
                                    } else {
                                        new_reserve_in
                                    };
                                    if new_reserve_a * new_reserve_b < pool.reserve_a
                                        * pool.reserve_b {
                                        Err(ErrorCode::InvalidConstantProduct)
                                    } else {
                                        let new_pool = PoolState {
                                            reserve_a: new_reserve_a,
                                            reserve_b: new_reserve_b,
                                            ..pool
                                        };
                                        let record = SwapExecuted {
                                            amount_in,
                                            amount_out,
                                            fee_amount,
                                            reserve_a: new_reserve_a,
                                            reserve_b: new_reserve_b,
                                            price_before: mul_div(
                                                reserve_out as int,
                                                PRICE_SCALE as int,
                                                reserve_in as int,
                                            ) as u128,
                                            price_after: mul_div(
                                                new_reserve_out as int,
                                                PRICE_SCALE as int,
                                                new_reserve_in as int,
                                            ) as u128,
                                            price_impact,
                                            timestamp,
                                        };
                                        Ok((new_pool, record))
                                    }
                                },
                            }
                        },
                    }
                },
            }
        }
    }
}

impl PoolState {
    /// Swaps `amount_in` of one asset for the other at the fee-adjusted
    /// constant-product price, enforcing the caller's balance and slippage
    /// floor, the minimum-output floor, the price-impact cap, the pool's
    /// custody and the constant-product invariant.
    ///
    /// On success the state is exactly the updated pool of `spec_swap`,
    /// the claim supply is untouched and the reserve product has not
    /// decreased; on any error the state is byte-for-byte unchanged.
    pub fn swap(
        &mut self,
        amount_in: u64,
        min_amount_out: u64,
        is_a_to_b: bool,
        user_balance: u64,
        vault_out_balance: u64,
        timestamp: i64,
    ) -> (r: Result<SwapExecuted, ErrorCode>)
        requires
            old(self).well_formed(),
        ensures
            final(self).well_formed(),
            match spec_swap(
                *old(self),
                amount_in,
                min_amount_out,
                is_a_to_b,
                user_balance,
                vault_out_balance,
                timestamp,
            ) {
                Ok(outcome) => r == Ok::<SwapExecuted, ErrorCode>(outcome.1) && *final(self)
                    == outcome.0,
                Err(e) => r == Err::<SwapExecuted, ErrorCode>(e) && *final(self) == *old(self),
            },
            r matches Ok(rec) ==> final(self).product() >= old(self).product()
                && final(self).total_claim_supply == old(self).total_claim_supply,
            r != Err::<SwapExecuted, ErrorCode>(ErrorCode::InvalidConstantProduct),
    {
        if amount_in == 0 || min_amount_out == 0 {
            return Err(ErrorCode::InvalidAmount);
        }
        let reserve_in = if is_a_to_b {
            self.reserve_a
        } else {
            self.reserve_b
        };
        let reserve_out = if is_a_to_b {
            self.reserve_b
        } else {
            self.reserve_a
        };
        if reserve_in == 0 || reserve_out == 0 {
            return Err(ErrorCode::EmptyReserves);
        }
        if user_balance < amount_in {
            return Err(ErrorCode::InsufficientBalance);
        }
        let fee_amount = match checked_mul_div(
            amount_in,
            self.fee_numerator,
            self.fee_denominator,
        ) {
            Ok(v) => v,
            Err(e) => {
                return Err(e);
            },
        };
        proof {
            // The fee stays strictly below the input: the capped numerator
            // is strictly below the denominator.
            lemma_div_decreases(self.fee_denominator as int, 100);
            lemma_mul_div_lt(
                self.fee_numerator as int,
                amount_in as int,
                self.fee_denominator as int,
            );
            lemma_mul_is_commutative(self.fee_numerator as int, amount_in as int);
        }
        let amount_in_after_fee = amount_in - fee_amount;
        let amount_out = match calculate_swap_output(amount_in_after_fee, reserve_in, reserve_out) {
            Ok(v) => v,
            Err(e) => {
                return Err(e);
            },
        };
        if amount_out < min_amount_out {
            return Err(ErrorCode::SlippageExceeded);
        }
        if amount_out < MINIMUM_OUTPUT {
            return Err(ErrorCode::OutputTooSmall);
        }
        let price_impact = match checked_mul_div(amount_out, BPS_DENOMINATOR, reserve_out) {
            Ok(v) => v,
            Err(e) => {
                return Err(e);
            },
        };
        if price_impact > MAX_PRICE_IMPACT_BPS {
            return Err(ErrorCode::PriceImpactTooHigh);
        }
        if vault_out_balance < amount_out {
            return Err(ErrorCode::InsufficientPoolLiquidity);
        }
        if reserve_in > u64::MAX - amount_in {
            return Err(ErrorCode::MathOverflow);
        }
        proof {
            lemma_mul_upper_bound(
                reserve_out as int,
                u64::MAX as int,
                PRICE_SCALE as int,
                PRICE_SCALE as int,
            );
        }
        let price_before: u128 = ((reserve_out as u128) * (PRICE_SCALE as u128)) / (
        reserve_in as u128);
        let new_reserve_in = reserve_in + amount_in;
        let new_reserve_out = reserve_out - amount_out;
        let new_reserve_a = if is_a_to_b {
            new_reserve_in
        } else {
            new_reserve_out
        };
        let new_reserve_b = if is_a_to_b {
            new_reserve_out
        } else {
            new_reserve_in
        };
        proof {
            lemma_mul_upper_bound(
                self.reserve_a as int,
                u64::MAX as int,
                self.reserve_b as int,
                u64::MAX as int,
            );
            lemma_mul_upper_bound(
                new_reserve_a as int,
                u64::MAX as int,
                new_reserve_b as int,
                u64::MAX as int,
            );
        }
        let k_before: u128 = (self.reserve_a as u128) * (self.reserve_b as u128);
        let k_after: u128 = (new_reserve_a as u128) * (new_reserve_b as u128);
        proof {
            // The re-check below can never fire: the full input, fee
            // included, enters the reserve, while only the fee-reduced part
            // was priced.
            lemma_mul_inequality(
                reserve_in as int + amount_in_after_fee as int,
                reserve_in as int + amount_in as int,
                reserve_out as int - amount_out as int,
            );
            if !is_a_to_b {
                lemma_mul_is_commutative(self.reserve_a as int, self.reserve_b as int);
                lemma_mul_is_commutative(
                    new_reserve_out as int,
                    new_reserve_in as int,
                );
            }
            assert(k_after >= k_before);
        }
        if k_after < k_before {
            return Err(ErrorCode::InvalidConstantProduct);
        }
        proof {
            lemma_mul_upper_bound(
                new_reserve_out as int,
                u64::MAX as int,
                PRICE_SCALE as int,
                PRICE_SCALE as int,
            );
        }
        let price_after: u128 = ((new_reserve_out as u128) * (PRICE_SCALE as u128)) / (
        new_reserve_in as u128);
        self.reserve_a = new_reserve_a;
        self.reserve_b = new_reserve_b;
        Ok(
            SwapExecuted {
                amount_in,
                amount_out,
                fee_amount,
                reserve_a: new_reserve_a,
                reserve_b: new_reserve_b,
                price_before,
                price_after,
                price_impact,
                timestamp,
            },
        )
    }
}

} // verus!
