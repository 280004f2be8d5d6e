//! Liquidity provisioning: matching a desired deposit to the current
//! reserve ratio and minting a proportional amount of claim tokens.

use vstd::arithmetic::mul::lemma_mul_upper_bound;
use vstd::prelude::*;

use crate::error::ErrorCode;
use crate::math::{
    checked_mul_div, integer_sqrt, spec_checked_mul_div, sqrt_floor,
};
use crate::state::{PoolState, MINIMUM_LIQUIDITY};

verus! {

/// Structured record of an executed liquidity addition.
#[derive(Clone, Copy, Debug, PartialEq, Eq)]
pub struct LiquidityAdded {
    /// Amount of asset A actually deposited.
    pub amount_a: u64,
    /// Amount of asset B actually deposited.
    pub amount_b: u64,
    /// Claim tokens minted to the depositor.
    pub lp_tokens_minted: u64,
    /// Outstanding claim supply after the deposit.
    pub total_claim_supply: u64,
    /// Execution time, supplied by the caller's clock.
    pub timestamp: i64,
}

/// The outcome of `calculate_optimal_amounts`: on an empty pool the
/// desired amounts stand as they are; otherwise the deposit is matched to
/// the reserve ratio, preferring the full desired amount of A, and failing
/// with `InvalidAmount` when neither side can be matched within the
/// caller's stated maxima.
pub open spec fn spec_calculate_optimal_amounts(
    amount_a_desired: u64,
    amount_b_desired: u64,
    reserve_a: u64,
    reserve_b: u64,
) -> Result<(u64, u64), ErrorCode> {
    if reserve_a == 0 && reserve_b == 0 {
        Ok((amount_a_desired, amount_b_desired))
    } else {
        match spec_checked_mul_div(amount_a_desired, reserve_b, reserve_a) {
            Err(e) => Err(e),
            Ok(amount_b_optimal) => if amount_b_optimal <= amount_b_desired {
                Ok((amount_a_desired, amount_b_optimal))
            } else {
                match spec_checked_mul_div(amount_b_desired, reserve_a, reserve_b) {
                    Err(e) => Err(e),
                    Ok(amount_a_optimal) => if amount_a_optimal > amount_a_desired {
                        Err(ErrorCode::InvalidAmount)
                    } else {
                        Ok((amount_a_optimal, amount_b_desired))
                    },
                }
            },
        }
    }
}

/// Matches a desired deposit `(amount_a_desired, amount_b_desired)` to the
/// current reserve ratio.
///
/// On an empty pool the desired amounts are accepted as they are.
/// Otherwise the amount of B matching the desired A at the current ratio
/// is used when it stays within the desired B; failing that, the amount of
/// A matching the desired B is used, which must stay within the desired A.
/// Neither chosen amount ever exceeds the corresponding desired amount.
pub fn calculate_optimal_amounts(
    amount_a_desired: u64,
    amount_b_desired: u64,
    reserve_a: u64,
    reserve_b: u64,
) -> (r: Result<(u64, u64), ErrorCode>)
    ensures
        r == spec_calculate_optimal_amounts(
            amount_a_desired,
            amount_b_desired,
            reserve_a,
            reserve_b,
        ),
        r matches Ok(amounts) ==> amounts.0 <= amount_a_desired && amounts.1
            <= amount_b_desired,
{
    if reserve_a == 0 && reserve_b == 0 {
        return Ok((amount_a_desired, amount_b_desired));
    }
    let amount_b_optimal = match checked_mul_div(amount_a_desired, reserve_b, reserve_a) {
        Ok(v) => v,
        Err(e) => {
            return Err(e);
        },
    };
    if amount_b_optimal <= amount_b_desired {
        return Ok((amount_a_desired, amount_b_optimal));
    }
    let amount_a_optimal = match checked_mul_div(amount_b_desired, reserve_a, reserve_b) {
        Ok(v) => v,
        Err(e) => {
            return Err(e);
        },
    };
    if amount_a_optimal > amount_a_desired {
        return Err(ErrorCode::InvalidAmount);
    }
    Ok((amount_a_optimal, amount_b_desired))
}

/// The claim tokens minted for a deposit of `(amount_a, amount_b)`.
///
/// On a first deposit this is the square root of the deposit product less
/// the minimum-liquidity deduction; on an active pool it is the smaller of
/// the two ratio-implied mint amounts, the standard defense against
/// minting more than a fair share with an imbalanced deposit.
pub open spec fn spec_claim_tokens_to_mint(
    pool: PoolState,
    amount_a: u64,
    amount_b: u64,
) -> Result<u64, ErrorCode> {
    if pool.total_claim_supply == 0 {
        let s = sqrt_floor((amount_a * amount_b) as nat);
        if s <= MINIMUM_LIQUIDITY {
            Err(ErrorCode::InsufficientLiquidity)
        } else {
            Ok((s - MINIMUM_LIQUIDITY) as u64)
        }
    } else {
        match spec_checked_mul_div(amount_a, pool.total_claim_supply, pool.reserve_a) {
            Err(e) => Err(e),
            Ok(lp_from_a) => match spec_checked_mul_div(
                amount_b,
                pool.total_claim_supply,
                pool.reserve_b,
            ) {
                Err(e) => Err(e),
                Ok(lp_from_b) => Ok(if lp_from_a <= lp_from_b {
                    lp_from_a
                } else {
                    lp_from_b
                }),
            },
        }
    }
}

/// The outcome of `PoolState::add_liquidity`, as a function of the state
/// before the call: either the updated state with its record, or the
/// error, in the engine's order of checks: the amount floors and the
/// claim-token floor are enforced before the caller's balances are
/// examined.
pub open spec fn spec_add_liquidity(
    pool: PoolState,
    amount_a_desired: u64,
    amount_b_desired: u64,
    amount_a_min: u64,
    amount_b_min: u64,
    min_lp_tokens: u64,
    balance_a: u64,
    balance_b: u64,
    timestamp: i64,
) -> Result<(PoolState, LiquidityAdded), ErrorCode> {
    if amount_a_desired == 0 || amount_b_desired == 0 {
        Err(ErrorCode::InvalidAmount)
    } else {
        match spec_calculate_optimal_amounts(
            amount_a_desired,
            amount_b_desired,
            pool.reserve_a,
            pool.reserve_b,
        ) {
            Err(e) => Err(e),
            Ok(amounts) => {
                let amount_a = amounts.0;
                let amount_b = amounts.1;
                if amount_a < amount_a_min {
                    Err(ErrorCode::InsufficientAmountA)
                } else if amount_b < amount_b_min {
                    Err(ErrorCode::InsufficientAmountB)
                } else {
                    match spec_claim_tokens_to_mint(pool, amount_a, amount_b) {
                        Err(e) => Err(e),
                        Ok(lp_tokens) => if lp_tokens < min_lp_tokens || lp_tokens == 0 {
                            Err(ErrorCode::InsufficientLPTokens)
                        } else if balance_a < amount_a || balance_b < amount_b {
                            Err(ErrorCode::InsufficientBalance)
                        } else if pool.reserve_a + amount_a > u64::MAX || pool.reserve_b
                            + amount_b > u64::MAX || pool.total_claim_supply + lp_tokens
                            > u64::MAX {
                            Err(ErrorCode::MathOverflow)
                        } else {
                            let new_pool = PoolState {
                                reserve_a: (pool.reserve_a + amount_a) as u64,
                                reserve_b: (pool.reserve_b + amount_b) as u64,
                                total_claim_supply: (pool.total_claim_supply + lp_tokens) as u64,
                                ..pool
                            };
                            let record = LiquidityAdded {
                                amount_a,
                                amount_b,
                                lp_tokens_minted: lp_tokens,
                                total_claim_supply: new_pool.total_claim_supply,
                                timestamp,
                            };
                            Ok((new_pool, record))
                        },
                    }
                }
            },
        }
    }
}

impl PoolState {
    /// Adds liquidity to the pool: matches the desired deposit to the
    /// current reserve ratio, computes the claim-token mint, enforces the
    /// caller's amount and claim-token floors and then the balance cover,
    /// and updates reserves and supply, all by checked arithmetic.
    ///
    /// On success the state is exactly the updated pool of
    /// `spec_add_liquidity` and the returned record states the amounts
    /// moved; on any error the state is byte-for-byte unchanged.
    pub fn add_liquidity(
        &mut self,
        amount_a_desired: u64,
        amount_b_desired: u64,
        amount_a_min: u64,
        amount_b_min: u64,
        min_lp_tokens: u64,
        balance_a: u64,
        balance_b: u64,
        timestamp: i64,
    ) -> (r: Result<LiquidityAdded, ErrorCode>)
        requires
            old(self).well_formed(),
        ensures
            final(self).well_formed(),
            match spec_add_liquidity(
                *old(self),
                amount_a_desired,
                amount_b_desired,
                amount_a_min,
                amount_b_min,
                min_lp_tokens,
                balance_a,
                balance_b,
                timestamp,
            ) {
                Ok(outcome) => r == Ok::<LiquidityAdded, ErrorCode>(outcome.1) && *final(self)
                    == outcome.0,
                Err(e) => r == Err::<LiquidityAdded, ErrorCode>(e) && *final(self) == *old(self),
            },
    {
        if amount_a_desired == 0 || amount_b_desired == 0 {
            return Err(ErrorCode::InvalidAmount);
        }
        let amounts = match calculate_optimal_amounts(
            amount_a_desired,
            amount_b_desired,
            self.reserve_a,
            self.reserve_b,
        ) {
            Ok(v) => v,
            Err(e) => {
                return Err(e);
            },
        };
        let amount_a = amounts.0;
        let amount_b = amounts.1;
        if amount_a < amount_a_min {
            return Err(ErrorCode::InsufficientAmountA);
        }
        if amount_b < amount_b_min {
            return Err(ErrorCode::InsufficientAmountB);
        }
        let lp_tokens: u64 = if self.total_claim_supply == 0 {
            proof {
                lemma_mul_upper_bound(
                    amount_a as int,
                    u64::MAX as int,
                    amount_b as int,
                    u64::MAX as int,
                );
            }
            let product: u128 = (amount_a as u128) * (amount_b as u128);
            let s = integer_sqrt(product);
            if s <= MINIMUM_LIQUIDITY {
                return Err(ErrorCode::InsufficientLiquidity);
            }
            s - MINIMUM_LIQUIDITY
        } else {
            let lp_from_a = match checked_mul_div(
                amount_a,
                self.total_claim_supply,
                self.reserve_a,
            ) {
                Ok(v) => v,
                Err(e) => {
                    return Err(e);
                },
            };
            let lp_from_b = match checked_mul_div(
                amount_b,
                self.total_claim_supply,
                self.reserve_b,
            ) {
                Ok(v) => v,
                Err(e) => {
                    return Err(e);
                },
            };
            if lp_from_a <= lp_from_b {
                lp_from_a
            } else {
                lp_from_b
            }
        };
        if lp_tokens < min_lp_tokens || lp_tokens == 0 {
            return Err(ErrorCode::InsufficientLPTokens);
        }
        if balance_a < amount_a || balance_b < amount_b {
            return Err(ErrorCode::InsufficientBalance);
        }
        if self.reserve_a > u64::MAX - amount_a || self.reserve_b > u64::MAX - amount_b
            || self.total_claim_supply > u64::MAX - lp_tokens {
            return Err(ErrorCode::MathOverflow);
        }
        self.reserve_a = self.reserve_a + amount_a;
        self.reserve_b = self.reserve_b + amount_b;
        self.total_claim_supply = self.total_claim_supply + lp_tokens;
        Ok(
            LiquidityAdded {
                amount_a,
                amount_b,
                lp_tokens_minted: lp_tokens,
                total_claim_supply: self.total_claim_supply,
                timestamp,
            },
        )
    }
}

} // verus!
