//! Liquidity redemption: burning claim tokens for a proportional share of
//! both reserves.

use vstd::prelude::*;

use crate::error::ErrorCode;
use crate::math::{
    checked_mul_div, lemma_mul_div_exact, lemma_mul_div_le, lemma_mul_div_lt,
    spec_checked_mul_div,
};
use crate::state::PoolState;

verus! {

/// Structured record of an executed liquidity removal.
#[derive(Clone, Copy, Debug, PartialEq, Eq)]
pub struct LiquidityRemoved {
    /// Amount of asset A paid out.
    pub amount_a: u64,
    /// Amount of asset B paid out.
    pub amount_b: u64,
    /// Claim tokens burned from the caller.
    pub lp_tokens_burned: u64,
    /// Outstanding claim supply after the removal.
    pub total_claim_supply: u64,
    /// Execution time, supplied by the caller's clock.
    pub timestamp: i64,
}

/// The outcome of `PoolState::remove_liquidity`, as a function of the
/// state before the call: either the updated state with its record, or
/// the error, in the engine's order of checks.
pub open spec fn spec_remove_liquidity(
    pool: PoolState,
    lp_tokens_to_burn: u64,
    min_amount_a: u64,
    min_amount_b: u64,
    lp_balance: u64,
    vault_a_balance: u64,
    vault_b_balance: u64,
    timestamp: i64,
) -> Result<(PoolState, LiquidityRemoved), ErrorCode> {
    if lp_tokens_to_burn == 0 {
        Err(ErrorCode::InvalidAmount)
    } else if pool.total_claim_supply < lp_tokens_to_burn {
        Err(ErrorCode::InsufficientLPTokens)
    } else if lp_balance < lp_tokens_to_burn {
        Err(ErrorCode::InsufficientBalance)
    } else {
        match spec_checked_mul_div(lp_tokens_to_burn, pool.reserve_a, pool.total_claim_supply) {
            Err(e) => Err(e),
            Ok(amount_a) => match spec_checked_mul_div(
                lp_tokens_to_burn,
                pool.reserve_b,
                pool.total_claim_supply,
            ) {
                Err(e) => Err(e),
                Ok(amount_b) => if amount_a < min_amount_a {
                    Err(ErrorCode::InsufficientAmountA)
                } else if amount_b < min_amount_b {
                    Err(ErrorCode::InsufficientAmountB)
                } else if vault_a_balance < amount_a || vault_b_balance < amount_b {
                    Err(ErrorCode::InsufficientPoolLiquidity)
                } else {
                    let new_pool = PoolState {
                        reserve_a: (pool.reserve_a - amount_a) as u64,
                        reserve_b: (pool.reserve_b - amount_b) as u64,
                        total_claim_supply: (pool.total_claim_supply - lp_tokens_to_burn) as u64,
                        ..pool
                    };
                    let record = LiquidityRemoved {
                        amount_a,
                        amount_b,
                        lp_tokens_burned: lp_tokens_to_burn,
                        total_claim_supply: new_pool.total_claim_supply,
                        timestamp,
                    };
                    Ok((new_pool, record))
                },
            },
        }
    }
}

impl PoolState {
    /// Removes liquidity from the pool: burns `lp_tokens_to_burn` claim
    /// tokens for the proportional share of each reserve, enforcing the
    /// outstanding supply, the caller's balance, the caller's slippage
    /// floors and the pool's actual custody.
    ///
    /// On success the state is exactly the updated pool of
    /// `spec_remove_liquidity` and the returned record states the amounts
    /// paid out; on any error the state is byte-for-byte unchanged.
    pub fn remove_liquidity(
        &mut self,
        lp_tokens_to_burn: u64,
        min_amount_a: u64,
        min_amount_b: u64,
        lp_balance: u64,
        vault_a_balance: u64,
        vault_b_balance: u64,
        timestamp: i64,
    ) -> (r: Result<LiquidityRemoved, ErrorCode>)
        requires
            old(self).well_formed(),
        ensures
            final(self).well_formed(),
            match spec_remove_liquidity(
                *old(self),
                lp_tokens_to_burn,
                min_amount_a,
                min_amount_b,
                lp_balance,
                vault_a_balance,
                vault_b_balance,
                timestamp,
            ) {
                Ok(outcome) => r == Ok::<LiquidityRemoved, ErrorCode>(outcome.1) && *final(self)
                    == outcome.0,
                Err(e) => r == Err::<LiquidityRemoved, ErrorCode>(e) && *final(self) == *old(
                    self,
                ),
            },
    {
        if lp_tokens_to_burn == 0 {
            return Err(ErrorCode::InvalidAmount);
        }
        if self.total_claim_supply < lp_tokens_to_burn {
            return Err(ErrorCode::InsufficientLPTokens);
        }
        if lp_balance < lp_tokens_to_burn {
            return Err(ErrorCode::InsufficientBalance);
        }
        let amount_a = match checked_mul_div(
            lp_tokens_to_burn,
            self.reserve_a,
            self.total_claim_supply,
        ) {
            Ok(v) => v,
            Err(e) => {
                return Err(e);
            },
        };
        let amount_b = match checked_mul_div(
            lp_tokens_to_burn,
            self.reserve_b,
            self.total_claim_supply,
        ) {
            Ok(v) => v,
            Err(e) => {
                return Err(e);
            },
        };
        if amount_a < min_amount_a {
            return Err(ErrorCode::InsufficientAmountA);
        }
        if amount_b < min_amount_b {
            return Err(ErrorCode::InsufficientAmountB);
        }
        if vault_a_balance < amount_a || vault_b_balance < amount_b {
            return Err(ErrorCode::InsufficientPoolLiquidity);
        }
        proof {
            // The paid-out shares never exceed the reserves, and a partial
            // burn leaves both reserves positive.
            lemma_mul_div_le(
                lp_tokens_to_burn as int,
                self.reserve_a as int,
                self.total_claim_supply as int,
            );
            lemma_mul_div_le(
                lp_tokens_to_burn as int,
                self.reserve_b as int,
                self.total_claim_supply as int,
            );
            if lp_tokens_to_burn < self.total_claim_supply {
                lemma_mul_div_lt(
                    lp_tokens_to_burn as int,
                    self.reserve_a as int,
                    self.total_claim_supply as int,
                );
                lemma_mul_div_lt(
                    lp_tokens_to_burn as int,
                    self.reserve_b as int,
                    self.total_claim_supply as int,
                );
            } else {
                // Burning the whole supply pays out both reserves exactly.
                lemma_mul_div_exact(self.reserve_a as int, self.total_claim_supply as int);
                lemma_mul_div_exact(self.reserve_b as int, self.total_claim_supply as int);
            }
        }
        self.reserve_a = self.reserve_a - amount_a;
        self.reserve_b = self.reserve_b - amount_b;
        self.total_claim_supply = self.total_claim_supply - lp_tokens_to_burn;
        Ok(
            LiquidityRemoved {
                amount_a,
                amount_b,
                lp_tokens_burned: lp_tokens_to_burn,
                total_claim_supply: self.total_claim_supply,
                timestamp,
            },
        )
    }
}

} // verus!
