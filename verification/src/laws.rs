//! The engine's laws, proved once over the spec-level transitions that the
//! executable operations are verified against.

use vstd::arithmetic::div_mod::lemma_div_decreases;
use vstd::arithmetic::mul::{lemma_mul_inequality, lemma_mul_is_commutative};
use vstd::prelude::*;

use crate::add_liquidity::spec_add_liquidity;
use crate::asset::AssetId;
use crate::error::ErrorCode;
use crate::initialize_pool::spec_initialize_pool;
use crate::math::{lemma_mul_div_exact, lemma_mul_div_lower_bound, lemma_mul_div_lt};
use crate::remove_liquidity::spec_remove_liquidity;
use crate::state::{PoolAddresses, PoolState, FEE_CAP_DIVISOR};
use crate::swap::{lemma_swap_output_product, spec_swap};

verus! {

/// Law: a pool is created only under a valid configuration. Every
/// successful initialization yields a well-formed empty pool whose fee is
/// within the 1% cap and whose asset pair is in canonical ascending
/// order, and a configuration violating either is rejected before any
/// state exists.
pub proof fn lemma_initialize_pool_validates(
    asset_a: AssetId,
    asset_b: AssetId,
    fee_numerator: u64,
    fee_denominator: u64,
    addresses: PoolAddresses,
    timestamp: i64,
)
    ensures
        match spec_initialize_pool(
            asset_a,
            asset_b,
            fee_numerator,
            fee_denominator,
            addresses,
            timestamp,
        ) {
            Ok(outcome) => outcome.0.well_formed() && outcome.0.fee_numerator
                <= outcome.0.fee_denominator / FEE_CAP_DIVISOR && outcome.0.asset_a.lt_spec(
                outcome.0.asset_b,
            ) && outcome.0.reserve_a == 0 && outcome.0.reserve_b == 0
                && outcome.0.total_claim_supply == 0,
            Err(_) => true,
        },
        fee_denominator > 0 && fee_numerator > fee_denominator / FEE_CAP_DIVISOR
            ==> spec_initialize_pool(
            asset_a,
            asset_b,
            fee_numerator,
            fee_denominator,
            addresses,
            timestamp,
        ) == Err::<(PoolState, crate::initialize_pool::PoolCreated), ErrorCode>(
            ErrorCode::FeeTooHigh,
        ),
        !asset_a.lt_spec(asset_b) ==> spec_initialize_pool(
            asset_a,
            asset_b,
            fee_numerator,
            fee_denominator,
            addresses,
            timestamp,
        ) is Err,
{
}

/// Law: adding liquidity to an empty pool and immediately removing every
/// minted claim token returns exactly the deposited amounts and leaves
/// the pool empty again. The minimum-liquidity deduction reduces what is
/// minted, not what the minted tokens jointly redeem for, so the round
/// trip loses nothing and never pays out more than was deposited.
pub proof fn lemma_add_remove_round_trip(
    pool: PoolState,
    amount_a_desired: u64,
    amount_b_desired: u64,
    amount_a_min: u64,
    amount_b_min: u64,
    min_lp_tokens: u64,
    balance_a: u64,
    balance_b: u64,
    ts_add: i64,
    ts_remove: i64,
)
    requires
        pool.well_formed(),
        pool.total_claim_supply == 0,
        spec_add_liquidity(
            pool,
            amount_a_desired,
            amount_b_desired,
            amount_a_min,
            amount_b_min,
            min_lp_tokens,
            balance_a,
            balance_b,
            ts_add,
        ) is Ok,
    ensures
        ({
            let outcome = spec_add_liquidity(
                pool,
                amount_a_desired,
                amount_b_desired,
                amount_a_min,
                amount_b_min,
                min_lp_tokens,
                balance_a,
                balance_b,
                ts_add,
            )->Ok_0;
            let removal = spec_remove_liquidity(
                outcome.0,
                outcome.1.lp_tokens_minted,
                0,
                0,
                outcome.1.lp_tokens_minted,
                outcome.0.reserve_a,
                outcome.0.reserve_b,
                ts_remove,
            );
            &&& outcome.1.amount_a == amount_a_desired
            &&& outcome.1.amount_b == amount_b_desired
            &&& removal is Ok
            &&& removal->Ok_0.1.amount_a == amount_a_desired
            &&& removal->Ok_0.1.amount_b == amount_b_desired
            &&& removal->Ok_0.0.reserve_a == 0
            &&& removal->Ok_0.0.reserve_b == 0
            &&& removal->Ok_0.0.total_claim_supply == 0
        }),
{
    let outcome = spec_add_liquidity(
        pool,
        amount_a_desired,
        amount_b_desired,
        amount_a_min,
        amount_b_min,
        min_lp_tokens,
        balance_a,
        balance_b,
        ts_add,
    )->Ok_0;
    let minted = outcome.1.lp_tokens_minted;
    // A first deposit leaves reserves exactly at the deposited amounts and
    // a positive claim supply equal to what was minted.
    assert(outcome.0.reserve_a == amount_a_desired);
    assert(outcome.0.reserve_b == amount_b_desired);
    assert(outcome.0.total_claim_supply == minted && minted >= 1);
    // Burning the whole supply pays out each reserve exactly.
    lemma_mul_div_exact(amount_a_desired as int, minted as int);
    lemma_mul_div_exact(amount_b_desired as int, minted as int);
}

/// Law: liquidity added to an active pool never mints more than the
/// proportional share. After any successful addition, the minted fraction
/// of the prior claim supply is at most the deposited fraction of either
/// prior reserve: `minted * reserve_a <= amount_a * supply` and
/// `minted * reserve_b <= amount_b * supply`, the integer form of
/// `minted / supply <= amount_a / reserve_a` and
/// `minted / supply <= amount_b / reserve_b`.
pub proof fn lemma_add_liquidity_proportional(
    pool: PoolState,
    amount_a_desired: u64,
    amount_b_desired: u64,
    amount_a_min: u64,
    amount_b_min: u64,
    min_lp_tokens: u64,
    balance_a: u64,
    balance_b: u64,
    timestamp: i64,
)
    requires
        pool.well_formed(),
        pool.total_claim_supply > 0,
    ensures
        match spec_add_liquidity(
            pool,
            amount_a_desired,
            amount_b_desired,
            amount_a_min,
            amount_b_min,
            min_lp_tokens,
            balance_a,
            balance_b,
            timestamp,
        ) {
            Ok(outcome) => outcome.1.lp_tokens_minted * pool.reserve_a <= outcome.1.amount_a
                * pool.total_claim_supply && outcome.1.lp_tokens_minted * pool.reserve_b
                <= outcome.1.amount_b * pool.total_claim_supply,
            Err(_) => true,
        },
{
    let result = spec_add_liquidity(
        pool,
        amount_a_desired,
        amount_b_desired,
        amount_a_min,
        amount_b_min,
        min_lp_tokens,
        balance_a,
        balance_b,
        timestamp,
    );
    if result is Ok {
        let outcome = result->Ok_0;
        let amount_a = outcome.1.amount_a;
        let amount_b = outcome.1.amount_b;
        let minted = outcome.1.lp_tokens_minted;
        let supply = pool.total_claim_supply as int;
        // Each ratio-implied mint amount, multiplied back by its reserve,
        // stays within the deposited share of the supply; the minimum of
        // the two inherits both bounds.
        lemma_mul_div_lower_bound(amount_a as int, supply, pool.reserve_a as int);
        lemma_mul_div_lower_bound(amount_b as int, supply, pool.reserve_b as int);
        assert(minted * pool.reserve_a <= amount_a * supply) by {
            lemma_mul_inequality(
                minted as int,
                crate::math::mul_div(amount_a as int, supply, pool.reserve_a as int),
                pool.reserve_a as int,
            );
        }
        assert(minted * pool.reserve_b <= amount_b * supply) by {
            lemma_mul_inequality(
                minted as int,
                crate::math::mul_div(amount_b as int, supply, pool.reserve_b as int),
                pool.reserve_b as int,
            );
        }
    }
}

/// Law: redemption never pays out more than the burned fraction. After
/// any successful removal, the paid-out fraction of either reserve is at
/// most the burned fraction of the claim supply:
/// `amount_a * supply <= burned * reserve_a` and
/// `amount_b * supply <= burned * reserve_b`, the integer form of
/// `amount_a / reserve_a <= burned / supply` and
/// `amount_b / reserve_b <= burned / supply`.
pub proof fn lemma_remove_liquidity_proportional(
    pool: PoolState,
    lp_tokens_to_burn: u64,
    min_amount_a: u64,
    min_amount_b: u64,
    lp_balance: u64,
    vault_a_balance: u64,
    vault_b_balance: u64,
    timestamp: i64,
)
    requires
        pool.well_formed(),
    ensures
        match spec_remove_liquidity(
            pool,
            lp_tokens_to_burn,
            min_amount_a,
            min_amount_b,
            lp_balance,
            vault_a_balance,
            vault_b_balance,
            timestamp,
        ) {
            Ok(outcome) => outcome.1.amount_a * pool.total_claim_supply
                <= outcome.1.lp_tokens_burned * pool.reserve_a && outcome.1.amount_b
                * pool.total_claim_supply <= outcome.1.lp_tokens_burned * pool.reserve_b,
            Err(_) => true,
        },
{
    let result = spec_remove_liquidity(
        pool,
        lp_tokens_to_burn,
        min_amount_a,
        min_amount_b,
        lp_balance,
        vault_a_balance,
        vault_b_balance,
        timestamp,
    );
    if result is Ok {
        let supply = pool.total_claim_supply as int;
        // Multiplying each floored payout back by the supply recovers at
        // most the burned share of the reserve.
        lemma_mul_div_lower_bound(lp_tokens_to_burn as int, pool.reserve_a as int, supply);
        lemma_mul_div_lower_bound(lp_tokens_to_burn as int, pool.reserve_b as int, supply);
    }
}

/// Law: a swap against a well-formed pool never trips the last-line
/// constant-product defense, and a successful swap leaves the pool well
/// formed, its claim supply untouched, and the product of its reserves at
/// least what it was: the fee is deducted from the priced input while the
/// full input enters the reserve, so the product can only grow.
pub proof fn lemma_swap_preserves_pool(
    pool: PoolState,
    amount_in: u64,
    min_amount_out: u64,
    is_a_to_b: bool,
    user_balance: u64,
    vault_out_balance: u64,
    timestamp: i64,
)
    requires
        pool.well_formed(),
    ensures
        spec_swap(
            pool,
            amount_in,
            min_amount_out,
            is_a_to_b,
            user_balance,
            vault_out_balance,
            timestamp,
        ) != Err::<(PoolState, crate::swap::SwapExecuted), ErrorCode>(
            ErrorCode::InvalidConstantProduct,
        ),
        match spec_swap(
            pool,
            amount_in,
            min_amount_out,
            is_a_to_b,
            user_balance,
            vault_out_balance,
            timestamp,
        ) {
            Ok(outcome) => outcome.0.well_formed() && outcome.0.product() >= pool.product()
                && outcome.0.total_claim_supply == pool.total_claim_supply,
            Err(_) => true,
        },
{
    if amount_in == 0 || min_amount_out == 0 {
        return ;
    }
    let reserve_in = if is_a_to_b { pool.reserve_a } else { pool.reserve_b };
    let reserve_out = if is_a_to_b { pool.reserve_b } else { pool.reserve_a };
    if reserve_in == 0 || reserve_out == 0 || user_balance < amount_in {
        return ;
    }
    let fee_result = crate::math::spec_checked_mul_div(
        amount_in,
        pool.fee_numerator,
        pool.fee_denominator,
    );
    if fee_result is Err {
        return ;
    }
    let fee_amount = fee_result->Ok_0;
    // The capped fee numerator is strictly below the denominator, so the
    // fee stays strictly below the input and the priced part is positive.
    lemma_div_decreases(pool.fee_denominator as int, 100);
    lemma_mul_div_lt(pool.fee_numerator as int, amount_in as int, pool.fee_denominator as int);
    lemma_mul_is_commutative(pool.fee_numerator as int, amount_in as int);
    let x = (amount_in - fee_amount) as u64;
    assert(1 <= x <= amount_in);
    lemma_swap_output_product(x as int, amount_in as int, reserve_in as int, reserve_out as int);
    if is_a_to_b {
    } else {
        lemma_mul_is_commutative(pool.reserve_a as int, pool.reserve_b as int);
        let out = crate::math::mul_div(x as int, reserve_out as int, reserve_in as int + x as int);
        lemma_mul_is_commutative(reserve_out - out, reserve_in + amount_in);
    }
}

/// One swap request: the caller-supplied arguments of a single call to
/// the swap engine.
#[derive(Clone, Copy, Debug)]
pub struct SwapRequest {
    /// Amount of the input asset to pay in.
    pub amount_in: u64,
    /// Caller's slippage floor on the output.
    pub min_amount_out: u64,
    /// Direction: selling asset A for B when true, B for A otherwise.
    pub is_a_to_b: bool,
    /// Caller's balance of the input asset.
    pub user_balance: u64,
    /// Pool custody of the output asset.
    pub vault_out_balance: u64,
    /// Execution time, supplied by the caller's clock.
    pub timestamp: i64,
}

/// The pool after one swap request: an executed swap updates the state,
/// a failed one leaves it exactly as it was.
pub open spec fn apply_swap(pool: PoolState, request: SwapRequest) -> PoolState {
    match spec_swap(
        pool,
        request.amount_in,
        request.min_amount_out,
        request.is_a_to_b,
        request.user_balance,
        request.vault_out_balance,
        request.timestamp,
    ) {
        Ok(outcome) => outcome.0,
        Err(_) => pool,
    }
}

/// The pool after a sequence of swap requests, applied in order.
pub open spec fn apply_swaps(pool: PoolState, requests: Seq<SwapRequest>) -> PoolState
    decreases requests.len(),
{
    if requests.len() == 0 {
        pool
    } else {
        apply_swaps(apply_swap(pool, requests[0]), requests.drop_first())
    }
}

/// Law: across any sequence of swaps, with no liquidity changes in
/// between, the pool stays well formed, the claim supply never moves, and
/// the product of the reserves never decreases. Together with
/// `lemma_swap_preserves_pool` this holds after each individual swap of
/// the sequence, executed or failed.
pub proof fn lemma_swaps_never_decrease_product(pool: PoolState, requests: Seq<SwapRequest>)
    requires
        pool.well_formed(),
    ensures
        apply_swaps(pool, requests).well_formed(),
        apply_swaps(pool, requests).product() >= pool.product(),
        apply_swaps(pool, requests).total_claim_supply == pool.total_claim_supply,
    decreases requests.len(),
{
    if requests.len() == 0 {
    } else {
        let request = requests[0];
        lemma_swap_preserves_pool(
            pool,
            request.amount_in,
            request.min_amount_out,
            request.is_a_to_b,
            request.user_balance,
            request.vault_out_balance,
            request.timestamp,
        );
        lemma_swaps_never_decrease_product(apply_swap(pool, request), requests.drop_first());
    }
}

} // verus!
