use amm_core::add_liquidity::calculate_optimal_amounts;
use amm_core::asset::AssetId;
use amm_core::error::ErrorCode;
use amm_core::initialize_pool::initialize_pool;
use amm_core::state::{PoolAddresses, PoolState};

fn mk_asset(last: u8) -> AssetId {
    let mut bytes = [0u8; 32];
    bytes[31] = last;
    AssetId { bytes }
}

fn mk_addresses() -> PoolAddresses {
    PoolAddresses {
        vault_a: mk_asset(101),
        vault_b: mk_asset(102),
        pool_mint: mk_asset(103),
        bump: 250,
        authority_bump: 251,
        pool_mint_bump: 252,
    }
}

fn mk_pool(reserve_a: u64, reserve_b: u64, supply: u64, fee_num: u64, fee_den: u64) -> PoolState {
    PoolState {
        asset_a: mk_asset(1),
        asset_b: mk_asset(2),
        fee_numerator: fee_num,
        fee_denominator: fee_den,
        reserve_a,
        reserve_b,
        total_claim_supply: supply,
        addresses: mk_addresses(),
    }
}

#[test]
fn initialize_pool_produces_empty_state() {
    let r = initialize_pool(mk_asset(1), mk_asset(2), 3, 1000, mk_addresses(), 77);
    let (pool, record) = r.expect("valid configuration");
    assert_eq!(pool.reserve_a, 0);
    assert_eq!(pool.reserve_b, 0);
    assert_eq!(pool.total_claim_supply, 0);
    assert_eq!(pool.fee_numerator, 3);
    assert_eq!(pool.fee_denominator, 1000);
    assert_eq!(pool.asset_a, mk_asset(1));
    assert_eq!(pool.asset_b, mk_asset(2));
    assert_eq!(record.fee_numerator, 3);
    assert_eq!(record.fee_denominator, 1000);
    assert_eq!(record.timestamp, 77);
}

#[test]
fn initialize_pool_rejects_zero_fee_denominator() {
    let r = initialize_pool(mk_asset(1), mk_asset(2), 0, 0, mk_addresses(), 0);
    assert_eq!(r.unwrap_err(), ErrorCode::InvalidFeeParameters);
}

#[test]
fn initialize_pool_rejects_fee_over_one_percent() {
    // 10/1000 is exactly 1% and passes; 11/1000 exceeds the cap.
    assert!(initialize_pool(mk_asset(1), mk_asset(2), 10, 1000, mk_addresses(), 0).is_ok());
    let r = initialize_pool(mk_asset(1), mk_asset(2), 11, 1000, mk_addresses(), 0);
    assert_eq!(r.unwrap_err(), ErrorCode::FeeTooHigh);
}

#[test]
fn initialize_pool_rejects_identical_assets() {
    let r = initialize_pool(mk_asset(7), mk_asset(7), 3, 1000, mk_addresses(), 0);
    assert_eq!(r.unwrap_err(), ErrorCode::IdenticalTokens);
}

#[test]
fn initialize_pool_rejects_unordered_assets() {
    let r = initialize_pool(mk_asset(2), mk_asset(1), 3, 1000, mk_addresses(), 0);
    assert_eq!(r.unwrap_err(), ErrorCode::MintsNotOrdered);
}

#[test]
fn initialize_pool_orders_by_earlier_bytes_too() {
    let mut big = [0u8; 32];
    big[0] = 1;
    let high = AssetId { bytes: big };
    // high differs in the first byte, so it is larger than any mk_asset(n).
    assert!(initialize_pool(mk_asset(200), high, 3, 1000, mk_addresses(), 0).is_ok());
    let r = initialize_pool(high, mk_asset(200), 3, 1000, mk_addresses(), 0);
    assert_eq!(r.unwrap_err(), ErrorCode::MintsNotOrdered);
}

#[test]
fn optimal_amounts_on_empty_pool_take_desired() {
    assert_eq!(calculate_optimal_amounts(123, 456, 0, 0), Ok((123, 456)));
}

#[test]
fn optimal_amounts_match_b_to_desired_a() {
    assert_eq!(calculate_optimal_amounts(100, 4000, 10_000, 40_000), Ok((100, 400)));
}

#[test]
fn optimal_amounts_match_a_to_desired_b() {
    // The B matching 100 A would be 400 > 300, so A is matched to B instead.
    assert_eq!(calculate_optimal_amounts(100, 300, 10_000, 40_000), Ok((75, 300)));
}

#[test]
fn optimal_amounts_report_overflow() {
    let r = calculate_optimal_amounts(u64::MAX, 1, 1, u64::MAX);
    assert_eq!(r.unwrap_err(), ErrorCode::MathOverflow);
}

#[test]
fn optimal_amounts_report_zero_reserve_divisor() {
    let r = calculate_optimal_amounts(10, 10, 0, 5);
    assert_eq!(r.unwrap_err(), ErrorCode::DivisionByZero);
}

#[test]
fn first_deposit_mints_sqrt_minus_minimum_liquidity() {
    let mut pool = mk_pool(0, 0, 0, 3, 1000);
    let record = pool
        .add_liquidity(10_000, 40_000, 0, 0, 0, 10_000, 40_000, 5)
        .expect("first deposit");
    assert_eq!(record.lp_tokens_minted, 19_000);
    assert_eq!(record.amount_a, 10_000);
    assert_eq!(record.amount_b, 40_000);
    assert_eq!(record.total_claim_supply, 19_000);
    assert_eq!(record.timestamp, 5);
    assert_eq!(pool.reserve_a, 10_000);
    assert_eq!(pool.reserve_b, 40_000);
    assert_eq!(pool.total_claim_supply, 19_000);
}

#[test]
fn first_deposit_below_minimum_liquidity_fails() {
    let mut pool = mk_pool(0, 0, 0, 3, 1000);
    // sqrt(1000 * 1000) = 1000 does not exceed the deduction.
    let r = pool.add_liquidity(1000, 1000, 0, 0, 0, 1000, 1000, 0);
    assert_eq!(r.unwrap_err(), ErrorCode::InsufficientLiquidity);
    assert_eq!(pool.total_claim_supply, 0);
    assert_eq!(pool.reserve_a, 0);
}

#[test]
fn first_deposit_just_above_minimum_liquidity_mints_one() {
    let mut pool = mk_pool(0, 0, 0, 3, 1000);
    // sqrt(1001 * 1001) = 1001, one above the deduction.
    let record = pool.add_liquidity(1001, 1001, 0, 0, 0, 1001, 1001, 0).expect("just enough");
    assert_eq!(record.lp_tokens_minted, 1);
}

#[test]
fn add_liquidity_rejects_zero_desired_amount() {
    let mut pool = mk_pool(0, 0, 0, 3, 1000);
    assert_eq!(
        pool.add_liquidity(0, 10, 0, 0, 0, 100, 100, 0).unwrap_err(),
        ErrorCode::InvalidAmount
    );
    assert_eq!(
        pool.add_liquidity(10, 0, 0, 0, 0, 100, 100, 0).unwrap_err(),
        ErrorCode::InvalidAmount
    );
}

#[test]
fn add_liquidity_enforces_amount_floors() {
    let mut pool = mk_pool(10_000, 40_000, 19_000, 3, 1000);
    // Matched amounts are (100, 400); floors above them fail.
    let r = pool.add_liquidity(100, 4000, 101, 0, 0, 1000, 4000, 0);
    assert_eq!(r.unwrap_err(), ErrorCode::InsufficientAmountA);
    let r = pool.add_liquidity(100, 4000, 0, 401, 0, 1000, 4000, 0);
    assert_eq!(r.unwrap_err(), ErrorCode::InsufficientAmountB);
    assert_eq!(pool.reserve_a, 10_000);
    assert_eq!(pool.reserve_b, 40_000);
}

#[test]
fn add_liquidity_enforces_caller_balances() {
    let mut pool = mk_pool(10_000, 40_000, 19_000, 3, 1000);
    let r = pool.add_liquidity(100, 4000, 0, 0, 0, 99, 4000, 0);
    assert_eq!(r.unwrap_err(), ErrorCode::InsufficientBalance);
    let r = pool.add_liquidity(100, 4000, 0, 0, 0, 100, 399, 0);
    assert_eq!(r.unwrap_err(), ErrorCode::InsufficientBalance);
}

#[test]
fn add_liquidity_enforces_minimum_lp_output() {
    let mut pool = mk_pool(10_000, 40_000, 19_000, 3, 1000);
    let r = pool.add_liquidity(100, 4000, 0, 0, 191, 1000, 4000, 0);
    assert_eq!(r.unwrap_err(), ErrorCode::InsufficientLPTokens);
}

#[test]
fn add_liquidity_checks_claim_floor_before_balances() {
    let mut pool = mk_pool(10_000, 40_000, 19_000, 3, 1000);
    // The matched deposit (100, 400) would mint 190 claim tokens. With the
    // claim floor unmet and the balances short too, the claim floor
    // decides.
    let r = pool.add_liquidity(100, 4000, 0, 0, 191, 0, 0, 0);
    assert_eq!(r.unwrap_err(), ErrorCode::InsufficientLPTokens);
}

#[test]
fn proportional_deposit_mints_proportional_claims() {
    let mut pool = mk_pool(10_000, 40_000, 19_000, 3, 1000);
    let record = pool.add_liquidity(1000, 4000, 0, 0, 0, 1000, 4000, 9).expect("matched");
    assert_eq!(record.amount_a, 1000);
    assert_eq!(record.amount_b, 4000);
    assert_eq!(record.lp_tokens_minted, 1900);
    assert_eq!(pool.reserve_a, 11_000);
    assert_eq!(pool.reserve_b, 44_000);
    assert_eq!(pool.total_claim_supply, 20_900);
    // No value extraction: minted/supply <= amount/reserve on both sides.
    assert!(1900u128 * 10_000 <= 1000u128 * 19_000);
    assert!(1900u128 * 40_000 <= 4000u128 * 19_000);
}

#[test]
fn imbalanced_deposit_mints_no_more_than_fair_share() {
    let mut pool = mk_pool(10_000, 40_000, 19_000, 3, 1000);
    // Far more B than the ratio needs: only the matched (1000, 4000) move.
    let record = pool.add_liquidity(1000, 999_999, 0, 0, 0, 1000, 999_999, 0).expect("matched");
    assert_eq!(record.amount_a, 1000);
    assert_eq!(record.amount_b, 4000);
    assert_eq!(record.lp_tokens_minted, 1900);
}

#[test]
fn remove_liquidity_pays_proportional_share() {
    let mut pool = mk_pool(10_000, 40_000, 19_000, 3, 1000);
    let record = pool.remove_liquidity(1900, 0, 0, 1900, 10_000, 40_000, 4).expect("burn");
    assert_eq!(record.amount_a, 1000);
    assert_eq!(record.amount_b, 4000);
    assert_eq!(record.lp_tokens_burned, 1900);
    assert_eq!(record.total_claim_supply, 17_100);
    assert_eq!(pool.reserve_a, 9000);
    assert_eq!(pool.reserve_b, 36_000);
    assert_eq!(pool.total_claim_supply, 17_100);
}

#[test]
fn remove_liquidity_rejects_zero_burn() {
    let mut pool = mk_pool(10_000, 40_000, 19_000, 3, 1000);
    assert_eq!(
        pool.remove_liquidity(0, 0, 0, 1900, 10_000, 40_000, 0).unwrap_err(),
        ErrorCode::InvalidAmount
    );
}

#[test]
fn remove_liquidity_rejects_short_claim_balance() {
    let mut pool = mk_pool(10_000, 40_000, 19_000, 3, 1000);
    assert_eq!(
        pool.remove_liquidity(1900, 0, 0, 1899, 10_000, 40_000, 0).unwrap_err(),
        ErrorCode::InsufficientBalance
    );
}

#[test]
fn remove_liquidity_rejects_burn_over_supply() {
    let mut pool = mk_pool(10_000, 40_000, 19_000, 3, 1000);
    assert_eq!(
        pool.remove_liquidity(19_001, 0, 0, 19_001, 10_000, 40_000, 0).unwrap_err(),
        ErrorCode::InsufficientLPTokens
    );
    // The supply cap is checked before the caller's claim balance.
    assert_eq!(
        pool.remove_liquidity(19_001, 0, 0, 5, 10_000, 40_000, 0).unwrap_err(),
        ErrorCode::InsufficientLPTokens
    );
}

#[test]
fn remove_liquidity_floor_failure_leaves_state_unchanged() {
    let mut pool = mk_pool(10_000, 40_000, 19_000, 3, 1000);
    // The proportional A for 1900 burned is 1000; ask for more.
    let r = pool.remove_liquidity(1900, 1001, 0, 1900, 10_000, 40_000, 0);
    assert_eq!(r.unwrap_err(), ErrorCode::InsufficientAmountA);
    assert_eq!(pool.reserve_a, 10_000);
    assert_eq!(pool.reserve_b, 40_000);
    assert_eq!(pool.total_claim_supply, 19_000);
}

#[test]
fn remove_liquidity_enforces_b_floor() {
    let mut pool = mk_pool(10_000, 40_000, 19_000, 3, 1000);
    // The proportional B for 1900 burned is 4000; ask for more.
    let r = pool.remove_liquidity(1900, 0, 4001, 1900, 10_000, 40_000, 0);
    assert_eq!(r.unwrap_err(), ErrorCode::InsufficientAmountB);
}

#[test]
fn remove_liquidity_checks_pool_custody() {
    let mut pool = mk_pool(10_000, 40_000, 19_000, 3, 1000);
    let r = pool.remove_liquidity(1900, 0, 0, 1900, 999, 40_000, 0);
    assert_eq!(r.unwrap_err(), ErrorCode::InsufficientPoolLiquidity);
    let r = pool.remove_liquidity(1900, 0, 0, 1900, 10_000, 3999, 0);
    assert_eq!(r.unwrap_err(), ErrorCode::InsufficientPoolLiquidity);
}

#[test]
fn add_then_remove_all_returns_exactly_the_deposit() {
    let mut pool = mk_pool(0, 0, 0, 3, 1000);
    let added = pool.add_liquidity(10_000, 40_000, 0, 0, 0, 10_000, 40_000, 0).expect("add");
    assert_eq!(added.lp_tokens_minted, 19_000);
    let removed = pool
        .remove_liquidity(19_000, 0, 0, 19_000, pool.reserve_a, pool.reserve_b, 1)
        .expect("remove all");
    assert_eq!(removed.amount_a, 10_000);
    assert_eq!(removed.amount_b, 40_000);
    assert_eq!(pool.reserve_a, 0);
    assert_eq!(pool.reserve_b, 0);
    assert_eq!(pool.total_claim_supply, 0);
}

#[test]
fn pool_fee_helpers_compute_exactly() {
    let pool = mk_pool(10_000, 40_000, 19_000, 3, 1000);
    assert_eq!(pool.calculate_fee(1000), Ok(3));
    assert_eq!(pool.calculate_fee(999), Ok(2));
    assert_eq!(pool.amount_after_fee(1000), Ok(997));
    assert_eq!(pool.amount_after_fee(0), Ok(0));
}

#[test]
fn pool_fee_helpers_use_a_wide_intermediate() {
    // The fee product is taken over a double-width intermediate, so a
    // large amount with a small fee ratio still yields the exact fee.
    let pool = mk_pool(10_000, 40_000, 19_000, 3, 1000);
    assert_eq!(pool.calculate_fee(u64::MAX), Ok(55_340_232_221_128_654));
    // A fee ratio of one keeps the whole amount.
    let all_fee = mk_pool(10_000, 40_000, 19_000, 5, 5);
    assert_eq!(all_fee.calculate_fee(2), Ok(2));
    assert_eq!(all_fee.amount_after_fee(2), Ok(0));
}

#[test]
fn pool_fee_helpers_report_overflow_and_zero_divisor() {
    // Only a quotient too wide for the operand width overflows.
    let extreme = mk_pool(10_000, 40_000, 19_000, u64::MAX, 1);
    assert_eq!(extreme.calculate_fee(2), Err(ErrorCode::MathOverflow));
    assert_eq!(extreme.amount_after_fee(2), Err(ErrorCode::MathOverflow));
    let degenerate = mk_pool(10_000, 40_000, 19_000, 3, 0);
    assert_eq!(degenerate.calculate_fee(10), Err(ErrorCode::DivisionByZero));
}
