//! Pool initialization: validating a proposed configuration and producing
//! the initial empty state.

use vstd::prelude::*;

use crate::asset::{asset_id_eq, asset_id_lt, AssetId};
use crate::error::ErrorCode;
use crate::state::{PoolAddresses, PoolState, FEE_CAP_DIVISOR};

verus! {

/// Structured record of a pool creation, for the surrounding event sink.
#[derive(Clone, Copy, Debug, PartialEq, Eq)]
pub struct PoolCreated {
    /// The smaller asset identifier of the pair.
    pub asset_a: AssetId,
    /// The larger asset identifier of the pair.
    pub asset_b: AssetId,
    /// Fee numerator of the new pool.
    pub fee_numerator: u64,
    /// Fee denominator of the new pool.
    pub fee_denominator: u64,
    /// Creation time, supplied by the caller's clock.
    pub timestamp: i64,
}

/// The outcome of `initialize_pool`: a zero denominator, a fee over the
/// 1% cap, an identical pair and a pair out of canonical order are
/// rejected, in that order of precedence; otherwise the initial state is
/// zeroed and the configuration stored.
pub open spec fn spec_initialize_pool(
    asset_a: AssetId,
    asset_b: AssetId,
    fee_numerator: u64,
    fee_denominator: u64,
    addresses: PoolAddresses,
    timestamp: i64,
) -> Result<(PoolState, PoolCreated), ErrorCode> {
    if fee_denominator == 0 {
        Err(ErrorCode::InvalidFeeParameters)
    } else if fee_numerator > fee_denominator / FEE_CAP_DIVISOR {
        Err(ErrorCode::FeeTooHigh)
    } else if asset_a.eq_spec(asset_b) {
        Err(ErrorCode::IdenticalTokens)
    } else if !asset_a.lt_spec(asset_b) {
        Err(ErrorCode::MintsNotOrdered)
    } else {
        let pool = PoolState {
            asset_a,
            asset_b,
            fee_numerator,
            fee_denominator,
            reserve_a: 0,
            reserve_b: 0,
            total_claim_supply: 0,
            addresses,
        };
        let record = PoolCreated { asset_a, asset_b, fee_numerator, fee_denominator, timestamp };
        Ok((pool, record))
    }
}

/// Validates a proposed pool configuration and produces the initial
/// zeroed state together with its creation record.
///
/// Succeeds if and only if the fee denominator is positive, the fee is
/// within the 1% cap, and the two asset identifiers are distinct and in
/// canonical ascending order; the new pool is then empty and well formed.
pub fn initialize_pool(
    asset_a: AssetId,
    asset_b: AssetId,
    fee_numerator: u64,
    fee_denominator: u64,
    addresses: PoolAddresses,
    timestamp: i64,
) -> (r: Result<(PoolState, PoolCreated), ErrorCode>)
    ensures
        r == spec_initialize_pool(
            asset_a,
            asset_b,
            fee_numerator,
            fee_denominator,
            addresses,
            timestamp,
        ),
        r matches Ok(created) ==> created.0.well_formed() && created.0.total_claim_supply == 0,
{
    if fee_denominator == 0 {
        return Err(ErrorCode::InvalidFeeParameters);
    }
    if fee_numerator > fee_denominator / FEE_CAP_DIVISOR {
        return Err(ErrorCode::FeeTooHigh);
    }
    if asset_id_eq(&asset_a, &asset_b) {
        return Err(ErrorCode::IdenticalTokens);
    }
    if !asset_id_lt(&asset_a, &asset_b) {
        return Err(ErrorCode::MintsNotOrdered);
    }
    let pool = PoolState {
        asset_a,
        asset_b,
        fee_numerator,
        fee_denominator,
        reserve_a: 0,
        reserve_b: 0,
        total_claim_supply: 0,
        addresses,
    };
    let record = PoolCreated { asset_a, asset_b, fee_numerator, fee_denominator, timestamp };
    Ok((pool, record))
}

} // verus!
