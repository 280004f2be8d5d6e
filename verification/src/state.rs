//! The persisted record of a single pool and its invariants.

use vstd::prelude::*;

use crate::asset::AssetId;
use crate::error::ErrorCode;
use crate::math::{checked_mul_div, spec_checked_mul_div};

verus! {

/// Divisor of the fee cap: a fee ratio may not exceed
/// `1 / FEE_CAP_DIVISOR` of the amount, i.e. 1%.
pub const FEE_CAP_DIVISOR: u64 = 100;

/// Claim tokens deducted from the first mint and permanently retained by
/// the pool, deterring rounding attacks on a nearly empty pool.
pub const MINIMUM_LIQUIDITY: u64 = 1000;

/// Floor on the output of a swap.
pub const MINIMUM_OUTPUT: u64 = 1;

/// Cap on the share of the output reserve a single swap may drain,
/// in basis points.
pub const MAX_PRICE_IMPACT_BPS: u64 = 1000;

/// Scale of the reserve-ratio prices reported in swap records.
pub const PRICE_SCALE: u64 = 1_000_000;

/// Basis points in one whole.
pub const BPS_DENOMINATOR: u64 = 10_000;

/// Addressing and authority material derived by the surrounding
/// environment when a pool is created. The core stores it at
/// initialization and never touches it again.
#[derive(Clone, Copy, Debug, PartialEq, Eq)]
pub struct PoolAddresses {
    /// Custody account for asset A.
    pub vault_a: AssetId,
    /// Custody account for asset B.
    pub vault_b: AssetId,
    /// Mint of the pool's claim tokens.
    pub pool_mint: AssetId,
    /// Derivation bump of the pool record's own address.
    pub bump: u8,
    /// Derivation bump of the pool authority.
    pub authority_bump: u8,
    /// Derivation bump of the claim-token mint.
    pub pool_mint_bump: u8,
}

/// The state of one pool: an ordered asset pair, the custodied reserves,
/// the outstanding claim-token supply and the fee ratio.
#[derive(Clone, Copy, Debug, PartialEq, Eq)]
pub struct PoolState {
    /// Identifier of the first held asset; canonically the smaller one.
    pub asset_a: AssetId,
    /// Identifier of the second held asset; canonically the larger one.
    pub asset_b: AssetId,
    /// Fee numerator; the fee ratio is capped at 1%.
    pub fee_numerator: u64,
    /// Fee denominator; always positive.
    pub fee_denominator: u64,
    /// Quantity of asset A custodied by the pool.
    pub reserve_a: u64,
    /// Quantity of asset B custodied by the pool.
    pub reserve_b: u64,
    /// Total of outstanding claim tokens.
    pub total_claim_supply: u64,
    /// Collaborator-owned addressing material, assigned at initialization.
    pub addresses: PoolAddresses,
}

impl PoolState {
    /// An empty pool has no claims outstanding and nothing in reserve;
    /// an active pool holds positive reserves of both assets.
    pub open spec fn balanced(self) -> bool {
        &&& self.total_claim_supply == 0 ==> self.reserve_a == 0 && self.reserve_b == 0
        &&& self.total_claim_supply != 0 ==> self.reserve_a > 0 && self.reserve_b > 0
    }

    /// The invariant every pool satisfies from initialization on: the
    /// asset pair is in canonical ascending order, the fee ratio is
    /// positive-denominator and capped at 1%, and reserves and claim
    /// supply are empty or active together.
    pub open spec fn well_formed(self) -> bool {
        &&& self.asset_a.lt_spec(self.asset_b)
        &&& self.fee_denominator > 0
        &&& self.fee_numerator <= self.fee_denominator / FEE_CAP_DIVISOR
        &&& self.balanced()
    }

    /// The constant-product value of the reserves, which no swap may
    /// decrease.
    pub open spec fn product(self) -> int {
        self.reserve_a * self.reserve_b
    }

    /// The outcome of `calculate_fee`: the fee quotient over a double-width
    /// intermediate, with a zero denominator and a quotient too wide for the
    /// operand width reported. On a well-formed pool neither error occurs.
    pub open spec fn spec_calculate_fee(self, amount: u64) -> Result<u64, ErrorCode> {
        spec_checked_mul_div(amount, self.fee_numerator, self.fee_denominator)
    }

    /// Computes the fee charged on `amount` under this pool's fee ratio,
    /// `floor(amount * fee_numerator / fee_denominator)` through a
    /// double-width intermediate.
    pub fn calculate_fee(&self, amount: u64) -> (r: Result<u64, ErrorCode>)
        ensures
            r == self.spec_calculate_fee(amount),
    {
        checked_mul_div(amount, self.fee_numerator, self.fee_denominator)
    }

    /// The outcome of `amount_after_fee`.
    pub open spec fn spec_amount_after_fee(self, amount: u64) -> Result<u64, ErrorCode> {
        match self.spec_calculate_fee(amount) {
            Err(e) => Err(e),
            Ok(fee) => if fee > amount {
                Err(ErrorCode::MathOverflow)
            } else {
                Ok((amount - fee) as u64)
            },
        }
    }

    /// Computes what remains of `amount` once this pool's fee is deducted.
    pub fn amount_after_fee(&self, amount: u64) -> (r: Result<u64, ErrorCode>)
        ensures
            r == self.spec_amount_after_fee(amount),
    {
        let fee = match self.calculate_fee(amount) {
            Ok(f) => f,
            Err(e) => {
                return Err(e);
            },
        };
        if fee > amount {
            return Err(ErrorCode::MathOverflow);
        }
        Ok(amount - fee)
    }
}

} // verus!
