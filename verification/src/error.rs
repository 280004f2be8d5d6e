use vstd::prelude::*;

verus! {

/// Failure outcome of a pool operation.
///
/// Every operation of the engine either succeeds with zero state mutation
/// left pending, or fails with exactly one of these codes and no state
/// change at all.
#[derive(Clone, Copy, Debug, PartialEq, Eq, Structural)]
pub enum ErrorCode {
    /// A fee ratio with a zero denominator was proposed at initialization.
    InvalidFeeParameters,
    /// The proposed fee exceeds the 1% cap (`numerator <= denominator / 100`).
    FeeTooHigh,
    /// A pool over a single asset was proposed.
    IdenticalTokens,
    /// The two asset identifiers were not given in canonical ascending order.
    MintsNotOrdered,
    /// An amount was zero, or desired deposits cannot be matched at the
    /// current reserve ratio without exceeding a stated maximum.
    InvalidAmount,
    /// The caller's balance does not cover the computed amount.
    InsufficientBalance,
    /// The pool's custodied balance does not cover the computed amount.
    InsufficientPoolLiquidity,
    /// The computed amount of asset A fell below the caller's minimum.
    InsufficientAmountA,
    /// The computed amount of asset B fell below the caller's minimum.
    InsufficientAmountB,
    /// The computed claim-token amount fell below the caller's minimum,
    /// was zero, or exceeds the outstanding supply on redemption.
    InsufficientLPTokens,
    /// A first deposit too small to cover the minimum-liquidity deduction.
    InsufficientLiquidity,
    /// A checked arithmetic operation would overflow its width.
    MathOverflow,
    /// A checked division had a zero divisor.
    DivisionByZero,
    /// A swap was requested against a pool with an empty reserve.
    EmptyReserves,
    /// The swap output fell below the caller's minimum.
    SlippageExceeded,
    /// The swap formula produced a zero output.
    OutputBelowMinimum,
    /// The swap output fell below the fixed minimum-output floor.
    OutputTooSmall,
    /// The swap would drain more than the capped share of the output reserve.
    PriceImpactTooHigh,
    /// The constant product decreased across a swap. Unreachable under the
    /// swap formula; kept as a last-line defense.
    InvalidConstantProduct,
}

} // verus!
