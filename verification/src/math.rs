//! Overflow-checked fixed-point arithmetic and an exact integer square root.
//!
//! All pool arithmetic routes through these operations: a multiply-then-divide
//! over a double-width intermediate that reports overflow and division by
//! zero instead of wrapping or truncating, and a bit-exact, deterministic
//! floor square root computed by Babylonian iteration.

use vstd::arithmetic::div_mod::{
    lemma_div_by_self, lemma_div_is_ordered, lemma_div_multiples_vanish,
    lemma_div_pos_is_pos, lemma_fundamental_div_mod, lemma_mod_bound,
    lemma_multiply_divide_lt,
};
use vstd::arithmetic::mul::{
    lemma_mul_inequality, lemma_mul_is_commutative, lemma_mul_nonnegative,
    lemma_mul_strict_inequality, lemma_mul_upper_bound,
};
use vstd::prelude::*;

use crate::error::ErrorCode;

verus! {

/// `floor(a * b / c)` over the mathematical integers.
pub open spec fn mul_div(a: int, b: int, c: int) -> int
    recommends
        c > 0,
{
    a * b / c
}

/// The outcome of `checked_mul_div`: division by zero and a quotient too
/// wide for the operand width are reported, never truncated.
pub open spec fn spec_checked_mul_div(a: u64, b: u64, c: u64) -> Result<u64, ErrorCode> {
    if c == 0 {
        Err(ErrorCode::DivisionByZero)
    } else if mul_div(a as int, b as int, c as int) > u64::MAX {
        Err(ErrorCode::MathOverflow)
    } else {
        Ok(mul_div(a as int, b as int, c as int) as u64)
    }
}

/// Computes `floor(a * b / c)` through a double-width intermediate.
///
/// Fails with `DivisionByZero` when `c == 0` and with `MathOverflow` when
/// the quotient does not fit the operand width.
pub fn checked_mul_div(a: u64, b: u64, c: u64) -> (r: Result<u64, ErrorCode>)
    ensures
        r == spec_checked_mul_div(a, b, c),
{
    if c == 0 {
        return Err(ErrorCode::DivisionByZero);
    }
    proof {
        lemma_mul_upper_bound(a as int, u64::MAX as int, b as int, u64::MAX as int);
    }
    let wide: u128 = (a as u128) * (b as u128);
    let quotient: u128 = wide / (c as u128);
    if quotient > u64::MAX as u128 {
        return Err(ErrorCode::MathOverflow);
    }
    Ok(quotient as u64)
}

/// With a numerator factor no larger than the divisor, a multiply-then-
/// divide cannot exceed the other factor: for `0 <= a <= c`,
/// `floor(a * b / c) <= b`.
pub proof fn lemma_mul_div_le(a: int, b: int, c: int)
    requires
        0 <= a <= c,
        0 < c,
        0 <= b,
    ensures
        0 <= mul_div(a, b, c) <= b,
{
    lemma_mul_inequality(a, c, b);
    lemma_div_is_ordered(a * b, c * b, c);
    lemma_div_multiples_vanish(b, c);
    lemma_mul_nonnegative(a, b);
    lemma_div_pos_is_pos(a * b, c);
}

/// With a numerator factor strictly below the divisor, the quotient stays
/// strictly below the other factor: for `0 <= a < c` and `b >= 1`,
/// `floor(a * b / c) < b`.
pub proof fn lemma_mul_div_lt(a: int, b: int, c: int)
    requires
        0 <= a < c,
        1 <= b,
    ensures
        0 <= mul_div(a, b, c) < b,
{
    lemma_mul_strict_inequality(a, c, b);
    lemma_multiply_divide_lt(a * b, c, b);
    lemma_mul_nonnegative(a, b);
    lemma_div_pos_is_pos(a * b, c);
}

/// Multiplying a floored quotient back by its divisor recovers at most
/// the original product: `floor(a * b / c) * c <= a * b`.
pub proof fn lemma_mul_div_lower_bound(a: int, b: int, c: int)
    requires
        0 <= a,
        0 <= b,
        0 < c,
    ensures
        mul_div(a, b, c) * c <= a * b,
{
    lemma_fundamental_div_mod(a * b, c);
    lemma_mod_bound(a * b, c);
    lemma_mul_is_commutative(mul_div(a, b, c), c);
}

/// A numerator factor equal to the divisor cancels exactly:
/// `floor(c * b / c) == b`.
pub proof fn lemma_mul_div_exact(b: int, c: int)
    requires
        0 < c,
        0 <= b,
    ensures
        mul_div(c, b, c) == b,
{
    lemma_div_multiples_vanish(b, c);
}

/// `r` is the floor of the square root of `n`.
pub open spec fn is_sqrt_floor(n: int, r: int) -> bool {
    &&& 0 <= r
    &&& r * r <= n
    &&& n < (r + 1) * (r + 1)
}

/// The floor of the square root of `n`, as a mathematical function.
pub open spec fn sqrt_floor(n: nat) -> nat
    decreases n,
{
    if n == 0 {
        0
    } else {
        let p = sqrt_floor((n - 1) as nat);
        if (p + 1) * (p + 1) <= n {
            p + 1
        } else {
            p
        }
    }
}

/// `sqrt_floor` satisfies the floor-square-root characterization.
pub proof fn lemma_sqrt_floor_is_floor(n: nat)
    ensures
        is_sqrt_floor(n as int, sqrt_floor(n) as int),
    decreases n,
{
    if n == 0 {
        assert(0 * 0 <= 0 < (0 + 1) * (0 + 1)) by (nonlinear_arith);
    } else {
        lemma_sqrt_floor_is_floor((n - 1) as nat);
        let p = sqrt_floor((n - 1) as nat);
        if (p + 1) * (p + 1) <= n {
            // Here n - 1 < (p + 1)^2 <= n, so n == (p + 1)^2 exactly.
            assert(n == (p + 1) * (p + 1));
            assert((p + 1) * (p + 1) < (p + 2) * (p + 2)) by (nonlinear_arith)
                requires
                    p >= 0,
            ;
        }
    }
}

/// The floor square root is unique: any `r` satisfying the
/// characterization equals `sqrt_floor(n)`.
pub proof fn lemma_sqrt_floor_unique(n: int, r: int)
    requires
        n >= 0,
        is_sqrt_floor(n, r),
    ensures
        r == sqrt_floor(n as nat),
{
    lemma_sqrt_floor_is_floor(n as nat);
    let s = sqrt_floor(n as nat) as int;
    assert(r == s) by (nonlinear_arith)
        requires
            0 <= r,
            0 <= s,
            r * r <= n,
            n < (r + 1) * (r + 1),
            s * s <= n,
            n < (s + 1) * (s + 1),
    ;
}

/// One Babylonian step never falls below the square root: for `x >= 1`
/// and `s * s <= n`, the next iterate `(x + n / x) / 2` is at least `s`.
proof fn lemma_newton_step_above(n: int, x: int, s: int)
    requires
        1 <= x,
        0 <= n,
        0 <= s,
        s * s <= n,
    ensures
        s <= (x + n / x) / 2,
{
    let d = n / x;
    lemma_fundamental_div_mod(n, x);
    lemma_mod_bound(n, x);
    assert(2 * s <= x + d) by (nonlinear_arith)
        requires
            1 <= x,
            0 <= s,
            s * s <= n,
            n == x * d + n % x,
            0 <= n % x < x,
    ;
    lemma_div_is_ordered(2 * s, x + d, 2);
    lemma_div_multiples_vanish(s, 2);
}

/// Computes the floor of the square root of `value` by Babylonian
/// iteration seeded at `x0 = value`, `y0 = (x0 + 1) / 2`, iterating
/// `y = (x + value / x) / 2` until `y >= x`. Bit-exact and deterministic.
pub fn integer_sqrt(value: u128) -> (r: u64)
    ensures
        r == sqrt_floor(value as nat),
        is_sqrt_floor(value as int, r as int),
{
    if value == 0 {
        proof {
            lemma_sqrt_floor_is_floor(0);
        }
        return 0;
    }
    let mut x: u128 = value;
    // Written `(x - 1) / 2 + 1`, which equals `(x + 1) / 2` for every
    // `x >= 1` but cannot overflow at the top of the range.
    let mut y: u128 = (value - 1) / 2 + 1;
    proof {
        lemma_div_by_self(value as int);
        assert(y == (x + value as int / x as int) / 2);
        assert(value < (x + 1) * (x + 1)) by (nonlinear_arith)
            requires
                x == value,
                value >= 1,
        ;
        if (y + 1) * (y + 1) <= value {
            lemma_newton_step_above(value as int, x as int, y as int + 1);
            assert(false);
        }
    }
    while y < x
        invariant
            1 <= value,
            1 <= x <= value,
            value < (x + 1) * (x + 1),
            value < (y + 1) * (y + 1),
            y == (x + value as int / x as int) / 2,
        decreases x,
    {
        x = y;
        proof {
            assert(x >= 1) by (nonlinear_arith)
                requires
                    1 <= value,
                    value < (x + 1) * (x + 1),
                    0 <= x,
            ;
        }
        let d: u128 = value / x;
        proof {
            lemma_fundamental_div_mod(value as int, x as int);
            lemma_mod_bound(value as int, x as int);
            if x == 1 {
                // value < (1 + 1)^2, so value <= 3 and the sum is tiny.
                assert(value < 4) by (nonlinear_arith)
                    requires
                        x == 1,
                        value < (x + 1) * (x + 1),
                ;
            } else if d >= 2 {
                // Both factors at least 2: the sum is at most the product.
                assert(x + d <= x * d) by (nonlinear_arith)
                    requires
                        2 <= x,
                        2 <= d,
                ;
                assert(x * d <= value);
            }
            // In the remaining case d <= 1 and x <= value - 1.
        }
        let s: u128 = x + d;
        y = s / 2;
        proof {
            if (y + 1) * (y + 1) <= value {
                lemma_newton_step_above(value as int, x as int, y as int + 1);
                assert(false);
            }
        }
    }
    proof {
        // On exit y >= x, so value / x >= x, hence x * x <= value.
        let q = value as int / x as int;
        lemma_fundamental_div_mod(x as int + q, 2);
        lemma_mod_bound(x as int + q, 2);
        assert(q >= x);
        lemma_fundamental_div_mod(value as int, x as int);
        lemma_mod_bound(value as int, x as int);
        assert(x * x <= x * q) by (nonlinear_arith)
            requires
                1 <= x,
                x <= q,
        ;
        assert(x * x <= value);
        assert(x <= u64::MAX) by (nonlinear_arith)
            requires
                0 <= x,
                x * x <= value,
                value <= u128::MAX,
        ;
        lemma_sqrt_floor_unique(value as int, x as int);
    }
    x as u64
}

} // verus!
