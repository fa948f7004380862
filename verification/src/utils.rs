//! The pricing engine: the premium that a buyer pays for a position.
//!
//! The premium grows with the square root of the time to expiry and with the
//! asset's implied volatility, and is oriented by moneyness: a call is scaled
//! by `spot / strike`, a put by `strike / spot`. It is computed on integers
//! and rounded up, so that a position is never given away.

use vstd::prelude::*;
use crate::errors::{ErrorCode, invalid_price, MathError, OptionError, overflow};
use crate::math::{
    ceil_div,
    ceil_quotient,
    fit_u64,
    integer_sqrt,
    isqrt,
    lemma_ceil_div_monotonic,
    lemma_isqrt_bounds,
    lemma_isqrt_monotonic,
};

verus! {

/// The implied volatility of the underlying over one year, in basis points.
pub const VOLATILITY_BPS: u64 = 5_000;

/// One, in basis points.
pub const BPS_POWER: u64 = 10_000;

/// The integer square root of the number of seconds in a year of 365 days.
pub const SQRT_SECONDS_PER_YEAR: u64 = 5_615;

/// The dividend of the premium: `spot * volatility * sqrt(time)`, times the
/// price that the moneyness ratio has above the line.
pub open spec fn premium_numerator(spot: nat, strike: nat, time_to_expiry: nat, is_call: bool) -> nat {
    spot * VOLATILITY_BPS as nat * isqrt(time_to_expiry) * (if is_call {
        spot
    } else {
        strike
    })
}

/// The divisor of the premium: the units of volatility and of time, times the
/// price that the moneyness ratio has below the line.
pub open spec fn premium_denominator(spot: nat, strike: nat, is_call: bool) -> nat {
    BPS_POWER as nat * SQRT_SECONDS_PER_YEAR as nat * (if is_call {
        strike
    } else {
        spot
    })
}

/// The premium of one unit of the underlying, at the exponent of `spot` and
/// `strike`. A price of zero is rejected; the computation is carried out in
/// 128 bits, and a dividend or a premium beyond its range is an overflow.
pub open spec fn premium_value(spot: nat, strike: nat, time_to_expiry: nat, is_call: bool) -> Result<
    u64,
    ErrorCode,
> {
    if spot == 0 || strike == 0 {
        Err(invalid_price())
    } else if premium_numerator(spot, strike, time_to_expiry, is_call) > u128::MAX {
        Err(overflow())
    } else {
        fit_u64(
            ceil_div(
                premium_numerator(spot, strike, time_to_expiry, is_call),
                premium_denominator(spot, strike, is_call),
            ) as int,
        )
    }
}

/// A premium is positive whenever spot, strike and time to expiry are.
pub proof fn lemma_premium_positive(spot: nat, strike: nat, time_to_expiry: nat, is_call: bool)
    requires
        spot > 0,
        strike > 0,
        time_to_expiry > 0,
    ensures
        ceil_div(
            premium_numerator(spot, strike, time_to_expiry, is_call),
            premium_denominator(spot, strike, is_call),
        ) > 0,
        premium_value(spot, strike, time_to_expiry, is_call) matches Ok(premium) ==> premium > 0,
{
    lemma_isqrt_bounds(time_to_expiry);
    let root = isqrt(time_to_expiry);
    assert(root >= 1) by (nonlinear_arith)
        requires
            time_to_expiry < (root + 1) * (root + 1),
            time_to_expiry > 0,
    ;
    let over = if is_call {
        spot
    } else {
        strike
    };
    let under = if is_call {
        strike
    } else {
        spot
    };
    let n = premium_numerator(spot, strike, time_to_expiry, is_call);
    let d = premium_denominator(spot, strike, is_call);
    assert(d == 10_000 * 5_615 * under);
    assert(n > 0) by (nonlinear_arith)
        requires
            n == spot * 5_000 * root * over,
            spot > 0,
            root >= 1,
            over > 0,
    ;
    assert(ceil_div(n, d) > 0) by (nonlinear_arith)
        requires
            n > 0,
            d > 0,
            ceil_div(n, d) == (if n % d == 0 {
                n / d
            } else {
                n / d + 1
            }),
    ;
}

/// A premium does not fall as the time to expiry grows, and what can be
/// priced for a longer time can be priced for any shorter one.
pub proof fn lemma_premium_grows_with_time(
    spot: nat,
    strike: nat,
    sooner: nat,
    later: nat,
    is_call: bool,
)
    requires
        spot > 0,
        strike > 0,
        sooner <= later,
    ensures
        ceil_div(
            premium_numerator(spot, strike, sooner, is_call),
            premium_denominator(spot, strike, is_call),
        ) <= ceil_div(
            premium_numerator(spot, strike, later, is_call),
            premium_denominator(spot, strike, is_call),
        ),
        premium_value(spot, strike, sooner, is_call) matches Ok(low) ==> (premium_value(
            spot,
            strike,
            later,
            is_call,
        ) matches Ok(high) ==> low <= high),
        premium_value(spot, strike, later, is_call) is Ok ==> premium_value(
            spot,
            strike,
            sooner,
            is_call,
        ) is Ok,
{
    lemma_isqrt_monotonic(sooner, later);
    let over = if is_call {
        spot
    } else {
        strike
    };
    let under = if is_call {
        strike
    } else {
        spot
    };
    let low = premium_numerator(spot, strike, sooner, is_call);
    let high = premium_numerator(spot, strike, later, is_call);
    let d = premium_denominator(spot, strike, is_call);
    let r1 = isqrt(sooner);
    let r2 = isqrt(later);
    assert(low <= high) by (nonlinear_arith)
        requires
            low == spot * 5_000 * r1 * over,
            high == spot * 5_000 * r2 * over,
            r1 <= r2,
            spot > 0,
            over > 0,
    ;
    assert(d > 0) by (nonlinear_arith)
        requires
            d == 10_000 * 5_615 * under,
            under > 0,
    ;
    lemma_ceil_div_monotonic(low, high, d);
}

/// Prices one unit of the underlying for `time_to_expiry` seconds.
pub fn price_premium(spot: u64, strike: u64, time_to_expiry: u64, is_call: bool) -> (r: Result<
    u64,
    ErrorCode,
>)
    ensures
        r == premium_value(spot as nat, strike as nat, time_to_expiry as nat, is_call),
        time_to_expiry > 0 ==> (r matches Ok(premium) ==> premium > 0),
{
    if spot == 0 || strike == 0 {
        return Err(ErrorCode::OptionBook(OptionError::InvalidPriceRequirementError));
    }
    let root = integer_sqrt(time_to_expiry);
    let over = if is_call {
        spot
    } else {
        strike
    };
    let under = if is_call {
        strike
    } else {
        spot
    };
    proof {
        if time_to_expiry > 0 {
            lemma_premium_positive(spot as nat, strike as nat, time_to_expiry as nat, is_call);
        }
        assert(root < 0x1_0000_0000) by (nonlinear_arith)
            requires
                root * root <= time_to_expiry,
                time_to_expiry <= 0xffff_ffff_ffff_ffff,
                root >= 0,
        ;
        assert(spot * 5_000 * root <= 0xffff_ffff_ffff_ffff * 5_000 * 0x1_0000_0000)
            by (nonlinear_arith)
            requires
                0 <= spot * 5_000 <= 0xffff_ffff_ffff_ffff * 5_000,
                0 <= root < 0x1_0000_0000,
        ;
    }
    let base: u128 = (spot as u128) * (VOLATILITY_BPS as u128) * (root as u128);
    let denominator: u128 = (BPS_POWER as u128) * (SQRT_SECONDS_PER_YEAR as u128) * (under as u128);
    match base.checked_mul(over as u128) {
        None => Err(ErrorCode::Math(MathError::OverflowMathError)),
        Some(numerator) => {
            assert(numerator == premium_numerator(
                spot as nat,
                strike as nat,
                time_to_expiry as nat,
                is_call,
            ));
            let premium = ceil_quotient(numerator, denominator);
            if premium > 0xffff_ffff_ffff_ffff {
                Err(ErrorCode::Math(MathError::OverflowMathError))
            } else {
                Ok(premium as u64)
            }
        },
    }
}

} // verus!
