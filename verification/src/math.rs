//! Checked integer arithmetic on exponent-scaled decimals.
//!
//! A decimal is a mantissa paired with a base-ten exponent; its value is
//! `mantissa * 10^exponent`. Every operation either returns the exact result to
//! the requested precision or reports an overflow; nothing wraps or saturates.

use vstd::prelude::*;
use crate::errors::{ErrorCode, MathError, overflow};

verus! {

/// `10^n`.
pub open spec fn pow10(n: nat) -> nat
    decreases n,
{
    if n == 0 {
        1
    } else {
        10 * pow10((n - 1) as nat)
    }
}

/// The outcome of delivering the mathematical value `v` as a `u64`.
pub open spec fn fit_u64(v: int) -> Result<u64, ErrorCode> {
    if 0 <= v <= u64::MAX {
        Ok(v as u64)
    } else {
        Err(overflow())
    }
}

/// The product of two decimals expressed at `target` exponent, rounded down.
pub open spec fn decimal_mul_value(c1: nat, e1: int, c2: nat, e2: int, target: int) -> nat {
    let power = e1 + e2 - target;
    if power >= 0 {
        c1 * c2 * pow10(power as nat)
    } else {
        (c1 * c2) / pow10((-power) as nat)
    }
}

/// The quotient of two decimals expressed at `target` exponent, rounded down.
/// The divisor's mantissa `c2` must not be zero.
pub open spec fn decimal_div_value(c1: nat, e1: int, c2: nat, e2: int, target: int) -> nat {
    let power = e1 - e2 - target;
    if power >= 0 {
        (c1 * pow10(power as nat)) / c2
    } else {
        c1 / (c2 * pow10((-power) as nat))
    }
}

/// The product of two decimals expressed at `target` exponent, rounded up.
pub open spec fn decimal_ceil_mul_value(c1: nat, e1: int, c2: nat, e2: int, target: int) -> nat {
    let power = e1 + e2 - target;
    if power >= 0 {
        c1 * c2 * pow10(power as nat)
    } else {
        ceil_div(c1 * c2, pow10((-power) as nat))
    }
}

/// The quotient of two decimals expressed at `target` exponent, rounded up.
/// The divisor's mantissa `c2` must not be zero.
pub open spec fn decimal_ceil_div_value(c1: nat, e1: int, c2: nat, e2: int, target: int) -> nat {
    let power = e1 - e2 - target;
    if power >= 0 {
        ceil_div(c1 * pow10(power as nat), c2)
    } else {
        ceil_div(c1, c2 * pow10((-power) as nat))
    }
}

/// A decimal rescaled from exponent `from` to exponent `to`, rounded down.
pub open spec fn scaled_value(mantissa: nat, from: int, to: int) -> nat {
    if from >= to {
        mantissa * pow10((from - to) as nat)
    } else {
        mantissa / pow10((to - from) as nat)
    }
}

/// The finer of two exponents.
pub open spec fn common_exponent(e1: int, e2: int) -> int {
    if e1 <= e2 {
        e1
    } else {
        e2
    }
}

/// Two decimals brought to their common exponent, which loses nothing: the
/// two mantissas at that exponent, and the exponent.
pub open spec fn aligned(m1: nat, e1: int, m2: nat, e2: int) -> Result<(u64, u64, i32), ErrorCode> {
    let e = common_exponent(e1, e2);
    let a = scaled_value(m1, e1, e);
    let b = scaled_value(m2, e2, e);
    if a <= u64::MAX && b <= u64::MAX {
        Ok((a as u64, b as u64, e as i32))
    } else {
        Err(overflow())
    }
}

/// `n / d` rounded up, for a positive `d`.
pub open spec fn ceil_div(n: nat, d: nat) -> nat {
    if n % d == 0 {
        n / d
    } else {
        n / d + 1
    }
}

/// The integer square root: the largest `r` with `r * r <= n`.
pub open spec fn isqrt(n: nat) -> nat
    decreases n,
{
    if n == 0 {
        0
    } else {
        let r = isqrt((n - 1) as nat);
        if (r + 1) * (r + 1) <= n {
            r + 1
        } else {
            r
        }
    }
}

/// A power of ten is positive.
pub proof fn lemma_pow10_positive(n: nat)
    ensures
        pow10(n) > 0,
    decreases n,
{
    if n > 0 {
        lemma_pow10_positive((n - 1) as nat);
    }
}

/// Powers of ten do not fall as the exponent grows.
pub proof fn lemma_pow10_monotonic(a: nat, b: nat)
    requires
        a <= b,
    ensures
        pow10(a) <= pow10(b),
    decreases b,
{
    if a < b {
        lemma_pow10_monotonic(a, (b - 1) as nat);
        lemma_pow10_positive((b - 1) as nat);
    }
}

/// The powers of ten at the edges of the 64-bit and 128-bit ranges.
pub proof fn lemma_pow10_limits()
    ensures
        pow10(19) == 10_000_000_000_000_000_000,
        pow10(20) == 100_000_000_000_000_000_000,
        pow10(38) == 100_000_000_000_000_000_000_000_000_000_000_000_000,
        pow10(39) == 1_000_000_000_000_000_000_000_000_000_000_000_000_000,
        pow10(19) <= u64::MAX < pow10(20),
        pow10(38) <= u128::MAX < pow10(39),
{
    reveal_with_fuel(pow10, 10);
    assert(pow10(19) == 10_000_000_000 * pow10(9));
    assert(pow10(39) == 10_000_000_000 * pow10(29));
}

/// The integer square root is the one number whose square brackets `n`.
pub proof fn lemma_isqrt_bounds(n: nat)
    ensures
        isqrt(n) * isqrt(n) <= n < (isqrt(n) + 1) * (isqrt(n) + 1),
    decreases n,
{
    if n > 0 {
        lemma_isqrt_bounds((n - 1) as nat);
        let r = isqrt((n - 1) as nat);
        let s = isqrt(n);
        if (r + 1) * (r + 1) <= n {
            assert(s * s <= n < (s + 1) * (s + 1)) by (nonlinear_arith)
                requires
                    s == r + 1,
                    (r + 1) * (r + 1) <= n,
                    n - 1 < (r + 1) * (r + 1),
            ;
        }
    } else {
        let s = isqrt(n);
        assert(s * s <= n < (s + 1) * (s + 1)) by (nonlinear_arith)
            requires
                s == 0,
                n == 0,
        ;
    }
}

/// Any number whose square brackets `n` is the integer square root of `n`.
pub proof fn lemma_isqrt_unique(r: nat, n: nat)
    requires
        r * r <= n < (r + 1) * (r + 1),
    ensures
        r == isqrt(n),
{
    lemma_isqrt_bounds(n);
    let s = isqrt(n);
    assert(r == s) by (nonlinear_arith)
        requires
            r * r <= n < (r + 1) * (r + 1),
            s * s <= n < (s + 1) * (s + 1),
    ;
}

/// The integer square root does not fall as its argument grows.
pub proof fn lemma_isqrt_monotonic(a: nat, b: nat)
    requires
        a <= b,
    ensures
        isqrt(a) <= isqrt(b),
{
    lemma_isqrt_bounds(a);
    lemma_isqrt_bounds(b);
    let ra = isqrt(a);
    let rb = isqrt(b);
    assert(ra <= rb) by (nonlinear_arith)
        requires
            ra * ra <= a,
            a <= b,
            b < (rb + 1) * (rb + 1),
    ;
}

/// A quotient rounded up does not fall as its dividend grows.
pub proof fn lemma_ceil_div_monotonic(n1: nat, n2: nat, d: nat)
    requires
        n1 <= n2,
        d > 0,
    ensures
        ceil_div(n1, d) <= ceil_div(n2, d),
{
    let q1 = n1 / d;
    let q2 = n2 / d;
    let r1 = n1 % d;
    let r2 = n2 % d;
    assert(n1 == q1 * d + r1 && 0 <= r1 < d) by (nonlinear_arith)
        requires
            q1 == n1 / d,
            r1 == n1 % d,
            d > 0,
    ;
    assert(n2 == q2 * d + r2 && 0 <= r2 < d) by (nonlinear_arith)
        requires
            q2 == n2 / d,
            r2 == n2 % d,
            d > 0,
    ;
    assert(q1 <= q2 && (q1 == q2 ==> r1 <= r2)) by (nonlinear_arith)
        requires
            n1 == q1 * d + r1,
            n2 == q2 * d + r2,
            0 <= r1 < d,
            0 <= r2 < d,
            n1 <= n2,
            d > 0,
    ;
}

/// The sum, or an overflow where it does not fit.
pub fn checked_add(a: u64, b: u64) -> (r: Result<u64, ErrorCode>)
    ensures
        r == fit_u64(a + b),
{
    match a.checked_add(b) {
        Some(v) => Ok(v),
        None => Err(ErrorCode::Math(MathError::OverflowMathError)),
    }
}

/// The difference, or an overflow where it would be negative.
pub fn checked_sub(a: u64, b: u64) -> (r: Result<u64, ErrorCode>)
    ensures
        r == fit_u64(a - b),
{
    match a.checked_sub(b) {
        Some(v) => Ok(v),
        None => Err(ErrorCode::Math(MathError::OverflowMathError)),
    }
}

/// The product, or an overflow where it does not fit.
pub fn checked_mul(a: u64, b: u64) -> (r: Result<u64, ErrorCode>)
    ensures
        r == fit_u64(a * b),
{
    match a.checked_mul(b) {
        Some(v) => Ok(v),
        None => Err(ErrorCode::Math(MathError::OverflowMathError)),
    }
}

/// Delivers a signed wide value as an unsigned amount, rejecting what is
/// negative or too large.
pub fn checked_as_u64(arg: i128) -> (r: Result<u64, ErrorCode>)
    ensures
        r == fit_u64(arg as int),
{
    if arg < 0 || arg > 0xffff_ffff_ffff_ffff {
        Err(ErrorCode::Math(MathError::OverflowMathError))
    } else {
        Ok(arg as u64)
    }
}

/// `10^n` as a 128-bit number; an overflow from `n = 39` on.
pub fn checked_pow10(n: u32) -> (r: Result<u128, ErrorCode>)
    ensures
        n <= 38 ==> r == Ok::<u128, ErrorCode>(pow10(n as nat) as u128),
        n <= 38 ==> pow10(n as nat) <= u128::MAX,
        n > 38 ==> r == Err::<u128, ErrorCode>(overflow()),
{
    if n > 38 {
        return Err(ErrorCode::Math(MathError::OverflowMathError));
    }
    let mut r: u128 = 1;
    let mut i: u32 = 0;
    while i < n
        invariant
            i <= n <= 38,
            r == pow10(i as nat),
        decreases n - i,
    {
        proof {
            lemma_pow10_monotonic((i + 1) as nat, 38);
            lemma_pow10_limits();
        }
        r = r * 10;
        i = i + 1;
    }
    proof {
        lemma_pow10_monotonic(n as nat, 38);
        lemma_pow10_limits();
    }
    Ok(r)
}

proof fn lemma_product_fits(a: u64, b: u64)
    ensures
        a * b <= 0xffff_ffff_ffff_fffe_0000_0000_0000_0001,
        a * b <= u128::MAX,
{
    assert(a * b <= 0xffff_ffff_ffff_ffff * 0xffff_ffff_ffff_ffff) by (nonlinear_arith)
        requires
            0 <= a <= 0xffff_ffff_ffff_ffff,
            0 <= b <= 0xffff_ffff_ffff_ffff,
    ;
}

proof fn lemma_small_quotient(x: nat, d: nat)
    requires
        x < d,
    ensures
        x / d == 0,
{
    assert(x / d == 0) by (nonlinear_arith)
        requires
            0 <= x < d,
    ;
}

proof fn lemma_large_quotient(n: nat, d: nat, bound: nat)
    requires
        d > 0,
        n >= d * bound,
    ensures
        n / d >= bound,
{
    assert(n / d >= bound) by (nonlinear_arith)
        requires
            d > 0,
            n >= d * bound,
    ;
}

/// What rounding up makes of a quotient: nothing of zero, one of any
/// dividend below the divisor, and never less than rounding down does.
pub proof fn lemma_ceil_div_bounds(n: nat, d: nat)
    requires
        d > 0,
    ensures
        n == 0 ==> ceil_div(n, d) == 0,
        n > 0 ==> 1 <= ceil_div(n, d) <= n,
        0 < n <= d ==> ceil_div(n, d) == 1,
        n / d <= ceil_div(n, d) <= n / d + 1,
{
    let q = n / d;
    let r = n % d;
    assert(n == q * d + r && 0 <= r < d) by (nonlinear_arith)
        requires
            q == n / d,
            r == n % d,
            d > 0,
    ;
    if n > 0 {
        assert(q + (if r == 0 {
            0int
        } else {
            1
        }) <= n && (r == 0 ==> q >= 1) && (n < d ==> q == 0) && (n == d ==> q == 1 && r == 0))
            by (nonlinear_arith)
            requires
                n == q * d + r,
                0 <= r < d,
                n > 0,
                q >= 0,
        ;
    } else {
        assert(q == 0 && r == 0) by (nonlinear_arith)
            requires
                n == q * d + r,
                0 <= r < d,
                n == 0,
                q >= 0,
        ;
    }
}

/// `n / d` rounded up.
pub(crate) fn ceil_quotient(n: u128, d: u128) -> (q: u128)
    requires
        d > 0,
    ensures
        q == ceil_div(n as nat, d as nat),
        q <= n,
{
    proof {
        lemma_ceil_div_bounds(n as nat, d as nat);
    }
    if n % d == 0 {
        n / d
    } else {
        n / d + 1
    }
}

/// Multiplies two decimals and delivers the product at `target_exponent`,
/// rounded up. Fails exactly when that product does not fit in 64 bits.
pub fn checked_decimal_ceil_mul(
    coefficient1: u64,
    exponent1: i32,
    coefficient2: u64,
    exponent2: i32,
    target_exponent: i32,
) -> (r: Result<u64, ErrorCode>)
    ensures
        r == fit_u64(
            decimal_ceil_mul_value(
                coefficient1 as nat,
                exponent1 as int,
                coefficient2 as nat,
                exponent2 as int,
                target_exponent as int,
            ) as int,
        ),
{
    let power: i64 = exponent1 as i64 + exponent2 as i64 - target_exponent as i64;
    if power >= 0 {
        return checked_decimal_mul(
            coefficient1,
            exponent1,
            coefficient2,
            exponent2,
            target_exponent,
        );
    }
    proof {
        lemma_product_fits(coefficient1, coefficient2);
        lemma_pow10_limits();
        lemma_pow10_positive((-power) as nat);
    }
    let product: u128 = (coefficient1 as u128) * (coefficient2 as u128);
    let ghost c1 = coefficient1 as nat;
    let ghost c2 = coefficient2 as nat;
    let ghost pw = pow10((-power) as nat);
    proof {
        lemma_ceil_div_bounds(c1 * c2, pw);
    }
    if product == 0 {
        return Ok(0);
    }
    if power < -38 {
        proof {
            lemma_pow10_monotonic(39, (-power) as nat);
        }
        return Ok(1);
    }
    let scale = match checked_pow10((-power) as u32) {
        Ok(v) => v,
        Err(e) => {
            return Err(e);
        },
    };
    let v = ceil_quotient(product, scale);
    if v > 0xffff_ffff_ffff_ffff {
        Err(ErrorCode::Math(MathError::OverflowMathError))
    } else {
        Ok(v as u64)
    }
}

/// Divides one decimal by another and delivers the quotient at
/// `target_exponent`, rounded up. A zero divisor is an overflow; otherwise
/// the call fails exactly when the quotient does not fit in 64 bits.
pub fn checked_decimal_ceil_div(
    coefficient1: u64,
    exponent1: i32,
    coefficient2: u64,
    exponent2: i32,
    target_exponent: i32,
) -> (r: Result<u64, ErrorCode>)
    ensures
        coefficient2 == 0 ==> r == Err::<u64, ErrorCode>(overflow()),
        coefficient2 != 0 ==> r == fit_u64(
            decimal_ceil_div_value(
                coefficient1 as nat,
                exponent1 as int,
                coefficient2 as nat,
                exponent2 as int,
                target_exponent as int,
            ) as int,
        ),
{
    if coefficient2 == 0 {
        return Err(ErrorCode::Math(MathError::OverflowMathError));
    }
    let power: i64 = exponent1 as i64 - exponent2 as i64 - target_exponent as i64;
    let ghost c1 = coefficient1 as nat;
    let ghost c2 = coefficient2 as nat;
    proof {
        lemma_pow10_limits();
    }
    if power >= 0 {
        let ghost pw = pow10(power as nat);
        proof {
            lemma_ceil_div_bounds(c1 * pw, c2);
        }
        if coefficient1 == 0 {
            assert(c1 * pw == 0) by (nonlinear_arith)
                requires
                    c1 == 0,
            ;
            return Ok(0);
        }
        if power > 38 {
            proof {
                lemma_pow10_monotonic(39, power as nat);
                assert(c1 * pw >= c2 * 0x1_0000_0000_0000_0000) by (nonlinear_arith)
                    requires
                        c1 >= 1,
                        pw >= 0x1_0000_0000_0000_0000_0000_0000_0000_0000,
                        0 < c2 < 0x1_0000_0000_0000_0000,
                ;
                lemma_large_quotient(c1 * pw, c2, 0x1_0000_0000_0000_0000);
            }
            return Err(ErrorCode::Math(MathError::OverflowMathError));
        }
        let scale = match checked_pow10(power as u32) {
            Ok(v) => v,
            Err(e) => {
                return Err(e);
            },
        };
        match (coefficient1 as u128).checked_mul(scale) {
            Some(numerator) => {
                let v = ceil_quotient(numerator, coefficient2 as u128);
                if v > 0xffff_ffff_ffff_ffff {
                    Err(ErrorCode::Math(MathError::OverflowMathError))
                } else {
                    Ok(v as u64)
                }
            },
            None => {
                proof {
                    assert(c1 * pw >= c2 * 0x1_0000_0000_0000_0000) by (nonlinear_arith)
                        requires
                            c1 * pw >= 0x1_0000_0000_0000_0000_0000_0000_0000_0000,
                            0 < c2 < 0x1_0000_0000_0000_0000,
                    ;
                    lemma_large_quotient(c1 * pw, c2, 0x1_0000_0000_0000_0000);
                }
                Err(ErrorCode::Math(MathError::OverflowMathError))
            },
        }
    } else {
        let ghost pw = pow10((-power) as nat);
        proof {
            lemma_pow10_positive((-power) as nat);
            assert(c2 * pw >= pw) by (nonlinear_arith)
                requires
                    c2 >= 1,
                    pw >= 0,
            ;
            lemma_ceil_div_bounds(c1, c2 * pw);
        }
        if coefficient1 == 0 {
            return Ok(0);
        }
        if power < -19 {
            proof {
                lemma_pow10_monotonic(20, (-power) as nat);
            }
            return Ok(1);
        }
        let scale = match checked_pow10((-power) as u32) {
            Ok(v) => v,
            Err(e) => {
                return Err(e);
            },
        };
        proof {
            lemma_pow10_monotonic((-power) as nat, 19);
            assert(c2 * pw <= 0xffff_ffff_ffff_ffff * 10_000_000_000_000_000_000) by (nonlinear_arith)
                requires
                    0 <= c2 <= 0xffff_ffff_ffff_ffff,
                    0 <= pw <= 10_000_000_000_000_000_000,
            ;
        }
        let denominator: u128 = (coefficient2 as u128) * scale;
        let v = ceil_quotient(coefficient1 as u128, denominator);
        Ok(v as u64)
    }
}

/// Multiplies two decimals and delivers the product at `target_exponent`,
/// rounded down. Fails exactly when that product does not fit in 64 bits.
pub fn checked_decimal_mul(
    coefficient1: u64,
    exponent1: i32,
    coefficient2: u64,
    exponent2: i32,
    target_exponent: i32,
) -> (r: Result<u64, ErrorCode>)
    ensures
        r == fit_u64(
            decimal_mul_value(
                coefficient1 as nat,
                exponent1 as int,
                coefficient2 as nat,
                exponent2 as int,
                target_exponent as int,
            ) as int,
        ),
{
    let power: i64 = exponent1 as i64 + exponent2 as i64 - target_exponent as i64;
    proof {
        lemma_product_fits(coefficient1, coefficient2);
        lemma_pow10_limits();
    }
    let product: u128 = (coefficient1 as u128) * (coefficient2 as u128);
    let ghost c1 = coefficient1 as nat;
    let ghost c2 = coefficient2 as nat;
    if power >= 0 {
        let ghost pw = pow10(power as nat);
        if product == 0 {
            assert(c1 * c2 * pw == 0) by (nonlinear_arith)
                requires
                    c1 * c2 == 0,
            ;
            return Ok(0);
        }
        if power > 19 {
            proof {
                lemma_pow10_monotonic(20, power as nat);
                assert(c1 * c2 * pw >= pw) by (nonlinear_arith)
                    requires
                        c1 * c2 >= 1,
                        pw >= 0,
                ;
            }
            return Err(ErrorCode::Math(MathError::OverflowMathError));
        }
        let scale = match checked_pow10(power as u32) {
            Ok(v) => v,
            Err(e) => {
                return Err(e);
            },
        };
        match product.checked_mul(scale) {
            Some(v) => {
                if v > 0xffff_ffff_ffff_ffff {
                    Err(ErrorCode::Math(MathError::OverflowMathError))
                } else {
                    Ok(v as u64)
                }
            },
            None => Err(ErrorCode::Math(MathError::OverflowMathError)),
        }
    } else {
        let ghost pw = pow10((-power) as nat);
        if power < -38 {
            proof {
                lemma_pow10_monotonic(39, (-power) as nat);
                lemma_small_quotient(c1 * c2, pw);
            }
            return Ok(0);
        }
        let scale = match checked_pow10((-power) as u32) {
            Ok(v) => v,
            Err(e) => {
                return Err(e);
            },
        };
        proof {
            lemma_pow10_positive((-power) as nat);
        }
        let v = product / scale;
        if v > 0xffff_ffff_ffff_ffff {
            Err(ErrorCode::Math(MathError::OverflowMathError))
        } else {
            Ok(v as u64)
        }
    }
}

/// Divides one decimal by another and delivers the quotient at
/// `target_exponent`, rounded down. A zero divisor is an overflow; otherwise
/// the call fails exactly when the quotient does not fit in 64 bits.
pub fn checked_decimal_div(
    coefficient1: u64,
    exponent1: i32,
    coefficient2: u64,
    exponent2: i32,
    target_exponent: i32,
) -> (r: Result<u64, ErrorCode>)
    ensures
        coefficient2 == 0 ==> r == Err::<u64, ErrorCode>(overflow()),
        coefficient2 != 0 ==> r == fit_u64(
            decimal_div_value(
                coefficient1 as nat,
                exponent1 as int,
                coefficient2 as nat,
                exponent2 as int,
                target_exponent as int,
            ) as int,
        ),
{
    if coefficient2 == 0 {
        return Err(ErrorCode::Math(MathError::OverflowMathError));
    }
    let power: i64 = exponent1 as i64 - exponent2 as i64 - target_exponent as i64;
    let ghost c1 = coefficient1 as nat;
    let ghost c2 = coefficient2 as nat;
    proof {
        lemma_pow10_limits();
    }
    if power >= 0 {
        let ghost pw = pow10(power as nat);
        if coefficient1 == 0 {
            proof {
                assert(c1 * pw == 0) by (nonlinear_arith)
                    requires
                        c1 == 0,
                ;
                lemma_small_quotient(0, c2);
            }
            return Ok(0);
        }
        if power > 38 {
            proof {
                lemma_pow10_monotonic(39, power as nat);
                assert(c1 * pw >= c2 * 0x1_0000_0000_0000_0000) by (nonlinear_arith)
                    requires
                        c1 >= 1,
                        pw >= 0x1_0000_0000_0000_0000_0000_0000_0000_0000,
                        0 < c2 < 0x1_0000_0000_0000_0000,
                ;
                lemma_large_quotient(c1 * pw, c2, 0x1_0000_0000_0000_0000);
            }
            return Err(ErrorCode::Math(MathError::OverflowMathError));
        }
        let scale = match checked_pow10(power as u32) {
            Ok(v) => v,
            Err(e) => {
                return Err(e);
            },
        };
        match (coefficient1 as u128).checked_mul(scale) {
            Some(numerator) => {
                let v = numerator / (coefficient2 as u128);
                if v > 0xffff_ffff_ffff_ffff {
                    Err(ErrorCode::Math(MathError::OverflowMathError))
                } else {
                    Ok(v as u64)
                }
            },
            None => {
                proof {
                    assert(c1 * pw >= c2 * 0x1_0000_0000_0000_0000) by (nonlinear_arith)
                        requires
                            c1 * pw >= 0x1_0000_0000_0000_0000_0000_0000_0000_0000,
                            0 < c2 < 0x1_0000_0000_0000_0000,
                    ;
                    lemma_large_quotient(c1 * pw, c2, 0x1_0000_0000_0000_0000);
                }
                Err(ErrorCode::Math(MathError::OverflowMathError))
            },
        }
    } else {
        let ghost pw = pow10((-power) as nat);
        if power < -19 {
            proof {
                lemma_pow10_monotonic(20, (-power) as nat);
                assert(c2 * pw >= pw) by (nonlinear_arith)
                    requires
                        c2 >= 1,
                        pw >= 0,
                ;
                lemma_small_quotient(c1, c2 * pw);
            }
            return Ok(0);
        }
        let scale = match checked_pow10((-power) as u32) {
            Ok(v) => v,
            Err(e) => {
                return Err(e);
            },
        };
        proof {
            lemma_pow10_monotonic((-power) as nat, 19);
            lemma_pow10_positive((-power) as nat);
            assert(c2 * pw <= 0xffff_ffff_ffff_ffff * 10_000_000_000_000_000_000) by (nonlinear_arith)
                requires
                    0 <= c2 <= 0xffff_ffff_ffff_ffff,
                    0 <= pw <= 10_000_000_000_000_000_000,
            ;
            assert(c2 * pw >= 1) by (nonlinear_arith)
                requires
                    c2 >= 1,
                    pw >= 1,
            ;
        }
        let denominator: u128 = (coefficient2 as u128) * scale;
        let v = (coefficient1 as u128) / denominator;
        assert(v <= c1) by (nonlinear_arith)
            requires
                v == c1 / (denominator as nat),
                denominator >= 1,
        ;
        Ok(v as u64)
    }
}

/// Rescales a mantissa from one exponent to another, rounding down when the
/// target is coarser. Fails exactly when the result does not fit in 64 bits.
pub fn scale_to_exponent(mantissa: u64, exponent: i32, target_exponent: i32) -> (r: Result<
    u64,
    ErrorCode,
>)
    ensures
        r == fit_u64(scaled_value(mantissa as nat, exponent as int, target_exponent as int) as int),
{
    checked_decimal_mul(mantissa, exponent, 1, 0, target_exponent)
}

/// Brings two decimals to the finer of their exponents. Fails exactly when
/// one of the rescaled mantissas does not fit in 64 bits.
pub fn align_decimals(mantissa1: u64, exponent1: i32, mantissa2: u64, exponent2: i32) -> (r: Result<
    (u64, u64, i32),
    ErrorCode,
>)
    ensures
        r == aligned(mantissa1 as nat, exponent1 as int, mantissa2 as nat, exponent2 as int),
{
    let exponent = if exponent1 <= exponent2 {
        exponent1
    } else {
        exponent2
    };
    let a = scale_to_exponent(mantissa1, exponent1, exponent)?;
    let b = scale_to_exponent(mantissa2, exponent2, exponent)?;
    Ok((a, b, exponent))
}

/// The integer square root of `n`.
pub fn integer_sqrt(n: u64) -> (r: u64)
    ensures
        r == isqrt(n as nat),
        r * r <= n < (r + 1) * (r + 1),
{
    let mut low: u64 = 0;
    let mut high: u64 = 0x1_0000_0000;
    assert(low * low <= n < high * high) by (nonlinear_arith)
        requires
            low == 0,
            high == 0x1_0000_0000,
            n <= 0xffff_ffff_ffff_ffff,
    ;
    while high - low > 1
        invariant
            low < high <= 0x1_0000_0000,
            low * low <= n < high * high,
        decreases high - low,
    {
        let middle = low + (high - low) / 2;
        assert(middle * middle <= 0x1_0000_0000 * 0x1_0000_0000) by (nonlinear_arith)
            requires
                0 <= middle <= 0x1_0000_0000,
        ;
        let square: u128 = (middle as u128) * (middle as u128);
        if square <= n as u128 {
            low = middle;
        } else {
            high = middle;
        }
    }
    proof {
        lemma_isqrt_unique(low as nat, n as nat);
    }
    low
}

} // verus!
