//! Checked fixed-point arithmetic used throughout the engine.
//!
//! Every primitive fails cleanly with `MathOverflow` on overflow, underflow
//! or a non-representable downcast, and with `DivideByZero` on a zero
//! denominator. The decimal helpers rescale values between powers-of-ten
//! exponents, truncating on the way down and failing on the way up when the
//! result does not fit.

use vstd::prelude::*;
use vstd::arithmetic::power::{
    pow, lemma_pow_adds, lemma_pow_increases, lemma_pow_positive,
};
use vstd::arithmetic::div_mod::{
    lemma_basic_div, lemma_div_is_ordered, lemma_div_is_ordered_by_denominator,
    lemma_fundamental_div_mod, lemma_fundamental_div_mod_converse_div,
};
use vstd::arithmetic::mul::lemma_mul_inequality;
use crate::error::PerpetualsError;

verus! {

/// `10^e`, the scale factor between two decimal exponents `e` apart.
pub open spec fn pow10(e: nat) -> int {
    pow(10, e)
}

/// Division of non-negative `a` by positive `d`, rounded away from zero.
pub open spec fn ceil_div(a: int, d: int) -> int {
    (a + d - 1) / d
}

/// Truncating (round-toward-zero) signed division, as Rust's `/` computes it.
pub open spec fn div_trunc(a: int, d: int) -> int {
    if a == 0 {
        0
    } else if a > 0 && d > 0 {
        a / d
    } else if a < 0 && d < 0 {
        (a * -1) / (d * -1)
    } else if a < 0 {
        ((a * -1) / d) * -1
    } else {
        (a / (d * -1)) * -1
    }
}

/// Addition modulo `2^64`, the semantics of the stat accumulators.
pub open spec fn wrap_add_u64(a: u64, b: u64) -> u64 {
    if a + b > u64::MAX {
        (a + b - 0x1_0000_0000_0000_0000) as u64
    } else {
        (a + b) as u64
    }
}

pub proof fn lemma_pow10_pos(e: nat)
    ensures
        pow10(e) >= 1,
{
    lemma_pow_positive(10, e);
}

pub proof fn lemma_pow10_zero()
    ensures
        pow10(0) == 1,
{
    vstd::arithmetic::power::lemma_pow0(10);
}

pub proof fn lemma_pow10_step(e: nat)
    ensures
        pow10(e + 1) == 10 * pow10(e),
{
    reveal(pow);
}

pub proof fn lemma_pow10_increases(e1: nat, e2: nat)
    requires
        e1 <= e2,
    ensures
        pow10(e1) <= pow10(e2),
{
    lemma_pow_increases(10, e1, e2);
}

pub proof fn lemma_pow10_adds(e1: nat, e2: nat)
    ensures
        pow10(e1 + e2) == pow10(e1) * pow10(e2),
{
    lemma_pow_adds(10, e1, e2);
}

/// The values of the powers of ten at the borders of the 64- and 128-bit
/// ranges.
proof fn lemma_pow10_values()
    ensures
        pow10(19) == 10_000_000_000_000_000_000,
        pow10(20) == 100_000_000_000_000_000_000,
        pow10(38) == 100_000_000_000_000_000_000_000_000_000_000_000_000,
        pow10(39) == 1_000_000_000_000_000_000_000_000_000_000_000_000_000,
{
    lemma_pow10_adds(19, 19);
    lemma_pow10_adds(19, 1);
    lemma_pow10_adds(38, 1);
    assert(pow10(19) == 10_000_000_000_000_000_000) by {
        reveal_with_fuel(pow, 20);
    }
    assert(pow10(1) == 10) by {
        reveal_with_fuel(pow, 2);
    }
    assert(10_000_000_000_000_000_000 * 10_000_000_000_000_000_000
        == 100_000_000_000_000_000_000_000_000_000_000_000_000) by (nonlinear_arith);
    assert(10_000_000_000_000_000_000 * 10 == 100_000_000_000_000_000_000) by (nonlinear_arith);
    assert(100_000_000_000_000_000_000_000_000_000_000_000_000 * 10
        == 1_000_000_000_000_000_000_000_000_000_000_000_000_000) by (nonlinear_arith);
}

pub proof fn lemma_pow10_38_fits_u128()
    ensures
        pow10(38) <= u128::MAX,
{
    lemma_pow10_values();
}

pub proof fn lemma_pow10_39_exceeds_u128()
    ensures
        pow10(39) > u128::MAX,
{
    lemma_pow10_values();
}

pub proof fn lemma_pow10_20_exceeds_u64()
    ensures
        pow10(20) > u64::MAX,
{
    lemma_pow10_values();
}

pub proof fn lemma_pow10_19_fits_u64()
    ensures
        pow10(19) <= u64::MAX,
{
    lemma_pow10_values();
}

/// One past `u128::MAX`, divided by `u64::MAX`, still exceeds `u64::MAX`:
/// a 128-bit overflow can never hide a quotient that fits in 64 bits.
proof fn lemma_u128_overflow_div_u64()
    ensures
        ((u128::MAX as int) + 1) / (u64::MAX as int) > u64::MAX,
{
    assert(((u64::MAX as int) + 2) * (u64::MAX as int) + 1 == (u128::MAX as int)
        + 1) by (nonlinear_arith);
    lemma_fundamental_div_mod_converse_div(
        (u128::MAX as int) + 1,
        u64::MAX as int,
        (u64::MAX as int) + 2,
        1,
    );
}

/// The product of two `u64` values always fits in a `u128`.
pub proof fn lemma_u64_mul_fits_u128(a: u64, b: u64)
    ensures
        a * b <= u128::MAX,
{
    lemma_mul_inequality(a as int, u64::MAX as int, b as int);
    lemma_mul_inequality(b as int, u64::MAX as int, u64::MAX as int);
    assert((u64::MAX as int) * (u64::MAX as int) < u128::MAX) by (nonlinear_arith);
}

/// `10^e` as a `u128`, for exponents small enough to fit.
pub fn pow10_u128(e: u32) -> (r: u128)
    requires
        e <= 38,
    ensures
        r == pow10(e as nat),
{
    let mut acc: u128 = 1;
    let mut i: u32 = 0;
    proof {
        lemma_pow10_zero();
    }
    while i < e
        invariant
            i <= e <= 38,
            acc == pow10(i as nat),
        decreases e - i,
    {
        proof {
            lemma_pow10_step(i as nat);
            lemma_pow10_pos(i as nat);
            lemma_pow10_increases((i + 1) as nat, 38);
            lemma_pow10_38_fits_u128();
        }
        acc = acc * 10;
        i = i + 1;
    }
    acc
}

/// `10^e` as a `u64`, for exponents small enough to fit.
pub fn pow10_u64(e: u32) -> (r: u64)
    requires
        e <= 19,
    ensures
        r == pow10(e as nat),
{
    let mut acc: u64 = 1;
    let mut i: u32 = 0;
    proof {
        lemma_pow10_zero();
    }
    while i < e
        invariant
            i <= e <= 19,
            acc == pow10(i as nat),
        decreases e - i,
    {
        proof {
            lemma_pow10_step(i as nat);
            lemma_pow10_pos(i as nat);
            lemma_pow10_increases((i + 1) as nat, 19);
            lemma_pow10_19_fits_u64();
        }
        acc = acc * 10;
        i = i + 1;
    }
    acc
}

pub fn checked_add(a: u64, b: u64) -> (r: Result<u64, PerpetualsError>)
    ensures
        r == (if a + b <= u64::MAX {
            Ok::<u64, PerpetualsError>((a + b) as u64)
        } else {
            Err::<u64, PerpetualsError>(PerpetualsError::MathOverflow)
        }),
{
    match a.checked_add(b) {
        Some(v) => Ok(v),
        None => Err(PerpetualsError::MathOverflow),
    }
}

pub fn checked_sub(a: u64, b: u64) -> (r: Result<u64, PerpetualsError>)
    ensures
        r == (if a >= b {
            Ok::<u64, PerpetualsError>((a - b) as u64)
        } else {
            Err::<u64, PerpetualsError>(PerpetualsError::MathOverflow)
        }),
{
    match a.checked_sub(b) {
        Some(v) => Ok(v),
        None => Err(PerpetualsError::MathOverflow),
    }
}

pub fn checked_add_u128(a: u128, b: u128) -> (r: Result<u128, PerpetualsError>)
    ensures
        r == (if a + b <= u128::MAX {
            Ok::<u128, PerpetualsError>((a + b) as u128)
        } else {
            Err::<u128, PerpetualsError>(PerpetualsError::MathOverflow)
        }),
{
    match a.checked_add(b) {
        Some(v) => Ok(v),
        None => Err(PerpetualsError::MathOverflow),
    }
}

pub fn checked_sub_u128(a: u128, b: u128) -> (r: Result<u128, PerpetualsError>)
    ensures
        r == (if a >= b {
            Ok::<u128, PerpetualsError>((a - b) as u128)
        } else {
            Err::<u128, PerpetualsError>(PerpetualsError::MathOverflow)
        }),
{
    match a.checked_sub(b) {
        Some(v) => Ok(v),
        None => Err(PerpetualsError::MathOverflow),
    }
}

pub fn checked_mul_u128(a: u128, b: u128) -> (r: Result<u128, PerpetualsError>)
    ensures
        r == (if a * b <= u128::MAX {
            Ok::<u128, PerpetualsError>((a * b) as u128)
        } else {
            Err::<u128, PerpetualsError>(PerpetualsError::MathOverflow)
        }),
{
    match a.checked_mul(b) {
        Some(v) => Ok(v),
        None => Err(PerpetualsError::MathOverflow),
    }
}

pub fn checked_div_u128(a: u128, b: u128) -> (r: Result<u128, PerpetualsError>)
    ensures
        r == (if b == 0 {
            Err::<u128, PerpetualsError>(PerpetualsError::DivideByZero)
        } else {
            Ok::<u128, PerpetualsError>((a as int / b as int) as u128)
        }),
        b != 0 ==> 0 <= a as int / b as int <= a,
{
    if b == 0 {
        Err(PerpetualsError::DivideByZero)
    } else {
        proof {
            lemma_div_is_ordered_by_denominator(a as int, 1, b as int);
        }
        Ok(a / b)
    }
}

pub fn checked_ceil_div_u128(a: u128, b: u128) -> (r: Result<u128, PerpetualsError>)
    ensures
        r == (if b == 0 {
            Err::<u128, PerpetualsError>(PerpetualsError::DivideByZero)
        } else {
            Ok::<u128, PerpetualsError>(ceil_div(a as int, b as int) as u128)
        }),
        b != 0 ==> 0 <= ceil_div(a as int, b as int) <= a,
{
    if b == 0 {
        return Err(PerpetualsError::DivideByZero);
    }
    let q = a / b;
    let rem = a % b;
    proof {
        lemma_fundamental_div_mod(a as int, b as int);
        lemma_div_is_ordered_by_denominator(a as int, 1, b as int);
    }
    if rem == 0 {
        proof {
            lemma_fundamental_div_mod_converse_div(
                a as int + b as int - 1,
                b as int,
                q as int,
                b as int - 1,
            );
        }
        Ok(q)
    } else {
        proof {
            // `b == 1` would force a zero remainder, so `b >= 2` here and the
            // quotient leaves room for the rounding increment.
            lemma_div_is_ordered_by_denominator(a as int, 2, b as int);
            lemma_fundamental_div_mod(a as int, 2);
            assert((q as int + 1) * (b as int) == q as int * b as int + b as int)
                by (nonlinear_arith);
            lemma_fundamental_div_mod_converse_div(
                a as int + b as int - 1,
                b as int,
                q as int + 1,
                rem as int - 1,
            );
        }
        Ok(q + 1)
    }
}

pub fn checked_as_u64(a: u128) -> (r: Result<u64, PerpetualsError>)
    ensures
        r == (if a <= u64::MAX {
            Ok::<u64, PerpetualsError>(a as u64)
        } else {
            Err::<u64, PerpetualsError>(PerpetualsError::MathOverflow)
        }),
{
    if a <= u64::MAX as u128 {
        Ok(a as u64)
    } else {
        Err(PerpetualsError::MathOverflow)
    }
}

pub fn checked_add_i64(a: i64, b: i64) -> (r: Result<i64, PerpetualsError>)
    ensures
        r == (if i64::MIN <= a + b <= i64::MAX {
            Ok::<i64, PerpetualsError>((a + b) as i64)
        } else {
            Err::<i64, PerpetualsError>(PerpetualsError::MathOverflow)
        }),
{
    match a.checked_add(b) {
        Some(v) => Ok(v),
        None => Err(PerpetualsError::MathOverflow),
    }
}

pub fn checked_sub_i64(a: i64, b: i64) -> (r: Result<i64, PerpetualsError>)
    ensures
        r == (if i64::MIN <= a - b <= i64::MAX {
            Ok::<i64, PerpetualsError>((a - b) as i64)
        } else {
            Err::<i64, PerpetualsError>(PerpetualsError::MathOverflow)
        }),
{
    match a.checked_sub(b) {
        Some(v) => Ok(v),
        None => Err(PerpetualsError::MathOverflow),
    }
}

pub fn checked_mul_i64(a: i64, b: i64) -> (r: Result<i64, PerpetualsError>)
    ensures
        r == (if i64::MIN <= a * b <= i64::MAX {
            Ok::<i64, PerpetualsError>((a * b) as i64)
        } else {
            Err::<i64, PerpetualsError>(PerpetualsError::MathOverflow)
        }),
{
    match a.checked_mul(b) {
        Some(v) => Ok(v),
        None => Err(PerpetualsError::MathOverflow),
    }
}

pub fn checked_div_i64(a: i64, b: i64) -> (r: Result<i64, PerpetualsError>)
    ensures
        r == (if b == 0 {
            Err::<i64, PerpetualsError>(PerpetualsError::DivideByZero)
        } else if i64::MIN <= div_trunc(a as int, b as int) <= i64::MAX {
            Ok::<i64, PerpetualsError>(div_trunc(a as int, b as int) as i64)
        } else {
            Err::<i64, PerpetualsError>(PerpetualsError::MathOverflow)
        }),
{
    if b == 0 {
        return Err(PerpetualsError::DivideByZero);
    }
    match a.checked_div(b) {
        Some(v) => Ok(v),
        None => Err(PerpetualsError::MathOverflow),
    }
}

pub fn checked_i64_to_u64(a: i64) -> (r: Result<u64, PerpetualsError>)
    ensures
        r == (if a >= 0 {
            Ok::<u64, PerpetualsError>(a as u64)
        } else {
            Err::<u64, PerpetualsError>(PerpetualsError::MathOverflow)
        }),
{
    if a >= 0 {
        Ok(a as u64)
    } else {
        Err(PerpetualsError::MathOverflow)
    }
}

/// What `scale_to_exponent` returns: multiply when lowering the exponent,
/// divide (truncating) when raising it, failing when a scale factor or the
/// result does not fit in the 64-bit word.
pub open spec fn spec_scale_to_exponent(value: u64, exponent: int, target_exponent: int) -> Result<
    u64,
    PerpetualsError,
> {
    if target_exponent == exponent {
        Ok(value)
    } else if target_exponent > exponent {
        let d = target_exponent - exponent;
        if d >= 20 {
            Err(PerpetualsError::MathOverflow)
        } else {
            Ok((value as int / pow10(d as nat)) as u64)
        }
    } else {
        let d = exponent - target_exponent;
        if d >= 20 {
            Err(PerpetualsError::MathOverflow)
        } else if value * pow10(d as nat) > u64::MAX {
            Err(PerpetualsError::MathOverflow)
        } else {
            Ok((value * pow10(d as nat)) as u64)
        }
    }
}

/// Rescales `value` from decimal exponent `exponent` to `target_exponent`.
pub fn scale_to_exponent(value: u64, exponent: i32, target_exponent: i32) -> (r: Result<
    u64,
    PerpetualsError,
>)
    ensures
        r == spec_scale_to_exponent(value, exponent as int, target_exponent as int),
{
    if target_exponent == exponent {
        return Ok(value);
    }
    if target_exponent > exponent {
        let d: i64 = target_exponent as i64 - exponent as i64;
        if d >= 20 {
            return Err(PerpetualsError::MathOverflow);
        }
        let pw = pow10_u64(d as u32);
        proof {
            lemma_pow10_pos(d as nat);
            lemma_div_is_ordered_by_denominator(value as int, 1, pow10(d as nat));
        }
        Ok(value / pw)
    } else {
        let d: i64 = exponent as i64 - target_exponent as i64;
        if d >= 20 {
            return Err(PerpetualsError::MathOverflow);
        }
        let pw = pow10_u64(d as u32);
        match value.checked_mul(pw) {
            Some(v) => Ok(v),
            None => Err(PerpetualsError::MathOverflow),
        }
    }
}

/// What the decimal product is before the 64-bit range check: the exact
/// product of the two coefficients, rescaled to the target exponent, rounded
/// down, or up when `round_up` is set.
pub open spec fn decimal_mul_value(c1: u64, e1: int, c2: u64, e2: int, te: int, round_up: bool) -> int {
    let p = e1 + e2 - te;
    if p >= 0 {
        c1 * c2 * pow10(p as nat)
    } else if round_up {
        ceil_div(c1 * c2, pow10((-p) as nat))
    } else {
        (c1 * c2) / pow10((-p) as nat)
    }
}

/// What `checked_decimal_mul` / `checked_decimal_ceil_mul` return.
pub open spec fn spec_decimal_mul(c1: u64, e1: int, c2: u64, e2: int, te: int, round_up: bool) -> Result<
    u64,
    PerpetualsError,
> {
    if c1 == 0 || c2 == 0 {
        Ok(0)
    } else {
        let v = decimal_mul_value(c1, e1, c2, e2, te, round_up);
        if v > u64::MAX {
            Err(PerpetualsError::MathOverflow)
        } else {
            Ok(v as u64)
        }
    }
}

fn decimal_mul_impl(c1: u64, e1: i32, c2: u64, e2: i32, te: i32, round_up: bool) -> (r: Result<
    u64,
    PerpetualsError,
>)
    ensures
        r == spec_decimal_mul(c1, e1 as int, c2, e2 as int, te as int, round_up),
{
    if c1 == 0 || c2 == 0 {
        return Ok(0);
    }
    proof {
        lemma_u64_mul_fits_u128(c1, c2);
        assert(c1 * c2 >= 1 * 1) by (nonlinear_arith)
            requires
                c1 >= 1,
                c2 >= 1,
        ;
    }
    let prod: u128 = (c1 as u128) * (c2 as u128);
    let p: i64 = e1 as i64 + e2 as i64 - te as i64;
    if p >= 0 {
        if p >= 39 {
            proof {
                lemma_pow10_39_exceeds_u128();
                lemma_pow10_increases(39, p as nat);
                lemma_mul_inequality(1, prod as int, pow10(p as nat));
            }
            return Err(PerpetualsError::MathOverflow);
        }
        let pw = pow10_u128(p as u32);
        match prod.checked_mul(pw) {
            Some(v) => {
                if v <= u64::MAX as u128 {
                    Ok(v as u64)
                } else {
                    Err(PerpetualsError::MathOverflow)
                }
            },
            None => Err(PerpetualsError::MathOverflow),
        }
    } else {
        let q: i64 = -p;
        if q >= 39 {
            proof {
                lemma_pow10_39_exceeds_u128();
                lemma_pow10_increases(39, q as nat);
                lemma_basic_div(prod as int, pow10(q as nat));
                lemma_fundamental_div_mod_converse_div(
                    prod as int + pow10(q as nat) - 1,
                    pow10(q as nat),
                    1,
                    prod as int - 1,
                );
            }
            if round_up {
                Ok(1)
            } else {
                Ok(0)
            }
        } else {
            let pw = pow10_u128(q as u32);
            proof {
                lemma_pow10_pos(q as nat);
            }
            if round_up {
                let v = match checked_ceil_div_u128(prod, pw) {
                    Ok(v) => v,
                    Err(e) => {
                        return Err(e);
                    },
                };
                if v <= u64::MAX as u128 {
                    Ok(v as u64)
                } else {
                    Err(PerpetualsError::MathOverflow)
                }
            } else {
                let v = prod / pw;
                if v <= u64::MAX as u128 {
                    Ok(v as u64)
                } else {
                    Err(PerpetualsError::MathOverflow)
                }
            }
        }
    }
}

/// Product of two fixed-point values, rescaled to `target_exponent`,
/// rounded toward zero.
pub fn checked_decimal_mul(
    coefficient1: u64,
    exponent1: i32,
    coefficient2: u64,
    exponent2: i32,
    target_exponent: i32,
) -> (r: Result<u64, PerpetualsError>)
    ensures
        r == spec_decimal_mul(
            coefficient1,
            exponent1 as int,
            coefficient2,
            exponent2 as int,
            target_exponent as int,
            false,
        ),
{
    decimal_mul_impl(coefficient1, exponent1, coefficient2, exponent2, target_exponent, false)
}

/// Product of two fixed-point values, rescaled to `target_exponent`,
/// rounded away from zero (used for fees so the pool never under-charges).
pub fn checked_decimal_ceil_mul(
    coefficient1: u64,
    exponent1: i32,
    coefficient2: u64,
    exponent2: i32,
    target_exponent: i32,
) -> (r: Result<u64, PerpetualsError>)
    ensures
        r == spec_decimal_mul(
            coefficient1,
            exponent1 as int,
            coefficient2,
            exponent2 as int,
            target_exponent as int,
            true,
        ),
{
    decimal_mul_impl(coefficient1, exponent1, coefficient2, exponent2, target_exponent, true)
}

/// What the decimal quotient is before the 64-bit range check: the exact
/// ratio of the two coefficients, rescaled to the target exponent, rounded
/// toward zero.
pub open spec fn decimal_div_value(c1: u64, e1: int, c2: u64, e2: int, te: int) -> int {
    let p = e1 - e2 - te;
    if p >= 0 {
        (c1 * pow10(p as nat)) / (c2 as int)
    } else {
        (c1 as int) / (c2 * pow10((-p) as nat))
    }
}

/// What `checked_decimal_div` returns.
pub open spec fn spec_decimal_div(c1: u64, e1: int, c2: u64, e2: int, te: int) -> Result<
    u64,
    PerpetualsError,
> {
    if c2 == 0 {
        Err(PerpetualsError::DivideByZero)
    } else if c1 == 0 {
        Ok(0)
    } else {
        let v = decimal_div_value(c1, e1, c2, e2, te);
        if v > u64::MAX {
            Err(PerpetualsError::MathOverflow)
        } else {
            Ok(v as u64)
        }
    }
}

/// Ratio of two fixed-point values, rescaled to `target_exponent`,
/// rounded toward zero.
pub fn checked_decimal_div(
    coefficient1: u64,
    exponent1: i32,
    coefficient2: u64,
    exponent2: i32,
    target_exponent: i32,
) -> (r: Result<u64, PerpetualsError>)
    ensures
        r == spec_decimal_div(
            coefficient1,
            exponent1 as int,
            coefficient2,
            exponent2 as int,
            target_exponent as int,
        ),
{
    let c1 = coefficient1;
    let c2 = coefficient2;
    if c2 == 0 {
        return Err(PerpetualsError::DivideByZero);
    }
    if c1 == 0 {
        return Ok(0);
    }
    let p: i64 = exponent1 as i64 - exponent2 as i64 - target_exponent as i64;
    if p >= 0 {
        if p >= 39 {
            proof {
                lemma_pow10_39_exceeds_u128();
                lemma_pow10_increases(39, p as nat);
                lemma_mul_inequality(1, c1 as int, pow10(p as nat));
                lemma_div_is_ordered(pow10(p as nat), c1 * pow10(p as nat), c2 as int);
                lemma_div_is_ordered_by_denominator(pow10(p as nat), c2 as int, u64::MAX as int);
                lemma_div_is_ordered((u128::MAX as int) + 1, pow10(p as nat), u64::MAX as int);
                lemma_u128_overflow_div_u64();
            }
            return Err(PerpetualsError::MathOverflow);
        }
        let pw = pow10_u128(p as u32);
        proof {
            lemma_pow10_pos(p as nat);
        }
        match (c1 as u128).checked_mul(pw) {
            Some(num) => {
                let v = num / (c2 as u128);
                if v <= u64::MAX as u128 {
                    Ok(v as u64)
                } else {
                    Err(PerpetualsError::MathOverflow)
                }
            },
            None => {
                proof {
                    lemma_div_is_ordered((u128::MAX as int) + 1, c1 * pow10(p as nat), c2 as int);
                    lemma_div_is_ordered_by_denominator(
                        (u128::MAX as int) + 1,
                        c2 as int,
                        u64::MAX as int,
                    );
                    lemma_u128_overflow_div_u64();
                }
                Err(PerpetualsError::MathOverflow)
            },
        }
    } else {
        let q: i64 = -p;
        if q >= 39 {
            proof {
                lemma_pow10_39_exceeds_u128();
                lemma_pow10_increases(39, q as nat);
                lemma_mul_inequality(1, c2 as int, pow10(q as nat));
                lemma_basic_div(c1 as int, c2 * pow10(q as nat));
            }
            return Ok(0);
        }
        let pw = pow10_u128(q as u32);
        proof {
            lemma_pow10_pos(q as nat);
        }
        match (c2 as u128).checked_mul(pw) {
            Some(den) => {
                proof {
                    lemma_mul_inequality(1, c2 as int, pow10(q as nat));
                }
                let v = (c1 as u128) / den;
                proof {
                    lemma_div_is_ordered_by_denominator(c1 as int, 1, den as int);
                }
                Ok(v as u64)
            },
            None => {
                proof {
                    lemma_basic_div(c1 as int, c2 * pow10(q as nat));
                }
                Ok(0)
            },
        }
    }
}

} // verus!
