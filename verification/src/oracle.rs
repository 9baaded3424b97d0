//! Oracle price values: a `(price, exponent)` fixed-point pair with exact
//! comparison, conservative min/max selection, rescaling, and conversion
//! between token amounts and USD values.
//!
//! The oracle feed client is an external collaborator: it validates
//! staleness and confidence and hands the engine a finished `OraclePrice`.

use vstd::prelude::*;
use vstd::arithmetic::mul::{lemma_mul_basics, lemma_mul_inequality};
use crate::error::PerpetualsError;
use crate::math;
use crate::math::{pow10, spec_decimal_mul, spec_decimal_div, spec_scale_to_exponent};
use crate::perps::{PRICE_DECIMALS, PRICE_EXPONENT, USD_DECIMALS};

verus! {

/// Which feed a custody's prices come from. `Unset` is only a default
/// initializer.
#[derive(Clone, Copy, Debug, PartialEq, Eq, Structural)]
pub enum OracleType {
    Unset,
    Custom,
    Pyth,
}

impl Default for OracleType {
    fn default() -> (r: Self)
        ensures
            r == OracleType::Unset,
    {
        OracleType::Unset
    }
}

/// How a custody's oracle feed is read; consumed by the external oracle
/// client, carried here as plain configuration data.
#[derive(Clone, Copy, Debug, PartialEq, Eq, Structural)]
pub struct OracleParams {
    pub oracle_account: u64,
    pub oracle_type: OracleType,
    pub max_price_error: u64,
    pub max_price_age_sec: u32,
}

impl Default for OracleParams {
    fn default() -> (r: Self)
        ensures
            r == (OracleParams {
                oracle_account: 0,
                oracle_type: OracleType::Unset,
                max_price_error: 0,
                max_price_age_sec: 0,
            }),
    {
        OracleParams {
            oracle_account: 0,
            oracle_type: OracleType::Unset,
            max_price_error: 0,
            max_price_age_sec: 0,
        }
    }
}

impl OracleParams {
    /// A configured oracle must name an account.
    pub fn validate(&self) -> (r: bool)
        ensures
            r == (self.oracle_type == OracleType::Unset || self.oracle_account != 0),
    {
        self.oracle_type == OracleType::Unset || self.oracle_account != 0
    }
}

/// A fixed-point price: the numeric value is `price * 10^exponent`.
#[derive(Clone, Copy, Debug, PartialEq, Eq, Structural)]
pub struct OraclePrice {
    pub price: u64,
    pub exponent: i32,
}

/// The smaller of two prices by numeric value, the first on a tie.
pub open spec fn spec_min_price(a: OraclePrice, b: OraclePrice) -> OraclePrice {
    if a.spec_lt(b) {
        a
    } else {
        b
    }
}

/// The larger of two prices by numeric value, the second on a tie.
pub open spec fn spec_max_price(a: OraclePrice, b: OraclePrice) -> OraclePrice {
    if b.spec_lt(a) {
        a
    } else {
        b
    }
}

impl OraclePrice {
    /// Exact numeric comparison: both values scaled to the smaller of the
    /// two exponents.
    pub open spec fn spec_lt(self, other: OraclePrice) -> bool {
        if self.exponent <= other.exponent {
            (self.price as int) < other.price * pow10((other.exponent - self.exponent) as nat)
        } else {
            self.price * pow10((self.exponent - other.exponent) as nat) < (other.price as int)
        }
    }

    /// Whether this price is numerically smaller than `other`.
    pub fn lt(&self, other: &OraclePrice) -> (r: bool)
        ensures
            r == self.spec_lt(*other),
    {
        if self.exponent == other.exponent {
            proof {
                math::lemma_pow10_zero();
                lemma_mul_basics(other.price as int);
            }
            self.price < other.price
        } else if self.exponent < other.exponent {
            let d: i64 = other.exponent as i64 - self.exponent as i64;
            if d >= 20 {
                proof {
                    math::lemma_pow10_20_exceeds_u64();
                    math::lemma_pow10_increases(20, d as nat);
                    lemma_mul_basics(pow10(d as nat));
                    if other.price > 0 {
                        lemma_mul_inequality(1, other.price as int, pow10(d as nat));
                    }
                }
                other.price > 0
            } else {
                let pw = math::pow10_u64(d as u32);
                proof {
                    math::lemma_u64_mul_fits_u128(other.price, pw);
                }
                (self.price as u128) < (other.price as u128) * (pw as u128)
            }
        } else {
            let d: i64 = self.exponent as i64 - other.exponent as i64;
            if d >= 20 {
                proof {
                    math::lemma_pow10_20_exceeds_u64();
                    math::lemma_pow10_increases(20, d as nat);
                    lemma_mul_basics(pow10(d as nat));
                    if self.price > 0 {
                        lemma_mul_inequality(1, self.price as int, pow10(d as nat));
                    }
                }
                self.price == 0 && other.price > 0
            } else {
                let pw = math::pow10_u64(d as u32);
                proof {
                    math::lemma_u64_mul_fits_u128(self.price, pw);
                }
                (self.price as u128) * (pw as u128) < (other.price as u128)
            }
        }
    }

    /// Whether this price is numerically greater than `other`.
    pub fn gt(&self, other: &OraclePrice) -> (r: bool)
        ensures
            r == other.spec_lt(*self),
    {
        other.lt(self)
    }

    /// What `get_min_price` returns: the smaller of the two prices, clamped
    /// to $1 for stable custodies. The clamp needs `10^(-exponent)` to fit a
    /// `u64`, so exponents outside `[-19, 0]` fail.
    pub open spec fn spec_get_min_price(self, other: OraclePrice, is_stable: bool) -> Result<
        OraclePrice,
        PerpetualsError,
    > {
        let m = spec_min_price(self, other);
        if !is_stable {
            Ok(m)
        } else if m.exponent > 0 || m.exponent < -19 {
            Err(PerpetualsError::MathOverflow)
        } else {
            let one = OraclePrice { price: pow10((-m.exponent) as nat) as u64, exponent: m.exponent };
            if one.spec_lt(m) {
                Ok(one)
            } else {
                Ok(m)
            }
        }
    }

    /// The smaller of `self` and `other`; for a stable token the result is
    /// additionally clamped down to $1.00, anchoring stablecoin valuations.
    pub fn get_min_price(&self, other: &OraclePrice, is_stable: bool) -> (r: Result<
        OraclePrice,
        PerpetualsError,
    >)
        ensures
            r == self.spec_get_min_price(*other, is_stable),
    {
        let m = if self.lt(other) {
            *self
        } else {
            *other
        };
        if !is_stable {
            return Ok(m);
        }
        if m.exponent > 0 || m.exponent < -19 {
            return Err(PerpetualsError::MathOverflow);
        }
        proof {
            math::lemma_pow10_19_fits_u64();
            math::lemma_pow10_increases((-m.exponent) as nat, 19);
        }
        let one = OraclePrice { price: math::pow10_u64((-(m.exponent as i64)) as u32), exponent: m.exponent };
        if m.gt(&one) {
            Ok(one)
        } else {
            Ok(m)
        }
    }

    /// What `scale_to_exponent` returns, lifted to the price pair.
    pub open spec fn spec_price_scale_to_exponent(self, target_exponent: int) -> Result<
        OraclePrice,
        PerpetualsError,
    > {
        match spec_scale_to_exponent(self.price, self.exponent as int, target_exponent) {
            Ok(p) => Ok(OraclePrice { price: p, exponent: target_exponent as i32 }),
            Err(e) => Err(e),
        }
    }

    /// This price rescaled to `target_exponent`.
    pub fn scale_to_exponent(&self, target_exponent: i32) -> (r: Result<
        OraclePrice,
        PerpetualsError,
    >)
        ensures
            r == self.spec_price_scale_to_exponent(target_exponent as int),
    {
        match math::scale_to_exponent(self.price, self.exponent, target_exponent) {
            Ok(p) => Ok(OraclePrice { price: p, exponent: target_exponent }),
            Err(e) => Err(e),
        }
    }

    /// What `get_asset_amount_usd` returns: the token amount priced at this
    /// price, rescaled to USD decimals, rounded down.
    pub open spec fn spec_asset_amount_usd(self, token_amount: u64, token_decimals: u8) -> Result<
        u64,
        PerpetualsError,
    > {
        if token_amount == 0 || self.price == 0 {
            Ok(0)
        } else {
            spec_decimal_mul(
                token_amount,
                -(token_decimals as int),
                self.price,
                self.exponent as int,
                -(USD_DECIMALS as int),
                false,
            )
        }
    }

    /// USD value of `token_amount` tokens at this price.
    pub fn get_asset_amount_usd(&self, token_amount: u64, token_decimals: u8) -> (r: Result<
        u64,
        PerpetualsError,
    >)
        ensures
            r == self.spec_asset_amount_usd(token_amount, token_decimals),
    {
        if token_amount == 0 || self.price == 0 {
            return Ok(0);
        }
        math::checked_decimal_mul(
            token_amount,
            -(token_decimals as i32),
            self.price,
            self.exponent,
            -(USD_DECIMALS as i32),
        )
    }

    /// What `get_token_amount` returns: the USD value divided by this price,
    /// rescaled to the token's decimals, rounded toward zero.
    pub open spec fn spec_token_amount(self, asset_amount_usd: u64, token_decimals: u8) -> Result<
        u64,
        PerpetualsError,
    > {
        if asset_amount_usd == 0 || self.price == 0 {
            Ok(0)
        } else {
            spec_decimal_div(
                asset_amount_usd,
                -(USD_DECIMALS as int),
                self.price,
                self.exponent as int,
                -(token_decimals as int),
            )
        }
    }

    /// Token amount worth `asset_amount_usd` at this price.
    pub fn get_token_amount(&self, asset_amount_usd: u64, token_decimals: u8) -> (r: Result<
        u64,
        PerpetualsError,
    >)
        ensures
            r == self.spec_token_amount(asset_amount_usd, token_decimals),
    {
        if asset_amount_usd == 0 || self.price == 0 {
            return Ok(0);
        }
        math::checked_decimal_div(
            asset_amount_usd,
            -(USD_DECIMALS as i32),
            self.price,
            self.exponent,
            -(token_decimals as i32),
        )
    }

    /// What `checked_div` returns: the ratio of the two prices at the
    /// canonical price exponent.
    pub open spec fn spec_price_div(self, other: OraclePrice) -> Result<
        OraclePrice,
        PerpetualsError,
    > {
        match spec_decimal_div(
            self.price,
            self.exponent as int,
            other.price,
            other.exponent as int,
            -(PRICE_DECIMALS as int),
        ) {
            Ok(p) => Ok(OraclePrice { price: p, exponent: PRICE_EXPONENT }),
            Err(e) => Err(e),
        }
    }

    /// This price divided by `other`, as a pair price at the canonical
    /// exponent (used for swap quotes).
    pub fn checked_div(&self, other: &OraclePrice) -> (r: Result<OraclePrice, PerpetualsError>)
        ensures
            r == self.spec_price_div(*other),
    {
        match math::checked_decimal_div(
            self.price,
            self.exponent,
            other.price,
            other.exponent,
            -(PRICE_DECIMALS as i32),
        ) {
            Ok(p) => Ok(OraclePrice { price: p, exponent: -(PRICE_DECIMALS as i32) }),
            Err(e) => Err(e),
        }
    }
}

} // verus!
