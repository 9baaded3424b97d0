//! The market: a set of custodies with target weight ratios, plus pricing,
//! fees, P&L, leverage checks and pool-wide valuation.
//!
//! All returned prices are scaled to the canonical price exponent; all
//! returned amounts are scaled to the corresponding custody's decimals.

use vstd::prelude::*;
use crate::custody::{Custody, FeesMode};
use crate::error::PerpetualsError;
use crate::math;
use crate::math::{ceil_div, div_trunc};
use crate::oracle::{spec_max_price, spec_min_price, OraclePrice};
use crate::perps::{BPS_POWER, PRICE_EXPONENT, RATE_POWER};
use crate::position::{Position, Side};

verus! {

/// Which price feeds a pool-wide valuation uses.
#[derive(Clone, Copy, Debug, PartialEq, Eq, Structural)]
pub enum AumCalcMode {
    Min,
    Max,
    Last,
    EMA,
}

/// Target share of one custody in the pool's value, with its allowed band,
/// in basis points.
#[derive(Clone, Copy, Debug, PartialEq, Eq, Structural)]
pub struct TokenRatios {
    pub target: u64,
    pub min: u64,
    pub max: u64,
}

impl TokenRatios {
    /// The band is ordered and stays within 100%.
    pub open spec fn is_valid(self) -> bool {
        &&& self.target <= BPS_POWER
        &&& self.min <= BPS_POWER
        &&& self.max <= BPS_POWER
        &&& self.min <= self.target
        &&& self.target <= self.max
    }

    pub fn validate(&self) -> (r: bool)
        ensures
            r == self.is_valid(),
    {
        self.target <= BPS_POWER && self.min <= BPS_POWER && self.max <= BPS_POWER && self.min
            <= self.target && self.target <= self.max
    }
}

/// Sum of the target ratios of the first `n` entries.
pub open spec fn sum_targets(ratios: Seq<TokenRatios>, n: int) -> int
    decreases n,
{
    if n <= 0 {
        0
    } else {
        sum_targets(ratios, n - 1) + ratios[n - 1].target
    }
}

/// A market: parallel lists of custody identifiers and their target ratios,
/// a cached USD valuation, and the host-assigned addressing data. `key` is
/// the record's own account identifier.
#[derive(Clone, Debug)]
pub struct Pool {
    pub key: u64,
    /// The pool's name, the seed of its address, as bytes.
    pub name: Vec<u8>,
    pub custodies: Vec<u64>,
    pub ratios: Vec<TokenRatios>,
    /// Cached assets under management, refreshed by liquidity operations.
    pub aum_usd: u128,

    pub bump: u8,
    pub lp_token_bump: u8,
    pub inception_time: i64,
}

impl Pool {
    /// Ratios are valid and sum to 100%, custodies are distinct, the name is
    /// short and non-empty, and the two lists run in parallel.
    pub open spec fn is_valid(self) -> bool {
        &&& forall|i: int| 0 <= i < self.ratios@.len() ==> self.ratios@[i].is_valid()
        &&& self.ratios@.len() > 0 ==> sum_targets(self.ratios@, self.ratios@.len() as int)
            == BPS_POWER
        &&& forall|i: int, j: int|
            0 <= i < j < self.custodies@.len() ==> self.custodies@[i] != self.custodies@[j]
        &&& self.name@.len() > 0
        &&& self.name@.len() <= 64
        &&& self.custodies@.len() == self.ratios@.len()
    }

    pub fn validate(&self) -> (r: bool)
        ensures
            r == self.is_valid(),
    {
        let n = self.ratios.len();
        let mut i: usize = 0;
        while i < n
            invariant
                i <= n,
                n == self.ratios@.len(),
                forall|k: int| 0 <= k < i ==> self.ratios@[k].is_valid(),
            decreases n - i,
        {
            if !self.ratios[i].validate() {
                return false;
            }
            i = i + 1;
        }
        if n > 0 {
            let mut sum: u128 = 0;
            let mut k: usize = 0;
            while k < n
                invariant
                    k <= n,
                    n == self.ratios@.len(),
                    forall|j: int| 0 <= j < n ==> self.ratios@[j].is_valid(),
                    sum == sum_targets(self.ratios@, k as int),
                    sum <= k * (BPS_POWER as int),
                decreases n - k,
            {
                proof {
                    vstd::arithmetic::mul::lemma_mul_inequality(
                        k as int,
                        n as int,
                        BPS_POWER as int,
                    );
                    vstd::arithmetic::mul::lemma_mul_upper_bound(
                        n as int,
                        usize::MAX as int,
                        BPS_POWER as int,
                        BPS_POWER as int,
                    );
                    assert((usize::MAX as int) * (BPS_POWER as int) < u128::MAX)
                        by (nonlinear_arith);
                    assert((k + 1) * (BPS_POWER as int) == k * (BPS_POWER as int) + BPS_POWER)
                        by (nonlinear_arith);
                }
                sum = sum + self.ratios[k].target as u128;
                k = k + 1;
            }
            if sum != BPS_POWER as u128 {
                return false;
            }
        }
        let m = self.custodies.len();
        let mut i2: usize = 0;
        while i2 < m
            invariant
                i2 <= m,
                m == self.custodies@.len(),
                forall|a: int, b: int| 0 <= a < b < i2 ==> self.custodies@[a] != self.custodies@[b],
            decreases m - i2,
        {
            let mut j: usize = 0;
            while j < i2
                invariant
                    j <= i2 < m,
                    m == self.custodies@.len(),
                    forall|a: int, b: int|
                        0 <= a < b < i2 ==> self.custodies@[a] != self.custodies@[b],
                    forall|a: int| 0 <= a < j ==> self.custodies@[a] != self.custodies@[i2 as int],
                decreases i2 - j,
            {
                if self.custodies[j] == self.custodies[i2] {
                    return false;
                }
                j = j + 1;
            }
            i2 = i2 + 1;
        }
        self.name.len() > 0 && self.name.len() <= 64 && self.custodies.len() == self.ratios.len()
    }

    /// Index of the custody identified by `custody_key` in this pool's list:
    /// the position used to look up its target ratio.
    pub fn get_token_id(&self, custody_key: u64) -> (r: Result<usize, PerpetualsError>)
        ensures
            match r {
                Ok(i) => i < self.custodies@.len() && self.custodies@[i as int] == custody_key
                    && forall|j: int| 0 <= j < i ==> self.custodies@[j] != custody_key,
                Err(e) => e == PerpetualsError::UnsupportedToken && forall|j: int|
                    0 <= j < self.custodies@.len() ==> self.custodies@[j] != custody_key,
            },
    {
        let n = self.custodies.len();
        let mut i: usize = 0;
        while i < n
            invariant
                i <= n,
                n == self.custodies@.len(),
                forall|j: int| 0 <= j < i ==> self.custodies@[j] != custody_key,
            decreases n - i,
        {
            if self.custodies[i] == custody_key {
                return Ok(i);
            }
            i = i + 1;
        }
        Err(PerpetualsError::UnsupportedToken)
    }
}

/// What the directional quote is. A long pays the larger of spot and EMA
/// plus the spread (spread rounded up); a short receives the smaller of the
/// two minus the spread, floored at zero.
pub open spec fn spec_get_price(
    token_price: OraclePrice,
    token_ema_price: OraclePrice,
    side: Side,
    spread: u64,
) -> Result<OraclePrice, PerpetualsError> {
    if side == Side::Long {
        let max_price = spec_max_price(token_price, token_ema_price);
        match math::spec_decimal_mul(
            max_price.price,
            max_price.exponent as int,
            spread,
            -(crate::perps::BPS_DECIMALS as int),
            max_price.exponent as int,
            true,
        ) {
            Err(e) => Err(e),
            Ok(spread_amount) => {
                if max_price.price + spread_amount > u64::MAX {
                    Err(PerpetualsError::MathOverflow)
                } else {
                    Ok(
                        OraclePrice {
                            price: (max_price.price + spread_amount) as u64,
                            exponent: max_price.exponent,
                        },
                    )
                }
            },
        }
    } else {
        let min_price = spec_min_price(token_price, token_ema_price);
        match math::spec_decimal_mul(
            min_price.price,
            min_price.exponent as int,
            spread,
            -(crate::perps::BPS_DECIMALS as int),
            min_price.exponent as int,
            false,
        ) {
            Err(e) => Err(e),
            Ok(spread_amount) => {
                let price: u64 = if spread_amount < min_price.price {
                    (min_price.price - spread_amount) as u64
                } else {
                    0
                };
                Ok(OraclePrice { price, exponent: min_price.exponent })
            },
        }
    }
}

/// What `get_entry_price` returns: the directional quote with the side's own
/// spread, rescaled to price decimals, rejected if it rounds to zero.
pub open spec fn spec_get_entry_price(
    token_price: OraclePrice,
    token_ema_price: OraclePrice,
    side: Side,
    custody: Custody,
) -> Result<u64, PerpetualsError> {
    let spread = if side == Side::Long {
        custody.pricing.trade_spread_long
    } else {
        custody.pricing.trade_spread_short
    };
    match spec_get_price(token_price, token_ema_price, side, spread) {
        Err(e) => Err(e),
        Ok(p) => {
            if p.price == 0 {
                Err(PerpetualsError::MaxPriceSlippage)
            } else {
                match p.spec_price_scale_to_exponent(PRICE_EXPONENT as int) {
                    Err(e) => Err(e),
                    Ok(sp) => Ok(sp.price),
                }
            }
        },
    }
}

/// What `get_exit_price` returns: the opposite side's quote with the
/// opposite spread (closing a long sells at the bid; closing a short buys
/// at the ask), rescaled to price decimals.
pub open spec fn spec_get_exit_price(
    token_price: OraclePrice,
    token_ema_price: OraclePrice,
    side: Side,
    custody: Custody,
) -> Result<u64, PerpetualsError> {
    let quote_side = if side == Side::Long {
        Side::Short
    } else {
        Side::Long
    };
    let spread = if side == Side::Long {
        custody.pricing.trade_spread_short
    } else {
        custody.pricing.trade_spread_long
    };
    match spec_get_price(token_price, token_ema_price, quote_side, spread) {
        Err(e) => Err(e),
        Ok(p) => match p.spec_price_scale_to_exponent(PRICE_EXPONENT as int) {
            Err(e) => Err(e),
            Ok(sp) => Ok(sp.price),
        },
    }
}

/// What `get_fee_amount` returns: `fee` basis points of `amount`, rounded
/// up so the pool never under-charges.
pub open spec fn spec_get_fee_amount(fee: u64, amount: u64) -> Result<u64, PerpetualsError> {
    if fee == 0 || amount == 0 {
        Ok(0)
    } else {
        let v = ceil_div(amount * fee, BPS_POWER as int);
        if v > u64::MAX {
            Err(PerpetualsError::MathOverflow)
        } else {
            Ok(v as u64)
        }
    }
}

impl Pool {
    fn get_price(
        &self,
        token_price: &OraclePrice,
        token_ema_price: &OraclePrice,
        side: Side,
        spread: u64,
    ) -> (r: Result<OraclePrice, PerpetualsError>)
        ensures
            r == spec_get_price(*token_price, *token_ema_price, side, spread),
    {
        if side == Side::Long {
            let max_price = if token_price.gt(token_ema_price) {
                *token_price
            } else {
                *token_ema_price
            };
            let spread_amount = match math::checked_decimal_ceil_mul(
                max_price.price,
                max_price.exponent,
                spread,
                -(crate::perps::BPS_DECIMALS as i32),
                max_price.exponent,
            ) {
                Ok(v) => v,
                Err(e) => {
                    return Err(e);
                },
            };
            let price = match math::checked_add(max_price.price, spread_amount) {
                Ok(v) => v,
                Err(e) => {
                    return Err(e);
                },
            };
            Ok(OraclePrice { price, exponent: max_price.exponent })
        } else {
            let min_price = if token_price.lt(token_ema_price) {
                *token_price
            } else {
                *token_ema_price
            };
            let spread_amount = match math::checked_decimal_mul(
                min_price.price,
                min_price.exponent,
                spread,
                -(crate::perps::BPS_DECIMALS as i32),
                min_price.exponent,
            ) {
                Ok(v) => v,
                Err(e) => {
                    return Err(e);
                },
            };
            let price: u64 = if spread_amount < min_price.price {
                min_price.price - spread_amount
            } else {
                0
            };
            Ok(OraclePrice { price, exponent: min_price.exponent })
        }
    }

    /// The price a position of `side` opens at, in price decimals.
    pub fn get_entry_price(
        &self,
        token_price: &OraclePrice,
        token_ema_price: &OraclePrice,
        side: Side,
        custody: &Custody,
    ) -> (r: Result<u64, PerpetualsError>)
        ensures
            r == spec_get_entry_price(*token_price, *token_ema_price, side, *custody),
    {
        let spread = if side == Side::Long {
            custody.pricing.trade_spread_long
        } else {
            custody.pricing.trade_spread_short
        };
        let price = match self.get_price(token_price, token_ema_price, side, spread) {
            Ok(v) => v,
            Err(e) => {
                return Err(e);
            },
        };
        if price.price == 0 {
            return Err(PerpetualsError::MaxPriceSlippage);
        }
        let scaled = match price.scale_to_exponent(PRICE_EXPONENT) {
            Ok(v) => v,
            Err(e) => {
                return Err(e);
            },
        };
        Ok(scaled.price)
    }

    /// The price a position of `side` closes at, in price decimals.
    pub fn get_exit_price(
        &self,
        token_price: &OraclePrice,
        token_ema_price: &OraclePrice,
        side: Side,
        custody: &Custody,
    ) -> (r: Result<u64, PerpetualsError>)
        ensures
            r == spec_get_exit_price(*token_price, *token_ema_price, side, *custody),
    {
        let quote_side = if side == Side::Long {
            Side::Short
        } else {
            Side::Long
        };
        let spread = if side == Side::Long {
            custody.pricing.trade_spread_short
        } else {
            custody.pricing.trade_spread_long
        };
        let price = match self.get_price(token_price, token_ema_price, quote_side, spread) {
            Ok(v) => v,
            Err(e) => {
                return Err(e);
            },
        };
        let scaled = match price.scale_to_exponent(PRICE_EXPONENT) {
            Ok(v) => v,
            Err(e) => {
                return Err(e);
            },
        };
        Ok(scaled.price)
    }

    /// `fee` basis points of `amount`, rounded up.
    pub fn get_fee_amount(fee: u64, amount: u64) -> (r: Result<u64, PerpetualsError>)
        ensures
            r == spec_get_fee_amount(fee, amount),
    {
        if fee == 0 || amount == 0 {
            return Ok(0);
        }
        proof {
            math::lemma_u64_mul_fits_u128(amount, fee);
        }
        let scaled: u128 = (amount as u128) * (fee as u128);
        let v = match math::checked_ceil_div_u128(scaled, BPS_POWER as u128) {
            Ok(v) => v,
            Err(e) => {
                return Err(e);
            },
        };
        math::checked_as_u64(v)
    }

    /// The exit fee for closing a position of `size` tokens.
    pub fn get_exit_fee(&self, size: u64, custody: &Custody) -> (r: Result<u64, PerpetualsError>)
        ensures
            r == spec_get_fee_amount(custody.fees.close_position, size),
    {
        Self::get_fee_amount(custody.fees.close_position, size)
    }

    /// The fee for liquidating a position of `size` tokens.
    pub fn get_liquidation_fee(&self, size: u64, custody: &Custody) -> (r: Result<
        u64,
        PerpetualsError,
    >)
        ensures
            r == spec_get_fee_amount(custody.fees.liquidation, size),
    {
        Self::get_fee_amount(custody.fees.liquidation, size)
    }

    /// What `check_available_amount` returns: whether the custody can pay
    /// `amount` out of its unlocked holdings (owned plus trader collateral,
    /// less locked reserves).
    pub open spec fn spec_check_available_amount(amount: u64, custody: Custody) -> Result<
        bool,
        PerpetualsError,
    > {
        if custody.assets.owned + custody.assets.collateral > u64::MAX {
            Err(PerpetualsError::MathOverflow)
        } else if custody.assets.owned + custody.assets.collateral < custody.assets.locked {
            Err(PerpetualsError::MathOverflow)
        } else {
            Ok(custody.assets.owned + custody.assets.collateral - custody.assets.locked >= amount)
        }
    }

    /// Whether `custody` can pay out `amount` without touching locked
    /// reserves.
    pub fn check_available_amount(&self, amount: u64, custody: &Custody) -> (r: Result<
        bool,
        PerpetualsError,
    >)
        ensures
            r == Self::spec_check_available_amount(amount, *custody),
    {
        let total = match math::checked_add(custody.assets.owned, custody.assets.collateral) {
            Ok(v) => v,
            Err(e) => {
                return Err(e);
            },
        };
        let available_amount = match math::checked_sub(total, custody.assets.locked) {
            Ok(v) => v,
            Err(e) => {
                return Err(e);
            },
        };
        Ok(available_amount >= amount)
    }
}


/// What `get_current_ratio` returns: the custody's USD holdings as a share
/// of cached pool value, clamped at 100%, in basis points.
pub open spec fn spec_get_current_ratio(pool: Pool, custody: Custody, token_price: OraclePrice) -> Result<
    u64,
    PerpetualsError,
> {
    if pool.aum_usd == 0 || custody.is_virtual {
        Ok(0)
    } else {
        match token_price.spec_asset_amount_usd(custody.assets.owned, custody.decimals) {
            Err(e) => Err(e),
            Ok(owned_usd) => {
                let ratio = (owned_usd * BPS_POWER) / (pool.aum_usd as int);
                if ratio > u64::MAX {
                    Err(PerpetualsError::MathOverflow)
                } else if ratio > BPS_POWER {
                    Ok(BPS_POWER)
                } else {
                    Ok(ratio as u64)
                }
            },
        }
    }
}

/// What `get_new_ratio` returns: the custody's share of pool value after a
/// hypothetical add or remove of tokens, clamped at 100%. Adding and
/// removing at once is rejected.
pub open spec fn spec_get_new_ratio(
    pool: Pool,
    amount_add: u64,
    amount_remove: u64,
    custody: Custody,
    token_price: OraclePrice,
) -> Result<u64, PerpetualsError> {
    if custody.is_virtual {
        Ok(0)
    } else if amount_add > 0 && amount_remove > 0 {
        Err(PerpetualsError::InvalidArgument)
    } else {
        let pair: Result<(int, int), PerpetualsError> = if amount_add == 0 && amount_remove
            == 0 {
            match token_price.spec_asset_amount_usd(custody.assets.owned, custody.decimals) {
                Err(e) => Err(e),
                Ok(t) => Ok((t as int, pool.aum_usd as int)),
            }
        } else if amount_add > 0 {
            match token_price.spec_asset_amount_usd(amount_add, custody.decimals) {
                Err(e) => Err(e),
                Ok(added) => {
                    if custody.assets.owned + amount_add > u64::MAX {
                        Err(PerpetualsError::MathOverflow)
                    } else {
                        match token_price.spec_asset_amount_usd(
                            (custody.assets.owned + amount_add) as u64,
                            custody.decimals,
                        ) {
                            Err(e) => Err(e),
                            Ok(t) => {
                                if pool.aum_usd + added > u128::MAX {
                                    Err(PerpetualsError::MathOverflow)
                                } else {
                                    Ok((t as int, pool.aum_usd + added))
                                }
                            },
                        }
                    }
                },
            }
        } else {
            match token_price.spec_asset_amount_usd(amount_remove, custody.decimals) {
                Err(e) => Err(e),
                Ok(removed) => {
                    if removed >= pool.aum_usd || amount_remove >= custody.assets.owned {
                        Ok((0, 0))
                    } else {
                        match token_price.spec_asset_amount_usd(
                            (custody.assets.owned - amount_remove) as u64,
                            custody.decimals,
                        ) {
                            Err(e) => Err(e),
                            Ok(t) => Ok((t as int, pool.aum_usd - removed)),
                        }
                    }
                },
            }
        };
        match pair {
            Err(e) => Err(e),
            Ok((t, p)) => {
                if t == 0 || p == 0 {
                    Ok(0)
                } else {
                    let ratio = (t * BPS_POWER) / p;
                    if ratio > u64::MAX {
                        Err(PerpetualsError::MathOverflow)
                    } else if ratio > BPS_POWER {
                        Ok(BPS_POWER)
                    } else {
                        Ok(ratio as u64)
                    }
                }
            },
        }
    }
}

/// Whether a move from `current_ratio` to `new_ratio` lands strictly closer
/// to the target: the condition under which the linear fee mode grants its
/// discount.
pub open spec fn ratio_improved(current_ratio: u64, new_ratio: u64, target: u64) -> bool {
    if new_ratio < target {
        new_ratio > current_ratio || (current_ratio > target && current_ratio - target > target
            - new_ratio)
    } else if new_ratio > target {
        new_ratio < current_ratio || (current_ratio < target && target - current_ratio > new_ratio
            - target)
    } else {
        current_ratio != target
    }
}

/// What `get_fee_linear` returns: the base fee scaled up when the action
/// moves the custody's ratio away from target and down when it moves it
/// closer, then applied to the moved amount.
pub open spec fn spec_get_fee_linear(
    ratios: TokenRatios,
    pool: Pool,
    base_fee: u64,
    amount_add: u64,
    amount_remove: u64,
    custody: Custody,
    token_price: OraclePrice,
) -> Result<u64, PerpetualsError> {
    match spec_get_current_ratio(pool, custody, token_price) {
        Err(e) => Err(e),
        Ok(current_ratio) => match spec_get_new_ratio(
            pool,
            amount_add,
            amount_remove,
            custody,
            token_price,
        ) {
            Err(e) => Err(e),
            Ok(new_ratio) => {
                let improved = ratio_improved(current_ratio, new_ratio, ratios.target);
                let ratio_fee: int = if new_ratio <= ratios.target {
                    if ratios.target == ratios.min {
                        BPS_POWER as int
                    } else {
                        BPS_POWER + (custody.fees.ratio_mult * (ratios.target - new_ratio)) / (
                        ratios.target - ratios.min)
                    }
                } else if ratios.target == ratios.max {
                    BPS_POWER as int
                } else {
                    BPS_POWER + (custody.fees.ratio_mult * (new_ratio - ratios.target)) / (
                    ratios.max - ratios.target)
                };
                let fee: int = if improved {
                    (base_fee * BPS_POWER) / ratio_fee
                } else {
                    (base_fee * ratio_fee) / (BPS_POWER as int)
                };
                if fee > u64::MAX {
                    Err(PerpetualsError::MathOverflow)
                } else {
                    let amount: u64 = if amount_add > amount_remove {
                        amount_add
                    } else {
                        amount_remove
                    };
                    spec_get_fee_amount(fee as u64, amount)
                }
            },
        },
    }
}

/// What `get_fee_optimal` returns: a piecewise-linear interpolation between
/// the optimal fee at the target ratio and the maximum fee at the band's
/// edge, with the slope's sign flipped between adds and removes. A move that
/// would land outside the band is rejected.
pub open spec fn spec_get_fee_optimal(
    ratios: TokenRatios,
    pool: Pool,
    base_fee: u64,
    amount_add: u64,
    amount_remove: u64,
    custody: Custody,
    token_price: OraclePrice,
) -> Result<u64, PerpetualsError> {
    match spec_get_new_ratio(pool, amount_add, amount_remove, custody, token_price) {
        Err(e) => Err(e),
        Ok(post) => {
            let fee_max = custody.fees.fee_max as int;
            let fee_optimal = custody.fees.fee_optimal as int;
            let target = ratios.target as int;
            let slope_denominator: int = if post > ratios.target {
                ratios.max - target
            } else {
                target - ratios.min
            };
            if amount_add != 0 && post > ratios.max {
                Err(PerpetualsError::TokenRatioOutOfRange)
            } else if amount_add == 0 && post < ratios.min {
                Err(PerpetualsError::TokenRatioOutOfRange)
            } else {
                let slope_numerator: int = if amount_add != 0 {
                    fee_max - fee_optimal
                } else {
                    fee_optimal - fee_max
                };
                let b = fee_optimal * slope_denominator - target * slope_numerator;
                if slope_denominator == 0 {
                    Err(PerpetualsError::DivideByZero)
                } else {
                    let lp_fee = div_trunc(slope_numerator * post + b, slope_denominator);
                    if lp_fee + base_fee < 0 {
                        Err(PerpetualsError::MathOverflow)
                    } else {
                        let amount: u64 = if amount_add > amount_remove {
                            amount_add
                        } else {
                            amount_remove
                        };
                        spec_get_fee_amount((lp_fee + base_fee) as u64, amount)
                    }
                }
            }
        },
    }
}

/// What `get_fee` returns: the fee of the custody's configured mode.
pub open spec fn spec_get_fee(
    ratios: TokenRatios,
    pool: Pool,
    base_fee: u64,
    amount_add: u64,
    amount_remove: u64,
    custody: Custody,
    token_price: OraclePrice,
) -> Result<u64, PerpetualsError> {
    if custody.is_virtual {
        Err(PerpetualsError::InstructionNotAllowed)
    } else if custody.fees.mode == FeesMode::Fixed {
        let amount: u64 = if amount_add > amount_remove {
            amount_add
        } else {
            amount_remove
        };
        spec_get_fee_amount(base_fee, amount)
    } else if custody.fees.mode == FeesMode::Linear {
        spec_get_fee_linear(ratios, pool, base_fee, amount_add, amount_remove, custody,
            token_price)
    } else {
        spec_get_fee_optimal(ratios, pool, base_fee, amount_add, amount_remove, custody,
            token_price)
    }
}

impl Pool {
    fn get_current_ratio(&self, custody: &Custody, token_price: &OraclePrice) -> (r: Result<
        u64,
        PerpetualsError,
    >)
        ensures
            r == spec_get_current_ratio(*self, *custody, *token_price),
    {
        if self.aum_usd == 0 || custody.is_virtual {
            return Ok(0);
        }
        let owned_usd = match token_price.get_asset_amount_usd(custody.assets.owned,
            custody.decimals) {
            Ok(v) => v,
            Err(e) => {
                return Err(e);
            },
        };
        proof {
            math::lemma_u64_mul_fits_u128(owned_usd, BPS_POWER);
        }
        let ratio_wide: u128 = ((owned_usd as u128) * (BPS_POWER as u128)) / self.aum_usd;
        let ratio = match math::checked_as_u64(ratio_wide) {
            Ok(v) => v,
            Err(e) => {
                return Err(e);
            },
        };
        if ratio > BPS_POWER {
            Ok(BPS_POWER)
        } else {
            Ok(ratio)
        }
    }

    fn get_new_ratio(
        &self,
        amount_add: u64,
        amount_remove: u64,
        custody: &Custody,
        token_price: &OraclePrice,
    ) -> (r: Result<u64, PerpetualsError>)
        ensures
            r == spec_get_new_ratio(*self, amount_add, amount_remove, *custody, *token_price),
    {
        if custody.is_virtual {
            return Ok(0);
        }
        if amount_add > 0 && amount_remove > 0 {
            return Err(PerpetualsError::InvalidArgument);
        }
        let new_token_aum_usd: u128;
        let new_pool_aum_usd: u128;
        if amount_add == 0 && amount_remove == 0 {
            let t = match token_price.get_asset_amount_usd(custody.assets.owned, custody.decimals) {
                Ok(v) => v,
                Err(e) => {
                    return Err(e);
                },
            };
            new_token_aum_usd = t as u128;
            new_pool_aum_usd = self.aum_usd;
        } else if amount_add > 0 {
            let added_aum_usd = match token_price.get_asset_amount_usd(amount_add,
                custody.decimals) {
                Ok(v) => v,
                Err(e) => {
                    return Err(e);
                },
            };
            let new_owned = match math::checked_add(custody.assets.owned, amount_add) {
                Ok(v) => v,
                Err(e) => {
                    return Err(e);
                },
            };
            let t = match token_price.get_asset_amount_usd(new_owned, custody.decimals) {
                Ok(v) => v,
                Err(e) => {
                    return Err(e);
                },
            };
            let p = match math::checked_add_u128(self.aum_usd, added_aum_usd as u128) {
                Ok(v) => v,
                Err(e) => {
                    return Err(e);
                },
            };
            new_token_aum_usd = t as u128;
            new_pool_aum_usd = p;
        } else {
            let removed_aum_usd = match token_price.get_asset_amount_usd(amount_remove,
                custody.decimals) {
                Ok(v) => v,
                Err(e) => {
                    return Err(e);
                },
            };
            if removed_aum_usd as u128 >= self.aum_usd || amount_remove >= custody.assets.owned {
                new_token_aum_usd = 0;
                new_pool_aum_usd = 0;
            } else {
                let t = match token_price.get_asset_amount_usd(custody.assets.owned
                    - amount_remove, custody.decimals) {
                    Ok(v) => v,
                    Err(e) => {
                        return Err(e);
                    },
                };
                new_token_aum_usd = t as u128;
                new_pool_aum_usd = self.aum_usd - removed_aum_usd as u128;
            }
        }
        if new_token_aum_usd == 0 || new_pool_aum_usd == 0 {
            return Ok(0);
        }
        let scaled = match math::checked_mul_u128(new_token_aum_usd, BPS_POWER as u128) {
            Ok(v) => v,
            Err(e) => {
                return Err(e);
            },
        };
        let ratio = match math::checked_as_u64(scaled / new_pool_aum_usd) {
            Ok(v) => v,
            Err(e) => {
                return Err(e);
            },
        };
        if ratio > BPS_POWER {
            Ok(BPS_POWER)
        } else {
            Ok(ratio)
        }
    }

    fn get_fee_linear(
        &self,
        token_id: usize,
        base_fee: u64,
        amount_add: u64,
        amount_remove: u64,
        custody: &Custody,
        token_price: &OraclePrice,
    ) -> (r: Result<u64, PerpetualsError>)
        requires
            token_id < self.ratios@.len(),
            self.ratios@[token_id as int].is_valid(),
            base_fee <= BPS_POWER,
        ensures
            r == spec_get_fee_linear(self.ratios@[token_id as int], *self, base_fee, amount_add,
                amount_remove, *custody, *token_price),
    {
        let ratios = self.ratios[token_id];
        let current_ratio = match self.get_current_ratio(custody, token_price) {
            Ok(v) => v,
            Err(e) => {
                return Err(e);
            },
        };
        let new_ratio = match self.get_new_ratio(amount_add, amount_remove, custody, token_price) {
            Ok(v) => v,
            Err(e) => {
                return Err(e);
            },
        };
        let improved: bool = if new_ratio < ratios.target {
            new_ratio > current_ratio || (current_ratio > ratios.target && current_ratio
                - ratios.target > ratios.target - new_ratio)
        } else if new_ratio > ratios.target {
            new_ratio < current_ratio || (current_ratio < ratios.target && ratios.target
                - current_ratio > new_ratio - ratios.target)
        } else {
            current_ratio != ratios.target
        };
        let ratio_fee: u128 = if new_ratio <= ratios.target {
            if ratios.target == ratios.min {
                BPS_POWER as u128
            } else {
                let diff: u64 = ratios.target - new_ratio;
                let denom: u64 = ratios.target - ratios.min;
                proof {
                    math::lemma_u64_mul_fits_u128(custody.fees.ratio_mult, diff);
                    vstd::arithmetic::mul::lemma_mul_upper_bound(
                        custody.fees.ratio_mult as int,
                        u64::MAX as int,
                        diff as int,
                        BPS_POWER as int,
                    );
                    vstd::arithmetic::div_mod::lemma_div_is_ordered_by_denominator(
                        custody.fees.ratio_mult * diff,
                        1,
                        denom as int,
                    );
                    assert(BPS_POWER + (u64::MAX as int) * (BPS_POWER as int) < u128::MAX)
                        by (nonlinear_arith);
                }
                BPS_POWER as u128 + ((custody.fees.ratio_mult as u128) * (diff as u128)) / (
                denom as u128)
            }
        } else if ratios.target == ratios.max {
            BPS_POWER as u128
        } else {
            let diff: u64 = new_ratio - ratios.target;
            let denom: u64 = ratios.max - ratios.target;
            proof {
                math::lemma_u64_mul_fits_u128(custody.fees.ratio_mult, diff);
                vstd::arithmetic::mul::lemma_mul_upper_bound(
                    custody.fees.ratio_mult as int,
                    u64::MAX as int,
                    diff as int,
                    BPS_POWER as int,
                );
                vstd::arithmetic::div_mod::lemma_div_is_ordered_by_denominator(
                    custody.fees.ratio_mult * diff,
                    1,
                    denom as int,
                );
                assert(BPS_POWER + (u64::MAX as int) * (BPS_POWER as int) < u128::MAX)
                    by (nonlinear_arith);
            }
            BPS_POWER as u128 + ((custody.fees.ratio_mult as u128) * (diff as u128)) / (
            denom as u128)
        };
        proof {
            vstd::arithmetic::mul::lemma_mul_upper_bound(
                base_fee as int,
                BPS_POWER as int,
                ratio_fee as int,
                BPS_POWER + (u64::MAX as int) * (BPS_POWER as int),
            );
            assert((BPS_POWER as int) * (BPS_POWER + (u64::MAX as int) * (BPS_POWER as int))
                < u128::MAX) by (nonlinear_arith);
        }
        let fee_wide: u128 = if improved {
            ((base_fee as u128) * (BPS_POWER as u128)) / ratio_fee
        } else {
            ((base_fee as u128) * ratio_fee) / (BPS_POWER as u128)
        };
        let fee = match math::checked_as_u64(fee_wide) {
            Ok(v) => v,
            Err(e) => {
                return Err(e);
            },
        };
        let amount: u64 = if amount_add > amount_remove {
            amount_add
        } else {
            amount_remove
        };
        Self::get_fee_amount(fee, amount)
    }

    fn get_fee_optimal(
        &self,
        token_id: usize,
        base_fee: u64,
        amount_add: u64,
        amount_remove: u64,
        custody: &Custody,
        token_price: &OraclePrice,
    ) -> (r: Result<u64, PerpetualsError>)
        requires
            token_id < self.ratios@.len(),
            self.ratios@[token_id as int].is_valid(),
            base_fee <= BPS_POWER,
            custody.fees.is_valid(),
        ensures
            r == spec_get_fee_optimal(self.ratios@[token_id as int], *self, base_fee, amount_add,
                amount_remove, *custody, *token_price),
    {
        let ratios = self.ratios[token_id];
        let post = match self.get_new_ratio(amount_add, amount_remove, custody, token_price) {
            Ok(v) => v,
            Err(e) => {
                return Err(e);
            },
        };
        let fee_max: i64 = custody.fees.fee_max as i64;
        let fee_optimal: i64 = custody.fees.fee_optimal as i64;
        let target_ratio: i64 = ratios.target as i64;
        let min_ratio: i64 = ratios.min as i64;
        let max_ratio: i64 = ratios.max as i64;
        let post_lp_ratio: i64 = post as i64;
        let slope_denominator: i64 = if post_lp_ratio > target_ratio {
            max_ratio - target_ratio
        } else {
            target_ratio - min_ratio
        };
        if amount_add != 0 && post_lp_ratio > max_ratio {
            return Err(PerpetualsError::TokenRatioOutOfRange);
        }
        if amount_add == 0 && post_lp_ratio < min_ratio {
            return Err(PerpetualsError::TokenRatioOutOfRange);
        }
        let slope_numerator: i64 = if amount_add != 0 {
            fee_max - fee_optimal
        } else {
            fee_optimal - fee_max
        };
        proof {
            assert(fee_optimal * slope_denominator <= 100_000_000 && fee_optimal
                * slope_denominator >= 0) by (nonlinear_arith)
                requires
                    0 <= fee_optimal <= 10_000,
                    0 <= slope_denominator <= 10_000,
            ;
            assert(target_ratio * slope_numerator <= 100_000_000 && target_ratio
                * slope_numerator >= -100_000_000) by (nonlinear_arith)
                requires
                    0 <= target_ratio <= 10_000,
                    -10_000 <= slope_numerator <= 10_000,
            ;
            assert(slope_numerator * post_lp_ratio <= 100_000_000 && slope_numerator
                * post_lp_ratio >= -100_000_000) by (nonlinear_arith)
                requires
                    0 <= post_lp_ratio <= 10_000,
                    -10_000 <= slope_numerator <= 10_000,
            ;
        }
        let b: i64 = fee_optimal * slope_denominator - target_ratio * slope_numerator;
        let lp_fee: i64 = match math::checked_div_i64(slope_numerator * post_lp_ratio + b,
            slope_denominator) {
            Ok(v) => v,
            Err(e) => {
                return Err(e);
            },
        };
        proof {
            lemma_div_trunc_bounds(slope_numerator * post_lp_ratio + b, slope_denominator as int);
        }
        let total_fee: i64 = lp_fee + base_fee as i64;
        if total_fee < 0 {
            return Err(PerpetualsError::MathOverflow);
        }
        let amount: u64 = if amount_add > amount_remove {
            amount_add
        } else {
            amount_remove
        };
        Self::get_fee_amount(total_fee as u64, amount)
    }

    fn get_fee(
        &self,
        token_id: usize,
        base_fee: u64,
        amount_add: u64,
        amount_remove: u64,
        custody: &Custody,
        token_price: &OraclePrice,
    ) -> (r: Result<u64, PerpetualsError>)
        requires
            token_id < self.ratios@.len(),
            self.ratios@[token_id as int].is_valid(),
            base_fee <= BPS_POWER,
            custody.fees.is_valid(),
        ensures
            r == spec_get_fee(self.ratios@[token_id as int], *self, base_fee, amount_add,
                amount_remove, *custody, *token_price),
    {
        if custody.is_virtual {
            return Err(PerpetualsError::InstructionNotAllowed);
        }
        if custody.fees.mode == FeesMode::Fixed {
            let amount: u64 = if amount_add > amount_remove {
                amount_add
            } else {
                amount_remove
            };
            Self::get_fee_amount(base_fee, amount)
        } else if custody.fees.mode == FeesMode::Linear {
            self.get_fee_linear(token_id, base_fee, amount_add, amount_remove, custody,
                token_price)
        } else {
            self.get_fee_optimal(token_id, base_fee, amount_add, amount_remove, custody,
                token_price)
        }
    }

    /// Fee for adding `amount` tokens of liquidity to `custody`.
    pub fn get_add_liquidity_fee(
        &self,
        token_id: usize,
        amount: u64,
        custody: &Custody,
        token_price: &OraclePrice,
    ) -> (r: Result<u64, PerpetualsError>)
        requires
            token_id < self.ratios@.len(),
            self.ratios@[token_id as int].is_valid(),
            custody.fees.is_valid(),
        ensures
            r == spec_get_fee(self.ratios@[token_id as int], *self, custody.fees.add_liquidity,
                amount, 0, *custody, *token_price),
    {
        self.get_fee(token_id, custody.fees.add_liquidity, amount, 0, custody, token_price)
    }

    /// Fee for removing `amount` tokens of liquidity from `custody`.
    pub fn get_remove_liquidity_fee(
        &self,
        token_id: usize,
        amount: u64,
        custody: &Custody,
        token_price: &OraclePrice,
    ) -> (r: Result<u64, PerpetualsError>)
        requires
            token_id < self.ratios@.len(),
            self.ratios@[token_id as int].is_valid(),
            custody.fees.is_valid(),
        ensures
            r == spec_get_fee(self.ratios@[token_id as int], *self,
                custody.fees.remove_liquidity, 0, amount, *custody, *token_price),
    {
        self.get_fee(token_id, custody.fees.remove_liquidity, 0, amount, custody, token_price)
    }

    /// Whether a liquidity move keeps the custody's ratio inside its band,
    /// or at least does not push it further outside.
    pub fn check_token_ratio(
        &self,
        token_id: usize,
        amount_add: u64,
        amount_remove: u64,
        custody: &Custody,
        token_price: &OraclePrice,
    ) -> (r: Result<bool, PerpetualsError>)
        requires
            token_id < self.ratios@.len(),
        ensures
            r == (match spec_get_new_ratio(*self, amount_add, amount_remove, *custody,
                *token_price) {
                Err(e) => Err::<bool, PerpetualsError>(e),
                Ok(new_ratio) => {
                    if new_ratio < self.ratios@[token_id as int].min {
                        match spec_get_current_ratio(*self, *custody, *token_price) {
                            Err(e) => Err::<bool, PerpetualsError>(e),
                            Ok(current) => Ok(new_ratio >= current),
                        }
                    } else if new_ratio > self.ratios@[token_id as int].max {
                        match spec_get_current_ratio(*self, *custody, *token_price) {
                            Err(e) => Err::<bool, PerpetualsError>(e),
                            Ok(current) => Ok(new_ratio <= current),
                        }
                    } else {
                        Ok(true)
                    }
                },
            }),
    {
        let new_ratio = match self.get_new_ratio(amount_add, amount_remove, custody, token_price) {
            Ok(v) => v,
            Err(e) => {
                return Err(e);
            },
        };
        if new_ratio < self.ratios[token_id].min {
            let current = match self.get_current_ratio(custody, token_price) {
                Ok(v) => v,
                Err(e) => {
                    return Err(e);
                },
            };
            Ok(new_ratio >= current)
        } else if new_ratio > self.ratios[token_id].max {
            let current = match self.get_current_ratio(custody, token_price) {
                Ok(v) => v,
                Err(e) => {
                    return Err(e);
                },
            };
            Ok(new_ratio <= current)
        } else {
            Ok(true)
        }
    }
}

/// Truncating division never grows the magnitude: the quotient stays within
/// the numerator's bounds.
proof fn lemma_div_trunc_bounds(a: int, d: int)
    requires
        d > 0,
    ensures
        a >= 0 ==> 0 <= div_trunc(a, d) <= a,
        a < 0 ==> a <= div_trunc(a, d) <= 0,
{
    if a >= 0 {
        vstd::arithmetic::div_mod::lemma_div_is_ordered_by_denominator(a, 1, d);
        vstd::arithmetic::div_mod::lemma_div_pos_is_pos(a, d);
    } else {
        vstd::arithmetic::div_mod::lemma_div_is_ordered_by_denominator(-a, 1, d);
        vstd::arithmetic::div_mod::lemma_div_pos_is_pos(-a, d);
    }
}


/// What `get_entry_fee` returns: the base fee on the opened size, scaled up
/// when the reserve the position locks pushes utilization past the optimal
/// point of the borrow curve.
pub open spec fn spec_get_entry_fee(
    base_fee: u64,
    size: u64,
    locked_amount: u64,
    collateral_custody: Custody,
) -> Result<u64, PerpetualsError> {
    match spec_get_fee_amount(base_fee, size) {
        Err(e) => Err(e),
        Ok(size_fee) => {
            if collateral_custody.assets.owned > 0 && collateral_custody.assets.locked
                + locked_amount > u64::MAX {
                Err(PerpetualsError::MathOverflow)
            } else {
                let new_utilization: int = if collateral_custody.assets.owned > 0 {
                    let u = ((collateral_custody.assets.locked + locked_amount) * RATE_POWER) / (
                    collateral_custody.assets.owned as int);
                    if u < RATE_POWER {
                        u
                    } else {
                        RATE_POWER as int
                    }
                } else {
                    RATE_POWER as int
                };
                if new_utilization > collateral_custody.borrow_rate.optimal_utilization {
                    let utilization_fee = BPS_POWER + (collateral_custody.fees.utilization_mult
                        * (new_utilization - collateral_custody.borrow_rate.optimal_utilization))
                        / (RATE_POWER - collateral_custody.borrow_rate.optimal_utilization);
                    if size_fee * utilization_fee > u128::MAX {
                        Err(PerpetualsError::MathOverflow)
                    } else {
                        let v = (size_fee * utilization_fee) / (BPS_POWER as int);
                        if v > u64::MAX {
                            Err(PerpetualsError::MathOverflow)
                        } else {
                            Ok(v as u64)
                        }
                    }
                } else {
                    Ok(size_fee)
                }
            }
        },
    }
}

/// The collateral price that caps a profit payout: a fixed $1 reference for
/// a virtual collateral custody (reachable only from pool-wide valuation),
/// otherwise the conservative minimum of spot and EMA.
pub open spec fn spec_min_collateral_price(
    collateral_token_price: OraclePrice,
    collateral_token_ema_price: OraclePrice,
    collateral_custody: Custody,
) -> Result<OraclePrice, PerpetualsError> {
    if collateral_custody.is_virtual {
        Ok(OraclePrice { price: 1_000_000, exponent: crate::perps::USD_EXPONENT })
    } else {
        collateral_token_price.spec_get_min_price(
            collateral_token_ema_price,
            collateral_custody.is_stable,
        )
    }
}

/// The profitable outcome of `get_pnl_usd`: the running profit, capped by
/// the USD value of the locked reserve, and by zero within the opening
/// block (which kills same-block round-trip arbitrage).
pub open spec fn spec_pnl_profit_case(
    cur_profit: u64,
    exit_fee: u64,
    collateral_token_price: OraclePrice,
    collateral_token_ema_price: OraclePrice,
    collateral_custody: Custody,
    curtime: i64,
    position: Position,
) -> Result<(u64, u64, u64), PerpetualsError> {
    match spec_min_collateral_price(
        collateral_token_price,
        collateral_token_ema_price,
        collateral_custody,
    ) {
        Err(e) => Err(e),
        Ok(min_price) => {
            let max_profit_r: Result<u64, PerpetualsError> = if curtime <= position.open_time {
                Ok(0)
            } else {
                min_price.spec_asset_amount_usd(
                    position.locked_amount,
                    collateral_custody.decimals,
                )
            };
            match max_profit_r {
                Err(e) => Err(e),
                Ok(max_profit) => {
                    let profit: u64 = if max_profit < cur_profit {
                        max_profit
                    } else {
                        cur_profit
                    };
                    Ok((profit, 0u64, exit_fee))
                },
            }
        },
    }
}

/// What `get_pnl_usd` returns: `(profit_usd, loss_usd, exit_fee_tokens)`,
/// the signed exit-versus-entry result net of the exit fee, accrued
/// interest and previously recorded unrealized loss, with profit capped by
/// the locked reserve.
pub open spec fn spec_get_pnl_usd(
    position: Position,
    token_price: OraclePrice,
    token_ema_price: OraclePrice,
    custody: Custody,
    collateral_token_price: OraclePrice,
    collateral_token_ema_price: OraclePrice,
    collateral_custody: Custody,
    curtime: i64,
    liquidation: bool,
) -> Result<(u64, u64, u64), PerpetualsError> {
    if position.size_usd == 0 || position.price == 0 {
        Ok((0u64, 0u64, 0u64))
    } else {
        match spec_get_exit_price(token_price, token_ema_price, position.side, custody) {
            Err(e) => Err(e),
            Ok(exit_price) => match token_ema_price.spec_token_amount(
                position.size_usd,
                custody.decimals,
            ) {
                Err(e) => Err(e),
                Ok(size) => {
                    let fee_r = if liquidation {
                        spec_get_fee_amount(custody.fees.liquidation, size)
                    } else {
                        spec_get_fee_amount(custody.fees.close_position, size)
                    };
                    match fee_r {
                        Err(e) => Err(e),
                        Ok(exit_fee) => match token_ema_price.spec_asset_amount_usd(
                            exit_fee,
                            custody.decimals,
                        ) {
                            Err(e) => Err(e),
                            Ok(exit_fee_usd) => match collateral_custody.spec_interest_amount_usd(
                                position,
                                curtime,
                            ) {
                                Err(e) => Err(e),
                                Ok(interest_usd) => {
                                    if exit_fee_usd + interest_usd > u64::MAX {
                                        Err(PerpetualsError::MathOverflow)
                                    } else if exit_fee_usd + interest_usd
                                        + position.unrealized_loss_usd > u64::MAX {
                                        Err(PerpetualsError::MathOverflow)
                                    } else {
                                        spec_pnl_from_diffs(
                                            position,
                                            collateral_token_price,
                                            collateral_token_ema_price,
                                            collateral_custody,
                                            curtime,
                                            exit_price,
                                            exit_fee,
                                            (exit_fee_usd + interest_usd
                                                + position.unrealized_loss_usd) as u64,
                                        )
                                    }
                                },
                            },
                        },
                    }
                },
            },
        }
    }
}

/// The tail of `spec_get_pnl_usd`: the directional price difference turned
/// into a potential profit (rounded down) or loss (rounded up, in the
/// pool's favor) and settled against the accumulated losses.
pub open spec fn spec_pnl_from_diffs(
    position: Position,
    collateral_token_price: OraclePrice,
    collateral_token_ema_price: OraclePrice,
    collateral_custody: Custody,
    curtime: i64,
    exit_price: u64,
    exit_fee: u64,
    unrealized_loss_usd: u64,
) -> Result<(u64, u64, u64), PerpetualsError> {
    let price_diff_profit: u64 = if position.side == Side::Long {
        if exit_price > position.price {
            (exit_price - position.price) as u64
        } else {
            0
        }
    } else if exit_price < position.price {
        (position.price - exit_price) as u64
    } else {
        0
    };
    let price_diff_loss: u64 = if position.side == Side::Long {
        if exit_price > position.price {
            0
        } else {
            (position.price - exit_price) as u64
        }
    } else if exit_price < position.price {
        0
    } else {
        (exit_price - position.price) as u64
    };
    match crate::math::spec_scale_to_exponent(
        position.price,
        PRICE_EXPONENT as int,
        crate::perps::USD_EXPONENT as int,
    ) {
        Err(e) => Err(e),
        Ok(position_price) => {
            if position_price == 0 {
                Err(PerpetualsError::DivideByZero)
            } else if price_diff_profit > 0 {
                let potential0 = (position.size_usd * price_diff_profit) / (position_price as int);
                if potential0 > u64::MAX {
                    Err(PerpetualsError::MathOverflow)
                } else if potential0 + position.unrealized_profit_usd > u64::MAX {
                    Err(PerpetualsError::MathOverflow)
                } else {
                    let potential_profit_usd = (potential0
                        + position.unrealized_profit_usd) as u64;
                    if potential_profit_usd >= unrealized_loss_usd {
                        spec_pnl_profit_case(
                            (potential_profit_usd - unrealized_loss_usd) as u64,
                            exit_fee,
                            collateral_token_price,
                            collateral_token_ema_price,
                            collateral_custody,
                            curtime,
                            position,
                        )
                    } else {
                        Ok(((0u64), (unrealized_loss_usd - potential_profit_usd) as u64, exit_fee))
                    }
                }
            } else {
                let loss0 = ceil_div(position.size_usd * price_diff_loss, position_price as int);
                if loss0 > u64::MAX {
                    Err(PerpetualsError::MathOverflow)
                } else if loss0 + unrealized_loss_usd > u64::MAX {
                    Err(PerpetualsError::MathOverflow)
                } else {
                    let potential_loss_usd = (loss0 + unrealized_loss_usd) as u64;
                    if potential_loss_usd >= position.unrealized_profit_usd {
                        Ok(
                            (
                                (0u64),
                                (potential_loss_usd - position.unrealized_profit_usd) as u64,
                                exit_fee,
                            ),
                        )
                    } else {
                        spec_pnl_profit_case(
                            (position.unrealized_profit_usd - potential_loss_usd) as u64,
                            exit_fee,
                            collateral_token_price,
                            collateral_token_ema_price,
                            collateral_custody,
                            curtime,
                            position,
                        )
                    }
                }
            }
        },
    }
}

impl Pool {
    /// The fee for opening a position of `size` tokens that locks
    /// `locked_amount` in the collateral custody.
    pub fn get_entry_fee(
        &self,
        base_fee: u64,
        size: u64,
        locked_amount: u64,
        collateral_custody: &Custody,
    ) -> (r: Result<u64, PerpetualsError>)
        ensures
            r == spec_get_entry_fee(base_fee, size, locked_amount, *collateral_custody),
    {
        let size_fee = match Self::get_fee_amount(base_fee, size) {
            Ok(v) => v,
            Err(e) => {
                return Err(e);
            },
        };
        let new_utilization: u128 = if collateral_custody.assets.owned > 0 {
            let new_locked = match math::checked_add(collateral_custody.assets.locked,
                locked_amount) {
                Ok(v) => v,
                Err(e) => {
                    return Err(e);
                },
            };
            proof {
                math::lemma_u64_mul_fits_u128(new_locked, RATE_POWER);
            }
            let u = ((new_locked as u128) * (RATE_POWER as u128)) / (
            collateral_custody.assets.owned as u128);
            if u < RATE_POWER as u128 {
                u
            } else {
                RATE_POWER as u128
            }
        } else {
            RATE_POWER as u128
        };
        if new_utilization > collateral_custody.borrow_rate.optimal_utilization as u128 {
            let over: u128 = new_utilization
                - collateral_custody.borrow_rate.optimal_utilization as u128;
            proof {
                vstd::arithmetic::mul::lemma_mul_upper_bound(
                    collateral_custody.fees.utilization_mult as int,
                    u64::MAX as int,
                    over as int,
                    RATE_POWER as int,
                );
                assert(BPS_POWER + (u64::MAX as int) * (RATE_POWER as int) < u128::MAX)
                    by (nonlinear_arith);
                vstd::arithmetic::div_mod::lemma_div_is_ordered_by_denominator(
                    collateral_custody.fees.utilization_mult * over,
                    1,
                    RATE_POWER - collateral_custody.borrow_rate.optimal_utilization as int,
                );
            }
            let utilization_fee: u128 = BPS_POWER as u128
                + ((collateral_custody.fees.utilization_mult as u128) * over) / (RATE_POWER as u128
                - collateral_custody.borrow_rate.optimal_utilization as u128);
            let scaled = match math::checked_mul_u128(size_fee as u128, utilization_fee) {
                Ok(v) => v,
                Err(e) => {
                    return Err(e);
                },
            };
            math::checked_as_u64(scaled / (BPS_POWER as u128))
        } else {
            Ok(size_fee)
        }
    }

    /// The pair price quoted for a swap: the conservative ratio of the two
    /// tokens' prices with the in-token's swap spread applied.
    pub fn get_swap_price(
        &self,
        token_in_price: &OraclePrice,
        token_in_ema_price: &OraclePrice,
        token_out_price: &OraclePrice,
        token_out_ema_price: &OraclePrice,
        custody_in: &Custody,
    ) -> (r: Result<OraclePrice, PerpetualsError>)
        ensures
            r == (match spec_min_price(*token_in_price, *token_in_ema_price).spec_price_div(
                spec_max_price(*token_out_price, *token_out_ema_price),
            ) {
                Err(e) => Err::<OraclePrice, PerpetualsError>(e),
                Ok(pair_price) => spec_get_price(pair_price, pair_price, Side::Short,
                    custody_in.pricing.swap_spread),
            }),
    {
        let min_price = if token_in_price.lt(token_in_ema_price) {
            *token_in_price
        } else {
            *token_in_ema_price
        };
        let max_price = if token_out_price.gt(token_out_ema_price) {
            *token_out_price
        } else {
            *token_out_ema_price
        };
        let pair_price = match min_price.checked_div(&max_price) {
            Ok(v) => v,
            Err(e) => {
                return Err(e);
            },
        };
        self.get_price(&pair_price, &pair_price, Side::Short, custody_in.pricing.swap_spread)
    }

    /// Tokens received for `amount_in` at the quoted swap price.
    pub fn get_swap_amount(
        &self,
        token_in_price: &OraclePrice,
        token_in_ema_price: &OraclePrice,
        token_out_price: &OraclePrice,
        token_out_ema_price: &OraclePrice,
        custody_in: &Custody,
        custody_out: &Custody,
        amount_in: u64,
    ) -> (r: Result<u64, PerpetualsError>)
        ensures
            r == (match spec_min_price(*token_in_price, *token_in_ema_price).spec_price_div(
                spec_max_price(*token_out_price, *token_out_ema_price),
            ) {
                Err(e) => Err::<u64, PerpetualsError>(e),
                Ok(pair_price) => match spec_get_price(pair_price, pair_price, Side::Short,
                    custody_in.pricing.swap_spread) {
                    Err(e) => Err::<u64, PerpetualsError>(e),
                    Ok(swap_price) => math::spec_decimal_mul(amount_in,
                        -(custody_in.decimals as int), swap_price.price,
                        swap_price.exponent as int, -(custody_out.decimals as int), false),
                },
            }),
    {
        let swap_price = match self.get_swap_price(
            token_in_price,
            token_in_ema_price,
            token_out_price,
            token_out_ema_price,
            custody_in,
        ) {
            Ok(v) => v,
            Err(e) => {
                return Err(e);
            },
        };
        math::checked_decimal_mul(
            amount_in,
            -(custody_in.decimals as i32),
            swap_price.price,
            swap_price.exponent,
            -(custody_out.decimals as i32),
        )
    }

    /// Fees charged on the two legs of a swap; stablecoin pairs use the
    /// stable-swap rates.
    pub fn get_swap_fees(
        &self,
        token_id_in: usize,
        token_id_out: usize,
        amount_in: u64,
        amount_out: u64,
        custody_in: &Custody,
        token_price_in: &OraclePrice,
        custody_out: &Custody,
        token_price_out: &OraclePrice,
    ) -> (r: Result<(u64, u64), PerpetualsError>)
        requires
            token_id_in < self.ratios@.len(),
            token_id_out < self.ratios@.len(),
            self.ratios@[token_id_in as int].is_valid(),
            self.ratios@[token_id_out as int].is_valid(),
            custody_in.fees.is_valid(),
            custody_out.fees.is_valid(),
        ensures
            r == (match spec_get_fee(self.ratios@[token_id_in as int], *self, if custody_in.is_stable
                && custody_out.is_stable {
                custody_in.fees.stable_swap_in
            } else {
                custody_in.fees.swap_in
            }, amount_in, 0, *custody_in, *token_price_in) {
                Err(e) => Err::<(u64, u64), PerpetualsError>(e),
                Ok(fee_in) => match spec_get_fee(self.ratios@[token_id_out as int], *self, if
                    custody_in.is_stable && custody_out.is_stable {
                    custody_out.fees.stable_swap_out
                } else {
                    custody_out.fees.swap_out
                }, 0, amount_out, *custody_out, *token_price_out) {
                    Err(e) => Err::<(u64, u64), PerpetualsError>(e),
                    Ok(fee_out) => Ok((fee_in, fee_out)),
                },
            }),
    {
        let stable_swap = custody_in.is_stable && custody_out.is_stable;
        let swap_in_fee = match self.get_fee(
            token_id_in,
            if stable_swap {
                custody_in.fees.stable_swap_in
            } else {
                custody_in.fees.swap_in
            },
            amount_in,
            0,
            custody_in,
            token_price_in,
        ) {
            Ok(v) => v,
            Err(e) => {
                return Err(e);
            },
        };
        let swap_out_fee = match self.get_fee(
            token_id_out,
            if stable_swap {
                custody_out.fees.stable_swap_out
            } else {
                custody_out.fees.swap_out
            },
            0,
            amount_out,
            custody_out,
            token_price_out,
        ) {
            Ok(v) => v,
            Err(e) => {
                return Err(e);
            },
        };
        Ok((swap_in_fee, swap_out_fee))
    }

    /// Settles a position against current prices: its profit, its loss and
    /// the exit fee in tokens. Profit is zero for a close within the opening
    /// block, and never exceeds the USD value of the locked reserve at the
    /// conservative collateral price.
    #[verifier::rlimit(60)]
    pub fn get_pnl_usd(
        &self,
        position: &Position,
        token_price: &OraclePrice,
        token_ema_price: &OraclePrice,
        custody: &Custody,
        collateral_token_price: &OraclePrice,
        collateral_token_ema_price: &OraclePrice,
        collateral_custody: &Custody,
        curtime: i64,
        liquidation: bool,
    ) -> (r: Result<(u64, u64, u64), PerpetualsError>)
        ensures
            r == spec_get_pnl_usd(*position, *token_price, *token_ema_price, *custody,
                *collateral_token_price, *collateral_token_ema_price, *collateral_custody,
                curtime, liquidation),
            curtime <= position.open_time ==> (r matches Ok(t) ==> t.0 == 0),
            r matches Ok(t) ==> t.0 == 0 || (spec_min_collateral_price(*collateral_token_price,
                *collateral_token_ema_price, *collateral_custody) matches Ok(mp)
                && mp.spec_asset_amount_usd(position.locked_amount, collateral_custody.decimals)
                matches Ok(cap) && t.0 <= cap),
    {
        if position.size_usd == 0 || position.price == 0 {
            return Ok((0, 0, 0));
        }
        let exit_price = match self.get_exit_price(token_price, token_ema_price, position.side,
            custody) {
            Ok(v) => v,
            Err(e) => {
                return Err(e);
            },
        };
        let size = match token_ema_price.get_token_amount(position.size_usd, custody.decimals) {
            Ok(v) => v,
            Err(e) => {
                return Err(e);
            },
        };
        let exit_fee = if liquidation {
            match self.get_liquidation_fee(size, custody) {
                Ok(v) => v,
                Err(e) => {
                    return Err(e);
                },
            }
        } else {
            match self.get_exit_fee(size, custody) {
                Ok(v) => v,
                Err(e) => {
                    return Err(e);
                },
            }
        };
        let exit_fee_usd = match token_ema_price.get_asset_amount_usd(exit_fee, custody.decimals) {
            Ok(v) => v,
            Err(e) => {
                return Err(e);
            },
        };
        let interest_usd = match collateral_custody.get_interest_amount_usd(position, curtime) {
            Ok(v) => v,
            Err(e) => {
                return Err(e);
            },
        };
        let loss_part = match math::checked_add(exit_fee_usd, interest_usd) {
            Ok(v) => v,
            Err(e) => {
                return Err(e);
            },
        };
        let unrealized_loss_usd = match math::checked_add(loss_part,
            position.unrealized_loss_usd) {
            Ok(v) => v,
            Err(e) => {
                return Err(e);
            },
        };
        let price_diff_profit: u64 = if position.side == Side::Long {
            if exit_price > position.price {
                exit_price - position.price
            } else {
                0
            }
        } else if exit_price < position.price {
            position.price - exit_price
        } else {
            0
        };
        let price_diff_loss: u64 = if position.side == Side::Long {
            if exit_price > position.price {
                0
            } else {
                position.price - exit_price
            }
        } else if exit_price < position.price {
            0
        } else {
            exit_price - position.price
        };
        let position_price = match math::scale_to_exponent(position.price, PRICE_EXPONENT,
            crate::perps::USD_EXPONENT) {
            Ok(v) => v,
            Err(e) => {
                return Err(e);
            },
        };
        if position_price == 0 {
            return Err(PerpetualsError::DivideByZero);
        }
        if price_diff_profit > 0 {
            proof {
                math::lemma_u64_mul_fits_u128(position.size_usd, price_diff_profit);
            }
            let wide: u128 = ((position.size_usd as u128) * (price_diff_profit as u128)) / (
            position_price as u128);
            let potential0 = match math::checked_as_u64(wide) {
                Ok(v) => v,
                Err(e) => {
                    return Err(e);
                },
            };
            let potential_profit_usd = match math::checked_add(potential0,
                position.unrealized_profit_usd) {
                Ok(v) => v,
                Err(e) => {
                    return Err(e);
                },
            };
            if potential_profit_usd >= unrealized_loss_usd {
                self.pnl_profit_case(potential_profit_usd - unrealized_loss_usd, exit_fee,
                    collateral_token_price, collateral_token_ema_price, collateral_custody,
                    curtime, position)
            } else {
                Ok((0, unrealized_loss_usd - potential_profit_usd, exit_fee))
            }
        } else {
            proof {
                math::lemma_u64_mul_fits_u128(position.size_usd, price_diff_loss);
            }
            let wide = match math::checked_ceil_div_u128(
                (position.size_usd as u128) * (price_diff_loss as u128),
                position_price as u128,
            ) {
                Ok(v) => v,
                Err(e) => {
                    return Err(e);
                },
            };
            let loss0 = match math::checked_as_u64(wide) {
                Ok(v) => v,
                Err(e) => {
                    return Err(e);
                },
            };
            let potential_loss_usd = match math::checked_add(loss0, unrealized_loss_usd) {
                Ok(v) => v,
                Err(e) => {
                    return Err(e);
                },
            };
            if potential_loss_usd >= position.unrealized_profit_usd {
                Ok((0, potential_loss_usd - position.unrealized_profit_usd, exit_fee))
            } else {
                self.pnl_profit_case(position.unrealized_profit_usd - potential_loss_usd,
                    exit_fee, collateral_token_price, collateral_token_ema_price,
                    collateral_custody, curtime, position)
            }
        }
    }

    fn pnl_profit_case(
        &self,
        cur_profit: u64,
        exit_fee: u64,
        collateral_token_price: &OraclePrice,
        collateral_token_ema_price: &OraclePrice,
        collateral_custody: &Custody,
        curtime: i64,
        position: &Position,
    ) -> (r: Result<(u64, u64, u64), PerpetualsError>)
        ensures
            r == spec_pnl_profit_case(cur_profit, exit_fee, *collateral_token_price,
                *collateral_token_ema_price, *collateral_custody, curtime, *position),
    {
        let min_collateral_price = if collateral_custody.is_virtual {
            OraclePrice { price: 1_000_000, exponent: crate::perps::USD_EXPONENT }
        } else {
            match collateral_token_price.get_min_price(collateral_token_ema_price,
                collateral_custody.is_stable) {
                Ok(v) => v,
                Err(e) => {
                    return Err(e);
                },
            }
        };
        let max_profit_usd: u64 = if curtime <= position.open_time {
            0
        } else {
            match min_collateral_price.get_asset_amount_usd(position.locked_amount,
                collateral_custody.decimals) {
                Ok(v) => v,
                Err(e) => {
                    return Err(e);
                },
            }
        };
        let profit = if max_profit_usd < cur_profit {
            max_profit_usd
        } else {
            cur_profit
        };
        Ok((profit, 0, exit_fee))
    }
}


/// What `get_close_amount` returns: `(transfer_amount, fee_amount,
/// profit_usd, loss_usd)`. The payout is the remaining collateral value plus
/// profit (or less loss, floored at zero) in collateral tokens at the
/// conservative maximum price, bounded by the locked reserve net of the fee
/// plus the posted collateral.
pub open spec fn spec_get_close_amount(
    position: Position,
    token_price: OraclePrice,
    token_ema_price: OraclePrice,
    custody: Custody,
    collateral_token_price: OraclePrice,
    collateral_token_ema_price: OraclePrice,
    collateral_custody: Custody,
    curtime: i64,
    liquidation: bool,
) -> Result<(u64, u64, u64, u64), PerpetualsError> {
    match spec_get_pnl_usd(
        position,
        token_price,
        token_ema_price,
        custody,
        collateral_token_price,
        collateral_token_ema_price,
        collateral_custody,
        curtime,
        liquidation,
    ) {
        Err(e) => Err(e),
        Ok((profit_usd, loss_usd, fee_amount)) => {
            if profit_usd > 0 && position.collateral_usd + profit_usd > u64::MAX {
                Err(PerpetualsError::MathOverflow)
            } else {
                let available_amount_usd: u64 = if profit_usd > 0 {
                    (position.collateral_usd + profit_usd) as u64
                } else if loss_usd < position.collateral_usd {
                    (position.collateral_usd - loss_usd) as u64
                } else {
                    0
                };
                let max_collateral_price = spec_max_price(
                    collateral_token_price,
                    collateral_token_ema_price,
                );
                match max_collateral_price.spec_token_amount(
                    available_amount_usd,
                    collateral_custody.decimals,
                ) {
                    Err(e) => Err(e),
                    Ok(close_amount) => {
                        let unlocked: u64 = if position.locked_amount >= fee_amount {
                            (position.locked_amount - fee_amount) as u64
                        } else {
                            0
                        };
                        if unlocked + position.collateral_amount > u64::MAX {
                            Err(PerpetualsError::MathOverflow)
                        } else {
                            let max_amount = (unlocked + position.collateral_amount) as u64;
                            let transfer: u64 = if max_amount < close_amount {
                                max_amount
                            } else {
                                close_amount
                            };
                            Ok((transfer, fee_amount, profit_usd, loss_usd))
                        }
                    },
                }
            }
        },
    }
}

/// What `get_leverage` returns: notional over current margin (collateral
/// plus profit or minus loss), in basis points; the maximum representable
/// value when the margin is wiped out.
pub open spec fn spec_get_leverage(
    position: Position,
    token_price: OraclePrice,
    token_ema_price: OraclePrice,
    custody: Custody,
    collateral_token_price: OraclePrice,
    collateral_token_ema_price: OraclePrice,
    collateral_custody: Custody,
    curtime: i64,
) -> Result<u64, PerpetualsError> {
    match spec_get_pnl_usd(
        position,
        token_price,
        token_ema_price,
        custody,
        collateral_token_price,
        collateral_token_ema_price,
        collateral_custody,
        curtime,
        false,
    ) {
        Err(e) => Err(e),
        Ok((profit_usd, loss_usd, fee)) => {
            if profit_usd > 0 && position.collateral_usd + profit_usd > u64::MAX {
                Err(PerpetualsError::MathOverflow)
            } else {
                let current_margin_usd: u64 = if profit_usd > 0 {
                    (position.collateral_usd + profit_usd) as u64
                } else if loss_usd <= position.collateral_usd {
                    (position.collateral_usd - loss_usd) as u64
                } else {
                    0
                };
                if current_margin_usd > 0 {
                    let lev = (position.size_usd * BPS_POWER) / (current_margin_usd as int);
                    if lev > u64::MAX {
                        Err(PerpetualsError::MathOverflow)
                    } else {
                        Ok(lev as u64)
                    }
                } else {
                    Ok(u64::MAX)
                }
            }
        },
    }
}

/// What `check_leverage` returns: whether current leverage respects the
/// custody's ceiling, and, for an initial check, also its entry band.
pub open spec fn spec_check_leverage(
    position: Position,
    token_price: OraclePrice,
    token_ema_price: OraclePrice,
    custody: Custody,
    collateral_token_price: OraclePrice,
    collateral_token_ema_price: OraclePrice,
    collateral_custody: Custody,
    curtime: i64,
    initial: bool,
) -> Result<bool, PerpetualsError> {
    match spec_get_leverage(
        position,
        token_price,
        token_ema_price,
        custody,
        collateral_token_price,
        collateral_token_ema_price,
        collateral_custody,
        curtime,
    ) {
        Err(e) => Err(e),
        Ok(current_leverage) => Ok(
            current_leverage <= custody.pricing.max_leverage && (!initial || (current_leverage
                >= custody.pricing.min_initial_leverage && current_leverage
                <= custody.pricing.max_initial_leverage)),
        ),
    }
}

impl Pool {
    /// The settlement of a close: what to transfer to the trader, the fee,
    /// and the realized profit and loss.
    pub fn get_close_amount(
        &self,
        position: &Position,
        token_price: &OraclePrice,
        token_ema_price: &OraclePrice,
        custody: &Custody,
        collateral_token_price: &OraclePrice,
        collateral_token_ema_price: &OraclePrice,
        collateral_custody: &Custody,
        curtime: i64,
        liquidation: bool,
    ) -> (r: Result<(u64, u64, u64, u64), PerpetualsError>)
        ensures
            r == spec_get_close_amount(*position, *token_price, *token_ema_price, *custody,
                *collateral_token_price, *collateral_token_ema_price, *collateral_custody,
                curtime, liquidation),
    {
        let (profit_usd, loss_usd, fee_amount) = match self.get_pnl_usd(
            position,
            token_price,
            token_ema_price,
            custody,
            collateral_token_price,
            collateral_token_ema_price,
            collateral_custody,
            curtime,
            liquidation,
        ) {
            Ok(v) => v,
            Err(e) => {
                return Err(e);
            },
        };
        let available_amount_usd: u64 = if profit_usd > 0 {
            match math::checked_add(position.collateral_usd, profit_usd) {
                Ok(v) => v,
                Err(e) => {
                    return Err(e);
                },
            }
        } else if loss_usd < position.collateral_usd {
            position.collateral_usd - loss_usd
        } else {
            0
        };
        let max_collateral_price = if collateral_token_price.gt(collateral_token_ema_price) {
            *collateral_token_price
        } else {
            *collateral_token_ema_price
        };
        let close_amount = match max_collateral_price.get_token_amount(available_amount_usd,
            collateral_custody.decimals) {
            Ok(v) => v,
            Err(e) => {
                return Err(e);
            },
        };
        let unlocked = position.locked_amount.saturating_sub(fee_amount);
        let max_amount = match math::checked_add(unlocked, position.collateral_amount) {
            Ok(v) => v,
            Err(e) => {
                return Err(e);
            },
        };
        let transfer = if max_amount < close_amount {
            max_amount
        } else {
            close_amount
        };
        Ok((transfer, fee_amount, profit_usd, loss_usd))
    }

    /// Current leverage of a position, in basis points.
    pub fn get_leverage(
        &self,
        position: &Position,
        token_price: &OraclePrice,
        token_ema_price: &OraclePrice,
        custody: &Custody,
        collateral_token_price: &OraclePrice,
        collateral_token_ema_price: &OraclePrice,
        collateral_custody: &Custody,
        curtime: i64,
    ) -> (r: Result<u64, PerpetualsError>)
        ensures
            r == spec_get_leverage(*position, *token_price, *token_ema_price, *custody,
                *collateral_token_price, *collateral_token_ema_price, *collateral_custody,
                curtime),
    {
        let (profit_usd, loss_usd, _fee) = match self.get_pnl_usd(
            position,
            token_price,
            token_ema_price,
            custody,
            collateral_token_price,
            collateral_token_ema_price,
            collateral_custody,
            curtime,
            false,
        ) {
            Ok(v) => v,
            Err(e) => {
                return Err(e);
            },
        };
        let current_margin_usd: u64 = if profit_usd > 0 {
            match math::checked_add(position.collateral_usd, profit_usd) {
                Ok(v) => v,
                Err(e) => {
                    return Err(e);
                },
            }
        } else if loss_usd <= position.collateral_usd {
            position.collateral_usd - loss_usd
        } else {
            0
        };
        if current_margin_usd > 0 {
            proof {
                math::lemma_u64_mul_fits_u128(position.size_usd, BPS_POWER);
            }
            let lev: u128 = ((position.size_usd as u128) * (BPS_POWER as u128)) / (
            current_margin_usd as u128);
            math::checked_as_u64(lev)
        } else {
            Ok(u64::MAX)
        }
    }

    /// Whether the position's leverage stays within the custody's limits;
    /// `initial` additionally enforces the entry band.
    pub fn check_leverage(
        &self,
        position: &Position,
        token_price: &OraclePrice,
        token_ema_price: &OraclePrice,
        custody: &Custody,
        collateral_token_price: &OraclePrice,
        collateral_token_ema_price: &OraclePrice,
        collateral_custody: &Custody,
        curtime: i64,
        initial: bool,
    ) -> (r: Result<bool, PerpetualsError>)
        ensures
            r == spec_check_leverage(*position, *token_price, *token_ema_price, *custody,
                *collateral_token_price, *collateral_token_ema_price, *collateral_custody,
                curtime, initial),
    {
        let current_leverage = match self.get_leverage(
            position,
            token_price,
            token_ema_price,
            custody,
            collateral_token_price,
            collateral_token_ema_price,
            collateral_custody,
            curtime,
        ) {
            Ok(v) => v,
            Err(e) => {
                return Err(e);
            },
        };
        Ok(
            current_leverage <= custody.pricing.max_leverage && (!initial || (current_leverage
                >= custody.pricing.min_initial_leverage && current_leverage
                <= custody.pricing.max_initial_leverage)),
        )
    }
}

/// What `get_liquidation_price` returns: the price at which the margin no
/// longer covers the maximum tolerated loss plus fees and interest, solved
/// from the leverage formula; zero when the position cannot be liquidated
/// on its side of the entry price.
pub open spec fn spec_get_liquidation_price(
    position: Position,
    token_ema_price: OraclePrice,
    custody: Custody,
    collateral_custody: Custody,
    curtime: i64,
) -> Result<u64, PerpetualsError> {
    if position.size_usd == 0 || position.price == 0 {
        Ok(0)
    } else {
        match token_ema_price.spec_token_amount(position.size_usd, custody.decimals) {
            Err(e) => Err(e),
            Ok(size) => match spec_get_fee_amount(custody.fees.close_position, size) {
                Err(e) => Err(e),
                Ok(exit_fee_tokens) => match token_ema_price.spec_asset_amount_usd(
                    exit_fee_tokens,
                    custody.decimals,
                ) {
                    Err(e) => Err(e),
                    Ok(exit_fee_usd) => match collateral_custody.spec_interest_amount_usd(
                        position,
                        curtime,
                    ) {
                        Err(e) => Err(e),
                        Ok(interest_usd) => {
                            if exit_fee_usd + interest_usd > u64::MAX {
                                Err(PerpetualsError::MathOverflow)
                            } else if exit_fee_usd + interest_usd + position.unrealized_loss_usd
                                > u64::MAX {
                                Err(PerpetualsError::MathOverflow)
                            } else {
                                spec_liquidation_price_from_losses(
                                    position,
                                    custody,
                                    (exit_fee_usd + interest_usd
                                        + position.unrealized_loss_usd) as u64,
                                )
                            }
                        },
                    },
                },
            },
        }
    }
}

/// The tail of `spec_get_liquidation_price`, once the unavoidable losses
/// are known.
pub open spec fn spec_liquidation_price_from_losses(
    position: Position,
    custody: Custody,
    unrealized_loss_usd: u64,
) -> Result<u64, PerpetualsError> {
    if custody.pricing.max_leverage == 0 {
        Err(PerpetualsError::DivideByZero)
    } else {
        let max_loss0 = (position.size_usd * BPS_POWER) / (custody.pricing.max_leverage as int);
        if max_loss0 > u64::MAX {
            Err(PerpetualsError::MathOverflow)
        } else if max_loss0 + unrealized_loss_usd > u64::MAX {
            Err(PerpetualsError::MathOverflow)
        } else if position.collateral_usd + position.unrealized_profit_usd > u64::MAX {
            Err(PerpetualsError::MathOverflow)
        } else {
            let max_loss_usd = max_loss0 + unrealized_loss_usd;
            let margin_usd = position.collateral_usd + position.unrealized_profit_usd;
            let max_price_diff_usd: int = if max_loss_usd >= margin_usd {
                max_loss_usd - margin_usd
            } else {
                margin_usd - max_loss_usd
            };
            match crate::math::spec_scale_to_exponent(
                position.price,
                PRICE_EXPONENT as int,
                crate::perps::USD_EXPONENT as int,
            ) {
                Err(e) => Err(e),
                Ok(position_price) => {
                    let diff0 = (max_price_diff_usd * position_price) / (position.size_usd as int);
                    if diff0 > u64::MAX {
                        Err(PerpetualsError::MathOverflow)
                    } else {
                        match crate::math::spec_scale_to_exponent(
                            diff0 as u64,
                            crate::perps::USD_EXPONENT as int,
                            PRICE_EXPONENT as int,
                        ) {
                            Err(e) => Err(e),
                            Ok(max_price_diff) => {
                                if position.side == Side::Long {
                                    if max_loss_usd >= margin_usd {
                                        if position.price + max_price_diff > u64::MAX {
                                            Err(PerpetualsError::MathOverflow)
                                        } else {
                                            Ok((position.price + max_price_diff) as u64)
                                        }
                                    } else if position.price > max_price_diff {
                                        Ok((position.price - max_price_diff) as u64)
                                    } else {
                                        Ok(0)
                                    }
                                } else if max_loss_usd >= margin_usd {
                                    if position.price > max_price_diff {
                                        Ok((position.price - max_price_diff) as u64)
                                    } else {
                                        Ok(0)
                                    }
                                } else {
                                    if position.price + max_price_diff > u64::MAX {
                                        Err(PerpetualsError::MathOverflow)
                                    } else {
                                        Ok((position.price + max_price_diff) as u64)
                                    }
                                }
                            },
                        }
                    }
                },
            }
        }
    }
}

impl Pool {
    /// The oracle price at which the position becomes liquidatable.
    pub fn get_liquidation_price(
        &self,
        position: &Position,
        token_ema_price: &OraclePrice,
        custody: &Custody,
        collateral_custody: &Custody,
        curtime: i64,
    ) -> (r: Result<u64, PerpetualsError>)
        ensures
            r == spec_get_liquidation_price(*position, *token_ema_price, *custody,
                *collateral_custody, curtime),
    {
        if position.size_usd == 0 || position.price == 0 {
            return Ok(0);
        }
        let size = match token_ema_price.get_token_amount(position.size_usd, custody.decimals) {
            Ok(v) => v,
            Err(e) => {
                return Err(e);
            },
        };
        let exit_fee_tokens = match self.get_exit_fee(size, custody) {
            Ok(v) => v,
            Err(e) => {
                return Err(e);
            },
        };
        let exit_fee_usd = match token_ema_price.get_asset_amount_usd(exit_fee_tokens,
            custody.decimals) {
            Ok(v) => v,
            Err(e) => {
                return Err(e);
            },
        };
        let interest_usd = match collateral_custody.get_interest_amount_usd(position, curtime) {
            Ok(v) => v,
            Err(e) => {
                return Err(e);
            },
        };
        let loss_part = match math::checked_add(exit_fee_usd, interest_usd) {
            Ok(v) => v,
            Err(e) => {
                return Err(e);
            },
        };
        let unrealized_loss_usd = match math::checked_add(loss_part,
            position.unrealized_loss_usd) {
            Ok(v) => v,
            Err(e) => {
                return Err(e);
            },
        };
        if custody.pricing.max_leverage == 0 {
            return Err(PerpetualsError::DivideByZero);
        }
        proof {
            math::lemma_u64_mul_fits_u128(position.size_usd, BPS_POWER);
        }
        let max_loss_wide: u128 = ((position.size_usd as u128) * (BPS_POWER as u128)) / (
        custody.pricing.max_leverage as u128);
        let max_loss0 = match math::checked_as_u64(max_loss_wide) {
            Ok(v) => v,
            Err(e) => {
                return Err(e);
            },
        };
        let max_loss_usd = match math::checked_add(max_loss0, unrealized_loss_usd) {
            Ok(v) => v,
            Err(e) => {
                return Err(e);
            },
        };
        let margin_usd = match math::checked_add(position.collateral_usd,
            position.unrealized_profit_usd) {
            Ok(v) => v,
            Err(e) => {
                return Err(e);
            },
        };
        let max_price_diff_usd: u64 = if max_loss_usd >= margin_usd {
            max_loss_usd - margin_usd
        } else {
            margin_usd - max_loss_usd
        };
        let position_price = match math::scale_to_exponent(position.price, PRICE_EXPONENT,
            crate::perps::USD_EXPONENT) {
            Ok(v) => v,
            Err(e) => {
                return Err(e);
            },
        };
        proof {
            math::lemma_u64_mul_fits_u128(max_price_diff_usd, position_price);
        }
        let diff_wide: u128 = ((max_price_diff_usd as u128) * (position_price as u128)) / (
        position.size_usd as u128);
        let diff0 = match math::checked_as_u64(diff_wide) {
            Ok(v) => v,
            Err(e) => {
                return Err(e);
            },
        };
        let max_price_diff = match math::scale_to_exponent(diff0, crate::perps::USD_EXPONENT,
            PRICE_EXPONENT) {
            Ok(v) => v,
            Err(e) => {
                return Err(e);
            },
        };
        if position.side == Side::Long {
            if max_loss_usd >= margin_usd {
                math::checked_add(position.price, max_price_diff)
            } else if position.price > max_price_diff {
                Ok(position.price - max_price_diff)
            } else {
                Ok(0)
            }
        } else if max_loss_usd >= margin_usd {
            if position.price > max_price_diff {
                Ok(position.price - max_price_diff)
            } else {
                Ok(0)
            }
        } else {
            math::checked_add(position.price, max_price_diff)
        }
    }
}


/// One custody's contribution to the pool valuation: its owned tokens at
/// the selected price, plus, when configured, accrued interest (stable
/// custodies) or the aggregate unrealized loss less the aggregate
/// unrealized profit of its open positions.
pub open spec fn spec_aum_step(
    mode: AumCalcMode,
    custody: Custody,
    token_price: OraclePrice,
    token_ema_price: OraclePrice,
    curtime: i64,
    acc: u128,
) -> Result<u128, PerpetualsError> {
    let aum_token_price = match mode {
        AumCalcMode::Last => token_price,
        AumCalcMode::EMA => token_ema_price,
        AumCalcMode::Min => spec_min_price(token_price, token_ema_price),
        AumCalcMode::Max => spec_max_price(token_price, token_ema_price),
    };
    match aum_token_price.spec_asset_amount_usd(custody.assets.owned, custody.decimals) {
        Err(e) => Err(e),
        Ok(token_amount_usd) => {
            if acc + token_amount_usd > u128::MAX {
                Err(PerpetualsError::MathOverflow)
            } else {
                let acc1 = (acc + token_amount_usd) as u128;
                if custody.pricing.use_unrealized_pnl_in_aum {
                    if custody.is_stable {
                        spec_aum_stable_interest(custody, curtime, acc1)
                    } else {
                        spec_aum_unrealized_pnl(custody, token_price, token_ema_price, curtime,
                            acc1)
                    }
                } else {
                    Ok(acc1)
                }
            }
        },
    }
}

/// The interest part of a stable custody's contribution to the valuation.
pub open spec fn spec_aum_stable_interest(custody: Custody, curtime: i64, acc: u128) -> Result<
    u128,
    PerpetualsError,
> {
    match custody.spec_collective_position(Side::Long) {
        Err(e) => Err(e),
        Ok(cl) => match custody.spec_interest_amount_usd(cl, curtime) {
            Err(e) => Err(e),
            Ok(il) => {
                if acc + il > u128::MAX {
                    Err(PerpetualsError::MathOverflow)
                } else {
                    match custody.spec_collective_position(Side::Short) {
                        Err(e) => Err(e),
                        Ok(cs) => match custody.spec_interest_amount_usd(cs, curtime) {
                            Err(e) => Err(e),
                            Ok(is) => {
                                if acc + il + is > u128::MAX {
                                    Err(PerpetualsError::MathOverflow)
                                } else {
                                    Ok((acc + il + is) as u128)
                                }
                            },
                        },
                    }
                }
            },
        },
    }
}

/// The unrealized-P&L part of a non-stable custody's contribution: traders'
/// collective losses add to the pool's value, their collective profits
/// subtract from it (saturating at zero).
pub open spec fn spec_aum_unrealized_pnl(
    custody: Custody,
    token_price: OraclePrice,
    token_ema_price: OraclePrice,
    curtime: i64,
    acc: u128,
) -> Result<u128, PerpetualsError> {
    match custody.spec_collective_position(Side::Long) {
        Err(e) => Err(e),
        Ok(cl) => match spec_get_pnl_usd(cl, token_price, token_ema_price, custody, token_price,
            token_ema_price, custody, curtime, false) {
            Err(e) => Err(e),
            Ok((long_profit, long_loss, lf)) => match custody.spec_collective_position(
                Side::Short,
            ) {
                Err(e) => Err(e),
                Ok(cs) => match spec_get_pnl_usd(cs, token_price, token_ema_price, custody,
                    token_price, token_ema_price, custody, curtime, false) {
                    Err(e) => Err(e),
                    Ok((short_profit, short_loss, sf)) => {
                        if acc + long_loss > u128::MAX {
                            Err(PerpetualsError::MathOverflow)
                        } else if acc + long_loss + short_loss > u128::MAX {
                            Err(PerpetualsError::MathOverflow)
                        } else {
                            let gross = (acc + long_loss + short_loss) as u128;
                            let after_long: u128 = if gross >= long_profit {
                                (gross - long_profit) as u128
                            } else {
                                0
                            };
                            let after_short: u128 = if after_long >= short_profit {
                                (after_long - short_profit) as u128
                            } else {
                                0
                            };
                            Ok(after_short)
                        }
                    },
                },
            },
        },
    }
}

/// The valuation of the first `n` custodies, folded left to right.
pub open spec fn spec_aum_prefix(
    mode: AumCalcMode,
    custodies: Seq<Custody>,
    token_prices: Seq<OraclePrice>,
    token_ema_prices: Seq<OraclePrice>,
    curtime: i64,
    n: int,
) -> Result<u128, PerpetualsError>
    decreases n,
{
    if n <= 0 {
        Ok(0)
    } else {
        match spec_aum_prefix(mode, custodies, token_prices, token_ema_prices, curtime, n - 1) {
            Err(e) => Err(e),
            Ok(acc) => spec_aum_step(mode, custodies[n - 1], token_prices[n - 1],
                token_ema_prices[n - 1], curtime, acc),
        }
    }
}

/// A failed fold stays failed: once some prefix of the valuation errs,
/// every longer prefix returns the same error.
proof fn lemma_aum_prefix_error(
    mode: AumCalcMode,
    custodies: Seq<Custody>,
    token_prices: Seq<OraclePrice>,
    token_ema_prices: Seq<OraclePrice>,
    curtime: i64,
    i: int,
    n: int,
)
    requires
        0 <= i <= n,
        spec_aum_prefix(mode, custodies, token_prices, token_ema_prices, curtime, i) is Err,
    ensures
        spec_aum_prefix(mode, custodies, token_prices, token_ema_prices, curtime, n)
            == spec_aum_prefix(mode, custodies, token_prices, token_ema_prices, curtime, i),
    decreases n - i,
{
    if i < n {
        lemma_aum_prefix_error(mode, custodies, token_prices, token_ema_prices, curtime, i, n - 1);
    }
}

impl Pool {
    fn aum_step(
        &self,
        mode: AumCalcMode,
        custody: &Custody,
        token_price: &OraclePrice,
        token_ema_price: &OraclePrice,
        curtime: i64,
        acc: u128,
    ) -> (r: Result<u128, PerpetualsError>)
        ensures
            r == spec_aum_step(mode, *custody, *token_price, *token_ema_price, curtime, acc),
    {
        let aum_token_price: OraclePrice = match mode {
            AumCalcMode::Last => *token_price,
            AumCalcMode::EMA => *token_ema_price,
            AumCalcMode::Min => {
                if token_price.lt(token_ema_price) {
                    *token_price
                } else {
                    *token_ema_price
                }
            },
            AumCalcMode::Max => {
                if token_price.gt(token_ema_price) {
                    *token_price
                } else {
                    *token_ema_price
                }
            },
        };
        let token_amount_usd = match aum_token_price.get_asset_amount_usd(custody.assets.owned,
            custody.decimals) {
            Ok(v) => v,
            Err(e) => {
                return Err(e);
            },
        };
        let acc1 = match math::checked_add_u128(acc, token_amount_usd as u128) {
            Ok(v) => v,
            Err(e) => {
                return Err(e);
            },
        };
        if !custody.pricing.use_unrealized_pnl_in_aum {
            return Ok(acc1);
        }
        if custody.is_stable {
            let cl = match custody.get_collective_position(Side::Long) {
                Ok(v) => v,
                Err(e) => {
                    return Err(e);
                },
            };
            let il = match custody.get_interest_amount_usd(&cl, curtime) {
                Ok(v) => v,
                Err(e) => {
                    return Err(e);
                },
            };
            let acc2 = match math::checked_add_u128(acc1, il as u128) {
                Ok(v) => v,
                Err(e) => {
                    return Err(e);
                },
            };
            let cs = match custody.get_collective_position(Side::Short) {
                Ok(v) => v,
                Err(e) => {
                    return Err(e);
                },
            };
            let is_usd = match custody.get_interest_amount_usd(&cs, curtime) {
                Ok(v) => v,
                Err(e) => {
                    return Err(e);
                },
            };
            math::checked_add_u128(acc2, is_usd as u128)
        } else {
            let cl = match custody.get_collective_position(Side::Long) {
                Ok(v) => v,
                Err(e) => {
                    return Err(e);
                },
            };
            let (long_profit, long_loss, _lf) = match self.get_pnl_usd(&cl, token_price,
                token_ema_price, custody, token_price, token_ema_price, custody, curtime, false) {
                Ok(v) => v,
                Err(e) => {
                    return Err(e);
                },
            };
            let cs = match custody.get_collective_position(Side::Short) {
                Ok(v) => v,
                Err(e) => {
                    return Err(e);
                },
            };
            let (short_profit, short_loss, _sf) = match self.get_pnl_usd(&cs, token_price,
                token_ema_price, custody, token_price, token_ema_price, custody, curtime, false) {
                Ok(v) => v,
                Err(e) => {
                    return Err(e);
                },
            };
            let acc2 = match math::checked_add_u128(acc1, long_loss as u128) {
                Ok(v) => v,
                Err(e) => {
                    return Err(e);
                },
            };
            let acc3 = match math::checked_add_u128(acc2, short_loss as u128) {
                Ok(v) => v,
                Err(e) => {
                    return Err(e);
                },
            };
            let acc4 = if acc3 >= long_profit as u128 {
                acc3 - long_profit as u128
            } else {
                0
            };
            let acc5 = if acc4 >= short_profit as u128 {
                acc4 - short_profit as u128
            } else {
                0
            };
            Ok(acc5)
        }
    }

    /// USD value of all custodies' owned tokens at the selected prices,
    /// optionally adjusted by the traders' aggregate unrealized P&L. The
    /// caller hands in the custody records and their already-fetched prices
    /// in this pool's custody order.
    pub fn get_assets_under_management_usd(
        &self,
        aum_calc_mode: AumCalcMode,
        custodies: &Vec<Custody>,
        token_prices: &Vec<OraclePrice>,
        token_ema_prices: &Vec<OraclePrice>,
        curtime: i64,
    ) -> (r: Result<u128, PerpetualsError>)
        requires
            custodies@.len() == self.custodies@.len(),
            token_prices@.len() == custodies@.len(),
            token_ema_prices@.len() == custodies@.len(),
            forall|i: int|
                0 <= i < custodies@.len() ==> custodies@[i].key == self.custodies@[i],
        ensures
            r == spec_aum_prefix(aum_calc_mode, custodies@, token_prices@, token_ema_prices@,
                curtime, custodies@.len() as int),
    {
        let n = custodies.len();
        let mut pool_amount_usd: u128 = 0;
        let mut i: usize = 0;
        while i < n
            invariant
                i <= n,
                n == custodies@.len(),
                token_prices@.len() == n,
                token_ema_prices@.len() == n,
                spec_aum_prefix(aum_calc_mode, custodies@, token_prices@, token_ema_prices@,
                    curtime, i as int) == Ok::<u128, PerpetualsError>(pool_amount_usd),
            decreases n - i,
        {
            let step = self.aum_step(aum_calc_mode, &custodies[i], &token_prices[i],
                &token_ema_prices[i], curtime, pool_amount_usd);
            match step {
                Ok(v) => {
                    pool_amount_usd = v;
                },
                Err(e) => {
                    proof {
                        lemma_aum_prefix_error(aum_calc_mode, custodies@, token_prices@,
                            token_ema_prices@, curtime, i as int + 1, n as int);
                    }
                    return Err(e);
                },
            }
            i = i + 1;
        }
        Ok(pool_amount_usd)
    }
}

} // verus!
