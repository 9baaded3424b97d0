//! Per-asset bookkeeping: owned and locked funds, borrow-rate state,
//! aggregate position statistics, fee accumulators and policy parameters.

use vstd::prelude::*;
use vstd::arithmetic::mul::lemma_mul_upper_bound;
use crate::error::PerpetualsError;
use crate::math;
use crate::math::ceil_div;
use crate::oracle::{OracleParams, OraclePrice};
use crate::perps::{BPS_POWER, Permissions, RATE_POWER};
use crate::position::{Position, Side};

verus! {

/// How liquidity and swap fees respond to a custody's share of pool value.
#[derive(Clone, Copy, Debug, PartialEq, Eq, Structural)]
pub enum FeesMode {
    Fixed,
    Linear,
    Optimal,
}

impl Default for FeesMode {
    fn default() -> (r: Self)
        ensures
            r == FeesMode::Linear,
    {
        FeesMode::Linear
    }
}

/// Fee rates, in basis points, plus the parameters of the linear and
/// optimal fee curves.
#[derive(Clone, Copy, Debug, PartialEq, Eq, Structural)]
pub struct Fees {
    pub mode: FeesMode,
    pub ratio_mult: u64,
    pub utilization_mult: u64,
    pub swap_in: u64,
    pub swap_out: u64,
    pub stable_swap_in: u64,
    pub stable_swap_out: u64,
    pub add_liquidity: u64,
    pub remove_liquidity: u64,
    pub open_position: u64,
    pub close_position: u64,
    pub liquidation: u64,
    pub protocol_share: u64,
    pub fee_max: u64,
    pub fee_optimal: u64,
}

/// Fees collected so far, by operation, in USD.
#[derive(Clone, Copy, Debug, PartialEq, Eq, Structural)]
pub struct FeesStats {
    pub swap_usd: u64,
    pub add_liquidity_usd: u64,
    pub remove_liquidity_usd: u64,
    pub open_position_usd: u64,
    pub close_position_usd: u64,
    pub liquidation_usd: u64,
}

/// Volume moved so far, by operation, in USD.
#[derive(Clone, Copy, Debug, PartialEq, Eq, Structural)]
pub struct VolumeStats {
    pub swap_usd: u64,
    pub add_liquidity_usd: u64,
    pub remove_liquidity_usd: u64,
    pub open_position_usd: u64,
    pub close_position_usd: u64,
    pub liquidation_usd: u64,
}

/// Realized trader profit and loss, and open interest per side, in USD.
#[derive(Clone, Copy, Debug, PartialEq, Eq, Structural)]
pub struct TradeStats {
    pub profit_usd: u64,
    pub loss_usd: u64,
    pub oi_long_usd: u64,
    pub oi_short_usd: u64,
}

/// The custody's token buckets. `owned` is what belongs to the pool;
/// `collateral` is debt held for traders; `locked` is reserved out of
/// `owned` to guarantee capped payoffs; `protocol_fees` is the protocol's
/// share of collected fees.
#[derive(Clone, Copy, Debug, PartialEq, Eq, Structural)]
pub struct Assets {
    pub collateral: u64,
    pub protocol_fees: u64,
    pub owned: u64,
    pub locked: u64,
}

/// Pricing and risk policy, mostly in basis points; `_usd` fields carry USD
/// decimals.
#[derive(Clone, Copy, Debug, PartialEq, Eq, Structural)]
pub struct PricingParams {
    pub use_ema: bool,
    pub use_unrealized_pnl_in_aum: bool,
    pub trade_spread_long: u64,
    pub trade_spread_short: u64,
    pub swap_spread: u64,
    pub min_initial_leverage: u64,
    pub max_initial_leverage: u64,
    pub max_leverage: u64,
    pub max_payoff_mult: u64,
    pub max_utilization: u64,
    pub max_position_locked_usd: u64,
    pub max_total_locked_usd: u64,
}

/// The two-slope kinked borrow-rate curve, in rate decimals.
#[derive(Clone, Copy, Debug, PartialEq, Eq, Structural)]
pub struct BorrowRateParams {
    pub base_rate: u64,
    pub slope1: u64,
    pub slope2: u64,
    pub optimal_utilization: u64,
}

/// The running borrow-rate state: the current hourly rate and the
/// compounded interest accumulator.
#[derive(Clone, Copy, Debug, PartialEq, Eq, Structural)]
pub struct BorrowRateState {
    pub current_rate: u64,
    pub cumulative_interest: u128,
    pub last_update: i64,
}

/// Aggregate statistics over all open positions of one side.
#[derive(Clone, Copy, Debug, PartialEq, Eq, Structural)]
pub struct PositionStats {
    pub open_positions: u64,
    pub collateral_usd: u64,
    pub size_usd: u64,
    pub borrow_size_usd: u64,
    pub locked_amount: u64,
    /// Sum over open positions of `price * quantity`.
    pub weighted_price: u128,
    /// Sum over open positions of `quantity`.
    pub total_quantity: u128,
    pub cumulative_interest_usd: u64,
    pub cumulative_interest_snapshot: u128,
}

impl PositionStats {
    /// The all-zero aggregate.
    pub open spec fn spec_default() -> PositionStats {
        PositionStats {
            open_positions: 0,
            collateral_usd: 0,
            size_usd: 0,
            borrow_size_usd: 0,
            locked_amount: 0,
            weighted_price: 0,
            total_quantity: 0,
            cumulative_interest_usd: 0,
            cumulative_interest_snapshot: 0,
        }
    }
}

impl Default for PositionStats {
    fn default() -> (r: Self)
        ensures
            r == PositionStats::spec_default(),
    {
        PositionStats {
            open_positions: 0,
            collateral_usd: 0,
            size_usd: 0,
            borrow_size_usd: 0,
            locked_amount: 0,
            weighted_price: 0,
            total_quantity: 0,
            cumulative_interest_usd: 0,
            cumulative_interest_snapshot: 0,
        }
    }
}

/// One tradable or collateral token of a pool: its static policy and its
/// dynamic accounting. `key` is the record's account identifier, assigned by
/// the host; `pool` and `mint` identify what it belongs to and holds.
#[derive(Clone, Copy, Debug, PartialEq, Eq, Structural)]
pub struct Custody {
    pub key: u64,
    pub pool: u64,
    pub mint: u64,
    pub token_account: u64,
    pub decimals: u8,
    pub is_stable: bool,
    pub is_virtual: bool,
    pub oracle: OracleParams,
    pub pricing: PricingParams,
    pub permissions: Permissions,
    pub fees: Fees,
    pub borrow_rate: BorrowRateParams,

    pub assets: Assets,
    pub collected_fees: FeesStats,
    pub volume_stats: VolumeStats,
    pub trade_stats: TradeStats,
    pub long_positions: PositionStats,
    pub short_positions: PositionStats,
    pub borrow_rate_state: BorrowRateState,

    pub bump: u8,
    pub token_account_bump: u8,
}

/// What removing one position does to a side's aggregate statistics, past
/// the last-position reset: the inverse of `spec_stats_with_position`, with
/// the interest settlement saturating at zero.
pub open spec fn spec_stats_without_position(
    st0: PositionStats,
    position: Position,
    interest_usd: u64,
    snapshot_now: u128,
    position_interest_usd: u64,
    own_interest: bool,
) -> Result<PositionStats, PerpetualsError> {
    if own_interest && st0.cumulative_interest_usd + interest_usd > u64::MAX {
        Err(PerpetualsError::MathOverflow)
    } else if own_interest && st0.borrow_size_usd < position.borrow_size_usd {
        Err(PerpetualsError::MathOverflow)
    } else {
        let st1 = if own_interest {
            let folded = (st0.cumulative_interest_usd + interest_usd) as u64;
            let settled: u64 = if folded >= position_interest_usd {
                (folded - position_interest_usd) as u64
            } else {
                0
            };
            PositionStats {
                cumulative_interest_usd: settled,
                cumulative_interest_snapshot: snapshot_now,
                borrow_size_usd: (st0.borrow_size_usd - position.borrow_size_usd) as u64,
                ..st0
            }
        } else {
            st0
        };
        if st1.open_positions < 1 {
            Err(PerpetualsError::MathOverflow)
        } else if st1.size_usd < position.size_usd {
            Err(PerpetualsError::MathOverflow)
        } else if st1.locked_amount < position.locked_amount {
            Err(PerpetualsError::MathOverflow)
        } else {
            let st2 = PositionStats {
                open_positions: (st1.open_positions - 1) as u64,
                size_usd: (st1.size_usd - position.size_usd) as u64,
                locked_amount: (st1.locked_amount - position.locked_amount) as u64,
                ..st1
            };
            match crate::math::spec_scale_to_exponent(
                position.price,
                crate::perps::PRICE_EXPONENT as int,
                crate::perps::USD_EXPONENT as int,
            ) {
                Err(e) => Err(e),
                Ok(position_price) => {
                    if position_price == 0 {
                        Err(PerpetualsError::DivideByZero)
                    } else {
                        let quantity = (position.size_usd * BPS_POWER) / (position_price as int);
                        if position.price * quantity > u128::MAX {
                            Err(PerpetualsError::MathOverflow)
                        } else if st2.weighted_price < position.price * quantity {
                            Err(PerpetualsError::MathOverflow)
                        } else if st2.total_quantity < quantity {
                            Err(PerpetualsError::MathOverflow)
                        } else {
                            Ok(
                                PositionStats {
                                    weighted_price: (st2.weighted_price - position.price
                                        * quantity) as u128,
                                    total_quantity: (st2.total_quantity - quantity) as u128,
                                    ..st2
                                },
                            )
                        }
                    }
                },
            }
        }
    }
}

/// One side's aggregates with `position` taken out, or the arithmetic
/// failure encountered on the way.
fn stats_without_position(
    st0: PositionStats,
    position: &Position,
    interest_usd: u64,
    snapshot_now: u128,
    position_interest_usd: u64,
    own_interest: bool,
) -> (r: Result<PositionStats, PerpetualsError>)
    ensures
        r == spec_stats_without_position(st0, *position, interest_usd, snapshot_now,
            position_interest_usd, own_interest),
{
    let mut st = st0;
    if own_interest {
        let folded = match math::checked_add(st.cumulative_interest_usd, interest_usd) {
            Ok(v) => v,
            Err(e) => {
                return Err(e);
            },
        };
        st.cumulative_interest_usd = folded.saturating_sub(position_interest_usd);
        st.cumulative_interest_snapshot = snapshot_now;
        st.borrow_size_usd = match math::checked_sub(st.borrow_size_usd,
            position.borrow_size_usd) {
            Ok(v) => v,
            Err(e) => {
                return Err(e);
            },
        };
    }
    st.open_positions = match math::checked_sub(st.open_positions, 1) {
        Ok(v) => v,
        Err(e) => {
            return Err(e);
        },
    };
    st.size_usd = match math::checked_sub(st.size_usd, position.size_usd) {
        Ok(v) => v,
        Err(e) => {
            return Err(e);
        },
    };
    st.locked_amount = match math::checked_sub(st.locked_amount, position.locked_amount) {
        Ok(v) => v,
        Err(e) => {
            return Err(e);
        },
    };
    let position_price = match math::scale_to_exponent(
        position.price,
        crate::perps::PRICE_EXPONENT,
        crate::perps::USD_EXPONENT,
    ) {
        Ok(v) => v,
        Err(e) => {
            return Err(e);
        },
    };
    proof {
        math::lemma_u64_mul_fits_u128(position.size_usd, BPS_POWER);
    }
    let quantity = match math::checked_div_u128(
        (position.size_usd as u128) * (BPS_POWER as u128),
        position_price as u128,
    ) {
        Ok(v) => v,
        Err(e) => {
            return Err(e);
        },
    };
    let weighted_part = match math::checked_mul_u128(position.price as u128, quantity) {
        Ok(v) => v,
        Err(e) => {
            return Err(e);
        },
    };
    st.weighted_price = match math::checked_sub_u128(st.weighted_price, weighted_part) {
        Ok(v) => v,
        Err(e) => {
            return Err(e);
        },
    };
    st.total_quantity = match math::checked_sub_u128(st.total_quantity, quantity) {
        Ok(v) => v,
        Err(e) => {
            return Err(e);
        },
    };
    Ok(st)
}

/// What adding one position does to a side's aggregate statistics: bump the
/// counters, fold the side's accrued interest and the position's borrow when
/// this custody also holds the collateral, and extend the weighted-price sum
/// by the position's `price * quantity`.
pub open spec fn spec_stats_with_position(
    st0: PositionStats,
    position: Position,
    interest_usd: u64,
    own_interest: bool,
) -> Result<PositionStats, PerpetualsError> {
    if st0.open_positions + 1 > u64::MAX {
        Err(PerpetualsError::MathOverflow)
    } else if st0.size_usd + position.size_usd > u64::MAX {
        Err(PerpetualsError::MathOverflow)
    } else if st0.locked_amount + position.locked_amount > u64::MAX {
        Err(PerpetualsError::MathOverflow)
    } else {
        let st1 = PositionStats {
            open_positions: (st0.open_positions + 1) as u64,
            size_usd: (st0.size_usd + position.size_usd) as u64,
            locked_amount: (st0.locked_amount + position.locked_amount) as u64,
            ..st0
        };
        if own_interest && st1.cumulative_interest_usd + interest_usd > u64::MAX {
            Err(PerpetualsError::MathOverflow)
        } else if own_interest && st1.borrow_size_usd + position.borrow_size_usd > u64::MAX {
            Err(PerpetualsError::MathOverflow)
        } else {
            let st2 = if own_interest {
                PositionStats {
                    cumulative_interest_usd: (st1.cumulative_interest_usd + interest_usd) as u64,
                    cumulative_interest_snapshot: position.cumulative_interest_snapshot,
                    borrow_size_usd: (st1.borrow_size_usd + position.borrow_size_usd) as u64,
                    ..st1
                }
            } else {
                st1
            };
            match crate::math::spec_scale_to_exponent(
                position.price,
                crate::perps::PRICE_EXPONENT as int,
                crate::perps::USD_EXPONENT as int,
            ) {
                Err(e) => Err(e),
                Ok(position_price) => {
                    if position_price == 0 {
                        Err(PerpetualsError::DivideByZero)
                    } else {
                        let quantity = (position.size_usd * BPS_POWER) / (position_price as int);
                        if position.price * quantity > u128::MAX {
                            Err(PerpetualsError::MathOverflow)
                        } else if st2.weighted_price + position.price * quantity > u128::MAX {
                            Err(PerpetualsError::MathOverflow)
                        } else if st2.total_quantity + quantity > u128::MAX {
                            Err(PerpetualsError::MathOverflow)
                        } else {
                            Ok(
                                PositionStats {
                                    weighted_price: (st2.weighted_price + position.price
                                        * quantity) as u128,
                                    total_quantity: (st2.total_quantity + quantity) as u128,
                                    ..st2
                                },
                            )
                        }
                    }
                },
            }
        }
    }
}

/// One side's aggregates with `position` added, or the arithmetic failure
/// encountered on the way.
fn stats_with_position(
    st0: PositionStats,
    position: &Position,
    interest_usd: u64,
    own_interest: bool,
) -> (r: Result<PositionStats, PerpetualsError>)
    ensures
        r == spec_stats_with_position(st0, *position, interest_usd, own_interest),
{
    let open_positions = match math::checked_add(st0.open_positions, 1) {
        Ok(v) => v,
        Err(e) => {
            return Err(e);
        },
    };
    let size_usd = match math::checked_add(st0.size_usd, position.size_usd) {
        Ok(v) => v,
        Err(e) => {
            return Err(e);
        },
    };
    let locked_amount = match math::checked_add(st0.locked_amount, position.locked_amount) {
        Ok(v) => v,
        Err(e) => {
            return Err(e);
        },
    };
    let mut st = PositionStats { open_positions, size_usd, locked_amount, ..st0 };
    if own_interest {
        st.cumulative_interest_usd = match math::checked_add(st.cumulative_interest_usd,
            interest_usd) {
            Ok(v) => v,
            Err(e) => {
                return Err(e);
            },
        };
        st.cumulative_interest_snapshot = position.cumulative_interest_snapshot;
        st.borrow_size_usd = match math::checked_add(st.borrow_size_usd,
            position.borrow_size_usd) {
            Ok(v) => v,
            Err(e) => {
                return Err(e);
            },
        };
    }
    let position_price = match math::scale_to_exponent(
        position.price,
        crate::perps::PRICE_EXPONENT,
        crate::perps::USD_EXPONENT,
    ) {
        Ok(v) => v,
        Err(e) => {
            return Err(e);
        },
    };
    proof {
        math::lemma_u64_mul_fits_u128(position.size_usd, BPS_POWER);
    }
    let quantity = match math::checked_div_u128(
        (position.size_usd as u128) * (BPS_POWER as u128),
        position_price as u128,
    ) {
        Ok(v) => v,
        Err(e) => {
            return Err(e);
        },
    };
    let weighted_part = match math::checked_mul_u128(position.price as u128, quantity) {
        Ok(v) => v,
        Err(e) => {
            return Err(e);
        },
    };
    st.weighted_price = match math::checked_add_u128(st.weighted_price, weighted_part) {
        Ok(v) => v,
        Err(e) => {
            return Err(e);
        },
    };
    st.total_quantity = match math::checked_add_u128(st.total_quantity, quantity) {
        Ok(v) => v,
        Err(e) => {
            return Err(e);
        },
    };
    Ok(st)
}


/// An earlier on-disk pricing layout, kept so hosts can migrate old
/// accounts; no engine function reads it.
#[derive(Clone, Copy, Debug, PartialEq, Eq, Structural)]
pub struct DeprecatedPricingParams {
    pub use_ema: bool,
    pub use_unrealized_pnl_in_aum: bool,
    pub trade_spread_long: u64,
    pub trade_spread_short: u64,
    pub swap_spread: u64,
    pub min_initial_leverage: u64,
    pub max_leverage: u64,
    pub max_payoff_mult: u64,
}

/// An earlier on-disk custody layout (before virtual custodies), kept so
/// hosts can migrate old accounts; no engine function reads it.
#[derive(Clone, Copy, Debug, PartialEq, Eq, Structural)]
pub struct DeprecatedCustody {
    pub key: u64,
    pub pool: u64,
    pub mint: u64,
    pub token_account: u64,
    pub decimals: u8,
    pub is_stable: bool,
    pub oracle: OracleParams,
    pub pricing: PricingParams,
    pub permissions: Permissions,
    pub fees: Fees,
    pub borrow_rate: BorrowRateParams,

    pub assets: Assets,
    pub collected_fees: FeesStats,
    pub volume_stats: VolumeStats,
    pub trade_stats: TradeStats,
    pub long_positions: PositionStats,
    pub short_positions: PositionStats,
    pub borrow_rate_state: BorrowRateState,

    pub bump: u8,
    pub token_account_bump: u8,
}

impl Fees {
    /// Every rate stays at or below 100%.
    pub open spec fn is_valid(self) -> bool {
        &&& self.swap_in <= BPS_POWER
        &&& self.swap_out <= BPS_POWER
        &&& self.stable_swap_in <= BPS_POWER
        &&& self.stable_swap_out <= BPS_POWER
        &&& self.add_liquidity <= BPS_POWER
        &&& self.remove_liquidity <= BPS_POWER
        &&& self.open_position <= BPS_POWER
        &&& self.close_position <= BPS_POWER
        &&& self.liquidation <= BPS_POWER
        &&& self.protocol_share <= BPS_POWER
        &&& self.fee_max <= BPS_POWER
        &&& self.fee_optimal <= BPS_POWER
    }

    pub fn validate(&self) -> (r: bool)
        ensures
            r == self.is_valid(),
    {
        self.swap_in <= BPS_POWER && self.swap_out <= BPS_POWER && self.stable_swap_in
            <= BPS_POWER && self.stable_swap_out <= BPS_POWER && self.add_liquidity <= BPS_POWER
            && self.remove_liquidity <= BPS_POWER && self.open_position <= BPS_POWER
            && self.close_position <= BPS_POWER && self.liquidation <= BPS_POWER
            && self.protocol_share <= BPS_POWER && self.fee_max <= BPS_POWER && self.fee_optimal
            <= BPS_POWER
    }
}

impl PricingParams {
    /// Leverage bounds are ordered and at least 1x; spreads stay below 100%;
    /// utilization and locked-value limits are ordered.
    pub open spec fn is_valid(self) -> bool {
        &&& self.min_initial_leverage >= BPS_POWER
        &&& self.min_initial_leverage <= self.max_initial_leverage
        &&& self.max_initial_leverage <= self.max_leverage
        &&& self.trade_spread_long < BPS_POWER
        &&& self.trade_spread_short < BPS_POWER
        &&& self.swap_spread < BPS_POWER
        &&& self.max_utilization <= BPS_POWER
        &&& self.max_position_locked_usd <= self.max_total_locked_usd
    }

    pub fn validate(&self) -> (r: bool)
        ensures
            r == self.is_valid(),
    {
        self.min_initial_leverage >= BPS_POWER && self.min_initial_leverage
            <= self.max_initial_leverage && self.max_initial_leverage <= self.max_leverage
            && self.trade_spread_long < BPS_POWER && self.trade_spread_short < BPS_POWER
            && self.swap_spread < BPS_POWER && self.max_utilization <= BPS_POWER
            && self.max_position_locked_usd <= self.max_total_locked_usd
    }
}

impl BorrowRateParams {
    /// The kink sits strictly above zero utilization and within the rate
    /// scale.
    pub open spec fn is_valid(self) -> bool {
        self.optimal_utilization > 0 && self.optimal_utilization <= RATE_POWER
    }

    pub fn validate(&self) -> (r: bool)
        ensures
            r == self.is_valid(),
    {
        self.optimal_utilization > 0 && self.optimal_utilization <= RATE_POWER
    }
}

impl Custody {
    /// A custody is never both virtual and stable, names its accounts, and
    /// carries valid parameters.
    pub open spec fn is_valid(self) -> bool {
        &&& !(self.is_virtual && self.is_stable)
        &&& self.token_account != 0
        &&& self.mint != 0
        &&& (self.oracle.oracle_type == crate::oracle::OracleType::Unset || self.oracle.oracle_account != 0)
        &&& self.pricing.is_valid()
        &&& self.fees.is_valid()
        &&& self.borrow_rate.is_valid()
    }

    pub fn validate(&self) -> (r: bool)
        ensures
            r == self.is_valid(),
    {
        (!self.is_virtual || !self.is_stable) && self.token_account != 0 && self.mint != 0
            && self.oracle.validate() && self.pricing.validate() && self.fees.validate()
            && self.borrow_rate.validate()
    }

    /// The aggregate position statistics of one side.
    pub open spec fn stats_for(self, side: Side) -> PositionStats {
        if side == Side::Long {
            self.long_positions
        } else {
            self.short_positions
        }
    }

    /// This custody with one side's aggregate statistics replaced.
    pub open spec fn with_stats(self, side: Side, st: PositionStats) -> Custody {
        if side == Side::Long {
            Custody { long_positions: st, ..self }
        } else {
            Custody { short_positions: st, ..self }
        }
    }

    /// What `lock_funds` does: reserve `amount` more tokens, then fail if
    /// the utilization cap or the owned balance is breached.
    pub open spec fn spec_lock_funds(self, amount: u64) -> Result<Custody, PerpetualsError> {
        if self.is_virtual {
            Err(PerpetualsError::InvalidCollateralCustody)
        } else if self.assets.locked + amount > u64::MAX {
            Err(PerpetualsError::MathOverflow)
        } else {
            let new_locked = (self.assets.locked + amount) as u64;
            let c = Custody { assets: Assets { locked: new_locked, ..self.assets }, ..self };
            if self.pricing.max_utilization > 0 && self.pricing.max_utilization < BPS_POWER
                && self.assets.owned > 0 {
                let utilization = (new_locked * BPS_POWER) / (self.assets.owned as int);
                if utilization > u64::MAX {
                    Err(PerpetualsError::MathOverflow)
                } else if utilization > self.pricing.max_utilization {
                    Err(PerpetualsError::MaxUtilization)
                } else if self.assets.owned < new_locked {
                    Err(PerpetualsError::InsufficientFunds)
                } else {
                    Ok(c)
                }
            } else if self.assets.owned < new_locked {
                Err(PerpetualsError::InsufficientFunds)
            } else {
                Ok(c)
            }
        }
    }

    /// Reserves `amount` tokens for a position's potential payoff. On
    /// success the locked bucket never exceeds the owned bucket, and stays
    /// within `max_utilization` when that cap is configured.
    pub fn lock_funds(&mut self, amount: u64) -> (r: Result<(), PerpetualsError>)
        ensures
            match Self::spec_lock_funds(*old(self), amount) {
                Ok(c) => r == Ok::<(), PerpetualsError>(()) && *final(self) == c,
                Err(e) => r == Err::<(), PerpetualsError>(e) && *final(self) == *old(self),
            },
            r == Ok::<(), PerpetualsError>(()) ==> final(self).assets.locked
                <= final(self).assets.owned,
{
        if self.is_virtual {
            return Err(PerpetualsError::InvalidCollateralCustody);
        }
        let new_locked = match math::checked_add(self.assets.locked, amount) {
            Ok(v) => v,
            Err(e) => {
                return Err(e);
            },
        };
        if self.pricing.max_utilization > 0 && self.pricing.max_utilization < BPS_POWER
            && self.assets.owned > 0 {
            proof {
                math::lemma_u64_mul_fits_u128(new_locked, BPS_POWER);
            }
            let scaled: u128 = (new_locked as u128) * (BPS_POWER as u128);
            let utilization_wide: u128 = scaled / (self.assets.owned as u128);
            let utilization = match math::checked_as_u64(utilization_wide) {
                Ok(v) => v,
                Err(e) => {
                    return Err(e);
                },
            };
            if utilization > self.pricing.max_utilization {
                return Err(PerpetualsError::MaxUtilization);
            }
        }
        if self.assets.owned < new_locked {
            return Err(PerpetualsError::InsufficientFunds);
        }
        self.assets.locked = new_locked;
        Ok(())
    }

    /// What `unlock_funds` does: release `amount` tokens, saturating at
    /// zero, so that a defensive release can never abort a close.
    pub open spec fn spec_unlock_funds(self, amount: u64) -> Result<Custody, PerpetualsError> {
        if self.is_virtual {
            Err(PerpetualsError::InvalidCollateralCustody)
        } else {
            let new_locked: u64 = if amount > self.assets.locked {
                0
            } else {
                (self.assets.locked - amount) as u64
            };
            Ok(Custody { assets: Assets { locked: new_locked, ..self.assets }, ..self })
        }
    }

    /// Releases `amount` reserved tokens, saturating at zero.
    pub fn unlock_funds(&mut self, amount: u64) -> (r: Result<(), PerpetualsError>)
        ensures
            match Self::spec_unlock_funds(*old(self), amount) {
                Ok(c) => r == Ok::<(), PerpetualsError>(()) && *final(self) == c,
                Err(e) => r == Err::<(), PerpetualsError>(e) && *final(self) == *old(self),
            },
    {
        if self.is_virtual {
            return Err(PerpetualsError::InvalidCollateralCustody);
        }
        if amount > self.assets.locked {
            self.assets.locked = 0;
        } else {
            self.assets.locked = self.assets.locked - amount;
        }
        Ok(())
    }

    /// What `get_locked_amount` returns: the payoff reserve for a position
    /// of `size`. A short's multiplier is clamped at 100% because its
    /// maximum profit is bounded by the entry value.
    pub open spec fn spec_locked_amount(self, size: u64, side: Side) -> Result<
        u64,
        PerpetualsError,
    > {
        let mult: int = if side == Side::Short && self.pricing.max_payoff_mult > BPS_POWER {
            BPS_POWER as int
        } else {
            self.pricing.max_payoff_mult as int
        };
        let v = (size * mult) / (BPS_POWER as int);
        if v > u64::MAX {
            Err(PerpetualsError::MathOverflow)
        } else {
            Ok(v as u64)
        }
    }

    /// Tokens the pool must reserve to guarantee the capped payoff of a
    /// position of `size` tokens. For a short the reserve never exceeds the
    /// size itself.
    pub fn get_locked_amount(&self, size: u64, side: Side) -> (r: Result<u64, PerpetualsError>)
        ensures
            r == self.spec_locked_amount(size, side),
            side == Side::Short ==> (r matches Ok(v) ==> v <= size),
    {
        let max_payoff_mult: u64 = if side == Side::Short && self.pricing.max_payoff_mult
            > BPS_POWER {
            BPS_POWER
        } else {
            self.pricing.max_payoff_mult
        };
        proof {
            math::lemma_u64_mul_fits_u128(size, max_payoff_mult);
            if side == Side::Short {
                lemma_mul_upper_bound(size as int, size as int, max_payoff_mult as int, BPS_POWER as int);
                vstd::arithmetic::div_mod::lemma_div_multiples_vanish(size as int, BPS_POWER as int);
                vstd::arithmetic::div_mod::lemma_div_is_ordered(
                    size * max_payoff_mult,
                    size * (BPS_POWER as int),
                    BPS_POWER as int,
                );
            }
        }
        let scaled: u128 = (size as u128) * (max_payoff_mult as u128);
        let v: u128 = scaled / (BPS_POWER as u128);
        math::checked_as_u64(v)
    }

    /// What `get_cumulative_interest` returns: the accumulator, plus the
    /// interest accrued at the current hourly rate since the last update,
    /// rounded up in the pool's favor.
    pub open spec fn spec_cumulative_interest(self, curtime: i64) -> Result<
        u128,
        PerpetualsError,
    > {
        if curtime > self.borrow_rate_state.last_update {
            let elapsed = curtime - self.borrow_rate_state.last_update;
            if elapsed > i64::MAX {
                Err(PerpetualsError::MathOverflow)
            } else {
                let accrued = ceil_div(elapsed * self.borrow_rate_state.current_rate, 3600);
                if self.borrow_rate_state.cumulative_interest + accrued > u128::MAX {
                    Err(PerpetualsError::MathOverflow)
                } else {
                    Ok((self.borrow_rate_state.cumulative_interest + accrued) as u128)
                }
            }
        } else {
            Ok(self.borrow_rate_state.cumulative_interest)
        }
    }

    /// The interest accumulator as of `curtime`, in rate decimals.
    pub fn get_cumulative_interest(&self, curtime: i64) -> (r: Result<u128, PerpetualsError>)
        ensures
            r == self.spec_cumulative_interest(curtime),
    {
        if curtime > self.borrow_rate_state.last_update {
            let elapsed = match math::checked_sub_i64(curtime, self.borrow_rate_state.last_update) {
                Ok(v) => v,
                Err(e) => {
                    return Err(e);
                },
            };
            proof {
                lemma_mul_upper_bound(
                    elapsed as int,
                    i64::MAX as int,
                    self.borrow_rate_state.current_rate as int,
                    u64::MAX as int,
                );
                assert((i64::MAX as int) * (u64::MAX as int) < u128::MAX) by (nonlinear_arith);
            }
            let scaled: u128 = (elapsed as u128) * (self.borrow_rate_state.current_rate as u128);
            let accrued = match math::checked_ceil_div_u128(scaled, 3600) {
                Ok(v) => v,
                Err(e) => {
                    return Err(e);
                },
            };
            math::checked_add_u128(self.borrow_rate_state.cumulative_interest, accrued)
        } else {
            Ok(self.borrow_rate_state.cumulative_interest)
        }
    }

    /// What `get_interest_amount_usd` returns: the interest owed by a
    /// position since its snapshot, zero for virtual custodies, positions
    /// without borrow, or snapshots ahead of the accumulator.
    pub open spec fn spec_interest_amount_usd(self, position: Position, curtime: i64) -> Result<
        u64,
        PerpetualsError,
    > {
        if position.borrow_size_usd == 0 || self.is_virtual {
            Ok(0)
        } else {
            match self.spec_cumulative_interest(curtime) {
                Err(e) => Err(e),
                Ok(ci) => {
                    if ci > position.cumulative_interest_snapshot {
                        let position_interest = ci - position.cumulative_interest_snapshot;
                        if position_interest * position.borrow_size_usd > u128::MAX {
                            Err(PerpetualsError::MathOverflow)
                        } else {
                            let v = (position_interest * position.borrow_size_usd) / (
                            RATE_POWER as int);
                            if v > u64::MAX {
                                Err(PerpetualsError::MathOverflow)
                            } else {
                                Ok(v as u64)
                            }
                        }
                    } else {
                        Ok(0)
                    }
                },
            }
        }
    }

    /// USD interest owed by `position` as of `curtime`.
    pub fn get_interest_amount_usd(&self, position: &Position, curtime: i64) -> (r: Result<
        u64,
        PerpetualsError,
    >)
        ensures
            r == self.spec_interest_amount_usd(*position, curtime),
    {
        if position.borrow_size_usd == 0 || self.is_virtual {
            return Ok(0);
        }
        let cumulative_interest = match self.get_cumulative_interest(curtime) {
            Ok(v) => v,
            Err(e) => {
                return Err(e);
            },
        };
        if cumulative_interest <= position.cumulative_interest_snapshot {
            return Ok(0);
        }
        let position_interest = cumulative_interest - position.cumulative_interest_snapshot;
        let scaled = match math::checked_mul_u128(position_interest, position.borrow_size_usd as u128) {
            Ok(v) => v,
            Err(e) => {
                return Err(e);
            },
        };
        let v = scaled / (RATE_POWER as u128);
        math::checked_as_u64(v)
    }

    /// What `update_borrow_rate` does: with nothing owned the rate is zero
    /// and the clock only moves forward; otherwise accrued interest is
    /// folded in at the old rate first, then the kinked two-slope curve is
    /// evaluated at the current utilization.
    pub open spec fn spec_update_borrow_rate(self, curtime: i64) -> Result<
        Custody,
        PerpetualsError,
    > {
        if self.assets.owned == 0 {
            let lu: i64 = if curtime > self.borrow_rate_state.last_update {
                curtime
            } else {
                self.borrow_rate_state.last_update
            };
            Ok(
                Custody {
                    borrow_rate_state: BorrowRateState {
                        current_rate: 0,
                        last_update: lu,
                        ..self.borrow_rate_state
                    },
                    ..self
                },
            )
        } else {
            let folded: Result<Custody, PerpetualsError> = if curtime
                > self.borrow_rate_state.last_update {
                match self.spec_cumulative_interest(curtime) {
                    Err(e) => Err(e),
                    Ok(ci) => Ok(
                        Custody {
                            borrow_rate_state: BorrowRateState {
                                cumulative_interest: ci,
                                last_update: curtime,
                                ..self.borrow_rate_state
                            },
                            ..self
                        },
                    ),
                }
            } else {
                Ok(self)
            };
            match folded {
                Err(e) => Err(e),
                Ok(c) => {
                    let utilization = (c.assets.locked * RATE_POWER) / (c.assets.owned as int);
                    let hourly: Result<int, PerpetualsError> = if utilization
                        < c.borrow_rate.optimal_utilization || c.borrow_rate.optimal_utilization
                        >= RATE_POWER {
                        if utilization * c.borrow_rate.slope1 > u128::MAX {
                            Err(PerpetualsError::MathOverflow)
                        } else {
                            Ok(
                                (utilization * c.borrow_rate.slope1) / (
                                c.borrow_rate.optimal_utilization as int),
                            )
                        }
                    } else {
                        if (utilization - c.borrow_rate.optimal_utilization)
                            * c.borrow_rate.slope2 > u128::MAX {
                            Err(PerpetualsError::MathOverflow)
                        } else {
                            Ok(
                                c.borrow_rate.slope1 + ((utilization
                                    - c.borrow_rate.optimal_utilization) * c.borrow_rate.slope2)
                                    / (RATE_POWER - c.borrow_rate.optimal_utilization),
                            )
                        }
                    };
                    match hourly {
                        Err(e) => Err(e),
                        Ok(h) => {
                            if h > u64::MAX {
                                Err(PerpetualsError::MathOverflow)
                            } else if h + c.borrow_rate.base_rate > u64::MAX {
                                Err(PerpetualsError::MathOverflow)
                            } else {
                                Ok(
                                    Custody {
                                        borrow_rate_state: BorrowRateState {
                                            current_rate: (h + c.borrow_rate.base_rate) as u64,
                                            ..c.borrow_rate_state
                                        },
                                        ..c
                                    },
                                )
                            }
                        },
                    }
                },
            }
        }
    }

    /// Folds interest accrued at the old rate into the accumulator, then
    /// recomputes the hourly rate from the kinked utilization curve. Called
    /// at the end of every operation that changes owned or locked funds.
    pub fn update_borrow_rate(&mut self, curtime: i64) -> (r: Result<(), PerpetualsError>)
        ensures
            match Self::spec_update_borrow_rate(*old(self), curtime) {
                Ok(c) => r == Ok::<(), PerpetualsError>(()) && *final(self) == c,
                Err(e) => r == Err::<(), PerpetualsError>(e) && *final(self) == *old(self),
            },
            final(self).assets == old(self).assets,
    {
        if self.assets.owned == 0 {
            self.borrow_rate_state.current_rate = 0;
            if curtime > self.borrow_rate_state.last_update {
                self.borrow_rate_state.last_update = curtime;
            }
            return Ok(());
        }
        let mut cumulative_interest = self.borrow_rate_state.cumulative_interest;
        let mut last_update = self.borrow_rate_state.last_update;
        if curtime > self.borrow_rate_state.last_update {
            cumulative_interest = match self.get_cumulative_interest(curtime) {
                Ok(v) => v,
                Err(e) => {
                    return Err(e);
                },
            };
            last_update = curtime;
        }
        proof {
            math::lemma_u64_mul_fits_u128(self.assets.locked, RATE_POWER);
        }
        let utilization: u128 = ((self.assets.locked as u128) * (RATE_POWER as u128)) / (
        self.assets.owned as u128);
        let hourly: u128 = if utilization < self.borrow_rate.optimal_utilization as u128
            || self.borrow_rate.optimal_utilization >= RATE_POWER {
            let scaled = match math::checked_mul_u128(utilization, self.borrow_rate.slope1 as u128) {
                Ok(v) => v,
                Err(e) => {
                    return Err(e);
                },
            };
            scaled / (self.borrow_rate.optimal_utilization as u128)
        } else {
            let over = utilization - self.borrow_rate.optimal_utilization as u128;
            let scaled = match math::checked_mul_u128(over, self.borrow_rate.slope2 as u128) {
                Ok(v) => v,
                Err(e) => {
                    return Err(e);
                },
            };
            let slope_part = scaled / ((RATE_POWER - self.borrow_rate.optimal_utilization) as u128);
            match math::checked_add_u128(self.borrow_rate.slope1 as u128, slope_part) {
                Ok(v) => v,
                Err(e) => {
                    return Err(e);
                },
            }
        };
        let hourly64 = match math::checked_as_u64(hourly) {
            Ok(v) => v,
            Err(e) => {
                return Err(e);
            },
        };
        let current_rate = match math::checked_add(hourly64, self.borrow_rate.base_rate) {
            Ok(v) => v,
            Err(e) => {
                return Err(e);
            },
        };
        self.borrow_rate_state.cumulative_interest = cumulative_interest;
        self.borrow_rate_state.last_update = last_update;
        self.borrow_rate_state.current_rate = current_rate;
        Ok(())
    }

    /// What `get_collective_position` returns: one virtual position that
    /// stands for all open positions of a side, at their quantity-weighted
    /// average price.
    pub open spec fn spec_collective_position(self, side: Side) -> Result<
        Position,
        PerpetualsError,
    > {
        let stats = self.stats_for(side);
        if stats.open_positions > 0 {
            let price: int = if stats.total_quantity > 0 {
                stats.weighted_price as int / stats.total_quantity as int
            } else {
                0
            };
            if price > u64::MAX {
                Err(PerpetualsError::MathOverflow)
            } else {
                Ok(
                    Position {
                        side,
                        price: price as u64,
                        size_usd: stats.size_usd,
                        borrow_size_usd: stats.borrow_size_usd,
                        unrealized_loss_usd: stats.cumulative_interest_usd,
                        cumulative_interest_snapshot: stats.cumulative_interest_snapshot,
                        locked_amount: stats.locked_amount,
                        ..Position::spec_default()
                    },
                )
            }
        } else {
            Ok(Position::spec_default())
        }
    }

    /// A virtual position standing for all open positions of `side`, used
    /// by interest folding and by pool-wide valuation.
    pub fn get_collective_position(&self, side: Side) -> (r: Result<Position, PerpetualsError>)
        ensures
            r == self.spec_collective_position(side),
    {
        let stats = if side == Side::Long {
            &self.long_positions
        } else {
            &self.short_positions
        };
        if stats.open_positions > 0 {
            let price: u64 = if stats.total_quantity > 0 {
                match math::checked_as_u64(stats.weighted_price / stats.total_quantity) {
                    Ok(v) => v,
                    Err(e) => {
                        return Err(e);
                    },
                }
            } else {
                0
            };
            let mut p = Position::default();
            p.side = side;
            p.price = price;
            p.size_usd = stats.size_usd;
            p.borrow_size_usd = stats.borrow_size_usd;
            p.unrealized_loss_usd = stats.cumulative_interest_usd;
            p.cumulative_interest_snapshot = stats.cumulative_interest_snapshot;
            p.locked_amount = stats.locked_amount;
            Ok(p)
        } else {
            Ok(Position::default())
        }
    }

    /// What the cross-collateral half of `add_position` does to the
    /// collateral custody: fold the side's accrued interest, take the new
    /// position's snapshot, and count its borrow.
    pub open spec fn spec_add_position_collateral(self, position: Position, curtime: i64) -> Result<
        Custody,
        PerpetualsError,
    > {
        match self.spec_collective_position(position.side) {
            Err(e) => Err(e),
            Ok(collective) => match self.spec_interest_amount_usd(collective, curtime) {
                Err(e) => Err(e),
                Ok(interest_usd) => {
                    let st = self.stats_for(position.side);
                    if st.cumulative_interest_usd + interest_usd > u64::MAX {
                        Err(PerpetualsError::MathOverflow)
                    } else if st.open_positions + 1 > u64::MAX {
                        Err(PerpetualsError::MathOverflow)
                    } else if st.borrow_size_usd + position.borrow_size_usd > u64::MAX {
                        Err(PerpetualsError::MathOverflow)
                    } else {
                        Ok(
                            self.with_stats(
                                position.side,
                                PositionStats {
                                    cumulative_interest_usd: (st.cumulative_interest_usd
                                        + interest_usd) as u64,
                                    cumulative_interest_snapshot:
                                        position.cumulative_interest_snapshot,
                                    open_positions: (st.open_positions + 1) as u64,
                                    borrow_size_usd: (st.borrow_size_usd
                                        + position.borrow_size_usd) as u64,
                                    ..st
                                },
                            ),
                        )
                    }
                },
            },
        }
    }

    fn add_position_collateral(&mut self, position: &Position, curtime: i64) -> (r: Result<
        (),
        PerpetualsError,
    >)
        ensures
            match Self::spec_add_position_collateral(*old(self), *position, curtime) {
                Ok(c) => r == Ok::<(), PerpetualsError>(()) && *final(self) == c,
                Err(e) => r == Err::<(), PerpetualsError>(e) && *final(self) == *old(self),
            },
    {
        let collective = match self.get_collective_position(position.side) {
            Ok(v) => v,
            Err(e) => {
                return Err(e);
            },
        };
        let interest_usd = match self.get_interest_amount_usd(&collective, curtime) {
            Ok(v) => v,
            Err(e) => {
                return Err(e);
            },
        };
        let st = if position.side == Side::Long {
            self.long_positions
        } else {
            self.short_positions
        };
        let cumulative_interest_usd = match math::checked_add(st.cumulative_interest_usd, interest_usd) {
            Ok(v) => v,
            Err(e) => {
                return Err(e);
            },
        };
        let open_positions = match math::checked_add(st.open_positions, 1) {
            Ok(v) => v,
            Err(e) => {
                return Err(e);
            },
        };
        let borrow_size_usd = match math::checked_add(st.borrow_size_usd, position.borrow_size_usd) {
            Ok(v) => v,
            Err(e) => {
                return Err(e);
            },
        };
        let new_stats = PositionStats {
            cumulative_interest_usd,
            cumulative_interest_snapshot: position.cumulative_interest_snapshot,
            open_positions,
            borrow_size_usd,
            ..st
        };
        if position.side == Side::Long {
            self.long_positions = new_stats;
        } else {
            self.short_positions = new_stats;
        }
        Ok(())
    }

    /// What `add_position` does: fold the side's accrued interest, add the
    /// new position to the aggregates, recompute the weighted entry price,
    /// enforce the per-position and total locked-value limits, and, when a
    /// separate collateral custody is given, track borrow and interest
    /// there instead.
    pub open spec fn spec_add_position(
        self,
        position: Position,
        token_price: OraclePrice,
        curtime: i64,
        collateral_custody: Option<Custody>,
    ) -> Result<(Custody, Option<Custody>), PerpetualsError> {
        match self.spec_collective_position(position.side) {
            Err(e) => Err(e),
            Ok(collective) => match self.spec_interest_amount_usd(collective, curtime) {
                Err(e) => Err(e),
                Ok(interest_usd) => match spec_stats_with_position(
                    self.stats_for(position.side),
                    position,
                    interest_usd,
                    collateral_custody is None,
                ) {
                    Err(e) => Err(e),
                    Ok(st3) => self.spec_add_position_limits_and_collateral(
                        position,
                        token_price,
                        curtime,
                        collateral_custody,
                        st3,
                    ),
                },
            },
        }
    }

    /// The tail of `spec_add_position`: the locked-value limit checks and
    /// the cross-collateral bookkeeping.
    pub open spec fn spec_add_position_limits_and_collateral(
        self,
        position: Position,
        token_price: OraclePrice,
        curtime: i64,
        collateral_custody: Option<Custody>,
        st3: PositionStats,
    ) -> Result<(Custody, Option<Custody>), PerpetualsError> {
        let limit1: Result<(), PerpetualsError> = if self.pricing.max_position_locked_usd > 0 {
            match token_price.spec_asset_amount_usd(position.locked_amount, self.decimals) {
                Err(e) => Err(e),
                Ok(locked_usd) => {
                    if locked_usd > self.pricing.max_position_locked_usd {
                        Err(PerpetualsError::PositionAmountLimit)
                    } else {
                        Ok(())
                    }
                },
            }
        } else {
            Ok(())
        };
        match limit1 {
            Err(e) => Err(e),
            Ok(_) => {
                let limit2: Result<(), PerpetualsError> = if self.pricing.max_total_locked_usd
                    > 0 {
                    match token_price.spec_asset_amount_usd(st3.locked_amount, self.decimals) {
                        Err(e) => Err(e),
                        Ok(total_usd) => {
                            if total_usd > self.pricing.max_total_locked_usd {
                                Err(PerpetualsError::CustodyAmountLimit)
                            } else {
                                Ok(())
                            }
                        },
                    }
                } else {
                    Ok(())
                };
                match limit2 {
                    Err(e) => Err(e),
                    Ok(_) => {
                        let c1 = self.with_stats(position.side, st3);
                        match collateral_custody {
                            Option::None => Ok((c1, Option::None)),
                            Option::Some(cc) => match cc.spec_add_position_collateral(
                                position,
                                curtime,
                            ) {
                                Err(e) => Err(e),
                                Ok(cc2) => Ok((c1, Option::Some(cc2))),
                            },
                        }
                    },
                }
            },
        }
    }

    /// Adds an opened position to this custody's aggregates. Pass the
    /// distinct collateral custody when the position is cross-collateralized;
    /// borrow size and interest are then tracked there and the updated record
    /// is handed back.
    #[verifier::rlimit(100)]
    pub fn add_position(
        &mut self,
        position: &Position,
        token_price: &OraclePrice,
        curtime: i64,
        collateral_custody: Option<Custody>,
    ) -> (r: Result<Option<Custody>, PerpetualsError>)
        ensures
            match Self::spec_add_position(*old(self), *position, *token_price, curtime,
                collateral_custody) {
                Ok((c, cc)) => r == Ok::<Option<Custody>, PerpetualsError>(cc) && *final(self)
                    == c,
                Err(e) => r == Err::<Option<Custody>, PerpetualsError>(e) && *final(self)
                    == *old(self),
            },
            final(self).assets == old(self).assets,
            r matches Ok(cc2) ==> (cc2 matches Some(c2) ==> (collateral_custody matches Some(c0)
                && c2.assets == c0.assets)),
    {
        let collective = match self.get_collective_position(position.side) {
            Ok(v) => v,
            Err(e) => {
                return Err(e);
            },
        };
        let interest_usd = match self.get_interest_amount_usd(&collective, curtime) {
            Ok(v) => v,
            Err(e) => {
                return Err(e);
            },
        };
        let st0 = if position.side == Side::Long {
            self.long_positions
        } else {
            self.short_positions
        };
        let st = match stats_with_position(st0, position, interest_usd,
            collateral_custody.is_none()) {
            Ok(v) => v,
            Err(e) => {
                return Err(e);
            },
        };
        if self.pricing.max_position_locked_usd > 0 {
            let locked_usd = match token_price.get_asset_amount_usd(position.locked_amount,
                self.decimals) {
                Ok(v) => v,
                Err(e) => {
                    return Err(e);
                },
            };
            if locked_usd > self.pricing.max_position_locked_usd {
                return Err(PerpetualsError::PositionAmountLimit);
            }
        }
        if self.pricing.max_total_locked_usd > 0 {
            let total_usd = match token_price.get_asset_amount_usd(st.locked_amount,
                self.decimals) {
                Ok(v) => v,
                Err(e) => {
                    return Err(e);
                },
            };
            if total_usd > self.pricing.max_total_locked_usd {
                return Err(PerpetualsError::CustodyAmountLimit);
            }
        }
        let updated_collateral = match collateral_custody {
            Option::None => Option::None,
            Option::Some(cc) => {
                let mut cc2 = cc;
                match cc2.add_position_collateral(position, curtime) {
                    Ok(_) => Option::Some(cc2),
                    Err(e) => {
                        return Err(e);
                    },
                }
            },
        };
        if position.side == Side::Long {
            self.long_positions = st;
        } else {
            self.short_positions = st;
        }
        Ok(updated_collateral)
    }

    /// What the cross-collateral half of `remove_position` does: when the
    /// last position of the side closes there, the whole aggregate resets;
    /// otherwise accrued interest folds in, the closed position's interest
    /// and borrow come out, and the snapshot advances to the trading
    /// custody's accumulator.
    pub open spec fn spec_remove_position_collateral(
        self,
        position: Position,
        curtime: i64,
        position_interest_usd: u64,
        snapshot_now: u128,
    ) -> Result<Custody, PerpetualsError> {
        match self.spec_collective_position(position.side) {
            Err(e) => Err(e),
            Ok(collective) => match self.spec_interest_amount_usd(collective, curtime) {
                Err(e) => Err(e),
                Ok(interest_usd) => {
                    let st = self.stats_for(position.side);
                    if st.open_positions == 1 {
                        Ok(self.with_stats(position.side, PositionStats::spec_default()))
                    } else if st.cumulative_interest_usd + interest_usd > u64::MAX {
                        Err(PerpetualsError::MathOverflow)
                    } else if st.open_positions < 1 {
                        Err(PerpetualsError::MathOverflow)
                    } else if st.borrow_size_usd < position.borrow_size_usd {
                        Err(PerpetualsError::MathOverflow)
                    } else {
                        let folded = (st.cumulative_interest_usd + interest_usd) as u64;
                        let settled: u64 = if folded >= position_interest_usd {
                            (folded - position_interest_usd) as u64
                        } else {
                            0
                        };
                        Ok(
                            self.with_stats(
                                position.side,
                                PositionStats {
                                    cumulative_interest_usd: settled,
                                    cumulative_interest_snapshot: snapshot_now,
                                    open_positions: (st.open_positions - 1) as u64,
                                    borrow_size_usd: (st.borrow_size_usd
                                        - position.borrow_size_usd) as u64,
                                    ..st
                                },
                            ),
                        )
                    }
                },
            },
        }
    }

    fn remove_position_collateral(
        &mut self,
        position: &Position,
        curtime: i64,
        position_interest_usd: u64,
        snapshot_now: u128,
    ) -> (r: Result<(), PerpetualsError>)
        ensures
            match Self::spec_remove_position_collateral(*old(self), *position, curtime,
                position_interest_usd, snapshot_now) {
                Ok(c) => r == Ok::<(), PerpetualsError>(()) && *final(self) == c,
                Err(e) => r == Err::<(), PerpetualsError>(e) && *final(self) == *old(self),
            },
    {
        let collective = match self.get_collective_position(position.side) {
            Ok(v) => v,
            Err(e) => {
                return Err(e);
            },
        };
        let interest_usd = match self.get_interest_amount_usd(&collective, curtime) {
            Ok(v) => v,
            Err(e) => {
                return Err(e);
            },
        };
        let st = if position.side == Side::Long {
            self.long_positions
        } else {
            self.short_positions
        };
        if st.open_positions == 1 {
            let reset = PositionStats::default();
            if position.side == Side::Long {
                self.long_positions = reset;
            } else {
                self.short_positions = reset;
            }
            return Ok(());
        }
        let folded = match math::checked_add(st.cumulative_interest_usd, interest_usd) {
            Ok(v) => v,
            Err(e) => {
                return Err(e);
            },
        };
        let settled = folded.saturating_sub(position_interest_usd);
        let open_positions = match math::checked_sub(st.open_positions, 1) {
            Ok(v) => v,
            Err(e) => {
                return Err(e);
            },
        };
        let borrow_size_usd = match math::checked_sub(st.borrow_size_usd,
            position.borrow_size_usd) {
            Ok(v) => v,
            Err(e) => {
                return Err(e);
            },
        };
        let new_stats = PositionStats {
            cumulative_interest_usd: settled,
            cumulative_interest_snapshot: snapshot_now,
            open_positions,
            borrow_size_usd,
            ..st
        };
        if position.side == Side::Long {
            self.long_positions = new_stats;
        } else {
            self.short_positions = new_stats;
        }
        Ok(())
    }

    /// What `remove_position` does. Closing the last open position of a side
    /// resets that side's whole aggregate to zero instead of subtracting, so
    /// rounding drift in the weighted price can never accumulate; otherwise
    /// the position's contributions come out of every aggregate field.
    pub open spec fn spec_remove_position(
        self,
        position: Position,
        curtime: i64,
        collateral_custody: Option<Custody>,
    ) -> Result<(Custody, Option<Custody>), PerpetualsError> {
        match self.spec_collective_position(position.side) {
            Err(e) => Err(e),
            Ok(collective) => match self.spec_interest_amount_usd(collective, curtime) {
                Err(e) => Err(e),
                Ok(interest_usd) => match self.spec_cumulative_interest(curtime) {
                    Err(e) => Err(e),
                    Ok(snapshot_now) => match self.spec_interest_amount_usd(position, curtime) {
                        Err(e) => Err(e),
                        Ok(position_interest_usd) => {
                            let st0 = self.stats_for(position.side);
                            if st0.open_positions == 1 {
                                Ok(
                                    (
                                        self.with_stats(
                                            position.side,
                                            PositionStats::spec_default(),
                                        ),
                                        collateral_custody,
                                    ),
                                )
                            } else {
                                self.spec_remove_position_tail(
                                    position,
                                    curtime,
                                    collateral_custody,
                                    interest_usd,
                                    snapshot_now,
                                    position_interest_usd,
                                )
                            }
                        },
                    },
                },
            },
        }
    }

    /// The tail of `spec_remove_position`, past the last-position reset.
    pub open spec fn spec_remove_position_tail(
        self,
        position: Position,
        curtime: i64,
        collateral_custody: Option<Custody>,
        interest_usd: u64,
        snapshot_now: u128,
        position_interest_usd: u64,
    ) -> Result<(Custody, Option<Custody>), PerpetualsError> {
        match spec_stats_without_position(
            self.stats_for(position.side),
            position,
            interest_usd,
            snapshot_now,
            position_interest_usd,
            collateral_custody is None,
        ) {
            Err(e) => Err(e),
            Ok(st3) => {
                let c1 = self.with_stats(position.side, st3);
                match collateral_custody {
                    Option::None => Ok((c1, Option::None)),
                    Option::Some(cc) => match cc.spec_remove_position_collateral(
                        position,
                        curtime,
                        position_interest_usd,
                        snapshot_now,
                    ) {
                        Err(e) => Err(e),
                        Ok(cc2) => Ok((c1, Option::Some(cc2))),
                    },
                }
            },
        }
    }

    /// Removes a closing position from this custody's aggregates, the exact
    /// inverse of `add_position`, except that the last close of a side
    /// resets the whole aggregate to zero. Pass the distinct collateral
    /// custody for a cross-collateralized position.
    #[verifier::rlimit(100)]
    pub fn remove_position(
        &mut self,
        position: &Position,
        curtime: i64,
        collateral_custody: Option<Custody>,
    ) -> (r: Result<Option<Custody>, PerpetualsError>)
        ensures
            match Self::spec_remove_position(*old(self), *position, curtime,
                collateral_custody) {
                Ok((c, cc)) => r == Ok::<Option<Custody>, PerpetualsError>(cc) && *final(self)
                    == c,
                Err(e) => r == Err::<Option<Custody>, PerpetualsError>(e) && *final(self)
                    == *old(self),
            },
            old(self).stats_for(position.side).open_positions == 1 && r is Ok
                ==> final(self).stats_for(position.side) == PositionStats::spec_default(),
            final(self).assets == old(self).assets,
            r matches Ok(cc2) ==> (cc2 matches Some(c2) ==> (collateral_custody matches Some(c0)
                && c2.assets == c0.assets)),
    {
        let collective = match self.get_collective_position(position.side) {
            Ok(v) => v,
            Err(e) => {
                return Err(e);
            },
        };
        let interest_usd = match self.get_interest_amount_usd(&collective, curtime) {
            Ok(v) => v,
            Err(e) => {
                return Err(e);
            },
        };
        let snapshot_now = match self.get_cumulative_interest(curtime) {
            Ok(v) => v,
            Err(e) => {
                return Err(e);
            },
        };
        let position_interest_usd = match self.get_interest_amount_usd(position, curtime) {
            Ok(v) => v,
            Err(e) => {
                return Err(e);
            },
        };
        let st0 = if position.side == Side::Long {
            self.long_positions
        } else {
            self.short_positions
        };
        if st0.open_positions == 1 {
            let reset = PositionStats::default();
            if position.side == Side::Long {
                self.long_positions = reset;
            } else {
                self.short_positions = reset;
            }
            return Ok(collateral_custody);
        }
        let st = match stats_without_position(st0, position, interest_usd, snapshot_now,
            position_interest_usd, collateral_custody.is_none()) {
            Ok(v) => v,
            Err(e) => {
                return Err(e);
            },
        };
        let updated_collateral = match collateral_custody {
            Option::None => Option::None,
            Option::Some(cc) => {
                let mut cc2 = cc;
                match cc2.remove_position_collateral(position, curtime, position_interest_usd,
                    snapshot_now) {
                    Ok(_) => Option::Some(cc2),
                    Err(e) => {
                        return Err(e);
                    },
                }
            },
        };
        if position.side == Side::Long {
            self.long_positions = st;
        } else {
            self.short_positions = st;
        }
        Ok(updated_collateral)
    }
}

} // verus!
