//! A trader's isolated leveraged exposure.

use vstd::prelude::*;
use crate::error::PerpetualsError;
use crate::math;
use crate::perps::BPS_POWER;

verus! {

/// Which way a position points. `Unset` is only a default initializer;
/// every operation rejects it.
#[derive(Clone, Copy, Debug, PartialEq, Eq, Structural)]
pub enum Side {
    Long,
    Short,
    Unset,
}

impl Default for Side {
    fn default() -> (r: Self)
        ensures
            r == Side::Unset,
    {
        Side::Unset
    }
}

/// Direction of a collateral change. `Unset` is only a default initializer.
#[derive(Clone, Copy, Debug, PartialEq, Eq, Structural)]
pub enum CollateralChange {
    Add,
    Remove,
    Unset,
}

impl Default for CollateralChange {
    fn default() -> (r: Self)
        ensures
            r == CollateralChange::Unset,
    {
        CollateralChange::Unset
    }
}

/// One trader's open position: entry price and sizes in USD fixed-point,
/// reserves and collateral in token units of the collateral custody.
/// The four leading fields are account identifiers assigned by the host.
#[derive(Clone, Copy, Debug, PartialEq, Eq, Structural)]
pub struct Position {
    pub owner: u64,
    pub pool: u64,

    /// Custody holding the position's trading asset.
    pub custody: u64,
    /// Custody holding the collateral backing the position: margin, P&L and
    /// liquidations settle against it.
    pub collateral_custody: u64,

    pub open_time: i64,
    pub update_time: i64,
    pub side: Side,
    pub price: u64,
    pub size_usd: u64,
    /// Notional the pool considers lent out for interest purposes.
    pub borrow_size_usd: u64,
    pub collateral_usd: u64,
    pub unrealized_profit_usd: u64,
    pub unrealized_loss_usd: u64,
    /// Custody interest accumulator at the last interest settlement.
    pub cumulative_interest_snapshot: u128,
    /// Tokens the pool reserved to guarantee this position's capped payoff.
    pub locked_amount: u64,
    pub collateral_amount: u64,
}

impl Default for Position {
    fn default() -> (r: Self)
        ensures
            r == Position::spec_default(),
    {
        Position {
            owner: 0,
            pool: 0,
            custody: 0,
            collateral_custody: 0,
            open_time: 0,
            update_time: 0,
            side: Side::Unset,
            price: 0,
            size_usd: 0,
            borrow_size_usd: 0,
            collateral_usd: 0,
            unrealized_profit_usd: 0,
            unrealized_loss_usd: 0,
            cumulative_interest_snapshot: 0,
            locked_amount: 0,
            collateral_amount: 0,
        }
    }
}

impl Position {
    /// The all-zero record that a fresh account starts from.
    pub open spec fn spec_default() -> Position {
        Position {
            owner: 0,
            pool: 0,
            custody: 0,
            collateral_custody: 0,
            open_time: 0,
            update_time: 0,
            side: Side::Unset,
            price: 0,
            size_usd: 0,
            borrow_size_usd: 0,
            collateral_usd: 0,
            unrealized_profit_usd: 0,
            unrealized_loss_usd: 0,
            cumulative_interest_snapshot: 0,
            locked_amount: 0,
            collateral_amount: 0,
        }
    }

    /// What `get_initial_leverage` returns: notional over posted collateral,
    /// in basis points.
    pub open spec fn spec_initial_leverage(self) -> Result<u64, PerpetualsError> {
        if self.collateral_usd == 0 {
            Err(PerpetualsError::DivideByZero)
        } else {
            let v = (self.size_usd * BPS_POWER) / (self.collateral_usd as int);
            if v > u64::MAX {
                Err(PerpetualsError::MathOverflow)
            } else {
                Ok(v as u64)
            }
        }
    }

    /// Leverage implied by the entry notional and the posted collateral,
    /// ignoring profit and loss, in basis points.
    pub fn get_initial_leverage(&self) -> (r: Result<u64, PerpetualsError>)
        ensures
            r == self.spec_initial_leverage(),
    {
        proof {
            math::lemma_u64_mul_fits_u128(self.size_usd, BPS_POWER);
        }
        let num = (self.size_usd as u128) * (BPS_POWER as u128);
        let q = match math::checked_div_u128(num, self.collateral_usd as u128) {
            Ok(v) => v,
            Err(e) => {
                return Err(e);
            },
        };
        math::checked_as_u64(q)
    }
}

} // verus!
