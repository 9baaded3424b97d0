//! Process-wide state: decimal-scale constants, permissions and the
//! top-level account, plus the small result records the engine hands back.

use vstd::prelude::*;

verus! {

/// Fees, ratios and leverage carry four implied decimals (a basis point is
/// one part in ten thousand).
pub const BPS_DECIMALS: u32 = 4;

/// `10^BPS_DECIMALS`: the fixed-point unit for fees, ratios and leverage.
pub const BPS_POWER: u64 = 10_000;

/// Oracle-normalized prices carry six implied decimals.
pub const PRICE_DECIMALS: u32 = 6;

/// The decimal exponent of an oracle-normalized price.
pub const PRICE_EXPONENT: i32 = -6;

/// USD-denominated values carry six implied decimals.
pub const USD_DECIMALS: u32 = 6;

/// The decimal exponent of a USD-denominated value.
pub const USD_EXPONENT: i32 = -6;

/// Borrow rates and cumulative interest carry nine implied decimals.
pub const RATE_DECIMALS: u32 = 9;

/// `10^RATE_DECIMALS`: the fixed-point unit for borrow rates.
pub const RATE_POWER: u64 = 1_000_000_000;

/// Independent allow-flags for each operation, kept both process-wide and
/// per custody.
#[derive(Clone, Copy, Debug, PartialEq, Eq, Structural)]
pub struct Permissions {
    pub allow_swap: bool,
    pub allow_add_liquidity: bool,
    pub allow_remove_liquidity: bool,
    pub allow_open_position: bool,
    pub allow_close_position: bool,
    pub allow_pnl_withdrawal: bool,
    pub allow_collateral_withdrawal: bool,
    pub allow_size_change: bool,
}

impl Default for Permissions {
    /// All operations denied.
    fn default() -> (r: Self)
        ensures
            r == (Permissions {
                allow_swap: false,
                allow_add_liquidity: false,
                allow_remove_liquidity: false,
                allow_open_position: false,
                allow_close_position: false,
                allow_pnl_withdrawal: false,
                allow_collateral_withdrawal: false,
                allow_size_change: false,
            }),
    {
        Permissions {
            allow_swap: false,
            allow_add_liquidity: false,
            allow_remove_liquidity: false,
            allow_open_position: false,
            allow_close_position: false,
            allow_pnl_withdrawal: false,
            allow_collateral_withdrawal: false,
            allow_size_change: false,
        }
    }
}

/// The top-level account: process-wide permissions and the pools it owns.
/// Account identifiers are plain integers; address derivation lives with the
/// host, not the engine.
#[derive(Clone, Debug)]
pub struct Perpetuals {
    pub permissions: Permissions,
    pub pools: Vec<u64>,

    pub transfer_authority_bump: u8,
    pub perpetuals_bump: u8,
    pub inception_time: i64,
}

#[derive(Clone, Copy, Debug, PartialEq, Eq, Structural)]
pub struct PriceAndFee {
    pub price: u64,
    pub fee: u64,
}

#[derive(Clone, Copy, Debug, PartialEq, Eq, Structural)]
pub struct AmountAndFee {
    pub amount: u64,
    pub fee: u64,
}

#[derive(Clone, Copy, Debug, PartialEq, Eq, Structural)]
pub struct NewPositionPricesAndFee {
    pub entry_price: u64,
    pub liquidation_price: u64,
    pub fee: u64,
}

#[derive(Clone, Copy, Debug, PartialEq, Eq, Structural)]
pub struct SwapAmountAndFees {
    pub amount_out: u64,
    pub fee_in: u64,
    pub fee_out: u64,
}

#[derive(Clone, Copy, Debug, PartialEq, Eq, Structural)]
pub struct ProfitAndLoss {
    pub profit: u64,
    pub loss: u64,
}

} // verus!
