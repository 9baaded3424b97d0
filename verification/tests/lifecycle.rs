//! End-to-end tests of the position lifecycle: the concrete scenarios of
//! the engine's specification and concrete instances of its laws.

use stockdex::custody::{
    Assets, BorrowRateParams, BorrowRateState, Custody, Fees, FeesMode, FeesStats, PositionStats,
    TradeStats, VolumeStats,
};
use stockdex::error::PerpetualsError;
use stockdex::instructions::{
    add_collateral, close_position, open_position, remove_collateral, AddCollateralParams,
    ClosePositionParams, OpenPositionParams, RemoveCollateralParams,
};
use stockdex::oracle::{OracleParams, OraclePrice, OracleType};
use stockdex::perps::Permissions;
use stockdex::pool::{Pool, TokenRatios};
use stockdex::position::Side;

fn allow_all() -> Permissions {
    Permissions {
        allow_swap: true,
        allow_add_liquidity: true,
        allow_remove_liquidity: true,
        allow_open_position: true,
        allow_close_position: true,
        allow_pnl_withdrawal: true,
        allow_collateral_withdrawal: true,
        allow_size_change: true,
    }
}

/// The scenario custody: non-stable, non-virtual, 9 decimals, 3x payoff
/// cap, 10x max leverage, 1% open/close fees, 20% protocol share, flat
/// borrow rate, 100 tokens owned.
fn base_custody() -> Custody {
    Custody {
        key: 1,
        pool: 100,
        mint: 11,
        token_account: 21,
        decimals: 9,
        is_stable: false,
        is_virtual: false,
        oracle: OracleParams {
            oracle_account: 31,
            oracle_type: OracleType::Pyth,
            max_price_error: 0,
            max_price_age_sec: 60,
        },
        pricing: stockdex::custody::PricingParams {
            use_ema: false,
            use_unrealized_pnl_in_aum: false,
            trade_spread_long: 0,
            trade_spread_short: 0,
            swap_spread: 0,
            min_initial_leverage: 10_000,
            max_initial_leverage: 100_000,
            max_leverage: 100_000,
            max_payoff_mult: 30_000,
            max_utilization: 9_000,
            max_position_locked_usd: 0,
            max_total_locked_usd: 0,
        },
        permissions: allow_all(),
        fees: Fees {
            mode: FeesMode::Fixed,
            ratio_mult: 0,
            utilization_mult: 0,
            swap_in: 0,
            swap_out: 0,
            stable_swap_in: 0,
            stable_swap_out: 0,
            add_liquidity: 0,
            remove_liquidity: 0,
            open_position: 100,
            close_position: 100,
            liquidation: 100,
            protocol_share: 2_000,
            fee_max: 0,
            fee_optimal: 0,
        },
        borrow_rate: BorrowRateParams {
            base_rate: 0,
            slope1: 0,
            slope2: 0,
            optimal_utilization: 800_000_000,
        },
        assets: Assets {
            collateral: 0,
            protocol_fees: 0,
            owned: 100_000_000_000,
            locked: 0,
        },
        collected_fees: FeesStats {
            swap_usd: 0,
            add_liquidity_usd: 0,
            remove_liquidity_usd: 0,
            open_position_usd: 0,
            close_position_usd: 0,
            liquidation_usd: 0,
        },
        volume_stats: VolumeStats {
            swap_usd: 0,
            add_liquidity_usd: 0,
            remove_liquidity_usd: 0,
            open_position_usd: 0,
            close_position_usd: 0,
            liquidation_usd: 0,
        },
        trade_stats: TradeStats {
            profit_usd: 0,
            loss_usd: 0,
            oi_long_usd: 0,
            oi_short_usd: 0,
        },
        long_positions: PositionStats::default(),
        short_positions: PositionStats::default(),
        borrow_rate_state: BorrowRateState {
            current_rate: 0,
            cumulative_interest: 0,
            last_update: 0,
        },
        bump: 0,
        token_account_bump: 0,
    }
}

/// A stable collateral custody with 6 decimals, for cross-collateral tests.
fn stable_custody() -> Custody {
    let mut c = base_custody();
    c.key = 2;
    c.mint = 12;
    c.token_account = 22;
    c.decimals = 6;
    c.is_stable = true;
    c.pricing.max_payoff_mult = 10_000;
    c.assets.owned = 1_000_000_000_000;
    c
}

fn base_pool() -> Pool {
    Pool {
        key: 100,
        name: b"market".to_vec(),
        custodies: vec![1, 2],
        ratios: vec![
            TokenRatios { target: 5_000, min: 1_000, max: 9_000 },
            TokenRatios { target: 5_000, min: 1_000, max: 9_000 },
        ],
        aum_usd: 0,
        bump: 0,
        lp_token_bump: 0,
        inception_time: 0,
    }
}

fn base_perpetuals() -> stockdex::perps::Perpetuals {
    stockdex::perps::Perpetuals {
        permissions: allow_all(),
        pools: vec![100],
        transfer_authority_bump: 0,
        perpetuals_bump: 0,
        inception_time: 0,
    }
}

fn price(p: u64) -> OraclePrice {
    OraclePrice { price: p, exponent: -6 }
}

/// Scenario: same-custody long opened at $100. Entry price, notional,
/// collateral value, reserve, borrow and fee all take their expected exact
/// values.
#[test]
fn open_long_at_100_sizes_exactly() {
    let perp = base_perpetuals();
    let pool = base_pool();
    let custody = base_custody();
    let p100 = price(100_000_000);
    let params = OpenPositionParams {
        price: 101_000_000,
        collateral: 1_000_000_000,
        size: 5_000_000_000,
        side: Side::Long,
    };
    let u = open_position(&perp, &pool, 7, custody, None, &p100, &p100, &p100, &p100, 1000,
        &params)
        .unwrap();
    assert_eq!(u.position.price, 100_000_000);
    assert_eq!(u.position.size_usd, 500_000_000);
    assert_eq!(u.position.collateral_usd, 100_000_000);
    assert_eq!(u.position.locked_amount, 15_000_000_000);
    assert_eq!(u.position.borrow_size_usd, 1_500_000_000);
    assert_eq!(u.position.collateral_amount, 1_000_000_000);
    assert_eq!(u.position.open_time, 1000);
    assert_eq!(u.fee_amount, 50_000_000);
    assert_eq!(u.transfer_amount, 1_050_000_000);
    assert!(u.collateral_custody.is_none());
    let c = u.custody;
    assert_eq!(c.assets.locked, 15_000_000_000);
    assert_eq!(c.assets.collateral, 1_000_000_000);
    assert_eq!(c.assets.protocol_fees, 10_000_000);
    assert_eq!(c.collected_fees.open_position_usd, 5_000_000);
    assert_eq!(c.volume_stats.open_position_usd, 500_000_000);
    assert_eq!(c.trade_stats.oi_long_usd, 500_000_000);
    assert_eq!(c.long_positions.open_positions, 1);
    assert_eq!(c.long_positions.size_usd, 500_000_000);
    assert_eq!(c.long_positions.locked_amount, 15_000_000_000);
    assert_eq!(c.long_positions.borrow_size_usd, 1_500_000_000);
    // Locked stays within owned after the open.
    assert!(c.assets.locked <= c.assets.owned);
}

/// Scenario continued: price moves to $120 and the long closes at a profit.
/// The exit fee, net profit and payout follow the settlement formulas
/// exactly, and closing the last position resets the side's aggregates.
#[test]
fn close_long_at_120_pays_exact_profit() {
    let perp = base_perpetuals();
    let pool = base_pool();
    let custody = base_custody();
    let p100 = price(100_000_000);
    let open_params = OpenPositionParams {
        price: 101_000_000,
        collateral: 1_000_000_000,
        size: 5_000_000_000,
        side: Side::Long,
    };
    let opened = open_position(&perp, &pool, 7, custody, None, &p100, &p100, &p100, &p100, 1000,
        &open_params)
        .unwrap();
    let p120 = price(120_000_000);
    let closed = close_position(&perp, &pool, opened.position, opened.custody, None, &p120,
        &p120, &p120, &p120, 1100, &ClosePositionParams { price: 119_000_000 })
        .unwrap();
    // size in tokens at $120: 500 USD / 120 = 4.166666666 tokens;
    // 1% exit fee on that, rounded up.
    assert_eq!(closed.fee_amount, 41_666_667);
    // potential profit $100 less the $5 exit fee.
    assert_eq!(closed.profit_usd, 95_000_000);
    assert_eq!(closed.loss_usd, 0);
    // (collateral $100 + profit $95) / $120, rounded down.
    assert_eq!(closed.transfer_amount, 1_625_000_000);
    let c = closed.custody;
    // The trader took 0.625 tokens of pool funds...
    assert_eq!(c.assets.owned, 100_000_000_000 - 625_000_000 - 8_333_334);
    // ...and the protocol kept its 20% of the exit fee on top of the open fee.
    assert_eq!(c.assets.protocol_fees, 10_000_000 + 8_333_334);
    assert_eq!(c.assets.collateral, 0);
    assert_eq!(c.assets.locked, 0);
    // Closing the last long resets the whole aggregate.
    assert_eq!(c.long_positions, PositionStats::default());
    assert_eq!(c.trade_stats.profit_usd, 95_000_000);
    assert_eq!(c.trade_stats.oi_long_usd, 0);
    assert!(c.assets.locked <= c.assets.owned);
}

/// Scenario: an open whose implied leverage breaches the band fails with
/// `MaxLeverage`.
#[test]
fn open_with_excess_leverage_is_rejected() {
    let perp = base_perpetuals();
    let pool = base_pool();
    let custody = base_custody();
    let p100 = price(100_000_000);
    let params = OpenPositionParams {
        price: 101_000_000,
        collateral: 50_000_000,
        size: 10_000_000_000,
        side: Side::Long,
    };
    let r = open_position(&perp, &pool, 7, custody, None, &p100, &p100, &p100, &p100, 1000,
        &params);
    assert_eq!(r.unwrap_err(), PerpetualsError::MaxLeverage);
}

/// Scenario: a long whose price bound sits below the entry quote fails with
/// `MaxPriceSlippage`.
#[test]
fn open_with_tight_price_bound_is_rejected() {
    let perp = base_perpetuals();
    let pool = base_pool();
    let custody = base_custody();
    let p100 = price(100_000_000);
    let params = OpenPositionParams {
        price: 99_000_000,
        collateral: 1_000_000_000,
        size: 5_000_000_000,
        side: Side::Long,
    };
    let r = open_position(&perp, &pool, 7, custody, None, &p100, &p100, &p100, &p100, 1000,
        &params);
    assert_eq!(r.unwrap_err(), PerpetualsError::MaxPriceSlippage);
}

/// Scenario: withdrawing the whole collateral value is rejected as
/// `InvalidArgument` (the bound is strict).
#[test]
fn remove_all_collateral_is_rejected() {
    let perp = base_perpetuals();
    let pool = base_pool();
    let custody = base_custody();
    let p100 = price(100_000_000);
    let params = OpenPositionParams {
        price: 101_000_000,
        collateral: 1_000_000_000,
        size: 5_000_000_000,
        side: Side::Long,
    };
    let opened = open_position(&perp, &pool, 7, custody, None, &p100, &p100, &p100, &p100, 1000,
        &params)
        .unwrap();
    let r = remove_collateral(&perp, &pool, opened.position, opened.custody, None, &p100, &p100,
        &p100, &p100, 1001, &RemoveCollateralParams {
            collateral_usd: opened.position.collateral_usd,
        });
    assert_eq!(r.unwrap_err(), PerpetualsError::InvalidArgument);
}

/// Scenario: cross-collateral short. The payoff reserve is taken in
/// collateral-custody units with the short clamp applied, and the entry fee
/// is converted into collateral tokens.
#[test]
fn cross_collateral_short_uses_collateral_units() {
    let perp = base_perpetuals();
    let pool = base_pool();
    let custody = base_custody();
    let collateral_custody = stable_custody();
    let p100 = price(100_000_000);
    let p1 = price(1_000_000);
    let params = OpenPositionParams {
        price: 99_000_000,
        collateral: 100_000_000,
        size: 5_000_000_000,
        side: Side::Short,
    };
    let u = open_position(&perp, &pool, 7, custody, Some(collateral_custody), &p100, &p100, &p1,
        &p1, 1000, &params)
        .unwrap();
    assert_eq!(u.position.size_usd, 500_000_000);
    // $500 of reserve in 6-decimal stable tokens, clamped at 100% of size.
    assert_eq!(u.position.locked_amount, 500_000_000);
    assert!(u.position.locked_amount <= 500_000_000);
    assert_eq!(u.position.borrow_size_usd, 500_000_000);
    // $5 entry fee converted into 6-decimal stable tokens.
    assert_eq!(u.fee_amount, 5_000_000);
    assert_eq!(u.transfer_amount, 105_000_000);
    let kc = u.collateral_custody.unwrap();
    assert_eq!(kc.assets.locked, 500_000_000);
    assert_eq!(kc.assets.collateral, 100_000_000);
    assert!(kc.assets.locked <= kc.assets.owned);
    // The trading custody tracks open interest; the collateral custody
    // tracks the borrow.
    assert_eq!(u.custody.trade_stats.oi_short_usd, 500_000_000);
    assert_eq!(u.custody.short_positions.borrow_size_usd, 0);
    assert_eq!(kc.short_positions.borrow_size_usd, 500_000_000);
    assert_eq!(kc.short_positions.open_positions, 1);
}

/// A short opened with the wrong custody pairing is rejected.
#[test]
fn short_without_collateral_custody_is_rejected() {
    let perp = base_perpetuals();
    let pool = base_pool();
    let custody = base_custody();
    let p100 = price(100_000_000);
    let params = OpenPositionParams {
        price: 99_000_000,
        collateral: 100_000_000,
        size: 5_000_000_000,
        side: Side::Short,
    };
    let r = open_position(&perp, &pool, 7, custody, None, &p100, &p100, &p100, &p100, 1000,
        &params);
    assert_eq!(r.unwrap_err(), PerpetualsError::InvalidCollateralCustody);
}

/// Permission flags deny the open.
#[test]
fn open_without_permission_is_rejected() {
    let mut perp = base_perpetuals();
    perp.permissions.allow_open_position = false;
    let pool = base_pool();
    let custody = base_custody();
    let p100 = price(100_000_000);
    let params = OpenPositionParams {
        price: 101_000_000,
        collateral: 1_000_000_000,
        size: 5_000_000_000,
        side: Side::Long,
    };
    let r = open_position(&perp, &pool, 7, custody, None, &p100, &p100, &p100, &p100, 1000,
        &params);
    assert_eq!(r.unwrap_err(), PerpetualsError::InstructionNotAllowed);
}

/// A zero size is an invalid argument, as is an unset side.
#[test]
fn open_with_zero_size_is_rejected() {
    let perp = base_perpetuals();
    let pool = base_pool();
    let custody = base_custody();
    let p100 = price(100_000_000);
    let params = OpenPositionParams {
        price: 101_000_000,
        collateral: 1_000_000_000,
        size: 0,
        side: Side::Long,
    };
    let r = open_position(&perp, &pool, 7, custody, None, &p100, &p100, &p100, &p100, 1000,
        &params);
    assert_eq!(r.unwrap_err(), PerpetualsError::InvalidArgument);
    let params2 = OpenPositionParams {
        price: 101_000_000,
        collateral: 1_000_000_000,
        size: 5_000_000_000,
        side: Side::Unset,
    };
    let r2 = open_position(&perp, &pool, 7, base_custody(), None, &p100, &p100, &p100, &p100,
        1000, &params2);
    assert_eq!(r2.unwrap_err(), PerpetualsError::InvalidArgument);
}

/// Conservation of collateral: across an add and a partial remove, the
/// position's collateral and the custody's collateral bucket move in
/// lockstep.
#[test]
fn collateral_moves_in_lockstep() {
    let perp = base_perpetuals();
    let pool = base_pool();
    let custody = base_custody();
    let p100 = price(100_000_000);
    let params = OpenPositionParams {
        price: 101_000_000,
        collateral: 1_000_000_000,
        size: 5_000_000_000,
        side: Side::Long,
    };
    let opened = open_position(&perp, &pool, 7, custody, None, &p100, &p100, &p100, &p100, 1000,
        &params)
        .unwrap();
    assert_eq!(
        opened.custody.assets.collateral as u128,
        opened.position.collateral_amount as u128
    );
    let added = add_collateral(&perp, &pool, opened.position, opened.custody, None, &p100,
        &p100, &p100, &p100, 1001, &AddCollateralParams { collateral: 500_000_000 })
        .unwrap();
    assert_eq!(added.position.collateral_amount, 1_500_000_000);
    assert_eq!(added.custody.assets.collateral, 1_500_000_000);
    assert_eq!(added.position.collateral_usd, 150_000_000);
    assert_eq!(added.transfer_amount, 500_000_000);
    let removed = remove_collateral(&perp, &pool, added.position, added.custody, None, &p100,
        &p100, &p100, &p100, 1002, &RemoveCollateralParams { collateral_usd: 30_000_000 })
        .unwrap();
    // $30 at the $100 maximum price costs 0.3 tokens.
    assert_eq!(removed.transfer_amount, 300_000_000);
    assert_eq!(removed.position.collateral_amount, 1_200_000_000);
    assert_eq!(removed.custody.assets.collateral, 1_200_000_000);
    assert_eq!(removed.position.collateral_usd, 120_000_000);
}

/// Removing more token value than the position holds fails with
/// `InsufficientFunds`.
#[test]
fn remove_collateral_beyond_tokens_is_rejected() {
    let perp = base_perpetuals();
    let pool = base_pool();
    let custody = base_custody();
    let p100 = price(100_000_000);
    let params = OpenPositionParams {
        price: 101_000_000,
        collateral: 1_000_000_000,
        size: 5_000_000_000,
        side: Side::Long,
    };
    let opened = open_position(&perp, &pool, 7, custody, None, &p100, &p100, &p100, &p100, 1000,
        &params)
        .unwrap();
    // Position: 1 token, $100 of value. At a $200 maximum collateral price,
    // $99 costs only 0.495 tokens, fine; make the price $0.05 instead so
    // that $99 costs 1980 tokens, more than the position holds.
    let cheap = price(50_000);
    let r = remove_collateral(&perp, &pool, opened.position, opened.custody, None, &p100, &p100,
        &cheap, &cheap, 1001, &RemoveCollateralParams { collateral_usd: 99_000_000 });
    assert_eq!(r.unwrap_err(), PerpetualsError::InsufficientFunds);
}

/// Round trip within the same block yields zero profit: open and close both
/// at `curtime = 1000`, price unchanged; the trader pays the fees and
/// realizes nothing.
#[test]
fn same_block_round_trip_yields_zero_profit() {
    let perp = base_perpetuals();
    let pool = base_pool();
    let custody = base_custody();
    let p100 = price(100_000_000);
    let params = OpenPositionParams {
        price: 101_000_000,
        collateral: 1_000_000_000,
        size: 5_000_000_000,
        side: Side::Long,
    };
    let opened = open_position(&perp, &pool, 7, custody, None, &p100, &p100, &p100, &p100, 1000,
        &params)
        .unwrap();
    // Even with the price up 20%, a same-block close realizes no profit.
    let p120 = price(120_000_000);
    let closed = close_position(&perp, &pool, opened.position, opened.custody, None, &p120,
        &p120, &p120, &p120, 1000, &ClosePositionParams { price: 119_000_000 })
        .unwrap();
    assert_eq!(closed.profit_usd, 0);
    assert_eq!(closed.loss_usd, 0);
}

/// Payoff cap: profit never exceeds the collateral value of the locked
/// reserve. A tiny payoff multiplier makes the cap bind.
#[test]
fn profit_is_capped_by_locked_reserve() {
    let perp = base_perpetuals();
    let pool = base_pool();
    let mut custody = base_custody();
    // Reserve only 10% of size: max payoff 0.5 tokens.
    custody.pricing.max_payoff_mult = 1_000;
    let p100 = price(100_000_000);
    let params = OpenPositionParams {
        price: 101_000_000,
        collateral: 1_000_000_000,
        size: 5_000_000_000,
        side: Side::Long,
    };
    let opened = open_position(&perp, &pool, 7, custody, None, &p100, &p100, &p100, &p100, 1000,
        &params)
        .unwrap();
    assert_eq!(opened.position.locked_amount, 500_000_000);
    // Price doubles: uncapped profit would be $500 less fees, but the cap
    // is 0.5 tokens at the $200 collateral price = $100.
    let p200 = price(200_000_000);
    let closed = close_position(&perp, &pool, opened.position, opened.custody, None, &p200,
        &p200, &p200, &p200, 1100, &ClosePositionParams { price: 190_000_000 })
        .unwrap();
    assert_eq!(closed.profit_usd, 100_000_000);
}

/// Aggregate weighted price stays the exact average across adds: two
/// positions at $100 and $200 of equal quantity average to $150.
#[test]
fn weighted_entry_price_is_exact() {
    let perp = base_perpetuals();
    let pool = base_pool();
    let custody = base_custody();
    let p100 = price(100_000_000);
    let params1 = OpenPositionParams {
        price: 101_000_000,
        collateral: 1_000_000_000,
        size: 5_000_000_000,
        side: Side::Long,
    };
    let first = open_position(&perp, &pool, 7, custody, None, &p100, &p100, &p100, &p100, 1000,
        &params1)
        .unwrap();
    // Second trader opens the same $500 notional at $200.
    let p200 = price(200_000_000);
    let params2 = OpenPositionParams {
        price: 201_000_000,
        collateral: 1_000_000_000,
        size: 2_500_000_000,
        side: Side::Long,
    };
    let second = open_position(&perp, &pool, 8, first.custody, None, &p200, &p200, &p200, &p200,
        1001, &params2)
        .unwrap();
    let stats = second.custody.long_positions;
    assert_eq!(stats.open_positions, 2);
    // quantity_i = size_usd * 10^4 / price_i: 50_000 and 25_000 units.
    assert_eq!(stats.total_quantity, 75_000);
    // weighted = 100e6 * 50_000 + 200e6 * 25_000.
    assert_eq!(stats.weighted_price, 10_000_000_000_000);
    // Average entry price: exactly $133.333333 for these quantities.
    assert_eq!(stats.weighted_price / stats.total_quantity, 133_333_333);
}

/// Locking beyond the configured utilization cap fails.
#[test]
fn lock_funds_respects_max_utilization() {
    let mut custody = base_custody();
    custody.pricing.max_utilization = 5_000;
    // 60% of owned funds breaches the 50% cap.
    let r = custody.lock_funds(60_000_000_000);
    assert_eq!(r.unwrap_err(), PerpetualsError::MaxUtilization);
    assert_eq!(custody.assets.locked, 0);
    // 40% fits.
    custody.lock_funds(40_000_000_000).unwrap();
    assert_eq!(custody.assets.locked, 40_000_000_000);
}

/// Locking more than the pool owns fails with `InsufficientFunds`, and a
/// virtual custody can never lock.
#[test]
fn lock_funds_limits() {
    let mut custody = base_custody();
    custody.pricing.max_utilization = 0;
    let r = custody.lock_funds(100_000_000_001);
    assert_eq!(r.unwrap_err(), PerpetualsError::InsufficientFunds);
    let mut virtual_custody = base_custody();
    virtual_custody.is_virtual = true;
    let r2 = virtual_custody.lock_funds(1);
    assert_eq!(r2.unwrap_err(), PerpetualsError::InvalidCollateralCustody);
}

/// Releasing more than is locked saturates at zero instead of failing.
#[test]
fn unlock_funds_saturates() {
    let mut custody = base_custody();
    custody.assets.locked = 5;
    custody.unlock_funds(8).unwrap();
    assert_eq!(custody.assets.locked, 0);
}

/// Interest accrues hourly and monotonically: the kinked borrow curve gives
/// 625_000 at 50% utilization and 6_000_000 at 90%.
#[test]
fn borrow_rate_kink_values() {
    let mut custody = base_custody();
    custody.borrow_rate = BorrowRateParams {
        base_rate: 0,
        slope1: 1_000_000,
        slope2: 10_000_000,
        optimal_utilization: 800_000_000,
    };
    custody.assets.owned = 10_000_000_000;
    custody.assets.locked = 5_000_000_000;
    custody.update_borrow_rate(1000).unwrap();
    assert_eq!(custody.borrow_rate_state.current_rate, 625_000);
    custody.assets.locked = 9_000_000_000;
    custody.update_borrow_rate(1001).unwrap();
    assert_eq!(custody.borrow_rate_state.current_rate, 6_000_000);
}

/// Cumulative interest is monotone in time and rounds up per hour.
#[test]
fn cumulative_interest_monotone_and_rounded_up() {
    let mut custody = base_custody();
    custody.borrow_rate_state = BorrowRateState {
        current_rate: 3_600_000,
        cumulative_interest: 0,
        last_update: 1000,
    };
    // One second accrues ceil(1 * 3_600_000 / 3600) = 1000.
    assert_eq!(custody.get_cumulative_interest(1001).unwrap(), 1000);
    // Half an hour accrues 1800 * 1000.
    assert_eq!(custody.get_cumulative_interest(2800).unwrap(), 1_800_000);
    let v1 = custody.get_cumulative_interest(1500).unwrap();
    let v2 = custody.get_cumulative_interest(2500).unwrap();
    assert!(v1 <= v2);
    // At or before the last update the accumulator is returned unchanged.
    assert_eq!(custody.get_cumulative_interest(999).unwrap(), 0);
}

/// A position pays interest on its borrow since its snapshot.
#[test]
fn position_interest_is_borrow_times_rate() {
    let mut custody = base_custody();
    custody.borrow_rate_state = BorrowRateState {
        current_rate: 3_600_000,
        cumulative_interest: 0,
        last_update: 1000,
    };
    let mut position = stockdex::position::Position::default();
    position.borrow_size_usd = 1_000_000_000;
    position.cumulative_interest_snapshot = 0;
    // One hour at 0.36% hourly on $1000: $3.60.
    let interest = custody.get_interest_amount_usd(&position, 4600).unwrap();
    assert_eq!(interest, 3_600_000);
}

/// Short reserve clamp: for a short the locked amount never exceeds the
/// size, whatever the payoff multiplier says.
#[test]
fn short_locked_amount_is_clamped() {
    let custody = base_custody();
    let locked_long = custody.get_locked_amount(5_000_000_000, Side::Long).unwrap();
    let locked_short = custody.get_locked_amount(5_000_000_000, Side::Short).unwrap();
    assert_eq!(locked_long, 15_000_000_000);
    assert_eq!(locked_short, 5_000_000_000);
    assert!(locked_short <= 5_000_000_000);
}
