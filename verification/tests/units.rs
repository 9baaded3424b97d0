//! Unit tests of the fixed-point kernel, the oracle price value, and the
//! pool's pricing, fee and valuation functions.

use stockdex::custody::{
    Assets, BorrowRateParams, BorrowRateState, Custody, Fees, FeesMode, FeesStats, PositionStats,
    TradeStats, VolumeStats,
};
use stockdex::error::PerpetualsError;
use stockdex::math;
use stockdex::oracle::{OracleParams, OraclePrice, OracleType};
use stockdex::perps::Permissions;
use stockdex::pool::{AumCalcMode, Pool, TokenRatios};
use stockdex::position::{Position, Side};

fn open_permissions() -> Permissions {
    Permissions {
        allow_swap: true,
        allow_add_liquidity: true,
        allow_remove_liquidity: true,
        allow_open_position: true,
        allow_close_position: true,
        allow_pnl_withdrawal: true,
        allow_collateral_withdrawal: true,
        allow_size_change: true,
    }
}

/// A six-decimal $1-pegged custody used by the fee and valuation tests.
fn fixture_custody() -> Custody {
    Custody {
        key: 5,
        pool: 100,
        mint: 15,
        token_account: 25,
        decimals: 6,
        is_stable: false,
        is_virtual: false,
        oracle: OracleParams {
            oracle_account: 35,
            oracle_type: OracleType::Pyth,
            max_price_error: 0,
            max_price_age_sec: 60,
        },
        pricing: stockdex::custody::PricingParams {
            use_ema: false,
            use_unrealized_pnl_in_aum: false,
            trade_spread_long: 0,
            trade_spread_short: 0,
            swap_spread: 0,
            min_initial_leverage: 10_000,
            max_initial_leverage: 100_000,
            max_leverage: 100_000,
            max_payoff_mult: 10_000,
            max_utilization: 0,
            max_position_locked_usd: 0,
            max_total_locked_usd: 0,
        },
        permissions: open_permissions(),
        fees: Fees {
            mode: FeesMode::Linear,
            ratio_mult: 5_000,
            utilization_mult: 0,
            swap_in: 0,
            swap_out: 0,
            stable_swap_in: 0,
            stable_swap_out: 0,
            add_liquidity: 30,
            remove_liquidity: 30,
            open_position: 100,
            close_position: 100,
            liquidation: 80,
            protocol_share: 2_000,
            fee_max: 40,
            fee_optimal: 10,
        },
        borrow_rate: BorrowRateParams {
            base_rate: 0,
            slope1: 0,
            slope2: 0,
            optimal_utilization: 800_000_000,
        },
        assets: Assets {
            collateral: 0,
            protocol_fees: 0,
            owned: 300_000_000,
            locked: 0,
        },
        collected_fees: FeesStats {
            swap_usd: 0,
            add_liquidity_usd: 0,
            remove_liquidity_usd: 0,
            open_position_usd: 0,
            close_position_usd: 0,
            liquidation_usd: 0,
        },
        volume_stats: VolumeStats {
            swap_usd: 0,
            add_liquidity_usd: 0,
            remove_liquidity_usd: 0,
            open_position_usd: 0,
            close_position_usd: 0,
            liquidation_usd: 0,
        },
        trade_stats: TradeStats {
            profit_usd: 0,
            loss_usd: 0,
            oi_long_usd: 0,
            oi_short_usd: 0,
        },
        long_positions: PositionStats::default(),
        short_positions: PositionStats::default(),
        borrow_rate_state: BorrowRateState {
            current_rate: 0,
            cumulative_interest: 0,
            last_update: 0,
        },
        bump: 0,
        token_account_bump: 0,
    }
}

fn fixture_pool() -> Pool {
    Pool {
        key: 100,
        name: b"market".to_vec(),
        custodies: vec![5, 6],
        ratios: vec![
            TokenRatios { target: 5_000, min: 1_000, max: 9_000 },
            TokenRatios { target: 5_000, min: 1_000, max: 9_000 },
        ],
        aum_usd: 1_000_000_000,
        bump: 0,
        lp_token_bump: 0,
        inception_time: 0,
    }
}

#[test]
fn checked_arithmetic_reports_overflow() {
    assert_eq!(math::checked_add(u64::MAX, 1).unwrap_err(), PerpetualsError::MathOverflow);
    assert_eq!(math::checked_add(2, 3).unwrap(), 5);
    assert_eq!(math::checked_sub(3, 5).unwrap_err(), PerpetualsError::MathOverflow);
    assert_eq!(math::checked_div_u128(10, 0).unwrap_err(), PerpetualsError::DivideByZero);
    assert_eq!(math::checked_div_u128(10, 3).unwrap(), 3);
    assert_eq!(math::checked_ceil_div_u128(10, 3).unwrap(), 4);
    assert_eq!(math::checked_ceil_div_u128(9, 3).unwrap(), 3);
    assert_eq!(
        math::checked_as_u64(u64::MAX as u128 + 1).unwrap_err(),
        PerpetualsError::MathOverflow
    );
    assert_eq!(math::checked_i64_to_u64(-1).unwrap_err(), PerpetualsError::MathOverflow);
    assert_eq!(math::checked_div_i64(-7, 2).unwrap(), -3);
    assert_eq!(math::checked_div_i64(7, -2).unwrap(), -3);
    assert_eq!(math::checked_div_i64(1, 0).unwrap_err(), PerpetualsError::DivideByZero);
    assert_eq!(math::checked_add_i64(i64::MAX, 1).unwrap_err(), PerpetualsError::MathOverflow);
    assert_eq!(math::checked_add_i64(-4, 9).unwrap(), 5);
    assert_eq!(math::checked_sub_i64(i64::MIN, 1).unwrap_err(), PerpetualsError::MathOverflow);
    assert_eq!(math::checked_mul_i64(-3, 7).unwrap(), -21);
    assert_eq!(
        math::checked_mul_i64(i64::MAX, 2).unwrap_err(),
        PerpetualsError::MathOverflow
    );
}

#[test]
fn scale_to_exponent_multiplies_down_and_truncates_up() {
    assert_eq!(math::scale_to_exponent(123_456, -6, -4).unwrap(), 1_234);
    assert_eq!(math::scale_to_exponent(5, -4, -6).unwrap(), 500);
    assert_eq!(math::scale_to_exponent(7, -6, -6).unwrap(), 7);
    assert_eq!(
        math::scale_to_exponent(u64::MAX, 0, -2).unwrap_err(),
        PerpetualsError::MathOverflow
    );
}

#[test]
fn decimal_mul_rounds_both_ways() {
    // 0.25 * 0.4 = 0.1, exactly ten hundredths.
    assert_eq!(math::checked_decimal_mul(25, -2, 4, -1, -2).unwrap(), 10);
    // 0.25 * 0.005 = 0.00125: floor gives 0 hundredths, ceil gives 1.
    assert_eq!(math::checked_decimal_mul(25, -2, 5, -3, -2).unwrap(), 0);
    assert_eq!(math::checked_decimal_ceil_mul(25, -2, 5, -3, -2).unwrap(), 1);
}

#[test]
fn decimal_div_truncates_toward_zero() {
    // 0.01 / 0.03 = 0.3333... in four decimals.
    assert_eq!(math::checked_decimal_div(1, -2, 3, -2, -4).unwrap(), 3_333);
    assert_eq!(math::checked_decimal_div(1, -2, 0, -2, -4).unwrap_err(),
        PerpetualsError::DivideByZero);
}

#[test]
fn oracle_comparison_is_exact_across_exponents() {
    let a = OraclePrice { price: 100, exponent: -2 };
    let b = OraclePrice { price: 1_001, exponent: -3 };
    // 1.00 < 1.001.
    assert!(a.lt(&b));
    assert!(!b.lt(&a));
    assert!(b.gt(&a));
    let c = OraclePrice { price: 1_000, exponent: -3 };
    // 1.00 == 1.000: neither side is smaller.
    assert!(!a.lt(&c));
    assert!(!c.lt(&a));
}

#[test]
fn min_price_clamps_stables_to_one_dollar() {
    let spot = OraclePrice { price: 1_050_000, exponent: -6 };
    let ema = OraclePrice { price: 1_020_000, exponent: -6 };
    let clamped = spot.get_min_price(&ema, true).unwrap();
    assert_eq!(clamped.price, 1_000_000);
    let unclamped = spot.get_min_price(&ema, false).unwrap();
    assert_eq!(unclamped.price, 1_020_000);
    // Below the peg nothing is clamped.
    let low = OraclePrice { price: 980_000, exponent: -6 };
    let kept = spot.get_min_price(&low, true).unwrap();
    assert_eq!(kept.price, 980_000);
}

#[test]
fn usd_conversions_are_exact() {
    let p100 = OraclePrice { price: 100_000_000, exponent: -6 };
    // 1 token with 9 decimals at $100 is $100.
    assert_eq!(p100.get_asset_amount_usd(1_000_000_000, 9).unwrap(), 100_000_000);
    let p120 = OraclePrice { price: 120_000_000, exponent: -6 };
    // $199.94 at $120 buys 1.666166666 tokens, rounded down.
    assert_eq!(p120.get_token_amount(199_940_000, 9).unwrap(), 1_666_166_666);
    // Zero price converts to zero rather than failing.
    let p0 = OraclePrice { price: 0, exponent: -6 };
    assert_eq!(p0.get_asset_amount_usd(5, 6).unwrap(), 0);
    assert_eq!(p0.get_token_amount(5, 6).unwrap(), 0);
}

#[test]
fn entry_and_exit_prices_apply_directional_spread() {
    let pool = fixture_pool();
    let mut custody = fixture_custody();
    custody.pricing.trade_spread_long = 100;
    custody.pricing.trade_spread_short = 50;
    let p100 = OraclePrice { price: 100_000_000, exponent: -6 };
    // A long pays 1% above the quote; closing it receives 0.5% below.
    assert_eq!(pool.get_entry_price(&p100, &p100, Side::Long, &custody).unwrap(), 101_000_000);
    assert_eq!(pool.get_exit_price(&p100, &p100, Side::Long, &custody).unwrap(), 99_500_000);
    // A short receives 0.5% below; closing it pays 1% above.
    assert_eq!(pool.get_entry_price(&p100, &p100, Side::Short, &custody).unwrap(), 99_500_000);
    assert_eq!(pool.get_exit_price(&p100, &p100, Side::Short, &custody).unwrap(), 101_000_000);
}

#[test]
fn fee_amount_rounds_up() {
    // 1% of 999 rounds up to 10.
    assert_eq!(Pool::get_fee_amount(100, 999).unwrap(), 10);
    assert_eq!(Pool::get_fee_amount(100, 0).unwrap(), 0);
    assert_eq!(Pool::get_fee_amount(0, 999).unwrap(), 0);
}

/// Fee direction in the linear mode: a move toward the target ratio is
/// charged below the base fee, a move away above it.
#[test]
fn linear_fee_discounts_toward_target() {
    let pool = fixture_pool();
    let custody = fixture_custody();
    let p1 = OraclePrice { price: 1_000_000, exponent: -6 };
    // Current ratio $300 of $1000 = 30%; target 50%.
    // Adding $100 moves to 36.36%: toward the target, discounted.
    let toward = pool.get_add_liquidity_fee(0, 100_000_000, &custody, &p1).unwrap();
    // Removing $100 moves to 22.22%: away from the target, marked up.
    let away = pool.get_remove_liquidity_fee(0, 100_000_000, &custody, &p1).unwrap();
    let baseline = Pool::get_fee_amount(30, 100_000_000).unwrap();
    assert_eq!(baseline, 300_000);
    assert_eq!(toward, 250_000);
    assert_eq!(away, 400_000);
    assert!(toward <= baseline);
    assert!(away >= baseline);
}

/// The optimal fee mode rejects a move that leaves the ratio band.
#[test]
fn optimal_fee_rejects_out_of_band_moves() {
    let pool = fixture_pool();
    let mut custody = fixture_custody();
    custody.fees.mode = FeesMode::Optimal;
    let p1 = OraclePrice { price: 1_000_000, exponent: -6 };
    // Removing $250 of $300 drops the ratio to 6.66%, below the 10% floor.
    let r = pool.get_remove_liquidity_fee(0, 250_000_000, &custody, &p1);
    assert_eq!(r.unwrap_err(), PerpetualsError::TokenRatioOutOfRange);
    // A small add interpolates between the optimal and maximum fee.
    let fee = pool.get_add_liquidity_fee(0, 100_000_000, &custody, &p1).unwrap();
    assert_eq!(fee, 300_000);
}

#[test]
fn token_id_lookup() {
    let pool = fixture_pool();
    assert_eq!(pool.get_token_id(6).unwrap(), 1);
    assert_eq!(pool.get_token_id(99).unwrap_err(), PerpetualsError::UnsupportedToken);
}

#[test]
fn pool_validation_checks_ratios_and_uniqueness() {
    let pool = fixture_pool();
    assert!(pool.validate());
    let mut dup = fixture_pool();
    dup.custodies = vec![5, 5];
    assert!(!dup.validate());
    let mut bad_sum = fixture_pool();
    bad_sum.ratios = vec![
        TokenRatios { target: 5_000, min: 1_000, max: 9_000 },
        TokenRatios { target: 4_000, min: 1_000, max: 9_000 },
    ];
    assert!(!bad_sum.validate());
    let mut empty_name = fixture_pool();
    empty_name.name = Vec::new();
    assert!(!empty_name.validate());
}

#[test]
fn initial_leverage_is_notional_over_collateral() {
    let mut position = Position::default();
    position.size_usd = 500_000_000;
    position.collateral_usd = 100_000_000;
    assert_eq!(position.get_initial_leverage().unwrap(), 50_000);
    position.collateral_usd = 0;
    assert_eq!(position.get_initial_leverage().unwrap_err(), PerpetualsError::DivideByZero);
}

#[test]
fn liquidation_price_inverts_leverage() {
    let pool = fixture_pool();
    let mut custody = fixture_custody();
    custody.decimals = 9;
    let p100 = OraclePrice { price: 100_000_000, exponent: -6 };
    let mut position = Position::default();
    position.side = Side::Long;
    position.price = 100_000_000;
    position.size_usd = 500_000_000;
    position.collateral_usd = 100_000_000;
    position.locked_amount = 15_000_000_000;
    position.collateral_amount = 1_000_000_000;
    // Margin $100 against max tolerated loss $50 plus the $5 exit fee:
    // the long liquidates $9 per token below the $100 entry.
    let lp = pool.get_liquidation_price(&position, &p100, &custody, &custody, 1000).unwrap();
    assert_eq!(lp, 91_000_000);
}

#[test]
fn swap_amount_converts_across_decimals() {
    let pool = fixture_pool();
    let mut custody_in = fixture_custody();
    custody_in.decimals = 9;
    let custody_out = fixture_custody();
    let p100 = OraclePrice { price: 100_000_000, exponent: -6 };
    let p1 = OraclePrice { price: 1_000_000, exponent: -6 };
    // 1 nine-decimal token at $100 buys 100 six-decimal $1 tokens.
    let out = pool.get_swap_amount(&p100, &p100, &p1, &p1, &custody_in, &custody_out,
        1_000_000_000)
        .unwrap();
    assert_eq!(out, 100_000_000);
}

#[test]
fn aum_sums_custody_values() {
    let pool = fixture_pool();
    let c1 = fixture_custody();
    let mut c2 = fixture_custody();
    c2.key = 6;
    c2.decimals = 9;
    c2.assets.owned = 100_000_000_000;
    let p1 = OraclePrice { price: 1_000_000, exponent: -6 };
    let p100 = OraclePrice { price: 100_000_000, exponent: -6 };
    // $300 of the stable-like token plus $10,000 of the other.
    let aum = pool.get_assets_under_management_usd(
        AumCalcMode::Last,
        &vec![c1, c2],
        &vec![p1, p100],
        &vec![p1, p100],
        1000,
    )
        .unwrap();
    assert_eq!(aum, 10_300_000_000);
}

#[test]
fn check_available_amount_counts_unlocked_funds() {
    let pool = fixture_pool();
    let mut custody = fixture_custody();
    custody.assets.owned = 100;
    custody.assets.collateral = 50;
    custody.assets.locked = 120;
    assert!(pool.check_available_amount(30, &custody).unwrap());
    assert!(!pool.check_available_amount(31, &custody).unwrap());
}

#[test]
fn custody_validation_rules() {
    let custody = fixture_custody();
    assert!(custody.validate());
    let mut virtual_stable = fixture_custody();
    virtual_stable.is_stable = true;
    virtual_stable.is_virtual = true;
    assert!(!virtual_stable.validate());
    let mut bad_leverage = fixture_custody();
    bad_leverage.pricing.min_initial_leverage = 5_000;
    assert!(!bad_leverage.validate());
    let mut bad_fee = fixture_custody();
    bad_fee.fees.open_position = 10_001;
    assert!(!bad_fee.validate());
}

#[test]
fn collective_position_averages_entries() {
    let mut custody = fixture_custody();
    custody.long_positions = PositionStats {
        open_positions: 2,
        collateral_usd: 0,
        size_usd: 1_000_000_000,
        borrow_size_usd: 1_000_000_000,
        locked_amount: 20_000_000_000,
        weighted_price: 10_000_000_000_000,
        total_quantity: 75_000,
        cumulative_interest_usd: 7,
        cumulative_interest_snapshot: 3,
    };
    let p = custody.get_collective_position(Side::Long).unwrap();
    assert_eq!(p.price, 133_333_333);
    assert_eq!(p.size_usd, 1_000_000_000);
    assert_eq!(p.locked_amount, 20_000_000_000);
    assert_eq!(p.unrealized_loss_usd, 7);
    // An empty side collapses to the zero position.
    let empty = custody.get_collective_position(Side::Short).unwrap();
    assert_eq!(empty, Position::default());
}
