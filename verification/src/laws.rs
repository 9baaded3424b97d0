//! Engine-wide laws: properties that relate several operations, stated and
//! proved over the same specification functions the operations' contracts
//! use.

use vstd::prelude::*;
use vstd::arithmetic::div_mod::{
    lemma_div_is_ordered, lemma_div_is_ordered_by_denominator, lemma_div_pos_is_pos,
    lemma_fundamental_div_mod_converse_div,
};
use vstd::arithmetic::mul::lemma_mul_inequality;
use crate::custody::{spec_stats_with_position, Custody, PositionStats};
use crate::error::PerpetualsError;
use crate::instructions::{
    spec_add_collateral, spec_close_position, spec_close_position_commit, spec_open_position,
    spec_remove_collateral, AddCollateralParams, ClosePositionParams, ClosePositionUpdate,
    CollateralUpdate, OpenPositionParams, OpenPositionUpdate, RemoveCollateralParams,
};
use crate::oracle::OraclePrice;
use crate::perps::{Perpetuals, BPS_POWER};
use crate::pool::{
    ratio_improved, spec_check_leverage, spec_get_close_amount, spec_get_current_ratio,
    spec_get_fee_amount, spec_get_fee_linear, spec_get_new_ratio, Pool, TokenRatios,
};
use crate::position::{Position, Side};

verus! {

/// Sum of the collateral tokens posted across a set of positions.
pub open spec fn total_collateral_tokens(positions: Seq<Position>) -> int
    decreases positions.len(),
{
    if positions.len() == 0 {
        0
    } else {
        total_collateral_tokens(positions.drop_last()) + positions.last().collateral_amount
    }
}

/// Replacing one position in a set shifts the collateral sum by exactly the
/// difference of the two records.
pub proof fn lemma_total_collateral_update(positions: Seq<Position>, i: int, p: Position)
    requires
        0 <= i < positions.len(),
    ensures
        total_collateral_tokens(positions.update(i, p)) == total_collateral_tokens(positions)
            - positions[i].collateral_amount + p.collateral_amount,
    decreases positions.len(),
{
    if i == positions.len() - 1 {
        assert(positions.update(i, p).drop_last() =~= positions.drop_last());
    } else {
        assert(positions.update(i, p).drop_last() =~= positions.drop_last().update(i, p));
        lemma_total_collateral_update(positions.drop_last(), i, p);
    }
}

/// Conservation of collateral-denominated assets under `add_collateral`:
/// when the positions collateralized by a custody sum to its collateral
/// bucket, they still do after a successful top-up of any one of them.
pub proof fn lemma_add_collateral_conserves_collateral(
    perpetuals: Perpetuals,
    pool: Pool,
    positions: Seq<Position>,
    i: int,
    custody: Custody,
    collateral_custody: Option<Custody>,
    token_price: OraclePrice,
    token_ema_price: OraclePrice,
    collateral_token_price: OraclePrice,
    collateral_token_ema_price: OraclePrice,
    curtime: i64,
    params: AddCollateralParams,
    u: CollateralUpdate,
)
    requires
        0 <= i < positions.len(),
        spec_add_collateral(perpetuals, pool, positions[i], custody, collateral_custody,
            token_price, token_ema_price, collateral_token_price, collateral_token_ema_price,
            curtime, params) == Ok::<CollateralUpdate, PerpetualsError>(u),
        total_collateral_tokens(positions) == (match collateral_custody {
            Option::Some(c) => c.assets.collateral,
            Option::None => custody.assets.collateral,
        }) as int,
    ensures
        total_collateral_tokens(positions.update(i, u.position)) == (match u.collateral_custody {
            Option::Some(c) => c.assets.collateral,
            Option::None => u.custody.assets.collateral,
        }) as int,
{
    lemma_total_collateral_update(positions, i, u.position);
}

/// Conservation of collateral-denominated assets under `remove_collateral`:
/// the positions' summed collateral and the custody's collateral bucket
/// move down by the same token amount.
pub proof fn lemma_remove_collateral_conserves_collateral(
    perpetuals: Perpetuals,
    pool: Pool,
    positions: Seq<Position>,
    i: int,
    custody: Custody,
    collateral_custody: Option<Custody>,
    token_price: OraclePrice,
    token_ema_price: OraclePrice,
    collateral_token_price: OraclePrice,
    collateral_token_ema_price: OraclePrice,
    curtime: i64,
    params: RemoveCollateralParams,
    u: CollateralUpdate,
)
    requires
        0 <= i < positions.len(),
        spec_remove_collateral(perpetuals, pool, positions[i], custody, collateral_custody,
            token_price, token_ema_price, collateral_token_price, collateral_token_ema_price,
            curtime, params) == Ok::<CollateralUpdate, PerpetualsError>(u),
        total_collateral_tokens(positions) == (match collateral_custody {
            Option::Some(c) => c.assets.collateral,
            Option::None => custody.assets.collateral,
        }) as int,
    ensures
        total_collateral_tokens(positions.update(i, u.position)) == (match u.collateral_custody {
            Option::Some(c) => c.assets.collateral,
            Option::None => u.custody.assets.collateral,
        }) as int,
{
    lemma_total_collateral_update(positions, i, u.position);
}

/// Interest monotonicity: the cumulative-interest accumulator never moves
/// backward in time. Whenever both reads succeed and `t1 <= t2`, the value
/// at `t1` is at most the value at `t2`.
pub proof fn lemma_cumulative_interest_monotonic(custody: Custody, t1: i64, t2: i64)
    requires
        t1 <= t2,
    ensures
        match (custody.spec_cumulative_interest(t1), custody.spec_cumulative_interest(t2)) {
            (Ok(v1), Ok(v2)) => v1 <= v2,
            _ => true,
        },
{
    let lu = custody.borrow_rate_state.last_update;
    let rate = custody.borrow_rate_state.current_rate;
    if t2 > lu {
        let e2 = t2 - lu;
        if t1 > lu {
            let e1 = t1 - lu;
            lemma_mul_inequality(e1, e2, rate as int);
            lemma_div_is_ordered(e1 * rate + 3600 - 1, e2 * rate + 3600 - 1, 3600);
        } else {
            if e2 <= i64::MAX {
                lemma_mul_inequality(0, e2, rate as int);
                lemma_div_pos_is_pos(e2 * rate + 3600 - 1, 3600);
            }
        }
    }
}

/// Leverage bound at entry: a successful `open_position` leaves a position
/// whose leverage, against the opening prices and records, satisfies the
/// custody's initial band (between `min_initial_leverage` and
/// `max_initial_leverage`) as well as the overall ceiling.
pub proof fn lemma_open_position_respects_leverage_band(
    perpetuals: Perpetuals,
    pool: Pool,
    owner: u64,
    custody: Custody,
    collateral_custody: Option<Custody>,
    token_price: OraclePrice,
    token_ema_price: OraclePrice,
    collateral_token_price: OraclePrice,
    collateral_token_ema_price: OraclePrice,
    curtime: i64,
    params: OpenPositionParams,
)
    ensures
        match spec_open_position(perpetuals, pool, owner, custody, collateral_custody,
            token_price, token_ema_price, collateral_token_price, collateral_token_ema_price,
            curtime, params) {
            Ok(u) => spec_check_leverage(
                u.position,
                token_price,
                token_ema_price,
                custody,
                collateral_token_price,
                collateral_token_ema_price,
                match collateral_custody {
                    Option::Some(c) => c,
                    Option::None => custody,
                },
                curtime,
                true,
            ) == Ok::<bool, PerpetualsError>(true),
            Err(_) => true,
        },
{
}

/// Leverage bound after a collateral change: both `add_collateral` and
/// `remove_collateral` re-check the entry band against the updated
/// position before committing.
pub proof fn lemma_collateral_change_respects_leverage_band(
    perpetuals: Perpetuals,
    pool: Pool,
    position: Position,
    custody: Custody,
    collateral_custody: Option<Custody>,
    token_price: OraclePrice,
    token_ema_price: OraclePrice,
    collateral_token_price: OraclePrice,
    collateral_token_ema_price: OraclePrice,
    curtime: i64,
    add_params: AddCollateralParams,
    remove_params: RemoveCollateralParams,
)
    ensures
        match spec_add_collateral(perpetuals, pool, position, custody, collateral_custody,
            token_price, token_ema_price, collateral_token_price, collateral_token_ema_price,
            curtime, add_params) {
            Ok(u) => spec_check_leverage(
                u.position,
                token_price,
                token_ema_price,
                custody,
                collateral_token_price,
                collateral_token_ema_price,
                match collateral_custody {
                    Option::Some(c) => c,
                    Option::None => custody,
                },
                curtime,
                true,
            ) == Ok::<bool, PerpetualsError>(true),
            Err(_) => true,
        },
        match spec_remove_collateral(perpetuals, pool, position, custody, collateral_custody,
            token_price, token_ema_price, collateral_token_price, collateral_token_ema_price,
            curtime, remove_params) {
            Ok(u) => spec_check_leverage(
                u.position,
                token_price,
                token_ema_price,
                custody,
                collateral_token_price,
                collateral_token_ema_price,
                match collateral_custody {
                    Option::Some(c) => c,
                    Option::None => custody,
                },
                curtime,
                true,
            ) == Ok::<bool, PerpetualsError>(true),
            Err(_) => true,
        },
{
}


/// Sum over a set of `(price, quantity)` entries of `price * quantity`.
pub open spec fn weighted_price_sum(entries: Seq<(u64, u128)>) -> int
    decreases entries.len(),
{
    if entries.len() == 0 {
        0
    } else {
        weighted_price_sum(entries.drop_last()) + entries.last().0 * entries.last().1
    }
}

/// Sum over a set of `(price, quantity)` entries of the quantities.
pub open spec fn quantity_sum(entries: Seq<(u64, u128)>) -> int
    decreases entries.len(),
{
    if entries.len() == 0 {
        0
    } else {
        quantity_sum(entries.drop_last()) + entries.last().1
    }
}

/// The quantity a position contributes to the weighted-average bookkeeping:
/// its notional over its entry price, in basis-point units.
pub open spec fn position_quantity(position: Position) -> int {
    (position.size_usd * BPS_POWER) / (position.price as int)
}

/// Aggregate weighted price, add direction: when a side's accumulators
/// carry the exact sums `sum(price_i * quantity_i)` and `sum(quantity_i)`
/// over its open positions, adding one more position keeps them exact, so
/// `weighted_price / total_quantity` is exactly the quantity-weighted
/// average entry price.
pub proof fn lemma_add_position_tracks_weighted_sums(
    st0: PositionStats,
    position: Position,
    interest_usd: u64,
    own_interest: bool,
    st3: PositionStats,
    entries: Seq<(u64, u128)>,
)
    requires
        spec_stats_with_position(st0, position, interest_usd, own_interest)
            == Ok::<PositionStats, PerpetualsError>(st3),
        st0.weighted_price == weighted_price_sum(entries),
        st0.total_quantity == quantity_sum(entries),
    ensures
        st3.weighted_price == weighted_price_sum(
            entries.push((position.price, position_quantity(position) as u128)),
        ),
        st3.total_quantity == quantity_sum(
            entries.push((position.price, position_quantity(position) as u128)),
        ),
{
    let q = position_quantity(position);
    crate::math::lemma_u64_mul_fits_u128(position.size_usd, BPS_POWER);
    lemma_div_pos_is_pos(position.size_usd * BPS_POWER, position.price as int);
    lemma_div_is_ordered_by_denominator(position.size_usd * BPS_POWER, 1, position.price as int);
    let es2 = entries.push((position.price, q as u128));
    assert(es2.drop_last() =~= entries);
}

/// Aggregate weighted price, remove direction: taking a position out of a
/// side that keeps other positions open subtracts exactly its
/// `price * quantity` and its `quantity`, so the accumulators stay the
/// exact sums over the remaining positions. (Removing the last position
/// instead resets both accumulators to the empty sums.)
pub proof fn lemma_remove_position_tracks_weighted_sums(
    custody: Custody,
    position: Position,
    curtime: i64,
    collateral_custody: Option<Custody>,
    c2: Custody,
    cc2: Option<Custody>,
    entries: Seq<(u64, u128)>,
)
    requires
        custody.spec_remove_position(position, curtime, collateral_custody)
            == Ok::<(Custody, Option<Custody>), PerpetualsError>((c2, cc2)),
        custody.stats_for(position.side).open_positions != 1,
        custody.stats_for(position.side).weighted_price == weighted_price_sum(
            entries.push((position.price, position_quantity(position) as u128)),
        ),
        custody.stats_for(position.side).total_quantity == quantity_sum(
            entries.push((position.price, position_quantity(position) as u128)),
        ),
    ensures
        c2.stats_for(position.side).weighted_price == weighted_price_sum(entries),
        c2.stats_for(position.side).total_quantity == quantity_sum(entries),
{
    let q = position_quantity(position);
    crate::math::lemma_u64_mul_fits_u128(position.size_usd, BPS_POWER);
    lemma_div_pos_is_pos(position.size_usd * BPS_POWER, position.price as int);
    lemma_div_is_ordered_by_denominator(position.size_usd * BPS_POWER, 1, position.price as int);
    let es2 = entries.push((position.price, q as u128));
    assert(es2.drop_last() =~= entries);
}

/// How far a ratio sits from its target, in basis points.
pub open spec fn ratio_deviation(ratio: u64, target: u64) -> int {
    if ratio >= target {
        ratio - target
    } else {
        target - ratio
    }
}

/// `fee` basis points of `amount` never shrinks when the rate grows.
proof fn lemma_fee_amount_monotone(fee1: u64, fee2: u64, amount: u64, v1: u64, v2: u64)
    requires
        fee1 <= fee2,
        spec_get_fee_amount(fee1, amount) == Ok::<u64, PerpetualsError>(v1),
        spec_get_fee_amount(fee2, amount) == Ok::<u64, PerpetualsError>(v2),
    ensures
        v1 <= v2,
{
    if fee1 == 0 || amount == 0 {
        if !(fee2 == 0 || amount == 0) {
            lemma_mul_inequality(1, fee2 as int, amount as int);
            lemma_div_pos_is_pos(amount * fee2 + BPS_POWER - 1, BPS_POWER as int);
        }
    } else {
        lemma_mul_inequality(fee1 as int, fee2 as int, amount as int);
        lemma_div_is_ordered(
            amount * fee1 + BPS_POWER - 1,
            amount * fee2 + BPS_POWER - 1,
            BPS_POWER as int,
        );
    }
}

/// `fee` basis points of `amount` stays at or below `amount` while the rate
/// stays at or below 100%.
pub proof fn lemma_fee_amount_within_amount(fee: u64, amount: u64, v: u64)
    requires
        fee <= BPS_POWER,
        spec_get_fee_amount(fee, amount) == Ok::<u64, PerpetualsError>(v),
    ensures
        v <= amount,
{
    if fee != 0 && amount != 0 {
        lemma_mul_inequality(fee as int, BPS_POWER as int, amount as int);
        lemma_div_is_ordered(
            amount * fee + BPS_POWER - 1,
            amount * (BPS_POWER as int) + BPS_POWER - 1,
            BPS_POWER as int,
        );
        lemma_fundamental_div_mod_converse_div(
            amount * (BPS_POWER as int) + BPS_POWER - 1,
            BPS_POWER as int,
            amount as int,
            BPS_POWER - 1,
        );
    }
}

/// Fee direction in the linear mode: an action that moves the custody's
/// ratio strictly toward its target pays at most the base fee on the moved
/// amount; one that moves it strictly away pays at least the base fee.
pub proof fn lemma_linear_fee_direction(
    ratios: TokenRatios,
    pool: Pool,
    base_fee: u64,
    amount_add: u64,
    amount_remove: u64,
    custody: Custody,
    token_price: OraclePrice,
    current_ratio: u64,
    new_ratio: u64,
    fee: u64,
    baseline: u64,
)
    requires
        ratios.is_valid(),
        base_fee <= BPS_POWER,
        spec_get_current_ratio(pool, custody, token_price) == Ok::<u64, PerpetualsError>(
            current_ratio,
        ),
        spec_get_new_ratio(pool, amount_add, amount_remove, custody, token_price) == Ok::<
            u64,
            PerpetualsError,
        >(new_ratio),
        spec_get_fee_linear(ratios, pool, base_fee, amount_add, amount_remove, custody,
            token_price) == Ok::<u64, PerpetualsError>(fee),
        spec_get_fee_amount(base_fee, if amount_add > amount_remove {
            amount_add
        } else {
            amount_remove
        }) == Ok::<u64, PerpetualsError>(baseline),
    ensures
        ratio_deviation(new_ratio, ratios.target) < ratio_deviation(current_ratio, ratios.target)
            ==> fee <= baseline,
        ratio_deviation(new_ratio, ratios.target) > ratio_deviation(current_ratio, ratios.target)
            ==> fee >= baseline,
{
    let target = ratios.target;
    let improved = ratio_improved(current_ratio, new_ratio, target);
    let amount: u64 = if amount_add > amount_remove {
        amount_add
    } else {
        amount_remove
    };
    // The discount condition is exactly a strict decrease in deviation.
    assert(improved == (ratio_deviation(new_ratio, target) < ratio_deviation(
        current_ratio,
        target,
    )));
    let ratio_fee: int = if new_ratio <= target {
        if target == ratios.min {
            BPS_POWER as int
        } else {
            BPS_POWER + (custody.fees.ratio_mult * (target - new_ratio)) / (target - ratios.min)
        }
    } else if target == ratios.max {
        BPS_POWER as int
    } else {
        BPS_POWER + (custody.fees.ratio_mult * (new_ratio - target)) / (ratios.max - target)
    };
    // The multiplier never drops below 100%.
    if new_ratio <= target {
        if target != ratios.min {
            assert(custody.fees.ratio_mult * (target - new_ratio) >= 0) by (nonlinear_arith)
                requires
                    custody.fees.ratio_mult >= 0,
                    target >= new_ratio,
            ;
            lemma_div_pos_is_pos(
                custody.fees.ratio_mult * (target - new_ratio),
                target - ratios.min,
            );
        }
    } else {
        if target != ratios.max {
            assert(custody.fees.ratio_mult * (new_ratio - target) >= 0) by (nonlinear_arith)
                requires
                    custody.fees.ratio_mult >= 0,
                    new_ratio >= target,
            ;
            lemma_div_pos_is_pos(
                custody.fees.ratio_mult * (new_ratio - target),
                ratios.max - target,
            );
        }
    }
    let scaled: int = if improved {
        (base_fee * BPS_POWER) / ratio_fee
    } else {
        (base_fee * ratio_fee) / (BPS_POWER as int)
    };
    vstd::arithmetic::div_mod::lemma_div_multiples_vanish(base_fee as int, BPS_POWER as int);
    vstd::arithmetic::mul::lemma_mul_is_commutative(BPS_POWER as int, base_fee as int);
    if improved {
        // Dividing by a multiplier of at least 100% can only shrink the fee.
        lemma_div_is_ordered_by_denominator(base_fee * BPS_POWER, BPS_POWER as int, ratio_fee);
        lemma_fee_amount_monotone(scaled as u64, base_fee, amount, fee, baseline);
    } else {
        // Multiplying by a multiplier of at least 100% can only grow it.
        lemma_mul_inequality(BPS_POWER as int, ratio_fee, base_fee as int);
        vstd::arithmetic::mul::lemma_mul_is_commutative(ratio_fee, base_fee as int);
        lemma_div_is_ordered(base_fee * (BPS_POWER as int), base_fee * ratio_fee,
            BPS_POWER as int);
        if scaled > u64::MAX {
        } else {
            lemma_fee_amount_monotone(base_fee, scaled as u64, amount, baseline, fee);
        }
    }
}


/// Removing a position from the aggregates never moves tokens.
proof fn lemma_remove_position_preserves_assets(
    custody: Custody,
    position: Position,
    curtime: i64,
    collateral_custody: Option<Custody>,
)
    ensures
        match custody.spec_remove_position(position, curtime, collateral_custody) {
            Ok((c2, _)) => c2.assets == custody.assets,
            Err(_) => true,
        },
{
}


/// Locked stays within owned across a same-custody close. The committed
/// record's locked bucket never exceeds its owned bucket provided the
/// custody already satisfied the invariant, fee rates are valid, the exit
/// fee does not exceed the position's reserve, and the payout respects the
/// settlement bound (the reserve net of the fee plus the posted
/// collateral), which `get_close_amount` always enforces.
#[verifier::rlimit(60)]
pub proof fn lemma_close_commit_locked_within_owned(
    custody: Custody,
    position: Position,
    curtime: i64,
    transfer_amount: u64,
    fee_usd: u64,
    fee_amount: u64,
    profit_usd: u64,
    loss_usd: u64,
)
    requires
        custody.assets.locked <= custody.assets.owned,
        custody.fees.is_valid(),
        fee_amount <= position.locked_amount,
        transfer_amount <= position.locked_amount - fee_amount + position.collateral_amount,
    ensures
        match spec_close_position_commit(custody, Option::None, position, curtime,
            transfer_amount, fee_usd, fee_amount, profit_usd, loss_usd) {
            Ok(u) => u.0.assets.locked <= u.0.assets.owned,
            Err(_) => true,
        },
{
    let r = spec_close_position_commit(custody, Option::None, position, curtime, transfer_amount,
        fee_usd, fee_amount, profit_usd, loss_usd);
    if r is Ok {
        let kc1 = custody.spec_unlock_funds(position.locked_amount)->Ok_0;
        let kc4 = crate::instructions::spec_close_position_settle(custody, kc1, position,
            transfer_amount, fee_usd, fee_amount)->Ok_0;
        match spec_get_fee_amount(custody.fees.protocol_share, fee_amount) {
            Ok(pf) => {
                lemma_fee_amount_within_amount(custody.fees.protocol_share, fee_amount, pf);
            },
            Err(_) => {},
        }
        let u = r->Ok_0;
        match u.1 {
            Option::Some(_) => {},
            Option::None => {
                lemma_remove_position_preserves_assets(
                    Custody {
                        volume_stats: u.0.volume_stats,
                        trade_stats: u.0.trade_stats,
                        collected_fees: kc4.collected_fees,
                        ..kc4
                    },
                    position,
                    curtime,
                    Option::None,
                );
            },
        }
    }
}

/// Locked stays within owned after a same-custody `close_position`: the
/// full operation, from the exit quote to the final borrow-rate refresh,
/// preserves the invariant whenever the exit fee fits inside the
/// position's reserve.
pub proof fn lemma_close_position_locked_within_owned(
    perpetuals: Perpetuals,
    pool: Pool,
    position: Position,
    custody: Custody,
    token_price: OraclePrice,
    token_ema_price: OraclePrice,
    collateral_token_price: OraclePrice,
    collateral_token_ema_price: OraclePrice,
    curtime: i64,
    params: ClosePositionParams,
)
    requires
        custody.assets.locked <= custody.assets.owned,
        custody.fees.is_valid(),
        position.side == Side::Long,
        !custody.is_virtual,
        match spec_get_close_amount(position, token_price, token_ema_price, custody,
            collateral_token_price, collateral_token_ema_price, custody, curtime, false) {
            Ok(t) => t.1 <= position.locked_amount,
            Err(_) => true,
        },
    ensures
        match spec_close_position(perpetuals, pool, position, custody, Option::None, token_price,
            token_ema_price, collateral_token_price, collateral_token_ema_price, curtime,
            params) {
            Ok(u) => u.custody.assets.locked <= u.custody.assets.owned,
            Err(_) => true,
        },
{
    let r = spec_close_position(perpetuals, pool, position, custody, Option::None, token_price,
        token_ema_price, collateral_token_price, collateral_token_ema_price, curtime, params);
    if r is Ok {
        let t = spec_get_close_amount(position, token_price, token_ema_price, custody,
            collateral_token_price, collateral_token_ema_price, custody, curtime, false)->Ok_0;
        lemma_close_commit_locked_within_owned(custody, position, curtime, t.0,
            token_ema_price.spec_asset_amount_usd(t.1, custody.decimals)->Ok_0, t.1, t.2, t.3);
    }
}


/// Appending a position extends the collateral sum by its posted tokens.
pub proof fn lemma_total_collateral_push(positions: Seq<Position>, p: Position)
    ensures
        total_collateral_tokens(positions.push(p)) == total_collateral_tokens(positions)
            + p.collateral_amount,
{
    assert(positions.push(p).drop_last() =~= positions);
}

/// Taking a position out shrinks the collateral sum by its posted tokens.
pub proof fn lemma_total_collateral_remove(positions: Seq<Position>, i: int)
    requires
        0 <= i < positions.len(),
    ensures
        total_collateral_tokens(positions.remove(i)) == total_collateral_tokens(positions)
            - positions[i].collateral_amount,
    decreases positions.len(),
{
    if i == positions.len() - 1 {
        assert(positions.remove(i) =~= positions.drop_last());
    } else {
        assert(positions.remove(i).drop_last() =~= positions.drop_last().remove(i));
        lemma_total_collateral_remove(positions.drop_last(), i);
    }
}

/// Conservation of collateral-denominated assets under `open_position`: the
/// new position joins the set with exactly the tokens that entered the
/// collateral custody's bucket.
#[verifier::rlimit(100)]
#[verifier::spinoff_prover]
pub proof fn lemma_open_position_conserves_collateral(
    perpetuals: Perpetuals,
    pool: Pool,
    positions: Seq<Position>,
    owner: u64,
    custody: Custody,
    collateral_custody: Option<Custody>,
    token_price: OraclePrice,
    token_ema_price: OraclePrice,
    collateral_token_price: OraclePrice,
    collateral_token_ema_price: OraclePrice,
    curtime: i64,
    params: OpenPositionParams,
    u: OpenPositionUpdate,
)
    requires
        spec_open_position(perpetuals, pool, owner, custody, collateral_custody, token_price,
            token_ema_price, collateral_token_price, collateral_token_ema_price, curtime, params)
            == Ok::<OpenPositionUpdate, PerpetualsError>(u),
        total_collateral_tokens(positions) == (match collateral_custody {
            Option::Some(c) => c.assets.collateral,
            Option::None => custody.assets.collateral,
        }) as int,
    ensures
        total_collateral_tokens(positions.push(u.position)) == (match u.collateral_custody {
            Option::Some(c) => c.assets.collateral,
            Option::None => u.custody.assets.collateral,
        }) as int,
{
    lemma_total_collateral_push(positions, u.position);
}

/// Conservation of collateral-denominated assets under `close_position`:
/// the closed position leaves the set and its posted tokens leave the
/// collateral custody's bucket.
#[verifier::rlimit(100)]
#[verifier::spinoff_prover]
pub proof fn lemma_close_position_conserves_collateral(
    perpetuals: Perpetuals,
    pool: Pool,
    positions: Seq<Position>,
    i: int,
    custody: Custody,
    collateral_custody: Option<Custody>,
    token_price: OraclePrice,
    token_ema_price: OraclePrice,
    collateral_token_price: OraclePrice,
    collateral_token_ema_price: OraclePrice,
    curtime: i64,
    params: ClosePositionParams,
    u: ClosePositionUpdate,
)
    requires
        0 <= i < positions.len(),
        spec_close_position(perpetuals, pool, positions[i], custody, collateral_custody,
            token_price, token_ema_price, collateral_token_price, collateral_token_ema_price,
            curtime, params) == Ok::<ClosePositionUpdate, PerpetualsError>(u),
        total_collateral_tokens(positions) == (match collateral_custody {
            Option::Some(c) => c.assets.collateral,
            Option::None => custody.assets.collateral,
        }) as int,
    ensures
        total_collateral_tokens(positions.remove(i)) == (match u.collateral_custody {
            Option::Some(c) => c.assets.collateral,
            Option::None => u.custody.assets.collateral,
        }) as int,
{
    lemma_total_collateral_remove(positions, i);
}

} // verus!
