//! The four position-lifecycle transactions: open, add collateral, remove
//! collateral, close.
//!
//! Each operation is a pure state transition: it takes the records it
//! touches by value together with already-fetched oracle prices and the
//! current time, and returns the updated records plus the token amount the
//! host must move. Nothing is changed on failure. When the trading custody
//! is also the collateral custody the caller passes `None` for the
//! collateral record, and the one returned custody carries both roles; a
//! pairing that contradicts the position's side is rejected as
//! `InvalidCollateralCustody`.

use vstd::prelude::*;
use crate::custody::Custody;
use crate::error::PerpetualsError;
use crate::math;
use crate::math::wrap_add_u64;
use crate::oracle::{spec_max_price, OraclePrice};
use crate::perps::{BPS_POWER, Perpetuals, PRICE_EXPONENT};
use crate::pool::{
    spec_check_leverage, spec_get_close_amount, spec_get_entry_fee, spec_get_entry_price,
    spec_get_exit_price, spec_get_fee_amount, Pool,
};
use crate::position::{Position, Side};

verus! {

/// Arguments of `open_position`: the trader's price bound, the collateral
/// posted (in collateral-custody tokens), the size bought (in trading
/// custody tokens) and the direction.
#[derive(Clone, Copy, Debug, PartialEq, Eq, Structural)]
pub struct OpenPositionParams {
    pub price: u64,
    pub collateral: u64,
    pub size: u64,
    pub side: Side,
}

/// Arguments of `add_collateral`.
#[derive(Clone, Copy, Debug, PartialEq, Eq, Structural)]
pub struct AddCollateralParams {
    pub collateral: u64,
}

/// Arguments of a collateral top-up given as a plain token amount.
#[derive(Clone, Copy, Debug, PartialEq, Eq, Structural)]
pub struct CollateralAdditionParams {
    pub collateral: u64,
}

/// Arguments of `remove_collateral`: the USD value to withdraw.
#[derive(Clone, Copy, Debug, PartialEq, Eq, Structural)]
pub struct RemoveCollateralParams {
    pub collateral_usd: u64,
}

/// Arguments of `close_position`: the trader's price bound.
#[derive(Clone, Copy, Debug, PartialEq, Eq, Structural)]
pub struct ClosePositionParams {
    pub price: u64,
}

/// Arguments of `add_pool`: the new market's name, the seed of its address.
#[derive(Clone, Debug)]
pub struct AddPoolParams {
    pub name: Vec<u8>,
}

/// What `open_position` hands back: the new position, the updated custody
/// records, and the tokens the host must pull from the trader.
#[derive(Clone, Copy, Debug)]
pub struct OpenPositionUpdate {
    pub position: Position,
    pub custody: Custody,
    pub collateral_custody: Option<Custody>,
    /// Collateral plus entry fee, in collateral-custody tokens.
    pub transfer_amount: u64,
    /// The entry fee, in collateral-custody tokens.
    pub fee_amount: u64,
}

/// What `close_position` hands back: the updated custody records and the
/// tokens the host must pay the trader. The position record is destroyed.
#[derive(Clone, Copy, Debug)]
pub struct ClosePositionUpdate {
    pub custody: Custody,
    pub collateral_custody: Option<Custody>,
    /// The payout, in collateral-custody tokens.
    pub transfer_amount: u64,
    /// The exit fee, in collateral-custody tokens.
    pub fee_amount: u64,
    pub profit_usd: u64,
    pub loss_usd: u64,
}

/// What `add_collateral` and `remove_collateral` hand back: the updated
/// position and custody records, and the tokens moved.
#[derive(Clone, Copy, Debug)]
pub struct CollateralUpdate {
    pub position: Position,
    pub custody: Custody,
    pub collateral_custody: Option<Custody>,
    pub transfer_amount: u64,
}

/// What `add_collateral` does: value the new collateral at the conservative
/// minimum price, grow the position, re-check the entry leverage band, and
/// record the tokens in the collateral custody.
pub open spec fn spec_add_collateral(
    perpetuals: Perpetuals,
    pool: Pool,
    position: Position,
    custody: Custody,
    collateral_custody: Option<Custody>,
    token_price: OraclePrice,
    token_ema_price: OraclePrice,
    collateral_token_price: OraclePrice,
    collateral_token_ema_price: OraclePrice,
    curtime: i64,
    params: AddCollateralParams,
) -> Result<CollateralUpdate, PerpetualsError> {
    if params.collateral == 0 {
        Err(PerpetualsError::InvalidArgument)
    } else {
        let kc = match collateral_custody {
            Option::Some(c) => c,
            Option::None => custody,
        };
        match collateral_token_price.spec_get_min_price(collateral_token_ema_price, kc.is_stable) {
            Err(e) => Err(e),
            Ok(min_collateral_price) => match min_collateral_price.spec_asset_amount_usd(
                params.collateral,
                kc.decimals,
            ) {
                Err(e) => Err(e),
                Ok(collateral_usd) => {
                    if position.collateral_usd + collateral_usd > u64::MAX {
                        Err(PerpetualsError::MathOverflow)
                    } else if position.collateral_amount + params.collateral > u64::MAX {
                        Err(PerpetualsError::MathOverflow)
                    } else {
                        let new_position = Position {
                            update_time: curtime,
                            collateral_usd: (position.collateral_usd + collateral_usd) as u64,
                            collateral_amount: (position.collateral_amount
                                + params.collateral) as u64,
                            ..position
                        };
                        match spec_check_leverage(
                            new_position,
                            token_price,
                            token_ema_price,
                            custody,
                            collateral_token_price,
                            collateral_token_ema_price,
                            kc,
                            curtime,
                            true,
                        ) {
                            Err(e) => Err(e),
                            Ok(leverage_ok) => {
                                if !leverage_ok {
                                    Err(PerpetualsError::MaxLeverage)
                                } else if kc.assets.collateral + params.collateral > u64::MAX {
                                    Err(PerpetualsError::MathOverflow)
                                } else {
                                    let kc1 = Custody {
                                        assets: crate::custody::Assets {
                                            collateral: (kc.assets.collateral
                                                + params.collateral) as u64,
                                            ..kc.assets
                                        },
                                        ..kc
                                    };
                                    if collateral_custody is Some {
                                        Ok(
                                            CollateralUpdate {
                                                position: new_position,
                                                custody,
                                                collateral_custody: Option::Some(kc1),
                                                transfer_amount: params.collateral,
                                            },
                                        )
                                    } else {
                                        Ok(
                                            CollateralUpdate {
                                                position: new_position,
                                                custody: kc1,
                                                collateral_custody: Option::None,
                                                transfer_amount: params.collateral,
                                            },
                                        )
                                    }
                                }
                            },
                        }
                    }
                },
            },
        }
    }
}

/// Adds `params.collateral` tokens to an open position. On success the
/// position's collateral and the custody's collateral bucket grow by
/// exactly the posted amount, which is also what the host transfers in.
pub fn add_collateral(
    perpetuals: &Perpetuals,
    pool: &Pool,
    position: Position,
    custody: Custody,
    collateral_custody: Option<Custody>,
    token_price: &OraclePrice,
    token_ema_price: &OraclePrice,
    collateral_token_price: &OraclePrice,
    collateral_token_ema_price: &OraclePrice,
    curtime: i64,
    params: &AddCollateralParams,
) -> (r: Result<CollateralUpdate, PerpetualsError>)
    requires
        position.custody == custody.key,
        match collateral_custody {
            Option::Some(c) => position.collateral_custody == c.key && c.key != custody.key,
            Option::None => position.collateral_custody == custody.key,
        },
    ensures
        r == spec_add_collateral(*perpetuals, *pool, position, custody, collateral_custody,
            *token_price, *token_ema_price, *collateral_token_price, *collateral_token_ema_price,
            curtime, *params),
        r matches Ok(u) ==> u.position.collateral_amount == position.collateral_amount
            + params.collateral && u.transfer_amount == params.collateral,
{
    if params.collateral == 0 {
        return Err(PerpetualsError::InvalidArgument);
    }
    let kc: Custody = match collateral_custody {
        Option::Some(c) => c,
        Option::None => custody,
    };
    let min_collateral_price = match collateral_token_price.get_min_price(
        collateral_token_ema_price,
        kc.is_stable,
    ) {
        Ok(v) => v,
        Err(e) => {
            return Err(e);
        },
    };
    let collateral_usd = match min_collateral_price.get_asset_amount_usd(params.collateral,
        kc.decimals) {
        Ok(v) => v,
        Err(e) => {
            return Err(e);
        },
    };
    let new_collateral_usd = match math::checked_add(position.collateral_usd, collateral_usd) {
        Ok(v) => v,
        Err(e) => {
            return Err(e);
        },
    };
    let new_collateral_amount = match math::checked_add(position.collateral_amount,
        params.collateral) {
        Ok(v) => v,
        Err(e) => {
            return Err(e);
        },
    };
    let mut new_position = position;
    new_position.update_time = curtime;
    new_position.collateral_usd = new_collateral_usd;
    new_position.collateral_amount = new_collateral_amount;
    let leverage_ok = match pool.check_leverage(
        &new_position,
        token_price,
        token_ema_price,
        &custody,
        collateral_token_price,
        collateral_token_ema_price,
        &kc,
        curtime,
        true,
    ) {
        Ok(v) => v,
        Err(e) => {
            return Err(e);
        },
    };
    if !leverage_ok {
        return Err(PerpetualsError::MaxLeverage);
    }
    let new_assets_collateral = match math::checked_add(kc.assets.collateral, params.collateral) {
        Ok(v) => v,
        Err(e) => {
            return Err(e);
        },
    };
    let mut kc1 = kc;
    kc1.assets.collateral = new_assets_collateral;
    if collateral_custody.is_some() {
        Ok(
            CollateralUpdate {
                position: new_position,
                custody,
                collateral_custody: Option::Some(kc1),
                transfer_amount: params.collateral,
            },
        )
    } else {
        Ok(
            CollateralUpdate {
                position: new_position,
                custody: kc1,
                collateral_custody: Option::None,
                transfer_amount: params.collateral,
            },
        )
    }
}

/// What `remove_collateral` does: reject a withdrawal of everything, charge
/// the trader tokens at the conservative maximum price, shrink the
/// position, and re-check the entry leverage band.
pub open spec fn spec_remove_collateral(
    perpetuals: Perpetuals,
    pool: Pool,
    position: Position,
    custody: Custody,
    collateral_custody: Option<Custody>,
    token_price: OraclePrice,
    token_ema_price: OraclePrice,
    collateral_token_price: OraclePrice,
    collateral_token_ema_price: OraclePrice,
    curtime: i64,
    params: RemoveCollateralParams,
) -> Result<CollateralUpdate, PerpetualsError> {
    if !(perpetuals.permissions.allow_collateral_withdrawal
        && custody.permissions.allow_collateral_withdrawal) {
        Err(PerpetualsError::InstructionNotAllowed)
    } else if params.collateral_usd == 0 || params.collateral_usd >= position.collateral_usd {
        Err(PerpetualsError::InvalidArgument)
    } else {
        let kc = match collateral_custody {
            Option::Some(c) => c,
            Option::None => custody,
        };
        let max_collateral_price = spec_max_price(
            collateral_token_price,
            collateral_token_ema_price,
        );
        match max_collateral_price.spec_token_amount(params.collateral_usd, kc.decimals) {
            Err(e) => Err(e),
            Ok(collateral) => {
                if collateral > position.collateral_amount {
                    Err(PerpetualsError::InsufficientFunds)
                } else {
                    let new_position = Position {
                        update_time: curtime,
                        collateral_usd: (position.collateral_usd - params.collateral_usd) as u64,
                        collateral_amount: (position.collateral_amount - collateral) as u64,
                        ..position
                    };
                    match spec_check_leverage(
                        new_position,
                        token_price,
                        token_ema_price,
                        custody,
                        collateral_token_price,
                        collateral_token_ema_price,
                        kc,
                        curtime,
                        true,
                    ) {
                        Err(e) => Err(e),
                        Ok(leverage_ok) => {
                            if !leverage_ok {
                                Err(PerpetualsError::MaxLeverage)
                            } else if kc.assets.collateral < collateral {
                                Err(PerpetualsError::MathOverflow)
                            } else {
                                let kc1 = Custody {
                                    assets: crate::custody::Assets {
                                        collateral: (kc.assets.collateral - collateral) as u64,
                                        ..kc.assets
                                    },
                                    ..kc
                                };
                                if collateral_custody is Some {
                                    Ok(
                                        CollateralUpdate {
                                            position: new_position,
                                            custody,
                                            collateral_custody: Option::Some(kc1),
                                            transfer_amount: collateral,
                                        },
                                    )
                                } else {
                                    Ok(
                                        CollateralUpdate {
                                            position: new_position,
                                            custody: kc1,
                                            collateral_custody: Option::None,
                                            transfer_amount: collateral,
                                        },
                                    )
                                }
                            }
                        },
                    }
                }
            },
        }
    }
}

/// Withdraws `params.collateral_usd` of collateral value from an open
/// position; withdrawing the full collateral is rejected. The trader is
/// charged tokens at the conservative maximum price, and the host pays out
/// the returned transfer amount.
pub fn remove_collateral(
    perpetuals: &Perpetuals,
    pool: &Pool,
    position: Position,
    custody: Custody,
    collateral_custody: Option<Custody>,
    token_price: &OraclePrice,
    token_ema_price: &OraclePrice,
    collateral_token_price: &OraclePrice,
    collateral_token_ema_price: &OraclePrice,
    curtime: i64,
    params: &RemoveCollateralParams,
) -> (r: Result<CollateralUpdate, PerpetualsError>)
    requires
        position.custody == custody.key,
        match collateral_custody {
            Option::Some(c) => position.collateral_custody == c.key && c.key != custody.key,
            Option::None => position.collateral_custody == custody.key,
        },
    ensures
        r == spec_remove_collateral(*perpetuals, *pool, position, custody, collateral_custody,
            *token_price, *token_ema_price, *collateral_token_price, *collateral_token_ema_price,
            curtime, *params),
        r matches Ok(u) ==> u.position.collateral_amount == position.collateral_amount
            - u.transfer_amount && u.position.collateral_usd == position.collateral_usd
            - params.collateral_usd,
{
    if !(perpetuals.permissions.allow_collateral_withdrawal
        && custody.permissions.allow_collateral_withdrawal) {
        return Err(PerpetualsError::InstructionNotAllowed);
    }
    if params.collateral_usd == 0 || params.collateral_usd >= position.collateral_usd {
        return Err(PerpetualsError::InvalidArgument);
    }
    let kc: Custody = match collateral_custody {
        Option::Some(c) => c,
        Option::None => custody,
    };
    let max_collateral_price = if collateral_token_price.gt(collateral_token_ema_price) {
        *collateral_token_price
    } else {
        *collateral_token_ema_price
    };
    let collateral = match max_collateral_price.get_token_amount(params.collateral_usd,
        kc.decimals) {
        Ok(v) => v,
        Err(e) => {
            return Err(e);
        },
    };
    if collateral > position.collateral_amount {
        return Err(PerpetualsError::InsufficientFunds);
    }
    let mut new_position = position;
    new_position.update_time = curtime;
    new_position.collateral_usd = position.collateral_usd - params.collateral_usd;
    new_position.collateral_amount = position.collateral_amount - collateral;
    let leverage_ok = match pool.check_leverage(
        &new_position,
        token_price,
        token_ema_price,
        &custody,
        collateral_token_price,
        collateral_token_ema_price,
        &kc,
        curtime,
        true,
    ) {
        Ok(v) => v,
        Err(e) => {
            return Err(e);
        },
    };
    if !leverage_ok {
        return Err(PerpetualsError::MaxLeverage);
    }
    let new_assets_collateral = match math::checked_sub(kc.assets.collateral, collateral) {
        Ok(v) => v,
        Err(e) => {
            return Err(e);
        },
    };
    let mut kc1 = kc;
    kc1.assets.collateral = new_assets_collateral;
    if collateral_custody.is_some() {
        Ok(
            CollateralUpdate {
                position: new_position,
                custody,
                collateral_custody: Option::Some(kc1),
                transfer_amount: collateral,
            },
        )
    } else {
        Ok(
            CollateralUpdate {
                position: new_position,
                custody: kc1,
                collateral_custody: Option::None,
                transfer_amount: collateral,
            },
        )
    }
}


/// The committing half of `open_position`: the risk checks, the reserve
/// lock, the fee and collateral bookkeeping, the aggregate-position update
/// and the borrow-rate refresh, applied once everything else is computed.
pub open spec fn spec_open_position_commit(
    custody: Custody,
    collateral_custody: Option<Custody>,
    position: Position,
    token_price: OraclePrice,
    token_ema_price: OraclePrice,
    collateral_token_price: OraclePrice,
    collateral_token_ema_price: OraclePrice,
    curtime: i64,
    size_usd: u64,
    fee_usd: u64,
    fee_amount: u64,
    collateral: u64,
) -> Result<(Custody, Option<Custody>), PerpetualsError> {
    let kc = match collateral_custody {
        Option::Some(c) => c,
        Option::None => custody,
    };
    if position.locked_amount == 0 {
        Err(PerpetualsError::InsufficientAmountReturned)
    } else {
        match spec_check_leverage(
            position,
            token_price,
            token_ema_price,
            custody,
            collateral_token_price,
            collateral_token_ema_price,
            kc,
            curtime,
            true,
        ) {
            Err(e) => Err(e),
            Ok(leverage_ok) => {
                if !leverage_ok {
                    Err(PerpetualsError::MaxLeverage)
                } else {
                    match kc.spec_lock_funds(position.locked_amount) {
                        Err(e) => Err(e),
                        Ok(kc1) => {
                            let kc2 = Custody {
                                collected_fees: crate::custody::FeesStats {
                                    open_position_usd: wrap_add_u64(
                                        kc1.collected_fees.open_position_usd,
                                        fee_usd,
                                    ),
                                    ..kc1.collected_fees
                                },
                                ..kc1
                            };
                            if kc2.assets.collateral + collateral > u64::MAX {
                                Err(PerpetualsError::MathOverflow)
                            } else {
                                let kc3 = Custody {
                                    assets: crate::custody::Assets {
                                        collateral: (kc2.assets.collateral + collateral) as u64,
                                        ..kc2.assets
                                    },
                                    ..kc2
                                };
                                match spec_get_fee_amount(custody.fees.protocol_share,
                                    fee_amount) {
                                    Err(e) => Err(e),
                                    Ok(protocol_fee) => {
                                        if kc3.assets.protocol_fees + protocol_fee > u64::MAX {
                                            Err(PerpetualsError::MathOverflow)
                                        } else {
                                            let kc4 = Custody {
                                                assets: crate::custody::Assets {
                                                    protocol_fees: (kc3.assets.protocol_fees
                                                        + protocol_fee) as u64,
                                                    ..kc3.assets
                                                },
                                                ..kc3
                                            };
                                            spec_open_position_stats(
                                                custody,
                                                collateral_custody,
                                                kc4,
                                                position,
                                                token_ema_price,
                                                curtime,
                                                size_usd,
                                            )
                                        }
                                    },
                                }
                            }
                        },
                    }
                }
            },
        }
    }
}

/// The aggregate-statistics tail of `spec_open_position_commit`. With no
/// separate collateral custody, all updates land on the one record `kc4`;
/// otherwise volume and open interest go to the trading custody while the
/// collateral record `kc4` tracks borrow and interest.
pub open spec fn spec_open_position_stats(
    custody: Custody,
    collateral_custody: Option<Custody>,
    kc4: Custody,
    position: Position,
    token_ema_price: OraclePrice,
    curtime: i64,
    size_usd: u64,
) -> Result<(Custody, Option<Custody>), PerpetualsError> {
    if collateral_custody is None {
        let kc5 = Custody {
            volume_stats: crate::custody::VolumeStats {
                open_position_usd: wrap_add_u64(kc4.volume_stats.open_position_usd, size_usd),
                ..kc4.volume_stats
            },
            ..kc4
        };
        if kc5.trade_stats.oi_long_usd + size_usd > u64::MAX {
            Err(PerpetualsError::MathOverflow)
        } else {
            let kc6 = Custody {
                trade_stats: crate::custody::TradeStats {
                    oi_long_usd: (kc5.trade_stats.oi_long_usd + size_usd) as u64,
                    ..kc5.trade_stats
                },
                ..kc5
            };
            match kc6.spec_add_position(position, token_ema_price, curtime, Option::None) {
                Err(e) => Err(e),
                Ok((kc7, _)) => match kc7.spec_update_borrow_rate(curtime) {
                    Err(e) => Err(e),
                    Ok(kc8) => Ok((kc8, Option::None)),
                },
            }
        }
    } else {
        let c5 = Custody {
            volume_stats: crate::custody::VolumeStats {
                open_position_usd: wrap_add_u64(custody.volume_stats.open_position_usd, size_usd),
                ..custody.volume_stats
            },
            ..custody
        };
        let oi_r: Result<Custody, PerpetualsError> = if position.side == Side::Long {
            if c5.trade_stats.oi_long_usd + size_usd > u64::MAX {
                Err(PerpetualsError::MathOverflow)
            } else {
                Ok(
                    Custody {
                        trade_stats: crate::custody::TradeStats {
                            oi_long_usd: (c5.trade_stats.oi_long_usd + size_usd) as u64,
                            ..c5.trade_stats
                        },
                        ..c5
                    },
                )
            }
        } else {
            if c5.trade_stats.oi_short_usd + size_usd > u64::MAX {
                Err(PerpetualsError::MathOverflow)
            } else {
                Ok(
                    Custody {
                        trade_stats: crate::custody::TradeStats {
                            oi_short_usd: (c5.trade_stats.oi_short_usd + size_usd) as u64,
                            ..c5.trade_stats
                        },
                        ..c5
                    },
                )
            }
        };
        match oi_r {
            Err(e) => Err(e),
            Ok(c6) => match c6.spec_add_position(position, token_ema_price, curtime,
                Option::Some(kc4)) {
                Err(e) => Err(e),
                Ok((c7, cc7)) => match cc7 {
                    Option::Some(kc5) => match kc5.spec_update_borrow_rate(curtime) {
                        Err(e) => Err(e),
                        Ok(kc6) => Ok((c7, Option::Some(kc6))),
                    },
                    // Unreachable: adding with a separate collateral record
                    // always hands that record back.
                    Option::None => Err(PerpetualsError::MathOverflow),
                },
            },
        }
    }
}

fn open_position_commit(
    pool: &Pool,
    custody: Custody,
    collateral_custody: Option<Custody>,
    position: &Position,
    token_price: &OraclePrice,
    token_ema_price: &OraclePrice,
    collateral_token_price: &OraclePrice,
    collateral_token_ema_price: &OraclePrice,
    curtime: i64,
    size_usd: u64,
    fee_usd: u64,
    fee_amount: u64,
    collateral: u64,
) -> (r: Result<(Custody, Option<Custody>), PerpetualsError>)
    ensures
        r == spec_open_position_commit(custody, collateral_custody, *position, *token_price,
            *token_ema_price, *collateral_token_price, *collateral_token_ema_price, curtime,
            size_usd, fee_usd, fee_amount, collateral),
        r matches Ok(u) ==> (match u.1 {
            Option::Some(c) => c.assets.locked <= c.assets.owned,
            Option::None => u.0.assets.locked <= u.0.assets.owned,
        }),
{
    let kc: Custody = match collateral_custody {
        Option::Some(c) => c,
        Option::None => custody,
    };
    if position.locked_amount == 0 {
        return Err(PerpetualsError::InsufficientAmountReturned);
    }
    let leverage_ok = match pool.check_leverage(
        position,
        token_price,
        token_ema_price,
        &custody,
        collateral_token_price,
        collateral_token_ema_price,
        &kc,
        curtime,
        true,
    ) {
        Ok(v) => v,
        Err(e) => {
            return Err(e);
        },
    };
    if !leverage_ok {
        return Err(PerpetualsError::MaxLeverage);
    }
    let mut kc1 = kc;
    match kc1.lock_funds(position.locked_amount) {
        Ok(_) => (),
        Err(e) => {
            return Err(e);
        },
    }
    kc1.collected_fees.open_position_usd = kc1.collected_fees.open_position_usd.wrapping_add(
        fee_usd,
    );
    kc1.assets.collateral = match math::checked_add(kc1.assets.collateral, collateral) {
        Ok(v) => v,
        Err(e) => {
            return Err(e);
        },
    };
    let protocol_fee = match Pool::get_fee_amount(custody.fees.protocol_share, fee_amount) {
        Ok(v) => v,
        Err(e) => {
            return Err(e);
        },
    };
    kc1.assets.protocol_fees = match math::checked_add(kc1.assets.protocol_fees, protocol_fee) {
        Ok(v) => v,
        Err(e) => {
            return Err(e);
        },
    };
    open_position_stats(custody, collateral_custody, kc1, position, token_ema_price, curtime,
        size_usd)
}

fn open_position_stats(
    custody: Custody,
    collateral_custody: Option<Custody>,
    kc4: Custody,
    position: &Position,
    token_ema_price: &OraclePrice,
    curtime: i64,
    size_usd: u64,
) -> (r: Result<(Custody, Option<Custody>), PerpetualsError>)
    ensures
        r == spec_open_position_stats(custody, collateral_custody, kc4, *position,
            *token_ema_price, curtime, size_usd),
        r matches Ok(u) ==> (match u.1 {
            Option::Some(c) => c.assets == kc4.assets,
            Option::None => u.0.assets == kc4.assets,
        }),
{
    let mut kc1 = kc4;
    if collateral_custody.is_none() {
        kc1.volume_stats.open_position_usd = kc1.volume_stats.open_position_usd.wrapping_add(
            size_usd,
        );
        kc1.trade_stats.oi_long_usd = match math::checked_add(kc1.trade_stats.oi_long_usd,
            size_usd) {
            Ok(v) => v,
            Err(e) => {
                return Err(e);
            },
        };
        match kc1.add_position(position, token_ema_price, curtime, Option::None) {
            Ok(_) => (),
            Err(e) => {
                return Err(e);
            },
        }
        match kc1.update_borrow_rate(curtime) {
            Ok(_) => (),
            Err(e) => {
                return Err(e);
            },
        }
        Ok((kc1, Option::None))
    } else {
        let mut c1 = custody;
        c1.volume_stats.open_position_usd = c1.volume_stats.open_position_usd.wrapping_add(
            size_usd,
        );
        if position.side == Side::Long {
            c1.trade_stats.oi_long_usd = match math::checked_add(c1.trade_stats.oi_long_usd,
                size_usd) {
                Ok(v) => v,
                Err(e) => {
                    return Err(e);
                },
            };
        } else {
            c1.trade_stats.oi_short_usd = match math::checked_add(c1.trade_stats.oi_short_usd,
                size_usd) {
                Ok(v) => v,
                Err(e) => {
                    return Err(e);
                },
            };
        }
        let returned = match c1.add_position(position, token_ema_price, curtime,
            Option::Some(kc1)) {
            Ok(v) => v,
            Err(e) => {
                return Err(e);
            },
        };
        match returned {
            Option::Some(kc2) => {
                let mut kc3 = kc2;
                match kc3.update_borrow_rate(curtime) {
                    Ok(_) => (),
                    Err(e) => {
                        return Err(e);
                    },
                }
                Ok((c1, Option::Some(kc3)))
            },
            Option::None => Err(PerpetualsError::MathOverflow),
        }
    }
}

/// What `open_position` does: permission and input checks, the
/// cross-collateral rule, the entry quote with its slippage gate, sizing,
/// reserve and borrow computation, the entry fee, the new position record,
/// and the committing updates of `spec_open_position_commit`.
pub open spec fn spec_open_position(
    perpetuals: Perpetuals,
    pool: Pool,
    owner: u64,
    custody: Custody,
    collateral_custody: Option<Custody>,
    token_price: OraclePrice,
    token_ema_price: OraclePrice,
    collateral_token_price: OraclePrice,
    collateral_token_ema_price: OraclePrice,
    curtime: i64,
    params: OpenPositionParams,
) -> Result<OpenPositionUpdate, PerpetualsError> {
    if !(perpetuals.permissions.allow_open_position && custody.permissions.allow_open_position
        && !custody.is_stable) {
        Err(PerpetualsError::InstructionNotAllowed)
    } else if params.price == 0 || params.collateral == 0 || params.size == 0 || params.side
        == Side::Unset {
        Err(PerpetualsError::InvalidArgument)
    } else {
        let use_collateral_custody = params.side == Side::Short || custody.is_virtual;
        if use_collateral_custody != (collateral_custody is Some) {
            Err(PerpetualsError::InvalidCollateralCustody)
        } else {
            let kc = match collateral_custody {
                Option::Some(c) => c,
                Option::None => custody,
            };
            if use_collateral_custody && !(kc.is_stable && !kc.is_virtual) {
                Err(PerpetualsError::InvalidCollateralCustody)
            } else {
                match collateral_token_price.spec_get_min_price(
                    collateral_token_ema_price,
                    kc.is_stable,
                ) {
                    Err(e) => Err(e),
                    Ok(min_collateral_price) => match spec_get_entry_price(
                        token_price,
                        token_ema_price,
                        params.side,
                        custody,
                    ) {
                        Err(e) => Err(e),
                        Ok(entry_price) => {
                            let slippage_ok = if params.side == Side::Long {
                                params.price >= entry_price
                            } else {
                                entry_price >= params.price
                            };
                            if !slippage_ok {
                                Err(PerpetualsError::MaxPriceSlippage)
                            } else {
                                spec_open_position_sized(
                                    pool,
                                    owner,
                                    custody,
                                    collateral_custody,
                                    token_price,
                                    token_ema_price,
                                    collateral_token_price,
                                    collateral_token_ema_price,
                                    curtime,
                                    params,
                                    kc,
                                    min_collateral_price,
                                    entry_price,
                                )
                            }
                        },
                    },
                }
            }
        }
    }
}

/// The sizing half of `spec_open_position`: the USD notional, the posted
/// collateral value, the payoff reserve, the borrow notional, the entry
/// fee, the interest snapshot and the finished position record.
pub open spec fn spec_open_position_sized(
    pool: Pool,
    owner: u64,
    custody: Custody,
    collateral_custody: Option<Custody>,
    token_price: OraclePrice,
    token_ema_price: OraclePrice,
    collateral_token_price: OraclePrice,
    collateral_token_ema_price: OraclePrice,
    curtime: i64,
    params: OpenPositionParams,
    kc: Custody,
    min_collateral_price: OraclePrice,
    entry_price: u64,
) -> Result<OpenPositionUpdate, PerpetualsError> {
    let use_collateral_custody = collateral_custody is Some;
    let entry_oracle = OraclePrice { price: entry_price, exponent: PRICE_EXPONENT };
    match entry_oracle.spec_asset_amount_usd(params.size, custody.decimals) {
        Err(e) => Err(e),
        Ok(size_usd) => match min_collateral_price.spec_asset_amount_usd(
            params.collateral,
            kc.decimals,
        ) {
            Err(e) => Err(e),
            Ok(collateral_usd) => {
                let locked_r: Result<u64, PerpetualsError> = if use_collateral_custody {
                    match min_collateral_price.spec_token_amount(size_usd, kc.decimals) {
                        Err(e) => Err(e),
                        Ok(size_in_collateral) => custody.spec_locked_amount(
                            size_in_collateral,
                            params.side,
                        ),
                    }
                } else {
                    custody.spec_locked_amount(params.size, params.side)
                };
                match locked_r {
                    Err(e) => Err(e),
                    Ok(locked_amount) => {
                        let borrow_r: Result<u64, PerpetualsError> = if
                            custody.pricing.max_payoff_mult != BPS_POWER {
                            if use_collateral_custody {
                                let max_collateral_price = if collateral_token_price.spec_lt(
                                    collateral_token_ema_price,
                                ) {
                                    collateral_token_ema_price
                                } else {
                                    collateral_token_price
                                };
                                max_collateral_price.spec_asset_amount_usd(
                                    locked_amount,
                                    kc.decimals,
                                )
                            } else {
                                entry_oracle.spec_asset_amount_usd(locked_amount, custody.decimals)
                            }
                        } else {
                            Ok(size_usd)
                        };
                        match borrow_r {
                            Err(e) => Err(e),
                            Ok(borrow_size_usd) => match spec_get_entry_fee(
                                custody.fees.open_position,
                                params.size,
                                locked_amount,
                                kc,
                            ) {
                                Err(e) => Err(e),
                                Ok(fee_tokens) => match token_ema_price.spec_asset_amount_usd(
                                    fee_tokens,
                                    custody.decimals,
                                ) {
                                    Err(e) => Err(e),
                                    Ok(fee_usd) => {
                                        let fee_r: Result<u64, PerpetualsError> = if
                                            use_collateral_custody {
                                            collateral_token_ema_price.spec_token_amount(
                                                fee_usd,
                                                kc.decimals,
                                            )
                                        } else {
                                            Ok(fee_tokens)
                                        };
                                        match fee_r {
                                            Err(e) => Err(e),
                                            Ok(fee_amount) => {
                                                if params.collateral + fee_amount > u64::MAX {
                                                    Err(PerpetualsError::MathOverflow)
                                                } else {
                                                    match kc.spec_cumulative_interest(curtime) {
                                                        Err(e) => Err(e),
                                                        Ok(snapshot) => {
                                                            let position = Position {
                                                                owner,
                                                                pool: pool.key,
                                                                custody: custody.key,
                                                                collateral_custody: kc.key,
                                                                open_time: curtime,
                                                                update_time: 0,
                                                                side: params.side,
                                                                price: entry_price,
                                                                size_usd,
                                                                borrow_size_usd,
                                                                collateral_usd,
                                                                unrealized_profit_usd: 0,
                                                                unrealized_loss_usd: 0,
                                                                cumulative_interest_snapshot:
                                                                    snapshot,
                                                                locked_amount,
                                                                collateral_amount:
                                                                    params.collateral,
                                                            };
                                                            match spec_open_position_commit(
                                                                custody,
                                                                collateral_custody,
                                                                position,
                                                                token_price,
                                                                token_ema_price,
                                                                collateral_token_price,
                                                                collateral_token_ema_price,
                                                                curtime,
                                                                size_usd,
                                                                fee_usd,
                                                                fee_amount,
                                                                params.collateral,
                                                            ) {
                                                                Err(e) => Err(e),
                                                                Ok((c2, cc2)) => Ok(
                                                                    OpenPositionUpdate {
                                                                        position,
                                                                        custody: c2,
                                                                        collateral_custody: cc2,
                                                                        transfer_amount: (
                                                                        params.collateral
                                                                            + fee_amount) as u64,
                                                                        fee_amount,
                                                                    },
                                                                ),
                                                            }
                                                        },
                                                    }
                                                }
                                            },
                                        }
                                    },
                                },
                            },
                        }
                    },
                }
            },
        },
    }
}

/// Opens a leveraged position: prices the entry, sizes the notional and the
/// payoff reserve, charges the entry fee, checks leverage against the entry
/// band, locks pool funds and updates the custody aggregates. On success
/// the host pulls `transfer_amount` collateral tokens from the trader.
#[verifier::rlimit(60)]
pub fn open_position(
    perpetuals: &Perpetuals,
    pool: &Pool,
    owner: u64,
    custody: Custody,
    collateral_custody: Option<Custody>,
    token_price: &OraclePrice,
    token_ema_price: &OraclePrice,
    collateral_token_price: &OraclePrice,
    collateral_token_ema_price: &OraclePrice,
    curtime: i64,
    params: &OpenPositionParams,
) -> (r: Result<OpenPositionUpdate, PerpetualsError>)
    requires
        collateral_custody matches Some(c) ==> c.key != custody.key,
    ensures
        r == spec_open_position(*perpetuals, *pool, owner, custody, collateral_custody,
            *token_price, *token_ema_price, *collateral_token_price, *collateral_token_ema_price,
            curtime, *params),
        r matches Ok(u) ==> (match u.collateral_custody {
            Option::Some(c) => c.assets.locked <= c.assets.owned,
            Option::None => u.custody.assets.locked <= u.custody.assets.owned,
        }),
{
    if !(perpetuals.permissions.allow_open_position && custody.permissions.allow_open_position
        && !custody.is_stable) {
        return Err(PerpetualsError::InstructionNotAllowed);
    }
    if params.price == 0 || params.collateral == 0 || params.size == 0 || params.side
        == Side::Unset {
        return Err(PerpetualsError::InvalidArgument);
    }
    let use_collateral_custody = params.side == Side::Short || custody.is_virtual;
    if use_collateral_custody != collateral_custody.is_some() {
        return Err(PerpetualsError::InvalidCollateralCustody);
    }
    let kc: Custody = match collateral_custody {
        Option::Some(c) => c,
        Option::None => custody,
    };
    if use_collateral_custody && !(kc.is_stable && !kc.is_virtual) {
        return Err(PerpetualsError::InvalidCollateralCustody);
    }
    let min_collateral_price = match collateral_token_price.get_min_price(
        collateral_token_ema_price,
        kc.is_stable,
    ) {
        Ok(v) => v,
        Err(e) => {
            return Err(e);
        },
    };
    let entry_price = match pool.get_entry_price(token_price, token_ema_price, params.side,
        &custody) {
        Ok(v) => v,
        Err(e) => {
            return Err(e);
        },
    };
    let slippage_ok = if params.side == Side::Long {
        params.price >= entry_price
    } else {
        entry_price >= params.price
    };
    if !slippage_ok {
        return Err(PerpetualsError::MaxPriceSlippage);
    }
    let entry_oracle = OraclePrice { price: entry_price, exponent: PRICE_EXPONENT };
    let size_usd = match entry_oracle.get_asset_amount_usd(params.size, custody.decimals) {
        Ok(v) => v,
        Err(e) => {
            return Err(e);
        },
    };
    let collateral_usd = match min_collateral_price.get_asset_amount_usd(params.collateral,
        kc.decimals) {
        Ok(v) => v,
        Err(e) => {
            return Err(e);
        },
    };
    let locked_amount = if use_collateral_custody {
        let size_in_collateral = match min_collateral_price.get_token_amount(size_usd,
            kc.decimals) {
            Ok(v) => v,
            Err(e) => {
                return Err(e);
            },
        };
        match custody.get_locked_amount(size_in_collateral, params.side) {
            Ok(v) => v,
            Err(e) => {
                return Err(e);
            },
        }
    } else {
        match custody.get_locked_amount(params.size, params.side) {
            Ok(v) => v,
            Err(e) => {
                return Err(e);
            },
        }
    };
    let borrow_size_usd = if custody.pricing.max_payoff_mult != BPS_POWER {
        if use_collateral_custody {
            let max_collateral_price = if collateral_token_price.lt(collateral_token_ema_price) {
                *collateral_token_ema_price
            } else {
                *collateral_token_price
            };
            match max_collateral_price.get_asset_amount_usd(locked_amount, kc.decimals) {
                Ok(v) => v,
                Err(e) => {
                    return Err(e);
                },
            }
        } else {
            match entry_oracle.get_asset_amount_usd(locked_amount, custody.decimals) {
                Ok(v) => v,
                Err(e) => {
                    return Err(e);
                },
            }
        }
    } else {
        size_usd
    };
    let fee_tokens = match pool.get_entry_fee(custody.fees.open_position, params.size,
        locked_amount, &kc) {
        Ok(v) => v,
        Err(e) => {
            return Err(e);
        },
    };
    let fee_usd = match token_ema_price.get_asset_amount_usd(fee_tokens, custody.decimals) {
        Ok(v) => v,
        Err(e) => {
            return Err(e);
        },
    };
    let fee_amount = if use_collateral_custody {
        match collateral_token_ema_price.get_token_amount(fee_usd, kc.decimals) {
            Ok(v) => v,
            Err(e) => {
                return Err(e);
            },
        }
    } else {
        fee_tokens
    };
    let transfer_amount = match math::checked_add(params.collateral, fee_amount) {
        Ok(v) => v,
        Err(e) => {
            return Err(e);
        },
    };
    let snapshot = match kc.get_cumulative_interest(curtime) {
        Ok(v) => v,
        Err(e) => {
            return Err(e);
        },
    };
    let position = Position {
        owner,
        pool: pool.key,
        custody: custody.key,
        collateral_custody: kc.key,
        open_time: curtime,
        update_time: 0,
        side: params.side,
        price: entry_price,
        size_usd,
        borrow_size_usd,
        collateral_usd,
        unrealized_profit_usd: 0,
        unrealized_loss_usd: 0,
        cumulative_interest_snapshot: snapshot,
        locked_amount,
        collateral_amount: params.collateral,
    };
    let (new_custody, new_collateral_custody) = match open_position_commit(
        pool,
        custody,
        collateral_custody,
        &position,
        token_price,
        token_ema_price,
        collateral_token_price,
        collateral_token_ema_price,
        curtime,
        size_usd,
        fee_usd,
        fee_amount,
        params.collateral,
    ) {
        Ok(v) => v,
        Err(e) => {
            return Err(e);
        },
    };
    Ok(
        OpenPositionUpdate {
            position,
            custody: new_custody,
            collateral_custody: new_collateral_custody,
            transfer_amount,
            fee_amount,
        },
    )
}


/// The committing half of `close_position`: release the reserve, check the
/// pool can pay, settle fees, collateral and owned funds, then update the
/// aggregates.
pub open spec fn spec_close_position_commit(
    custody: Custody,
    collateral_custody: Option<Custody>,
    position: Position,
    curtime: i64,
    transfer_amount: u64,
    fee_usd: u64,
    fee_amount: u64,
    profit_usd: u64,
    loss_usd: u64,
) -> Result<(Custody, Option<Custody>), PerpetualsError> {
    let kc = match collateral_custody {
        Option::Some(c) => c,
        Option::None => custody,
    };
    match kc.spec_unlock_funds(position.locked_amount) {
        Err(e) => Err(e),
        Ok(kc1) => match Pool::spec_check_available_amount(transfer_amount, kc1) {
            Err(e) => Err(e),
            Ok(available) => {
                if !available {
                    Err(PerpetualsError::CustodyAmountLimit)
                } else {
                    match spec_close_position_settle(custody, kc1, position, transfer_amount,
                        fee_usd, fee_amount) {
                        Err(e) => Err(e),
                        Ok(kc4) => spec_close_position_stats(
                            custody,
                            collateral_custody,
                            kc4,
                            position,
                            curtime,
                            profit_usd,
                            loss_usd,
                        ),
                    }
                }
            },
        },
    }
}

/// The aggregate-statistics tail of `spec_close_position_commit`. Volume,
/// open interest and realized profit/loss are informational and use
/// wrapping or saturating arithmetic; the position removal and the
/// borrow-rate refresh are checked.
pub open spec fn spec_close_position_stats(
    custody: Custody,
    collateral_custody: Option<Custody>,
    kc4: Custody,
    position: Position,
    curtime: i64,
    profit_usd: u64,
    loss_usd: u64,
) -> Result<(Custody, Option<Custody>), PerpetualsError> {
    if position.side == Side::Long && !custody.is_virtual {
        match collateral_custody {
            // A same-custody long: every update lands on the one record.
            Option::None => {
                let kc5 = Custody {
                    volume_stats: crate::custody::VolumeStats {
                        close_position_usd: wrap_add_u64(
                            kc4.volume_stats.close_position_usd,
                            position.size_usd,
                        ),
                        ..kc4.volume_stats
                    },
                    ..kc4
                };
                let oi: u64 = if kc5.trade_stats.oi_long_usd >= position.size_usd {
                    (kc5.trade_stats.oi_long_usd - position.size_usd) as u64
                } else {
                    0
                };
                let kc6 = Custody {
                    trade_stats: crate::custody::TradeStats {
                        oi_long_usd: oi,
                        profit_usd: wrap_add_u64(kc5.trade_stats.profit_usd, profit_usd),
                        loss_usd: wrap_add_u64(kc5.trade_stats.loss_usd, loss_usd),
                        ..kc5.trade_stats
                    },
                    ..kc5
                };
                match kc6.spec_remove_position(position, curtime, Option::None) {
                    Err(e) => Err(e),
                    Ok((kc7, _)) => match kc7.spec_update_borrow_rate(curtime) {
                        Err(e) => Err(e),
                        Ok(kc8) => Ok((kc8, Option::None)),
                    },
                }
            },
            // Unreachable under the documented pairing rule.
            Option::Some(_) => Err(PerpetualsError::InvalidCollateralCustody),
        }
    } else {
        match collateral_custody {
            Option::Some(_) => {
                let c5 = Custody {
                    volume_stats: crate::custody::VolumeStats {
                        close_position_usd: wrap_add_u64(
                            custody.volume_stats.close_position_usd,
                            position.size_usd,
                        ),
                        ..custody.volume_stats
                    },
                    ..custody
                };
                let c6 = if position.side == Side::Long {
                    Custody {
                        trade_stats: crate::custody::TradeStats {
                            oi_long_usd: if c5.trade_stats.oi_long_usd >= position.size_usd {
                                (c5.trade_stats.oi_long_usd - position.size_usd) as u64
                            } else {
                                0
                            },
                            ..c5.trade_stats
                        },
                        ..c5
                    }
                } else {
                    Custody {
                        trade_stats: crate::custody::TradeStats {
                            oi_short_usd: if c5.trade_stats.oi_short_usd >= position.size_usd {
                                (c5.trade_stats.oi_short_usd - position.size_usd) as u64
                            } else {
                                0
                            },
                            ..c5.trade_stats
                        },
                        ..c5
                    }
                };
                let c7 = Custody {
                    trade_stats: crate::custody::TradeStats {
                        profit_usd: wrap_add_u64(c6.trade_stats.profit_usd, profit_usd),
                        loss_usd: wrap_add_u64(c6.trade_stats.loss_usd, loss_usd),
                        ..c6.trade_stats
                    },
                    ..c6
                };
                match c7.spec_remove_position(position, curtime, Option::Some(kc4)) {
                    Err(e) => Err(e),
                    Ok((c8, cc8)) => match cc8 {
                        Option::Some(kc5) => match kc5.spec_update_borrow_rate(curtime) {
                            Err(e) => Err(e),
                            Ok(kc6) => Ok((c8, Option::Some(kc6))),
                        },
                        // Unreachable: removing with a separate collateral
                        // record always hands that record back.
                        Option::None => Err(PerpetualsError::MathOverflow),
                    },
                }
            },
            // Unreachable under the documented pairing rule.
            Option::None => Err(PerpetualsError::InvalidCollateralCustody),
        }
    }
}

fn close_position_stats(
    custody: Custody,
    collateral_custody: Option<Custody>,
    kc4: Custody,
    position: &Position,
    curtime: i64,
    profit_usd: u64,
    loss_usd: u64,
) -> (r: Result<(Custody, Option<Custody>), PerpetualsError>)
    ensures
        r == spec_close_position_stats(custody, collateral_custody, kc4, *position, curtime,
            profit_usd, loss_usd),
        r matches Ok(u) ==> (match u.1 {
            Option::Some(c) => c.assets == kc4.assets,
            Option::None => u.0.assets == kc4.assets,
        }),
{
    if position.side == Side::Long && !custody.is_virtual {
        match collateral_custody {
            Option::None => {
                let mut kc1 = kc4;
                kc1.volume_stats.close_position_usd =
                    kc1.volume_stats.close_position_usd.wrapping_add(position.size_usd);
                kc1.trade_stats.oi_long_usd = kc1.trade_stats.oi_long_usd.saturating_sub(
                    position.size_usd,
                );
                kc1.trade_stats.profit_usd = kc1.trade_stats.profit_usd.wrapping_add(profit_usd);
                kc1.trade_stats.loss_usd = kc1.trade_stats.loss_usd.wrapping_add(loss_usd);
                match kc1.remove_position(position, curtime, Option::None) {
                    Ok(_) => (),
                    Err(e) => {
                        return Err(e);
                    },
                }
                match kc1.update_borrow_rate(curtime) {
                    Ok(_) => (),
                    Err(e) => {
                        return Err(e);
                    },
                }
                Ok((kc1, Option::None))
            },
            Option::Some(_) => Err(PerpetualsError::InvalidCollateralCustody),
        }
    } else {
        match collateral_custody {
            Option::Some(_) => {
                let mut c1 = custody;
                c1.volume_stats.close_position_usd =
                    c1.volume_stats.close_position_usd.wrapping_add(position.size_usd);
                if position.side == Side::Long {
                    c1.trade_stats.oi_long_usd = c1.trade_stats.oi_long_usd.saturating_sub(
                        position.size_usd,
                    );
                } else {
                    c1.trade_stats.oi_short_usd = c1.trade_stats.oi_short_usd.saturating_sub(
                        position.size_usd,
                    );
                }
                c1.trade_stats.profit_usd = c1.trade_stats.profit_usd.wrapping_add(profit_usd);
                c1.trade_stats.loss_usd = c1.trade_stats.loss_usd.wrapping_add(loss_usd);
                let returned = match c1.remove_position(position, curtime, Option::Some(kc4)) {
                    Ok(v) => v,
                    Err(e) => {
                        return Err(e);
                    },
                };
                match returned {
                    Option::Some(kc2) => {
                        let mut kc3 = kc2;
                        match kc3.update_borrow_rate(curtime) {
                            Ok(_) => (),
                            Err(e) => {
                                return Err(e);
                            },
                        }
                        Ok((c1, Option::Some(kc3)))
                    },
                    Option::None => Err(PerpetualsError::MathOverflow),
                }
            },
            Option::None => Err(PerpetualsError::InvalidCollateralCustody),
        }
    }
}


/// The settlement piece of a close on the collateral record: the fee
/// accumulator, the owned bucket adjusted by the realized result, the
/// trader's collateral released, and the protocol's share carved out when
/// the pool can still afford it.
pub open spec fn spec_close_position_settle(
    custody: Custody,
    kc1: Custody,
    position: Position,
    transfer_amount: u64,
    fee_usd: u64,
    fee_amount: u64,
) -> Result<Custody, PerpetualsError> {
    let kc2 = Custody {
        collected_fees: crate::custody::FeesStats {
            close_position_usd: wrap_add_u64(kc1.collected_fees.close_position_usd, fee_usd),
            ..kc1.collected_fees
        },
        ..kc1
    };
    let owned_r: Result<u64, PerpetualsError> = if transfer_amount > position.collateral_amount {
        let amount_lost = transfer_amount - position.collateral_amount;
        if kc2.assets.owned < amount_lost {
            Err(PerpetualsError::MathOverflow)
        } else {
            Ok((kc2.assets.owned - amount_lost) as u64)
        }
    } else {
        let amount_gained = position.collateral_amount - transfer_amount;
        if kc2.assets.owned + amount_gained > u64::MAX {
            Err(PerpetualsError::MathOverflow)
        } else {
            Ok((kc2.assets.owned + amount_gained) as u64)
        }
    };
    match owned_r {
        Err(e) => Err(e),
        Ok(new_owned) => {
            if kc2.assets.collateral < position.collateral_amount {
                Err(PerpetualsError::MathOverflow)
            } else {
                let kc3 = Custody {
                    assets: crate::custody::Assets {
                        owned: new_owned,
                        collateral: (kc2.assets.collateral - position.collateral_amount) as u64,
                        ..kc2.assets
                    },
                    ..kc2
                };
                match spec_get_fee_amount(custody.fees.protocol_share, fee_amount) {
                    Err(e) => Err(e),
                    Ok(protocol_fee) => match Pool::spec_check_available_amount(
                        protocol_fee,
                        kc3,
                    ) {
                        Err(e) => Err(e),
                        Ok(can_pay) => {
                            if can_pay {
                                if kc3.assets.protocol_fees + protocol_fee > u64::MAX {
                                    Err(PerpetualsError::MathOverflow)
                                } else if kc3.assets.owned < protocol_fee {
                                    Err(PerpetualsError::MathOverflow)
                                } else {
                                    Ok(
                                        Custody {
                                            assets: crate::custody::Assets {
                                                protocol_fees: (kc3.assets.protocol_fees
                                                    + protocol_fee) as u64,
                                                owned: (kc3.assets.owned - protocol_fee) as u64,
                                                ..kc3.assets
                                            },
                                            ..kc3
                                        },
                                    )
                                }
                            } else {
                                Ok(kc3)
                            }
                        },
                    },
                }
            }
        },
    }
}

fn close_position_settle(
    custody: &Custody,
    kc1: Custody,
    position: &Position,
    transfer_amount: u64,
    fee_usd: u64,
    fee_amount: u64,
) -> (r: Result<Custody, PerpetualsError>)
    ensures
        r == spec_close_position_settle(*custody, kc1, *position, transfer_amount, fee_usd,
            fee_amount),
{
    let mut kc = kc1;
    kc.collected_fees.close_position_usd = kc.collected_fees.close_position_usd.wrapping_add(
        fee_usd,
    );
    if transfer_amount > position.collateral_amount {
        let amount_lost = transfer_amount - position.collateral_amount;
        kc.assets.owned = match math::checked_sub(kc.assets.owned, amount_lost) {
            Ok(v) => v,
            Err(e) => {
                return Err(e);
            },
        };
    } else {
        let amount_gained = position.collateral_amount - transfer_amount;
        kc.assets.owned = match math::checked_add(kc.assets.owned, amount_gained) {
            Ok(v) => v,
            Err(e) => {
                return Err(e);
            },
        };
    }
    kc.assets.collateral = match math::checked_sub(kc.assets.collateral,
        position.collateral_amount) {
        Ok(v) => v,
        Err(e) => {
            return Err(e);
        },
    };
    let protocol_fee = match Pool::get_fee_amount(custody.fees.protocol_share, fee_amount) {
        Ok(v) => v,
        Err(e) => {
            return Err(e);
        },
    };
    let total2 = match math::checked_add(kc.assets.owned, kc.assets.collateral) {
        Ok(v) => v,
        Err(e) => {
            return Err(e);
        },
    };
    let available2 = match math::checked_sub(total2, kc.assets.locked) {
        Ok(v) => v,
        Err(e) => {
            return Err(e);
        },
    };
    if available2 >= protocol_fee {
        kc.assets.protocol_fees = match math::checked_add(kc.assets.protocol_fees, protocol_fee) {
            Ok(v) => v,
            Err(e) => {
                return Err(e);
            },
        };
        kc.assets.owned = match math::checked_sub(kc.assets.owned, protocol_fee) {
            Ok(v) => v,
            Err(e) => {
                return Err(e);
            },
        };
    }
    Ok(kc)
}

fn close_position_commit(
    custody: Custody,
    collateral_custody: Option<Custody>,
    position: &Position,
    curtime: i64,
    transfer_amount: u64,
    fee_usd: u64,
    fee_amount: u64,
    profit_usd: u64,
    loss_usd: u64,
) -> (r: Result<(Custody, Option<Custody>), PerpetualsError>)
    ensures
        r == spec_close_position_commit(custody, collateral_custody, *position, curtime,
            transfer_amount, fee_usd, fee_amount, profit_usd, loss_usd),
{
    let kc: Custody = match collateral_custody {
        Option::Some(c) => c,
        Option::None => custody,
    };
    let mut kc1 = kc;
    match kc1.unlock_funds(position.locked_amount) {
        Ok(_) => (),
        Err(e) => {
            return Err(e);
        },
    }
    let total = match math::checked_add(kc1.assets.owned, kc1.assets.collateral) {
        Ok(v) => v,
        Err(e) => {
            return Err(e);
        },
    };
    let available_amount = match math::checked_sub(total, kc1.assets.locked) {
        Ok(v) => v,
        Err(e) => {
            return Err(e);
        },
    };
    if available_amount < transfer_amount {
        return Err(PerpetualsError::CustodyAmountLimit);
    }
    let kc4 = match close_position_settle(&custody, kc1, position, transfer_amount, fee_usd,
        fee_amount) {
        Ok(v) => v,
        Err(e) => {
            return Err(e);
        },
    };
    close_position_stats(custody, collateral_custody, kc4, position, curtime, profit_usd,
        loss_usd)
}

/// What `close_position` does: permission and input checks, the exit quote
/// with its (reversed) slippage gate, settlement via the close amount, and
/// the committing updates of `spec_close_position_commit`.
pub open spec fn spec_close_position(
    perpetuals: Perpetuals,
    pool: Pool,
    position: Position,
    custody: Custody,
    collateral_custody: Option<Custody>,
    token_price: OraclePrice,
    token_ema_price: OraclePrice,
    collateral_token_price: OraclePrice,
    collateral_token_ema_price: OraclePrice,
    curtime: i64,
    params: ClosePositionParams,
) -> Result<ClosePositionUpdate, PerpetualsError> {
    if !(perpetuals.permissions.allow_close_position
        && custody.permissions.allow_close_position) {
        Err(PerpetualsError::InstructionNotAllowed)
    } else if params.price == 0 {
        Err(PerpetualsError::InvalidArgument)
    } else {
        let kc = match collateral_custody {
            Option::Some(c) => c,
            Option::None => custody,
        };
        match spec_get_exit_price(token_price, token_ema_price, position.side, custody) {
            Err(e) => Err(e),
            Ok(exit_price) => {
                let slippage_ok = if position.side == Side::Long {
                    exit_price >= params.price
                } else {
                    params.price >= exit_price
                };
                if !slippage_ok {
                    Err(PerpetualsError::MaxPriceSlippage)
                } else {
                    match spec_get_close_amount(
                        position,
                        token_price,
                        token_ema_price,
                        custody,
                        collateral_token_price,
                        collateral_token_ema_price,
                        kc,
                        curtime,
                        false,
                    ) {
                        Err(e) => Err(e),
                        Ok((transfer_amount, fee_tokens, profit_usd, loss_usd)) => match
                            token_ema_price.spec_asset_amount_usd(fee_tokens, custody.decimals) {
                            Err(e) => Err(e),
                            Ok(fee_usd) => {
                                let fee_r: Result<u64, PerpetualsError> = if position.side
                                    == Side::Short || custody.is_virtual {
                                    collateral_token_ema_price.spec_token_amount(
                                        fee_usd,
                                        kc.decimals,
                                    )
                                } else {
                                    Ok(fee_tokens)
                                };
                                match fee_r {
                                    Err(e) => Err(e),
                                    Ok(fee_amount) => match spec_close_position_commit(
                                        custody,
                                        collateral_custody,
                                        position,
                                        curtime,
                                        transfer_amount,
                                        fee_usd,
                                        fee_amount,
                                        profit_usd,
                                        loss_usd,
                                    ) {
                                        Err(e) => Err(e),
                                        Ok((c2, cc2)) => Ok(
                                            ClosePositionUpdate {
                                                custody: c2,
                                                collateral_custody: cc2,
                                                transfer_amount,
                                                fee_amount,
                                                profit_usd,
                                                loss_usd,
                                            },
                                        ),
                                    },
                                }
                            },
                        },
                    }
                }
            },
        }
    }
}

/// Closes a position at the current exit quote, settling profit or loss
/// against the pool: the reserve is released, the payout computed, fees and
/// stats recorded, and the aggregates updated. On success the host pays the
/// trader `transfer_amount` collateral tokens and destroys the position
/// record.
pub fn close_position(
    perpetuals: &Perpetuals,
    pool: &Pool,
    position: Position,
    custody: Custody,
    collateral_custody: Option<Custody>,
    token_price: &OraclePrice,
    token_ema_price: &OraclePrice,
    collateral_token_price: &OraclePrice,
    collateral_token_ema_price: &OraclePrice,
    curtime: i64,
    params: &ClosePositionParams,
) -> (r: Result<ClosePositionUpdate, PerpetualsError>)
    requires
        position.custody == custody.key,
        match collateral_custody {
            Option::Some(c) => position.collateral_custody == c.key && c.key != custody.key,
            Option::None => position.collateral_custody == custody.key,
        },
        (position.side == Side::Long && !custody.is_virtual) <==> collateral_custody is None,
    ensures
        r == spec_close_position(*perpetuals, *pool, position, custody, collateral_custody,
            *token_price, *token_ema_price, *collateral_token_price, *collateral_token_ema_price,
            curtime, *params),
{
    if !(perpetuals.permissions.allow_close_position
        && custody.permissions.allow_close_position) {
        return Err(PerpetualsError::InstructionNotAllowed);
    }
    if params.price == 0 {
        return Err(PerpetualsError::InvalidArgument);
    }
    let kc: Custody = match collateral_custody {
        Option::Some(c) => c,
        Option::None => custody,
    };
    let exit_price = match pool.get_exit_price(token_price, token_ema_price, position.side,
        &custody) {
        Ok(v) => v,
        Err(e) => {
            return Err(e);
        },
    };
    let slippage_ok = if position.side == Side::Long {
        exit_price >= params.price
    } else {
        params.price >= exit_price
    };
    if !slippage_ok {
        return Err(PerpetualsError::MaxPriceSlippage);
    }
    let (transfer_amount, fee_tokens, profit_usd, loss_usd) = match pool.get_close_amount(
        &position,
        token_price,
        token_ema_price,
        &custody,
        collateral_token_price,
        collateral_token_ema_price,
        &kc,
        curtime,
        false,
    ) {
        Ok(v) => v,
        Err(e) => {
            return Err(e);
        },
    };
    let fee_usd = match token_ema_price.get_asset_amount_usd(fee_tokens, custody.decimals) {
        Ok(v) => v,
        Err(e) => {
            return Err(e);
        },
    };
    let fee_amount = if position.side == Side::Short || custody.is_virtual {
        match collateral_token_ema_price.get_token_amount(fee_usd, kc.decimals) {
            Ok(v) => v,
            Err(e) => {
                return Err(e);
            },
        }
    } else {
        fee_tokens
    };
    let (new_custody, new_collateral_custody) = match close_position_commit(
        custody,
        collateral_custody,
        &position,
        curtime,
        transfer_amount,
        fee_usd,
        fee_amount,
        profit_usd,
        loss_usd,
    ) {
        Ok(v) => v,
        Err(e) => {
            return Err(e);
        },
    };
    Ok(
        ClosePositionUpdate {
            custody: new_custody,
            collateral_custody: new_collateral_custody,
            transfer_amount,
            fee_amount,
            profit_usd,
            loss_usd,
        },
    )
}


/// Records a new pool once the administrative approval protocol (an
/// external collaborator) has collected its signatures: rejects a bad name
/// or an already-recorded pool, stamps the name and inception time, checks
/// the configuration and registers the pool. On `InvalidPoolConfig` the
/// name and inception time have already been written and the host discards
/// the record, as the original transaction model does.
pub fn add_pool(
    perpetuals: &mut Perpetuals,
    pool: &mut Pool,
    curtime: i64,
    params: AddPoolParams,
) -> (r: Result<(), PerpetualsError>)
    ensures
        match r {
            Ok(_) => {
                &&& final(pool).name@ == params.name@
                &&& final(pool).inception_time == curtime
                &&& final(pool).key == old(pool).key
                &&& final(pool).custodies@ == old(pool).custodies@
                &&& final(pool).ratios@ == old(pool).ratios@
                &&& final(pool).aum_usd == old(pool).aum_usd
                &&& final(pool).is_valid()
                &&& old(pool).inception_time == 0
                &&& 0 < params.name@.len() <= 64
                &&& final(perpetuals).pools@ == old(perpetuals).pools@.push(old(pool).key)
                &&& final(perpetuals).permissions == old(perpetuals).permissions
            },
            Err(PerpetualsError::InvalidArgument) => {
                &&& params.name@.len() == 0 || params.name@.len() > 64
                &&& *final(pool) == *old(pool)
                &&& *final(perpetuals) == *old(perpetuals)
            },
            Err(PerpetualsError::AccountAlreadyInitialized) => {
                &&& 0 < params.name@.len() <= 64
                &&& old(pool).inception_time != 0
                &&& *final(pool) == *old(pool)
                &&& *final(perpetuals) == *old(perpetuals)
            },
            Err(PerpetualsError::InvalidPoolConfig) => {
                &&& 0 < params.name@.len() <= 64
                &&& old(pool).inception_time == 0
                &&& final(pool).name@ == params.name@
                &&& final(pool).inception_time == curtime
                &&& !final(pool).is_valid()
                &&& *final(perpetuals) == *old(perpetuals)
            },
            Err(_) => false,
        },
{
    if params.name.len() == 0 || params.name.len() > 64 {
        return Err(PerpetualsError::InvalidArgument);
    }
    if pool.inception_time != 0 {
        return Err(PerpetualsError::AccountAlreadyInitialized);
    }
    pool.inception_time = curtime;
    pool.name = params.name;
    if !pool.validate() {
        return Err(PerpetualsError::InvalidPoolConfig);
    }
    perpetuals.pools.push(pool.key);
    Ok(())
}

} // verus!
