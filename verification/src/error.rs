//! Failure kinds surfaced by the trading engine.

use vstd::prelude::*;

verus! {

/// Every way an operation of the engine can abort.
///
/// Arithmetic failures (`MathOverflow`, `DivideByZero`) indicate bugs or
/// oracle manipulation and abort the whole transaction; the remaining
/// variants are business-rule violations that clients can render.
#[derive(Clone, Copy, Debug, PartialEq, Eq, Structural)]
pub enum PerpetualsError {
    InvalidArgument,
    InsufficientFunds,
    AccountAlreadyInitialized,
    MathOverflow,
    DivideByZero,
    MaxPriceSlippage,
    MaxLeverage,
    MaxUtilization,
    CustodyAmountLimit,
    PositionAmountLimit,
    TokenRatioOutOfRange,
    UnsupportedToken,
    InvalidCollateralCustody,
    InvalidPoolConfig,
    InstructionNotAllowed,
    InsufficientAmountReturned,
}

} // verus!
