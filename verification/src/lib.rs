//! Core trading engine of a perpetual-futures market-making pool.
//!
//! The library is the in-memory state machine behind a pool of token
//! custodies: leveraged long/short positions are opened, collateralized,
//! closed and risk-checked against shared liquidity. All monetary amounts
//! are unsigned fixed-point integers; every arithmetic step is checked and
//! every public operation carries a contract that pins down its result.
//!
//! The on-chain plumbing around the engine (account validation, token
//! transfers, the clock) is out of scope here: callers hand in already
//! fetched oracle prices and the current time, and receive the updated
//! records plus the token amounts to move.

pub mod custody;
pub mod error;
pub mod instructions;
pub mod laws;
pub mod math;
pub mod oracle;
pub mod perps;
pub mod pool;
pub mod position;

pub use error::PerpetualsError;
