//! A pooled-collateral options ledger.
//!
//! Sellers deposit collateral into a shared pool, buyers pay a premium to open
//! call or put positions, and positions are settled against the pool from
//! oracle quotes. Every operation is a state transition on plain values with a
//! contract that fixes its outcome.

pub mod errors;
pub mod math;
pub mod instructions;
pub mod laws;
pub mod state;
pub mod utils;
