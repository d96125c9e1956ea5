//! Reward accrual, stake ledger and fee routing for a family of CosmWasm
//! contracts, written as verified functions over plain values.

pub mod math;
pub mod bank;
pub mod error;
pub mod state;
pub mod msg;
pub mod rewards;
pub mod handle;
pub mod query;
pub mod contract;
pub mod laws;
pub mod collector;
pub mod distributor;
pub mod liquidator;
pub mod vault;
