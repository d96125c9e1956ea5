//! The staking contract's persistent records.

use vstd::prelude::*;

verus! {

/// Settings fixed at creation; only the emission rate is owner-mutable.
#[derive(Debug, Clone, PartialEq, Eq)]
pub struct Config {
    pub owner: String,
    pub fee_collector: String,
    pub deposit_denom: String,
    pub deposit_decimals: u32,
    /// Address of the derivative token; empty until its creation is reported.
    pub staked_denom: String,
    pub reward_denom: String,
    pub reward_decimals: u32,
    /// Reward base units emitted per second.
    pub tokens_per_interval: u128,
}

/// Lifecycle flag and the time (in seconds) of the last accrual checkpoint.
#[derive(Debug, Clone, Copy, PartialEq, Eq, Structural)]
pub struct State {
    pub is_open: bool,
    pub last_distribution: u64,
}

/// The singletons that every accrual reads and writes.
#[derive(Debug, Clone, Copy, PartialEq, Eq, Structural)]
pub struct Globals {
    pub state: State,
    /// Cumulative reward per derivative token, scaled by `10^reward_decimals`.
    pub rewards_per_token: u128,
    /// Sum of the principal staked by all accounts.
    pub total_staked: u128,
}

/// One account's stake record.
#[derive(Debug, Clone, Copy, PartialEq, Eq, Structural)]
pub struct UserStake {
    pub staked_amounts: u128,
    pub claimable_rewards: u128,
    pub previous_cumulative_rewards_per_token: u128,
    pub cumulative_rewards: u128,
    pub average_staked_amounts: u128,
}

/// The all-zero record.
pub open spec fn empty_stake() -> UserStake {
    UserStake {
        staked_amounts: 0,
        claimable_rewards: 0,
        previous_cumulative_rewards_per_token: 0,
        cumulative_rewards: 0,
        average_staked_amounts: 0,
    }
}

impl Default for UserStake {
    fn default() -> (r: UserStake)
        ensures
            r == empty_stake(),
    {
        UserStake {
            staked_amounts: 0,
            claimable_rewards: 0,
            previous_cumulative_rewards_per_token: 0,
            cumulative_rewards: 0,
            average_staked_amounts: 0,
        }
    }
}

/// A liquidity pool and the denomination it quotes in.
#[derive(Debug, Clone, PartialEq, Eq)]
pub struct Pool {
    pub id: u64,
    pub quote_denom: String,
}

/// A coin sent along with an action.
#[derive(Debug, Clone, PartialEq, Eq)]
pub struct Coin {
    pub denom: String,
    pub amount: u128,
}

/// What the host chain reports at the time of an action: the block time in
/// seconds, the collector's reward balance, and the derivative token's supply.
#[derive(Debug, Clone, Copy, PartialEq, Eq, Structural)]
pub struct Chain {
    pub time: u64,
    pub collector_balance: u128,
    pub derivative_supply: u128,
}

} // verus!
