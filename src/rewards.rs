//! The reward accrual engine: time-based emission, the global
//! rewards-per-token accumulator, and per-account settlement.

use vstd::prelude::*;
use crate::error::ContractError;
use crate::math::{checked_mul_div, decimal_places, pow10};
use crate::state::{Chain, Config, Globals, State, UserStake};

verus! {

/// Rewards emitted between the checkpoint `last` and `now` at `rate` per second.
pub open spec fn pending_rewards(rate: int, last: int, now: int) -> int {
    if now == last {
        0
    } else {
        (now - last) * rate
    }
}

/// The lesser of what was emitted and what the collector holds.
pub open spec fn capped_rewards(pending: int, balance: int) -> int {
    if pending > balance {
        balance
    } else {
        pending
    }
}

/// The accumulator after `rewards` are spread over `supply` derivative tokens.
pub open spec fn accumulate(rpt: int, rewards: int, supply: int, dp: int) -> int {
    if supply != 0 && rewards != 0 {
        rpt + rewards * dp / supply
    } else {
        rpt
    }
}

/// `accumulate` stays within a `u128`, its product included.
pub open spec fn accumulate_fits(rpt: int, rewards: int, supply: int, dp: int) -> bool {
    supply != 0 && rewards != 0 ==> {
        &&& rewards * dp <= u128::MAX
        &&& rpt + rewards * dp / supply <= u128::MAX
    }
}

/// The reward scaling factor of a configuration.
pub open spec fn scale(cfg: Config) -> int {
    pow10(cfg.reward_decimals as nat) as int
}

/// Rewards pending at `chain.time`, before the collector cap.
pub open spec fn pending_of(cfg: Config, state: State, chain: Chain) -> int {
    pending_rewards(cfg.tokens_per_interval as int, state.last_distribution as int, chain.time as int)
}

/// Rewards credited by an accrual at `chain.time`.
pub open spec fn rewards_of(cfg: Config, g: Globals, chain: Chain) -> int {
    capped_rewards(pending_of(cfg, g.state, chain), chain.collector_balance as int)
}

/// The accumulator after an accrual at `chain.time`.
pub open spec fn rpt_of(cfg: Config, g: Globals, chain: Chain) -> int {
    accumulate(g.rewards_per_token as int, rewards_of(cfg, g, chain), chain.derivative_supply as int, scale(cfg))
}

/// An accrual at `chain.time` succeeds: the clock did not run back and no
/// intermediate value overflows.
pub open spec fn accrual_fits(cfg: Config, g: Globals, chain: Chain) -> bool {
    &&& scale(cfg) <= u128::MAX
    &&& g.state.last_distribution <= chain.time
    &&& pending_of(cfg, g.state, chain) <= u128::MAX
    &&& accumulate_fits(g.rewards_per_token as int, rewards_of(cfg, g, chain), chain.derivative_supply as int, scale(cfg))
}

/// The singletons after an accrual at `chain.time`.
pub open spec fn accrued(cfg: Config, g: Globals, chain: Chain) -> Globals {
    Globals {
        state: State { is_open: g.state.is_open, last_distribution: chain.time },
        rewards_per_token: rpt_of(cfg, g, chain) as u128,
        total_staked: g.total_staked,
    }
}

/// Reward earned by `u` since its snapshot, against accumulator `rpt`.
pub open spec fn earned(u: UserStake, rpt: int, dp: int) -> int {
    u.staked_amounts * (rpt - u.previous_cumulative_rewards_per_token) / dp
}

/// The claimable balance after settlement.
pub open spec fn settled_claimable(u: UserStake, rpt: int, dp: int) -> int {
    u.claimable_rewards + earned(u, rpt, dp)
}

/// Whether settlement moves the reward-weighted average of the stake.
pub open spec fn moves_average(u: UserStake, rpt: int, dp: int) -> bool {
    settled_claimable(u, rpt, dp) != 0 && u.staked_amounts != 0
}

/// The lifetime reward total after settlement.
pub open spec fn settled_cumulative(u: UserStake, rpt: int, dp: int) -> int {
    if moves_average(u, rpt, dp) {
        u.cumulative_rewards + settled_claimable(u, rpt, dp)
    } else {
        u.cumulative_rewards as int
    }
}

/// The average stake after settlement, weighted by rewards received.
pub open spec fn settled_average(u: UserStake, rpt: int, dp: int) -> int {
    if moves_average(u, rpt, dp) {
        (u.average_staked_amounts * u.cumulative_rewards + u.staked_amounts * settled_claimable(u, rpt, dp))
            / settled_cumulative(u, rpt, dp)
    } else {
        u.average_staked_amounts as int
    }
}

/// Settlement of `u` against `rpt` succeeds: the snapshot is not ahead of the
/// accumulator and no intermediate value overflows.
pub open spec fn settle_fits(u: UserStake, rpt: int, dp: int) -> bool {
    &&& u.previous_cumulative_rewards_per_token <= rpt
    &&& u.staked_amounts * (rpt - u.previous_cumulative_rewards_per_token) <= u128::MAX
    &&& settled_claimable(u, rpt, dp) <= u128::MAX
    &&& moves_average(u, rpt, dp) ==> {
        &&& settled_cumulative(u, rpt, dp) <= u128::MAX
        &&& u.average_staked_amounts * u.cumulative_rewards <= u128::MAX
        &&& u.staked_amounts * settled_claimable(u, rpt, dp) <= u128::MAX
        &&& u.average_staked_amounts * u.cumulative_rewards + u.staked_amounts * settled_claimable(u, rpt, dp)
            <= u128::MAX
    }
}

/// The record of `u` after settlement against `rpt`.
pub open spec fn settled(u: UserStake, rpt: int, dp: int) -> UserStake {
    UserStake {
        staked_amounts: u.staked_amounts,
        claimable_rewards: settled_claimable(u, rpt, dp) as u128,
        previous_cumulative_rewards_per_token: rpt as u128,
        cumulative_rewards: settled_cumulative(u, rpt, dp) as u128,
        average_staked_amounts: settled_average(u, rpt, dp) as u128,
    }
}

/// Rewards emitted since the last checkpoint at the configured rate,
/// uncapped. Fails on a clock that ran back or on overflow.
pub fn query_pending_rewards(config: &Config, state: &State, now: u64) -> (r: Result<u128, ContractError>)
    ensures
        r is Ok <==> state.last_distribution <= now
            && pending_rewards(config.tokens_per_interval as int, state.last_distribution as int, now as int)
            <= u128::MAX,
        r is Ok ==> r == Ok::<u128, ContractError>(
            pending_rewards(config.tokens_per_interval as int, state.last_distribution as int, now as int) as u128,
        ),
        r is Err ==> r == Err::<u128, ContractError>(ContractError::Overflow {}),
{
    if state.last_distribution == now {
        return Ok(0);
    }
    if now < state.last_distribution {
        return Err(ContractError::Overflow {});
    }
    let delta = (now - state.last_distribution) as u128;
    match delta.checked_mul(config.tokens_per_interval) {
        Some(p) => Ok(p),
        None => Err(ContractError::Overflow {}),
    }
}

/// Pending rewards capped at the collector's balance of the reward token.
pub fn calculate_rewards(config: &Config, state: &State, chain: &Chain) -> (r: Result<u128, ContractError>)
    ensures
        r is Ok <==> state.last_distribution <= chain.time && pending_of(*config, *state, *chain) <= u128::MAX,
        r is Ok ==> r == Ok::<u128, ContractError>(
            capped_rewards(pending_of(*config, *state, *chain), chain.collector_balance as int) as u128,
        ),
        r is Err ==> r == Err::<u128, ContractError>(ContractError::Overflow {}),
{
    let block_rewards = query_pending_rewards(config, state, chain.time)?;
    if block_rewards > chain.collector_balance {
        Ok(chain.collector_balance)
    } else {
        Ok(block_rewards)
    }
}

/// Moves the accrual checkpoint to `now`.
pub fn update_distribution_time(state: &mut State, now: u64)
    ensures
        *final(state) == (State { is_open: old(state).is_open, last_distribution: now }),
{
    state.last_distribution = now;
}

/// Adds `rewards` spread over `supply` to the accumulator; a zero supply or
/// zero rewards leave it as it is.
pub fn update_accumulator(rpt: u128, rewards: u128, supply: u128, dp: u128) -> (r: Result<u128, ContractError>)
    ensures
        r is Ok <==> accumulate_fits(rpt as int, rewards as int, supply as int, dp as int),
        r is Ok ==> r == Ok::<u128, ContractError>(accumulate(rpt as int, rewards as int, supply as int, dp as int) as u128),
        r is Ok ==> accumulate(rpt as int, rewards as int, supply as int, dp as int) >= rpt,
        r is Err ==> r == Err::<u128, ContractError>(ContractError::Overflow {}),
{
    if supply == 0 || rewards == 0 {
        return Ok(rpt);
    }
    match checked_mul_div(rewards, dp, supply) {
        Some(added) => match rpt.checked_add(added) {
            Some(next) => Ok(next),
            None => Err(ContractError::Overflow {}),
        },
        None => Err(ContractError::Overflow {}),
    }
}

/// Brings the accumulator up to `chain.time` and moves the checkpoint there.
/// Returns the rewards credited, which the collector must hand over. On
/// failure nothing changes.
pub fn accrue(config: &Config, globals: &mut Globals, chain: &Chain) -> (r: Result<u128, ContractError>)
    ensures
        r is Ok <==> accrual_fits(*config, *old(globals), *chain),
        r is Ok ==> r == Ok::<u128, ContractError>(rewards_of(*config, *old(globals), *chain) as u128),
        r is Ok ==> *final(globals) == accrued(*config, *old(globals), *chain),
        r is Ok ==> final(globals).rewards_per_token >= old(globals).rewards_per_token,
        r is Err ==> r == Err::<u128, ContractError>(ContractError::Overflow {}) && *final(globals) == *old(globals),
{
    let dp = match decimal_places(config.reward_decimals) {
        Some(dp) => dp,
        None => return Err(ContractError::Overflow {}),
    };
    let block_rewards = calculate_rewards(config, &globals.state, chain)?;
    let rpt = update_accumulator(globals.rewards_per_token, block_rewards, chain.derivative_supply, dp)?;
    update_distribution_time(&mut globals.state, chain.time);
    globals.rewards_per_token = rpt;
    Ok(block_rewards)
}

/// Settles `user` against the accumulator `rpt`: credits what its stake
/// earned since its snapshot, moves the snapshot to `rpt`, and updates the
/// reward-weighted average stake. On failure the record is left unchanged.
pub fn settle_account(user: &mut UserStake, rpt: u128, dp: u128) -> (r: Result<(), ContractError>)
    requires
        dp != 0,
    ensures
        r is Ok <==> settle_fits(*old(user), rpt as int, dp as int),
        r is Ok ==> *final(user) == settled(*old(user), rpt as int, dp as int),
        r is Err ==> r == Err::<(), ContractError>(ContractError::Overflow {}) && *final(user) == *old(user),
{
    let u = *user;
    if rpt < u.previous_cumulative_rewards_per_token {
        return Err(ContractError::Overflow {});
    }
    let delta = rpt - u.previous_cumulative_rewards_per_token;
    let account_reward = match checked_mul_div(u.staked_amounts, delta, dp) {
        Some(v) => v,
        None => return Err(ContractError::Overflow {}),
    };
    let claimable = match u.claimable_rewards.checked_add(account_reward) {
        Some(v) => v,
        None => return Err(ContractError::Overflow {}),
    };
    let mut cumulative = u.cumulative_rewards;
    let mut average = u.average_staked_amounts;
    if claimable != 0 && u.staked_amounts != 0 {
        let next = match u.cumulative_rewards.checked_add(claimable) {
            Some(v) => v,
            None => return Err(ContractError::Overflow {}),
        };
        let weighted_old = match u.average_staked_amounts.checked_mul(u.cumulative_rewards) {
            Some(v) => v,
            None => return Err(ContractError::Overflow {}),
        };
        let weighted_new = match u.staked_amounts.checked_mul(claimable) {
            Some(v) => v,
            None => return Err(ContractError::Overflow {}),
        };
        let weighted = match weighted_old.checked_add(weighted_new) {
            Some(v) => v,
            None => return Err(ContractError::Overflow {}),
        };
        average = weighted / next;
        cumulative = next;
    }
    *user = UserStake {
        staked_amounts: u.staked_amounts,
        claimable_rewards: claimable,
        previous_cumulative_rewards_per_token: rpt,
        cumulative_rewards: cumulative,
        average_staked_amounts: average,
    };
    Ok(())
}

/// Whether an action by `account` settles that account: the contract's own
/// address never accrues claimable rewards.
pub open spec fn settles(account: Seq<char>, contract: Seq<char>) -> bool {
    account != contract
}

/// `update_rewards` succeeds.
pub open spec fn update_fits(cfg: Config, g: Globals, u: UserStake, chain: Chain, account: Seq<char>, contract: Seq<char>) -> bool {
    &&& accrual_fits(cfg, g, chain)
    &&& settles(account, contract) ==> settle_fits(u, rpt_of(cfg, g, chain), scale(cfg))
}

/// The account's record after `update_rewards`.
pub open spec fn updated_user(cfg: Config, g: Globals, u: UserStake, chain: Chain, account: Seq<char>, contract: Seq<char>) -> UserStake {
    if settles(account, contract) {
        settled(u, rpt_of(cfg, g, chain), scale(cfg))
    } else {
        u
    }
}

/// Accrues up to `chain.time`, then settles `account` (whose record is
/// `user`) against the updated accumulator. Returns the rewards credited by
/// the accrual. On failure nothing changes.
pub fn update_rewards(
    config: &Config,
    globals: &mut Globals,
    user: &mut UserStake,
    chain: &Chain,
    account: &String,
    contract: &String,
) -> (r: Result<u128, ContractError>)
    ensures
        r is Ok <==> update_fits(*config, *old(globals), *old(user), *chain, account@, contract@),
        r is Ok ==> r == Ok::<u128, ContractError>(rewards_of(*config, *old(globals), *chain) as u128),
        r is Ok ==> *final(globals) == accrued(*config, *old(globals), *chain),
        r is Ok ==> *final(user) == updated_user(*config, *old(globals), *old(user), *chain, account@, contract@),
        final(globals).rewards_per_token >= old(globals).rewards_per_token,
        r is Err ==> r == Err::<u128, ContractError>(ContractError::Overflow {}),
        r is Err ==> *final(globals) == *old(globals) && *final(user) == *old(user),
{
    let mut g = *globals;
    let block_rewards = accrue(config, &mut g, chain)?;
    if !account.eq(contract) {
        let dp = match decimal_places(config.reward_decimals) {
            Some(dp) => dp,
            None => return Err(ContractError::Overflow {}),
        };
        proof {
            crate::math::lemma_pow10_monotone(0, config.reward_decimals as nat);
        }
        let mut u = *user;
        settle_account(&mut u, g.rewards_per_token, dp)?;
        *user = u;
    }
    *globals = g;
    Ok(block_rewards)
}

} // verus!
