//! Read-only views of the staking contract.

use vstd::prelude::*;
use crate::error::ContractError;
use crate::math::{decimal_places, lemma_pow10_monotone};
use crate::rewards::{accumulate, accumulate_fits, earned, pending_of, scale, settled_claimable, update_accumulator, query_pending_rewards};
use crate::state::{empty_stake, Chain, Config, Globals, UserStake};

verus! {

/// The accumulator as it would stand after accruing every pending reward,
/// without the collector cap.
pub open spec fn projected_rpt(cfg: Config, g: Globals, chain: Chain) -> int {
    accumulate(g.rewards_per_token as int, pending_of(cfg, g.state, chain), chain.derivative_supply as int, scale(cfg))
}

/// The projection of a claimable balance can be computed without overflow.
/// With no derivative tokens out nothing is pending, so the clock and the
/// emission are not consulted.
pub open spec fn claimable_fits(cfg: Config, g: Globals, u: UserStake, chain: Chain) -> bool {
    let rpt = projected_rpt(cfg, g, chain);
    &&& scale(cfg) <= u128::MAX
    &&& chain.derivative_supply != 0 ==> {
        &&& g.state.last_distribution <= chain.time
        &&& pending_of(cfg, g.state, chain) <= u128::MAX
        &&& accumulate_fits(g.rewards_per_token as int, pending_of(cfg, g.state, chain), chain.derivative_supply as int, scale(cfg))
    }
    &&& u.previous_cumulative_rewards_per_token <= rpt
    &&& u.staked_amounts * (rpt - u.previous_cumulative_rewards_per_token) <= u128::MAX
    &&& settled_claimable(u, rpt, scale(cfg)) <= u128::MAX
}

/// The record stored for an account, or the all-zero record.
pub fn query_user_staked_amount(stake: Option<UserStake>) -> (r: UserStake)
    ensures
        r == match stake {
            Some(s) => s,
            None => empty_stake(),
        },
{
    match stake {
        Some(s) => s,
        None => UserStake::default(),
    }
}

/// What `user` could claim at `chain.time`, nothing persisted: its claimable
/// balance plus what its stake earns on the uncapped pending rewards. An
/// account with no stake can claim its stored balance.
pub fn query_claimable(config: &Config, globals: &Globals, user: &UserStake, chain: &Chain) -> (r: Result<u128, ContractError>)
    ensures
        r is Ok <==> claimable_fits(*config, *globals, *user, *chain),
        r is Ok ==> r == Ok::<u128, ContractError>(
            settled_claimable(*user, projected_rpt(*config, *globals, *chain), scale(*config)) as u128,
        ),
        r is Err ==> r == Err::<u128, ContractError>(ContractError::Overflow {}),
{
    let dp = match decimal_places(config.reward_decimals) {
        Some(dp) => dp,
        None => return Err(ContractError::Overflow {}),
    };
    proof {
        lemma_pow10_monotone(0, config.reward_decimals as nat);
    }
    let next_rpt = if chain.derivative_supply == 0 {
        globals.rewards_per_token
    } else {
        let pending = query_pending_rewards(config, &globals.state, chain.time)?;
        update_accumulator(globals.rewards_per_token, pending, chain.derivative_supply, dp)?
    };
    if next_rpt < user.previous_cumulative_rewards_per_token {
        return Err(ContractError::Overflow {});
    }
    let delta = next_rpt - user.previous_cumulative_rewards_per_token;
    let latest = match crate::math::checked_mul_div(user.staked_amounts, delta, dp) {
        Some(v) => v,
        None => return Err(ContractError::Overflow {}),
    };
    assert(latest == earned(*user, next_rpt as int, dp as int));
    match user.claimable_rewards.checked_add(latest) {
        Some(v) => Ok(v),
        None => Err(ContractError::Overflow {}),
    }
}

} // verus!
