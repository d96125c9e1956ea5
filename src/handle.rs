//! The staking contract's actions: pause gate, configuration, stake,
//! unstake, claim and reward maintenance. Each action either succeeds as a
//! whole or fails leaving every record as it was.

use vstd::prelude::*;
use crate::error::ContractError;
use crate::msg::{
    collect_msgs, create_burn_token_msg, create_mint_token_msg, distribute_and_update_response, Msg,
};
use crate::rewards::{accrue, accrual_fits, accrued, rewards_of, update_fits, update_rewards, updated_user};
use crate::state::{Chain, Coin, Config, Globals, State, UserStake};

verus! {

/// The deposit carried by `funds`: zero for no coins, the amount of a single
/// coin of `denom`, and `None` for anything else.
pub open spec fn deposit_of(funds: Seq<Coin>, denom: Seq<char>) -> Option<u128> {
    if funds.len() == 0 {
        Some(0u128)
    } else if funds.len() == 1 && funds[0].denom@ == denom {
        Some(funds[0].amount)
    } else {
        None
    }
}

/// `funds` carry a nonzero deposit of `denom`.
pub open spec fn valid_deposit(funds: Seq<Coin>, denom: Seq<char>) -> bool {
    deposit_of(funds, denom) is Some && deposit_of(funds, denom)->Some_0 != 0
}

/// The deposit amount carried by valid `funds`.
pub open spec fn deposit_amount(funds: Seq<Coin>, denom: Seq<char>) -> u128 {
    deposit_of(funds, denom)->Some_0
}

/// Reads the deposit out of the coins sent with an action.
pub fn parse_funds(funds: &Vec<Coin>, expected_denom: &String) -> (r: Result<u128, ContractError>)
    ensures
        deposit_of(funds@, expected_denom@) matches Some(a) ==> r == Ok::<u128, ContractError>(a),
        deposit_of(funds@, expected_denom@) is None ==> r == Err::<u128, ContractError>(ContractError::InvalidFunds {}),
{
    if funds.len() == 0 {
        return Ok(0);
    }
    if funds.len() != 1 || !funds[0].denom.eq(expected_denom) {
        return Err(ContractError::InvalidFunds {});
    }
    Ok(funds[0].amount)
}

/// The owner pauses an open contract.
pub fn handle_pause(config: &Config, state: &mut State, sender: &String) -> (r: Result<(), ContractError>)
    ensures
        sender@ != config.owner@ ==> r == Err::<(), ContractError>(ContractError::Unauthorized {}),
        sender@ == config.owner@ && !old(state).is_open ==> r == Err::<(), ContractError>(ContractError::Paused {}),
        r is Ok <==> sender@ == config.owner@ && old(state).is_open,
        r is Ok ==> *final(state) == (State { is_open: false, ..*old(state) }),
        r is Err ==> *final(state) == *old(state),
{
    if !sender.eq(&config.owner) {
        return Err(ContractError::Unauthorized {});
    }
    if !state.is_open {
        return Err(ContractError::Paused {});
    }
    state.is_open = false;
    Ok(())
}

/// The owner reopens a paused contract.
pub fn handle_unpause(config: &Config, state: &mut State, sender: &String) -> (r: Result<(), ContractError>)
    ensures
        sender@ != config.owner@ ==> r == Err::<(), ContractError>(ContractError::Unauthorized {}),
        sender@ == config.owner@ && old(state).is_open ==> r == Err::<(), ContractError>(ContractError::NotPaused {}),
        r is Ok <==> sender@ == config.owner@ && !old(state).is_open,
        r is Ok ==> *final(state) == (State { is_open: true, ..*old(state) }),
        r is Err ==> *final(state) == *old(state),
{
    if !sender.eq(&config.owner) {
        return Err(ContractError::Unauthorized {});
    }
    if state.is_open {
        return Err(ContractError::NotPaused {});
    }
    state.is_open = true;
    Ok(())
}

/// The owner changes the emission rate; `None` keeps it.
pub fn handle_update_config(config: &mut Config, sender: &String, tokens_per_interval: Option<u128>) -> (r: Result<(), ContractError>)
    ensures
        r is Ok <==> sender@ == old(config).owner@,
        r is Err ==> r == Err::<(), ContractError>(ContractError::Unauthorized {}) && *final(config) == *old(config),
        r is Ok ==> *final(config) == (Config {
            tokens_per_interval: match tokens_per_interval {
                Some(t) => t,
                None => old(config).tokens_per_interval,
            },
            ..*old(config)
        }),
{
    if !sender.eq(&config.owner) {
        return Err(ContractError::Unauthorized {});
    }
    if let Some(t) = tokens_per_interval {
        config.tokens_per_interval = t;
    }
    Ok(())
}

/// Accrual on behalf of the pool as a whole; allowed while paused.
pub fn handle_update_rewards(config: &Config, globals: &mut Globals, chain: &Chain, contract: &String) -> (r: Result<Vec<Msg>, ContractError>)
    ensures
        r is Ok <==> accrual_fits(*config, *old(globals), *chain),
        r is Ok ==> *final(globals) == accrued(*config, *old(globals), *chain),
        r matches Ok(msgs) ==> msgs@ == collect_msgs(
            config.fee_collector, config.reward_denom, rewards_of(*config, *old(globals), *chain), *contract),
        r is Err ==> r == Err::<Vec<Msg>, ContractError>(ContractError::Overflow {}) && *final(globals) == *old(globals),
        final(globals).rewards_per_token >= old(globals).rewards_per_token,
{
    let rewards = accrue(config, globals, chain)?;
    let mut response: Vec<Msg> = Vec::new();
    distribute_and_update_response(
        &mut response,
        config.fee_collector.clone(),
        config.reward_denom.clone(),
        rewards,
        contract.clone(),
    );
    Ok(response)
}

/// `sender`'s record after a successful stake of `amount`.
pub open spec fn staked_user(cfg: Config, g: Globals, u: UserStake, chain: Chain, sender: Seq<char>, contract: Seq<char>, amount: u128) -> UserStake {
    let u1 = updated_user(cfg, g, u, chain, sender, contract);
    UserStake { staked_amounts: (u1.staked_amounts + amount) as u128, ..u1 }
}

/// The singletons after a successful stake of `amount`.
pub open spec fn staked_globals(cfg: Config, g: Globals, chain: Chain, amount: u128) -> Globals {
    let g1 = accrued(cfg, g, chain);
    Globals { total_staked: (g1.total_staked + amount) as u128, ..g1 }
}

/// A stake of `amount` fits once rewards are settled.
pub open spec fn stake_fits(cfg: Config, g: Globals, u: UserStake, chain: Chain, sender: Seq<char>, contract: Seq<char>, amount: u128) -> bool {
    &&& update_fits(cfg, g, u, chain, sender, contract)
    &&& updated_user(cfg, g, u, chain, sender, contract).staked_amounts + amount <= u128::MAX
    &&& g.total_staked + amount <= u128::MAX
}

/// Stakes the deposit sent in `funds`: settles `sender`, raises its stake and
/// the total, and mints as many derivative tokens to `sender`.
pub fn handle_stake(
    config: &Config,
    globals: &mut Globals,
    user: &mut UserStake,
    chain: &Chain,
    sender: &String,
    contract: &String,
    funds: &Vec<Coin>,
) -> (r: Result<Vec<Msg>, ContractError>)
    ensures
        !old(globals).state.is_open ==> r == Err::<Vec<Msg>, ContractError>(ContractError::Paused {}),
        old(globals).state.is_open && !valid_deposit(funds@, config.deposit_denom@)
            ==> r == Err::<Vec<Msg>, ContractError>(ContractError::InvalidFunds {}),
        r is Ok <==> old(globals).state.is_open && valid_deposit(funds@, config.deposit_denom@)
            && stake_fits(*config, *old(globals), *old(user), *chain, sender@, contract@,
                deposit_amount(funds@, config.deposit_denom@)),
        r is Ok ==> *final(user) == staked_user(*config, *old(globals), *old(user), *chain, sender@, contract@,
            deposit_amount(funds@, config.deposit_denom@)),
        r is Ok ==> *final(globals) == staked_globals(*config, *old(globals), *chain,
            deposit_amount(funds@, config.deposit_denom@)),
        r matches Ok(msgs) ==> msgs@ == collect_msgs(
            config.fee_collector, config.reward_denom, rewards_of(*config, *old(globals), *chain), *contract)
            + seq![Msg::Mint { token: config.staked_denom, recipient: *sender, amount: deposit_amount(funds@, config.deposit_denom@) }],
        r is Err ==> *final(globals) == *old(globals) && *final(user) == *old(user),
        final(globals).rewards_per_token >= old(globals).rewards_per_token,
        r is Err && old(globals).state.is_open && valid_deposit(funds@, config.deposit_denom@)
            ==> r == Err::<Vec<Msg>, ContractError>(ContractError::Overflow {}),
{
    if !globals.state.is_open {
        return Err(ContractError::Paused {});
    }
    let sent_funds = parse_funds(funds, &config.deposit_denom)?;
    if sent_funds == 0 {
        return Err(ContractError::InvalidFunds {});
    }
    let mut g = *globals;
    let mut u = *user;
    let rewards = update_rewards(config, &mut g, &mut u, chain, sender, contract)?;
    let staked = match u.staked_amounts.checked_add(sent_funds) {
        Some(v) => v,
        None => return Err(ContractError::Overflow {}),
    };
    let total = match g.total_staked.checked_add(sent_funds) {
        Some(v) => v,
        None => return Err(ContractError::Overflow {}),
    };
    u.staked_amounts = staked;
    g.total_staked = total;
    let mut response: Vec<Msg> = Vec::new();
    distribute_and_update_response(
        &mut response,
        config.fee_collector.clone(),
        config.reward_denom.clone(),
        rewards,
        contract.clone(),
    );
    response.push(create_mint_token_msg(sent_funds, sender.clone(), config.staked_denom.clone()));
    *globals = g;
    *user = u;
    Ok(response)
}

/// `sender`'s record after a successful unstake of `amount`.
pub open spec fn unstaked_user(cfg: Config, g: Globals, u: UserStake, chain: Chain, sender: Seq<char>, contract: Seq<char>, amount: u128) -> UserStake {
    let u1 = updated_user(cfg, g, u, chain, sender, contract);
    UserStake { staked_amounts: (u1.staked_amounts - amount) as u128, ..u1 }
}

/// The singletons after a successful unstake of `amount`.
pub open spec fn unstaked_globals(cfg: Config, g: Globals, chain: Chain, amount: u128) -> Globals {
    let g1 = accrued(cfg, g, chain);
    Globals { total_staked: (g1.total_staked - amount) as u128, ..g1 }
}

/// Unstakes `amount` derivative tokens that `sender` transferred to this
/// contract; `caller` is the token contract that reports the transfer. Settles
/// `sender`, lowers its stake and the total, burns the tokens and returns the
/// principal to `sender`.
pub fn handle_unstake(
    config: &Config,
    globals: &mut Globals,
    user: &mut UserStake,
    chain: &Chain,
    caller: &String,
    sender: &String,
    amount: u128,
    contract: &String,
) -> (r: Result<Vec<Msg>, ContractError>)
    ensures
        !old(globals).state.is_open ==> r == Err::<Vec<Msg>, ContractError>(ContractError::Paused {}),
        old(globals).state.is_open && caller@ != config.staked_denom@
            ==> r == Err::<Vec<Msg>, ContractError>(ContractError::Unauthorized {}),
        old(globals).state.is_open && caller@ == config.staked_denom@ && amount == 0
            ==> r == Err::<Vec<Msg>, ContractError>(ContractError::InvalidFunds {}),
        old(globals).state.is_open && caller@ == config.staked_denom@ && amount != 0
            && update_fits(*config, *old(globals), *old(user), *chain, sender@, contract@)
            && updated_user(*config, *old(globals), *old(user), *chain, sender@, contract@).staked_amounts < amount
            ==> r == Err::<Vec<Msg>, ContractError>(ContractError::InsufficientFunds {}),
        old(globals).state.is_open && caller@ == config.staked_denom@ && amount != 0
            && !update_fits(*config, *old(globals), *old(user), *chain, sender@, contract@)
            ==> r == Err::<Vec<Msg>, ContractError>(ContractError::Overflow {}),
        old(globals).state.is_open && caller@ == config.staked_denom@ && amount != 0
            && update_fits(*config, *old(globals), *old(user), *chain, sender@, contract@)
            && updated_user(*config, *old(globals), *old(user), *chain, sender@, contract@).staked_amounts >= amount
            && old(globals).total_staked < amount
            ==> r == Err::<Vec<Msg>, ContractError>(ContractError::Overflow {}),
        r is Ok <==> old(globals).state.is_open && caller@ == config.staked_denom@ && amount != 0
            && update_fits(*config, *old(globals), *old(user), *chain, sender@, contract@)
            && updated_user(*config, *old(globals), *old(user), *chain, sender@, contract@).staked_amounts >= amount
            && old(globals).total_staked >= amount,
        r is Ok ==> *final(user) == unstaked_user(*config, *old(globals), *old(user), *chain, sender@, contract@, amount),
        r is Ok ==> *final(globals) == unstaked_globals(*config, *old(globals), *chain, amount),
        r matches Ok(msgs) ==> msgs@ == collect_msgs(
            config.fee_collector, config.reward_denom, rewards_of(*config, *old(globals), *chain), *contract)
            + seq![
                Msg::Burn { token: config.staked_denom, amount },
                Msg::BankSend { to_address: *sender, denom: config.deposit_denom, amount },
            ],
        r is Err ==> *final(globals) == *old(globals) && *final(user) == *old(user),
        final(globals).rewards_per_token >= old(globals).rewards_per_token,
{
    if !globals.state.is_open {
        return Err(ContractError::Paused {});
    }
    if !caller.eq(&config.staked_denom) {
        return Err(ContractError::Unauthorized {});
    }
    if amount == 0 {
        return Err(ContractError::InvalidFunds {});
    }
    let mut g = *globals;
    let mut u = *user;
    let rewards = update_rewards(config, &mut g, &mut u, chain, sender, contract)?;
    if u.staked_amounts < amount {
        return Err(ContractError::InsufficientFunds {});
    }
    if g.total_staked < amount {
        return Err(ContractError::Overflow {});
    }
    u.staked_amounts = u.staked_amounts - amount;
    g.total_staked = g.total_staked - amount;
    let mut response: Vec<Msg> = Vec::new();
    distribute_and_update_response(
        &mut response,
        config.fee_collector.clone(),
        config.reward_denom.clone(),
        rewards,
        contract.clone(),
    );
    response.push(create_burn_token_msg(amount, config.staked_denom.clone()));
    response.push(Msg::BankSend { to_address: sender.clone(), denom: config.deposit_denom.clone(), amount });
    *globals = g;
    *user = u;
    Ok(response)
}

/// The payout of a claim: nothing when the amount is zero.
pub open spec fn payout_msgs(to: String, denom: String, amount: u128) -> Seq<Msg> {
    if amount == 0 {
        seq![]
    } else {
        seq![Msg::BankSend { to_address: to, denom, amount }]
    }
}

/// The account that a claim pays.
pub open spec fn claim_recipient(recipient: Option<String>, sender: String) -> String {
    match recipient {
        Some(r) => r,
        None => sender,
    }
}

/// Settles `sender`, zeroes its claimable balance and pays it to `recipient`
/// (or to `sender`). A claim of nothing succeeds and pays nothing.
pub fn handle_claim(
    config: &Config,
    globals: &mut Globals,
    user: &mut UserStake,
    chain: &Chain,
    sender: &String,
    recipient: Option<String>,
    contract: &String,
) -> (r: Result<Vec<Msg>, ContractError>)
    ensures
        !old(globals).state.is_open ==> r == Err::<Vec<Msg>, ContractError>(ContractError::Paused {}),
        r is Ok <==> old(globals).state.is_open
            && update_fits(*config, *old(globals), *old(user), *chain, sender@, contract@),
        r is Ok ==> *final(globals) == accrued(*config, *old(globals), *chain),
        r is Ok ==> *final(user) == (UserStake {
            claimable_rewards: 0,
            ..updated_user(*config, *old(globals), *old(user), *chain, sender@, contract@)
        }),
        r matches Ok(msgs) ==> msgs@ == collect_msgs(
            config.fee_collector, config.reward_denom, rewards_of(*config, *old(globals), *chain), *contract)
            + payout_msgs(
                claim_recipient(recipient, *sender),
                config.reward_denom,
                updated_user(*config, *old(globals), *old(user), *chain, sender@, contract@).claimable_rewards,
            ),
        r is Err ==> *final(globals) == *old(globals) && *final(user) == *old(user),
        final(globals).rewards_per_token >= old(globals).rewards_per_token,
        r is Err && old(globals).state.is_open ==> r == Err::<Vec<Msg>, ContractError>(ContractError::Overflow {}),
{
    if !globals.state.is_open {
        return Err(ContractError::Paused {});
    }
    let to = match recipient {
        Some(r) => r,
        None => sender.clone(),
    };
    let mut g = *globals;
    let mut u = *user;
    let rewards = update_rewards(config, &mut g, &mut u, chain, sender, contract)?;
    let claimable_amount = u.claimable_rewards;
    u.claimable_rewards = 0;
    let mut response: Vec<Msg> = Vec::new();
    distribute_and_update_response(
        &mut response,
        config.fee_collector.clone(),
        config.reward_denom.clone(),
        rewards,
        contract.clone(),
    );
    if claimable_amount != 0 {
        response.push(Msg::BankSend { to_address: to, denom: config.reward_denom.clone(), amount: claimable_amount });
    } else {
        assert(response@ + seq![] =~= response@);
    }
    *globals = g;
    *user = u;
    Ok(response)
}

} // verus!
