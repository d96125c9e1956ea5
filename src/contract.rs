//! Creation of the staking contract and registration of its derivative token.

use vstd::prelude::*;
use crate::error::ContractError;
use crate::msg::InstantiateMsg;
use crate::state::{Config, Globals, State};

verus! {

/// The reply id under which the derivative token's creation is reported.
pub const INSTANTIATE_REPLY_ID: u64 = 1;

/// The records of a new contract: created by `sender` at `now`, paused, with
/// a zero accumulator and no derivative token yet.
pub fn instantiate(msg: InstantiateMsg, sender: String, now: u64) -> (r: (Config, Globals))
    ensures
        r.0 == (Config {
            owner: sender,
            fee_collector: msg.fee_collector,
            deposit_denom: msg.deposit_denom,
            deposit_decimals: msg.deposit_decimals,
            staked_denom: r.0.staked_denom,
            reward_denom: msg.reward_denom,
            reward_decimals: msg.reward_decimals,
            tokens_per_interval: msg.tokens_per_interval,
        }),
        r.0.staked_denom@.len() == 0,
        r.1 == (Globals { state: State { is_open: false, last_distribution: now }, rewards_per_token: 0, total_staked: 0 }),
{
    let config = Config {
        owner: sender,
        fee_collector: msg.fee_collector,
        deposit_denom: msg.deposit_denom,
        deposit_decimals: msg.deposit_decimals,
        staked_denom: String::new(),
        reward_denom: msg.reward_denom,
        reward_decimals: msg.reward_decimals,
        tokens_per_interval: msg.tokens_per_interval,
    };
    let globals = Globals { state: State { is_open: false, last_distribution: now }, rewards_per_token: 0, total_staked: 0 };
    (config, globals)
}

/// The contract address carried by the protobuf-encoded response to an
/// instantiation, where the bytes decode as one.
pub uninterp spec fn instantiated_address(data: Seq<u8>) -> Option<Seq<char>>;

/// Relies on cw_utils::parse_instantiate_response_data: decodes the address
/// field of an instantiation response; the outcome depends on the bytes alone.
#[verifier::external_body]
fn parse_instantiate_response(data: &Vec<u8>) -> (r: Option<String>)
    ensures
        r matches Some(a) ==> instantiated_address(data@) == Some(a@),
        r is None <==> instantiated_address(data@) is None,
{
    cw_utils::parse_instantiate_response_data(data.as_slice()).ok().map(|res| res.contract_address)
}

/// Records `contract_address` as the derivative token. It can be set only once.
pub fn register_staked_denom(config: &mut Config, contract_address: String) -> (r: Result<(), ContractError>)
    ensures
        r is Ok <==> old(config).staked_denom@.len() == 0,
        r is Ok ==> *final(config) == (Config { staked_denom: contract_address, ..*old(config) }),
        r is Err ==> r == Err::<(), ContractError>(ContractError::Unauthorized {}) && *final(config) == *old(config),
{
    if !config.staked_denom.as_str().is_empty() {
        return Err(ContractError::Unauthorized {});
    }
    config.staked_denom = contract_address;
    Ok(())
}

/// Handles the reply under `id` that reports the derivative token's
/// creation: checks the id and that no token is registered yet, reads the
/// token's address out of the response bytes `data`, registers it and
/// returns it.
pub fn reply(config: &mut Config, id: u64, data: &Vec<u8>) -> (r: Result<String, ContractError>)
    ensures
        id != INSTANTIATE_REPLY_ID ==> r is Err && r != Err::<String, ContractError>(ContractError::Unauthorized {}),
        id == INSTANTIATE_REPLY_ID && old(config).staked_denom@.len() != 0
            ==> r == Err::<String, ContractError>(ContractError::Unauthorized {}),
        r is Ok <==> id == INSTANTIATE_REPLY_ID && old(config).staked_denom@.len() == 0
            && instantiated_address(data@) is Some,
        r matches Ok(a) ==> instantiated_address(data@) == Some(a@)
            && *final(config) == (Config { staked_denom: a, ..*old(config) }),
        r is Err ==> *final(config) == *old(config),
{
    if id != INSTANTIATE_REPLY_ID {
        return Err(ContractError::generic_err(String::from_str("unknown reply id")));
    }
    if !config.staked_denom.as_str().is_empty() {
        return Err(ContractError::Unauthorized {});
    }
    match parse_instantiate_response(data) {
        Some(address) => {
            let registered = address.clone();
            match register_staked_denom(config, registered) {
                Ok(()) => Ok(address),
                Err(e) => Err(e),
            }
        },
        None => Err(ContractError::generic_err(String::from_str("invalid instantiation response"))),
    }
}

} // verus!
