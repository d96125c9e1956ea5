//! Messages of the staking contract: what it is asked to do, and the
//! outbound instructions it hands back to the host chain.

use vstd::prelude::*;

verus! {

/// Creation parameters of the staking contract.
#[derive(Debug, Clone, PartialEq, Eq)]
pub struct InstantiateMsg {
    pub fee_collector: String,
    pub deposit_denom: String,
    pub reward_denom: String,
    pub deposit_decimals: u32,
    pub reward_decimals: u32,
    pub tokens_per_interval: u128,
    pub token_code_id: u64,
    pub token_name: String,
}

/// What a derivative-token transfer into the contract asks for.
#[derive(Debug, Clone, PartialEq, Eq)]
pub enum Cw20HookMsg {
    Unstake {},
}

/// Read-only requests.
#[derive(Debug, Clone, PartialEq, Eq)]
pub enum QueryMsg {
    Config {},
    State {},
    GetClaimable { user: String },
    GetUserStakedAmount { user: String },
}

/// An instruction for the host chain, executed in order after the action.
#[derive(Debug, Clone, PartialEq, Eq)]
pub enum Msg {
    /// Ask the collector contract to send `amount` of `token` to `recipient`.
    CollectorSend { collector: String, token: String, amount: u128, recipient: String },
    /// Mint `amount` derivative tokens of contract `token` to `recipient`.
    Mint { token: String, recipient: String, amount: u128 },
    /// Burn `amount` derivative tokens held by this contract.
    Burn { token: String, amount: u128 },
    /// A bank transfer from this contract.
    BankSend { to_address: String, denom: String, amount: u128 },
}

/// The instruction that pulls `amount` of `token` from the collector.
pub fn create_distribute_message(fee_collector: String, token: String, amount: u128, recipient: String) -> (r: Msg)
    ensures
        r == (Msg::CollectorSend { collector: fee_collector, token, amount, recipient }),
{
    Msg::CollectorSend { collector: fee_collector, token, amount, recipient }
}

/// The instruction that mints derivative tokens.
pub fn create_mint_token_msg(amount: u128, recipient: String, contract_address: String) -> (r: Msg)
    ensures
        r == (Msg::Mint { token: contract_address, recipient, amount }),
{
    Msg::Mint { token: contract_address, recipient, amount }
}

/// The instruction that burns derivative tokens.
pub fn create_burn_token_msg(amount: u128, contract_address: String) -> (r: Msg)
    ensures
        r == (Msg::Burn { token: contract_address, amount }),
{
    Msg::Burn { token: contract_address, amount }
}

/// The collector pull for `amount`, or nothing when it is zero.
pub open spec fn collect_msgs(collector: String, token: String, amount: int, recipient: String) -> Seq<Msg> {
    if amount == 0 {
        seq![]
    } else {
        seq![Msg::CollectorSend { collector, token, amount: amount as u128, recipient }]
    }
}

/// Appends the collector pull for `amount` to `response`, unless it is zero.
pub fn distribute_and_update_response(
    response: &mut Vec<Msg>,
    fee_collector: String,
    token: String,
    amount: u128,
    recipient: String,
)
    ensures
        final(response)@ == old(response)@ + collect_msgs(fee_collector, token, amount as int, recipient),
{
    if amount != 0 {
        response.push(create_distribute_message(fee_collector, token, amount, recipient));
    } else {
        assert(old(response)@ + seq![] =~= old(response)@);
    }
}

} // verus!
