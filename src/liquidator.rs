//! The liquidator's configuration and owner: where liquidated funds are
//! sent over IBC, and which token they are liquidated into.

use vstd::prelude::*;

verus! {

/// Why a liquidator action was refused.
#[derive(Debug, Clone, Copy, PartialEq, Eq, Structural)]
pub enum LiquidatorError {
    NoOwner,
    Unauthorized,
}

/// Read-only requests.
#[derive(Debug, Clone, PartialEq, Eq)]
pub enum QueryMsg {
    GetOwner {},
    GetConfig {},
    GetRoute { input_denom: String, output_denom: String },
    GetAllRoutes { start_after: Option<String>, limit: Option<u32> },
}

#[derive(Debug, Clone, PartialEq, Eq)]
pub struct GetOwnerResponse {
    pub owner: String,
}

/// Where and in which token the liquidated funds go.
#[derive(Debug, Clone, PartialEq, Eq)]
pub struct Config {
    pub ibc_channel_id: String,
    pub ibc_to_address: String,
    pub liquidation_target: String,
}

/// The stored owner, or an error where none is set.
pub fn query_owner(owner: Option<String>) -> (r: Result<GetOwnerResponse, LiquidatorError>)
    ensures
        owner matches Some(o) ==> r == Ok::<GetOwnerResponse, LiquidatorError>(GetOwnerResponse { owner: o }),
        owner is None ==> r == Err::<GetOwnerResponse, LiquidatorError>(LiquidatorError::NoOwner),
{
    match owner {
        Some(o) => Ok(GetOwnerResponse { owner: o }),
        None => Err(LiquidatorError::NoOwner),
    }
}

/// The new value of a setting: the given one, or the old one where none is given.
pub open spec fn updated(given: Option<String>, current: String) -> String {
    match given {
        Some(v) => v,
        None => current,
    }
}

/// The owner replaces the settings that are given.
pub fn update_config(
    config: &mut Config,
    owner: &Option<String>,
    sender: &String,
    ibc_to_address: Option<String>,
    ibc_channel_id: Option<String>,
    liquidation_target: Option<String>,
) -> (r: Result<(), LiquidatorError>)
    ensures
        r is Ok <==> (owner matches Some(o) && o@ == sender@),
        r is Err ==> r == Err::<(), LiquidatorError>(LiquidatorError::Unauthorized) && *final(config) == *old(config),
        r is Ok ==> *final(config) == (Config {
            ibc_channel_id: updated(ibc_channel_id, old(config).ibc_channel_id),
            ibc_to_address: updated(ibc_to_address, old(config).ibc_to_address),
            liquidation_target: updated(liquidation_target, old(config).liquidation_target),
        }),
{
    let is_owner = match owner {
        Some(o) => o.eq(sender),
        None => false,
    };
    if !is_owner {
        return Err(LiquidatorError::Unauthorized);
    }
    if let Some(a) = ibc_to_address {
        config.ibc_to_address = a;
    }
    if let Some(c) = ibc_channel_id {
        config.ibc_channel_id = c;
    }
    if let Some(t) = liquidation_target {
        config.liquidation_target = t;
    }
    Ok(())
}

/// The positions, in order, of the routes whose input token the contract
/// holds some of: those are the ones a liquidation swaps.
pub open spec fn swap_indices(balances: Seq<u128>) -> Seq<usize>
    decreases balances.len(),
{
    if balances.len() == 0 {
        seq![]
    } else {
        swap_indices(balances.drop_last()) + if balances.last() == 0 {
            seq![]
        } else {
            seq![(balances.len() - 1) as usize]
        }
    }
}

/// Picks the routes to swap through, given the contract's balance of each
/// route's input token, listed in route order.
pub fn liquidate(balances: &Vec<u128>) -> (r: Vec<usize>)
    ensures
        r@ == swap_indices(balances@),
{
    let mut out: Vec<usize> = Vec::new();
    let mut i: usize = 0;
    while i < balances.len()
        invariant
            i <= balances.len(),
            out@ == swap_indices(balances@.take(i as int)),
        decreases balances.len() - i,
    {
        assert(balances@.take(i as int + 1).drop_last() =~= balances@.take(i as int));
        if balances[i] != 0 {
            out.push(i);
        } else {
            assert(out@ + seq![] =~= out@);
        }
        i = i + 1;
    }
    assert(balances@.take(i as int) =~= balances@);
    out
}

} // verus!
