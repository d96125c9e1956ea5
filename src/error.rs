//! Errors of the staking contract.

use vstd::prelude::*;

verus! {

/// Why a staking action was refused. Every error aborts the whole action.
#[derive(Debug, Clone, PartialEq, Eq)]
pub enum ContractError {
    /// A generic failure carrying a message.
    Std { msg: String },
    /// The caller is not the owner, or not the expected token contract.
    Unauthorized {},
    UserStakeNotFound {},
    /// Zero funds, funds of another denomination, or more than one coin.
    InvalidFunds {},
    InvalidLiquidation {},
    /// An unstake of more than the account has staked.
    InsufficientFunds {},
    VaultDoesNotExist {},
    UnsafeVault {},
    SafeVault {},
    /// The contract is paused (or a pause was asked of a paused contract).
    Paused {},
    /// An unpause was asked of an open contract.
    NotPaused {},
    /// An arithmetic overflow or underflow.
    Overflow {},
}

impl ContractError {
    /// A generic error with the given message.
    pub fn generic_err(msg: String) -> (r: ContractError)
        ensures
            r == (ContractError::Std { msg }),
    {
        ContractError::Std { msg }
    }
}

} // verus!
