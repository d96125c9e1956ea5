//! Share accounting of a vault: conversion between base tokens and vault
//! tokens, and checks on its creation parameters.

use vstd::prelude::*;

verus! {

/// Vault tokens minted per base token into an empty vault.
pub const DEFAULT_VAULT_TOKENS_PER_STAKED_BASE_TOKEN: u128 = 1_000_000;

/// Why a vault computation was refused.
#[derive(Debug, Clone, Copy, PartialEq, Eq, Structural)]
pub enum VaultError {
    /// A result or intermediate value exceeds the integer range.
    Overflow,
    /// The two tokens of a vault are the same.
    SameTokens,
}

/// Read-only requests.
#[derive(Debug, Clone, PartialEq, Eq)]
pub enum QueryMsg {
    Config {},
    State {},
    TokenBalances {},
}

/// Creation parameters: the two tokens of the vault's pair.
#[derive(Debug, Clone, PartialEq, Eq)]
pub struct InstantiateMsg {
    pub token_a: String,
    pub token_b: String,
}

impl InstantiateMsg {
    /// The two tokens differ.
    pub fn has_valid_tokens(&self) -> (r: bool)
        ensures
            r == (self.token_a@ != self.token_b@),
    {
        !self.token_a.eq(&self.token_b)
    }

    /// Refuses a pair of one token with itself.
    pub fn validate(&self) -> (r: Result<(), VaultError>)
        ensures
            r is Ok <==> self.token_a@ != self.token_b@,
            r is Err ==> r == Err::<(), VaultError>(VaultError::SameTokens),
    {
        if !self.has_valid_tokens() {
            return Err(VaultError::SameTokens);
        }
        Ok(())
    }
}

/// Relies on cosmwasm_std::Uint128::checked_multiply_ratio: `x * num / den`
/// rounded down, computed through a 256-bit product, and an error where the
/// quotient exceeds a u128.
#[verifier::external_body]
fn multiply_ratio(x: u128, num: u128, den: u128) -> (r: Option<u128>)
    requires
        den != 0,
    ensures
        x * num / (den as int) <= u128::MAX ==> r == Some((x * num / (den as int)) as u128),
        x * num / (den as int) > u128::MAX ==> r is None,
{
    cosmwasm_std::Uint128::new(x).checked_multiply_ratio(num, den).ok().map(|v| v.u128())
}

/// Vault tokens for `base_tokens` of a vault holding `total_staked_amount`
/// with `vault_token_supply` vault tokens out.
pub open spec fn vault_tokens_for(base_tokens: int, total_staked_amount: int, vault_token_supply: int) -> int {
    if total_staked_amount == 0 {
        base_tokens * DEFAULT_VAULT_TOKENS_PER_STAKED_BASE_TOKEN
    } else {
        vault_token_supply * base_tokens / total_staked_amount
    }
}

/// Base tokens for `vault_tokens` of a vault holding `total_staked_amount`
/// with `vault_token_supply` vault tokens out.
pub open spec fn base_tokens_for(vault_tokens: int, total_staked_amount: int, vault_token_supply: int) -> int {
    if vault_token_supply == 0 {
        vault_tokens / DEFAULT_VAULT_TOKENS_PER_STAKED_BASE_TOKEN as int
    } else {
        total_staked_amount * vault_tokens / vault_token_supply
    }
}

/// The vault's own record of the base tokens it holds, kept rather than
/// queried so that a donation cannot move the share price.
#[derive(Debug, Clone, Copy, PartialEq, Eq, Structural)]
pub struct BaseVault {
    pub total_staked_base_tokens: u128,
}

impl BaseVault {
    /// Converts base tokens to vault tokens.
    pub fn calculate_vault_tokens(&self, base_tokens: u128, total_staked_amount: u128, vault_token_supply: u128) -> (r: Result<u128, VaultError>)
        ensures
            r is Ok <==> vault_tokens_for(base_tokens as int, total_staked_amount as int, vault_token_supply as int) <= u128::MAX,
            r is Ok ==> r == Ok::<u128, VaultError>(
                vault_tokens_for(base_tokens as int, total_staked_amount as int, vault_token_supply as int) as u128,
            ),
            r is Err ==> r == Err::<u128, VaultError>(VaultError::Overflow),
    {
        if total_staked_amount == 0 {
            match base_tokens.checked_mul(DEFAULT_VAULT_TOKENS_PER_STAKED_BASE_TOKEN) {
                Some(v) => Ok(v),
                None => Err(VaultError::Overflow),
            }
        } else {
            match multiply_ratio(vault_token_supply, base_tokens, total_staked_amount) {
                Some(v) => Ok(v),
                None => Err(VaultError::Overflow),
            }
        }
    }

    /// Converts vault tokens to base tokens.
    pub fn calculate_base_tokens(&self, vault_tokens: u128, total_staked_amount: u128, vault_token_supply: u128) -> (r: Result<u128, VaultError>)
        ensures
            r is Ok <==> base_tokens_for(vault_tokens as int, total_staked_amount as int, vault_token_supply as int) <= u128::MAX,
            r is Ok ==> r == Ok::<u128, VaultError>(
                base_tokens_for(vault_tokens as int, total_staked_amount as int, vault_token_supply as int) as u128,
            ),
            r is Err ==> r == Err::<u128, VaultError>(VaultError::Overflow),
    {
        if vault_token_supply == 0 {
            Ok(vault_tokens / DEFAULT_VAULT_TOKENS_PER_STAKED_BASE_TOKEN)
        } else {
            match multiply_ratio(total_staked_amount, vault_tokens, vault_token_supply) {
                Some(v) => Ok(v),
                None => Err(VaultError::Overflow),
            }
        }
    }

    /// Redeems `vault_tokens` out of `vault_token_supply`: returns the base
    /// tokens they stand for and lowers the vault's total by as much.
    pub fn burn_vault_tokens_for_base_tokens(&mut self, vault_tokens: u128, vault_token_supply: u128) -> (r: Result<u128, VaultError>)
        ensures
            ({
                let b = base_tokens_for(vault_tokens as int, old(self).total_staked_base_tokens as int, vault_token_supply as int);
                &&& r is Ok <==> b <= old(self).total_staked_base_tokens
                &&& r is Ok ==> r == Ok::<u128, VaultError>(b as u128)
                    && final(self).total_staked_base_tokens == old(self).total_staked_base_tokens - b
                &&& r is Err ==> r == Err::<u128, VaultError>(VaultError::Overflow) && *final(self) == *old(self)
            }),
    {
        let total = self.total_staked_base_tokens;
        let base_tokens = self.calculate_base_tokens(vault_tokens, total, vault_token_supply)?;
        if base_tokens > total {
            return Err(VaultError::Overflow);
        }
        self.total_staked_base_tokens = total - base_tokens;
        Ok(base_tokens)
    }
}

} // verus!
