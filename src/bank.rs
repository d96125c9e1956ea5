//! Reading a bank balance reported by the chain.

use vstd::prelude::*;
use crate::error::ContractError;

verus! {

/// `s` is a nonempty string of decimal digits.
pub open spec fn is_decimal(s: Seq<char>) -> bool {
    s.len() > 0 && forall|i: int| 0 <= i < s.len() ==> '0' <= #[trigger] s[i] <= '9'
}

/// The number that the decimal digits `s` write.
pub open spec fn decimal_value(s: Seq<char>) -> int
    decreases s.len(),
{
    if s.len() == 0 {
        0
    } else {
        decimal_value(s.drop_last()) * 10 + (s.last() as u32 - '0' as u32)
    }
}

/// Relies on cosmwasm_std::Uint128::from_str (through u128's `FromStr`): a
/// string of decimal digits whose value fits in a u128 reads as that value.
#[verifier::external_body]
fn parse_u128(s: &str) -> (r: Option<u128>)
    ensures
        is_decimal(s@) && decimal_value(s@) <= u128::MAX ==> r == Some(decimal_value(s@) as u128),
{
    <cosmwasm_std::Uint128 as std::str::FromStr>::from_str(s).ok().map(|v| v.u128())
}

/// The amount of a balance as the bank reports it: no coin at all reads as
/// zero, and a decimal amount as its value.
pub fn get_bank_balance(amount: Option<String>) -> (r: Result<u128, ContractError>)
    ensures
        amount is None ==> r == Ok::<u128, ContractError>(0),
        amount matches Some(a) ==> (is_decimal(a@) && decimal_value(a@) <= u128::MAX
            ==> r == Ok::<u128, ContractError>(decimal_value(a@) as u128)),
{
    match amount {
        None => Ok(0),
        Some(a) => match parse_u128(a.as_str()) {
            Some(v) => Ok(v),
            None => Err(ContractError::generic_err(String::from_str("invalid balance amount"))),
        },
    }
}

} // verus!
