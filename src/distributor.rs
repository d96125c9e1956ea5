//! The fee distributor: splits its balance among recipients by fixed weights
//! that sum to one million.

use vstd::prelude::*;
use crate::msg::Msg;

verus! {

/// The weight that stands for the whole balance.
pub const DECIMALS: u128 = 1_000_000;
/// The most recipients a distribution may name.
pub const RECIPIENT_LIMIT: usize = 5;

/// Why a distributor action was refused.
#[derive(Debug, Clone, Copy, PartialEq, Eq, Structural)]
pub enum DistributorError {
    ZeroWeight,
    /// Too many or no recipients; carries the number given.
    InvalidRecipients(usize),
    TotalWeight,
    Overflow,
}

/// Read-only requests.
#[derive(Debug, Clone, PartialEq, Eq)]
pub enum QueryMsg {
    GetOwner {},
    GetConfig {},
    GetToken {},
}

/// Creation parameters: the token to distribute and the weights.
#[derive(Debug, Clone, PartialEq, Eq)]
pub struct InstantiateMsg {
    pub token: String,
    pub distribution: Vec<(String, u128)>,
}

/// Recipients and their weights.
#[derive(Debug, Clone, PartialEq, Eq)]
pub struct Config {
    pub distribution: Vec<(String, u128)>,
}

/// Sum of the weights.
pub open spec fn weight_sum(d: Seq<(String, u128)>) -> int
    decreases d.len(),
{
    if d.len() == 0 {
        0
    } else {
        weight_sum(d.drop_last()) + d.last().1
    }
}

/// Some recipient has weight zero.
pub open spec fn has_zero_weight(d: Seq<(String, u128)>) -> bool {
    exists|i: int| 0 <= i < d.len() && #[trigger] d[i].1 == 0
}

/// A distribution is accepted: between one and five recipients, none with
/// weight zero, weights summing to exactly one million.
pub open spec fn valid_distribution(d: Seq<(String, u128)>) -> bool {
    &&& !has_zero_weight(d)
    &&& 1 <= d.len() <= RECIPIENT_LIMIT
    &&& weight_sum(d) == DECIMALS
}

proof fn lemma_weight_sum_prefix(d: Seq<(String, u128)>, i: int)
    requires
        0 <= i < d.len(),
    ensures
        weight_sum(d.take(i + 1)) == weight_sum(d.take(i)) + d[i].1,
        weight_sum(d.take(i)) <= weight_sum(d),
    decreases d.len(),
{
    assert(d.take(i + 1).drop_last() =~= d.take(i));
    if i < d.len() - 1 {
        lemma_weight_sum_prefix(d.drop_last(), i);
        assert(d.drop_last().take(i) =~= d.take(i));
    } else {
        assert(d.drop_last() =~= d.take(i));
    }
}

/// Checks a distribution.
pub fn validate_distribution(distribution: &Vec<(String, u128)>) -> (r: Result<(), DistributorError>)
    ensures
        r is Ok <==> valid_distribution(distribution@),
        has_zero_weight(distribution@) && weight_sum(distribution@) <= u128::MAX
            ==> r == Err::<(), DistributorError>(DistributorError::ZeroWeight),
        !has_zero_weight(distribution@) && weight_sum(distribution@) <= u128::MAX
            && !(1 <= distribution.len() <= RECIPIENT_LIMIT)
            ==> r == Err::<(), DistributorError>(DistributorError::InvalidRecipients(distribution.len())),
        !has_zero_weight(distribution@) && 1 <= distribution.len() <= RECIPIENT_LIMIT
            && weight_sum(distribution@) <= u128::MAX && weight_sum(distribution@) != DECIMALS
            ==> r == Err::<(), DistributorError>(DistributorError::TotalWeight),
{
    let ghost d = distribution@;
    let mut total: u128 = 0;
    let mut i: usize = 0;
    while i < distribution.len()
        invariant
            i <= d.len(),
            d == distribution@,
            total == weight_sum(d.take(i as int)),
            forall|j: int| 0 <= j < i ==> d[j].1 != 0,
        decreases d.len() - i,
    {
        proof {
            lemma_weight_sum_prefix(d, i as int);
        }
        let w = distribution[i].1;
        if w == 0 {
            return Err(DistributorError::ZeroWeight);
        }
        total = match total.checked_add(w) {
            Some(t) => t,
            None => {
                proof {
                    if i + 1 < d.len() {
                        lemma_weight_sum_prefix(d, i as int + 1);
                    } else {
                        assert(d.take(i as int + 1) =~= d);
                    }
                }
                return Err(DistributorError::Overflow);
            },
        };
        i = i + 1;
    }
    assert(d.take(i as int) =~= d);
    if distribution.len() > RECIPIENT_LIMIT || distribution.len() == 0 {
        return Err(DistributorError::InvalidRecipients(distribution.len()));
    }
    if total != DECIMALS {
        return Err(DistributorError::TotalWeight);
    }
    Ok(())
}

/// The transfers that split `total` of `token` by the weights of `d`,
/// leaving out recipients whose share rounds down to zero.
pub open spec fn shares(d: Seq<(String, u128)>, token: String, total: u128) -> Seq<Msg>
    decreases d.len(),
{
    if d.len() == 0 {
        seq![]
    } else {
        let amount = (total * d.last().1) / DECIMALS as int;
        shares(d.drop_last(), token, total) + if amount == 0 {
            seq![]
        } else {
            seq![Msg::BankSend { to_address: d.last().0, denom: token, amount: amount as u128 }]
        }
    }
}

/// No product of the balance and a weight overflows.
pub open spec fn shares_fit(d: Seq<(String, u128)>, total: u128) -> bool {
    forall|i: int| 0 <= i < d.len() ==> total * #[trigger] d[i].1 <= u128::MAX
}

/// Splits the distributor's balance `total_amount` of `token` among the
/// configured recipients.
pub fn distribute(config: &Config, token: &String, total_amount: u128) -> (r: Result<Vec<Msg>, DistributorError>)
    ensures
        r is Ok <==> shares_fit(config.distribution@, total_amount),
        r matches Ok(msgs) ==> msgs@ == shares(config.distribution@, *token, total_amount),
        r is Err ==> r == Err::<Vec<Msg>, DistributorError>(DistributorError::Overflow),
{
    let ghost d = config.distribution@;
    let mut out: Vec<Msg> = Vec::new();
    let mut i: usize = 0;
    while i < config.distribution.len()
        invariant
            i <= d.len(),
            d == config.distribution@,
            out@ == shares(d.take(i as int), *token, total_amount),
            forall|j: int| 0 <= j < i ==> total_amount * #[trigger] d[j].1 <= u128::MAX,
        decreases d.len() - i,
    {
        let share = config.distribution[i].1;
        let amount = match total_amount.checked_mul(share) {
            Some(p) => p / DECIMALS,
            None => return Err(DistributorError::Overflow),
        };
        assert(d.take(i as int + 1).drop_last() =~= d.take(i as int));
        if amount != 0 {
            out.push(Msg::BankSend { to_address: config.distribution[i].0.clone(), denom: token.clone(), amount });
        } else {
            assert(out@ + seq![] =~= out@);
        }
        i = i + 1;
    }
    assert(d.take(i as int) =~= d);
    Ok(out)
}

/// The configuration and the distributed token of a new distributor, if its
/// distribution is valid.
pub fn instantiate(msg: InstantiateMsg) -> (r: Result<(Config, String), DistributorError>)
    ensures
        r is Ok <==> valid_distribution(msg.distribution@),
        r matches Ok(v) ==> v.0.distribution@ == msg.distribution@ && v.1 == msg.token,
        has_zero_weight(msg.distribution@) && weight_sum(msg.distribution@) <= u128::MAX
            ==> r == Err::<(Config, String), DistributorError>(DistributorError::ZeroWeight),
        !has_zero_weight(msg.distribution@) && weight_sum(msg.distribution@) <= u128::MAX
            && !(1 <= msg.distribution.len() <= RECIPIENT_LIMIT)
            ==> r == Err::<(Config, String), DistributorError>(DistributorError::InvalidRecipients(msg.distribution.len())),
        !has_zero_weight(msg.distribution@) && 1 <= msg.distribution.len() <= RECIPIENT_LIMIT
            && weight_sum(msg.distribution@) <= u128::MAX && weight_sum(msg.distribution@) != DECIMALS
            ==> r == Err::<(Config, String), DistributorError>(DistributorError::TotalWeight),
{
    match validate_distribution(&msg.distribution) {
        Ok(()) => Ok((Config { distribution: msg.distribution }, msg.token)),
        Err(e) => Err(e),
    }
}

/// Replaces the distribution with `distribution` if it is valid.
pub fn update_config(config: &mut Config, distribution: Vec<(String, u128)>) -> (r: Result<(), DistributorError>)
    ensures
        r is Ok <==> valid_distribution(distribution@),
        r is Ok ==> final(config).distribution@ == distribution@,
        r is Err ==> *final(config) == *old(config),
{
    validate_distribution(&distribution)?;
    config.distribution = distribution;
    Ok(())
}

} // verus!
