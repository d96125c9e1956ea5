//! The fee collector: a bounded allow-list of reward tokens, and the checks
//! in front of a payout from its treasury.

use vstd::prelude::*;
use crate::msg::Msg;

verus! {

/// The most tokens the allow-list holds.
pub const TOKEN_LIMIT: usize = 3;
/// Page size of a token listing when none is asked for.
pub const DEFAULT_PAGINATION_LIMIT: u32 = 10;

/// Why a collector action was refused.
#[derive(Debug, Clone, Copy, PartialEq, Eq, Structural)]
pub enum CollectorError {
    Unauthorized,
    /// No allow-list has been stored yet.
    NoTokens,
    AlreadyAdded,
    CapacityReached,
    NotAdded,
    ZeroAmount,
    UnsupportedToken,
    InsufficientFunds,
}

/// Read-only requests.
#[derive(Debug, Clone, PartialEq, Eq)]
pub enum QueryMsg {
    GetOwner {},
    GetWhitelist {},
    IsToken { token: String },
    GetTokenLength {},
    GetTokenList { limit: Option<u32> },
}

#[derive(Debug, Clone, Copy, PartialEq, Eq, Structural)]
pub struct TokenResponse {
    pub is_token: bool,
}

#[derive(Debug, Clone, PartialEq, Eq)]
pub struct AllTokenResponse {
    pub token_list: Vec<String>,
}

#[derive(Debug, Clone, Copy, PartialEq, Eq, Structural)]
pub struct TokenLengthResponse {
    pub length: usize,
}

/// The names held by a stored list.
pub open spec fn names(list: Seq<String>) -> Seq<Seq<char>> {
    list.map_values(|s: String| s@)
}

/// Whether `token` is on the stored allow-list.
pub open spec fn listed(list: Option<Vec<String>>, token: Seq<char>) -> bool {
    match list {
        Some(l) => names(l@).contains(token),
        None => false,
    }
}

/// The entries of a stored list; none where no list is stored.
pub open spec fn stored(list: Option<Vec<String>>) -> Seq<String> {
    match list {
        Some(l) => l@,
        None => Seq::<String>::empty(),
    }
}

/// `after` is `before` with the first entry named `denom` taken out and the
/// last entry moved into its place.
pub open spec fn swap_removed(before: Seq<String>, after: Seq<String>, denom: Seq<char>) -> bool {
    exists|k: int|
        0 <= k < before.len() && before[k]@ == denom && (forall|j: int| 0 <= j < k ==> before[j]@ != denom)
            && after == before.update(k, before.last()).drop_last()
}

fn contains(list: &Vec<String>, token: &String) -> (r: bool)
    ensures
        r == names(list@).contains(token@),
{
    let mut i: usize = 0;
    while i < list.len()
        invariant
            i <= list.len(),
            forall|j: int| 0 <= j < i ==> list@[j]@ != token@,
        decreases list.len() - i,
    {
        if list[i].eq(token) {
            assert(names(list@)[i as int] == token@);
            return true;
        }
        i = i + 1;
    }
    assert forall|j: int| 0 <= j < names(list@).len() implies names(list@)[j] != token@ by {
        assert(names(list@)[j] == list@[j]@);
    }
    false
}

fn position(list: &Vec<String>, token: &String) -> (r: usize)
    requires
        names(list@).contains(token@),
    ensures
        r < list.len(),
        list@[r as int]@ == token@,
        forall|j: int| 0 <= j < r ==> list@[j]@ != token@,
{
    let mut i: usize = 0;
    while i < list.len()
        invariant
            i <= list.len(),
            names(list@).contains(token@),
            forall|j: int| 0 <= j < i ==> list@[j]@ != token@,
        decreases list.len() - i,
    {
        if list[i].eq(token) {
            return i;
        }
        i = i + 1;
    }
    proof {
        let k = choose|k: int| 0 <= k < names(list@).len() && names(list@)[k] == token@;
        assert(list@[k]@ == token@);
    }
    0
}

/// Whether `token` is on the allow-list.
pub fn is_token(list: &Option<Vec<String>>, token: &String) -> (r: bool)
    ensures
        r == listed(*list, token@),
{
    match list {
        Some(l) => contains(l, token),
        None => false,
    }
}

/// Whether `sender` is the collector's administrator.
pub fn is_admin(owner: &Option<String>, sender: &String) -> (r: bool)
    ensures
        r == (owner matches Some(o) && o@ == sender@),
{
    match owner {
        Some(o) => o.eq(sender),
        None => false,
    }
}

/// The administrator adds `token` to the allow-list.
pub fn add_token(owner: &Option<String>, sender: &String, list: &mut Option<Vec<String>>, token: String) -> (r: Result<(), CollectorError>)
    ensures
        !(owner matches Some(o) && o@ == sender@) ==> r == Err::<(), CollectorError>(CollectorError::Unauthorized)
            && *final(list) == *old(list),
        (owner matches Some(o) && o@ == sender@) ==> {
            &&& (r is Ok <==> !listed(*old(list), token@) && stored(*old(list)).len() < TOKEN_LIMIT)
            &&& r is Ok ==> stored(*final(list)) == stored(*old(list)).push(token)
            &&& r is Err ==> *final(list) == *old(list)
        },
{
    if !is_admin(owner, sender) {
        return Err(CollectorError::Unauthorized);
    }
    save_token(list, token)
}

/// Adds `denom` to the allow-list, creating the list if none is stored.
pub fn save_token(list: &mut Option<Vec<String>>, denom: String) -> (r: Result<(), CollectorError>)
    ensures
        listed(*old(list), denom@) ==> r == Err::<(), CollectorError>(CollectorError::AlreadyAdded),
        !listed(*old(list), denom@) && old(list).is_some() && stored(*old(list)).len() >= TOKEN_LIMIT
            ==> r == Err::<(), CollectorError>(CollectorError::CapacityReached),
        r is Err ==> *final(list) == *old(list),
        r is Ok ==> final(list).is_some() && stored(*final(list)) == stored(*old(list)).push(denom),
        r is Ok <==> !listed(*old(list), denom@) && match *old(list) {
            Some(o) => o.len() < TOKEN_LIMIT,
            None => true,
        },
{
    let mut token_list = match list {
        Some(l) => {
            if contains(l, &denom) {
                return Err(CollectorError::AlreadyAdded);
            }
            if l.len() >= TOKEN_LIMIT {
                return Err(CollectorError::CapacityReached);
            }
            l.clone()
        },
        None => Vec::new(),
    };
    proof {
        if let Some(o) = *old(list) {
            assert(token_list@ =~= o@);
        }
    }
    token_list.push(denom);
    *list = Some(token_list);
    Ok(())
}

/// Removes `denom` from the allow-list; the last entry takes its place.
pub fn remove_token(list: &mut Option<Vec<String>>, denom: &String) -> (r: Result<(), CollectorError>)
    ensures
        old(list).is_none() ==> r == Err::<(), CollectorError>(CollectorError::NoTokens),
        old(list).is_some() && !listed(*old(list), denom@) ==> r == Err::<(), CollectorError>(CollectorError::NotAdded),
        r is Ok <==> listed(*old(list), denom@),
        r is Err ==> *final(list) == *old(list),
        r is Ok ==> final(list).is_some() && swap_removed(stored(*old(list)), stored(*final(list)), denom@),
{
    let mut token_list = match list {
        None => return Err(CollectorError::NoTokens),
        Some(l) => {
            if !contains(l, denom) {
                return Err(CollectorError::NotAdded);
            }
            l.clone()
        },
    };
    let ghost o = list->Some_0;
    assert(token_list@ =~= o@);
    let index = position(&token_list, denom);
    token_list.swap_remove(index);
    *list = Some(token_list);
    Ok(())
}

/// The first `limit` entries of the allow-list.
pub fn read_token_list(list: &Option<Vec<String>>, limit: usize) -> (r: Result<Vec<String>, CollectorError>)
    ensures
        list is None ==> r == Err::<Vec<String>, CollectorError>(CollectorError::NoTokens),
        list matches Some(l) ==> r matches Ok(v) && v@ == l@.take(
            if limit < l.len() { limit as int } else { l.len() as int },
        ),
{
    match list {
        None => Err(CollectorError::NoTokens),
        Some(l) => {
            let take = if limit < l.len() { limit } else { l.len() };
            let mut out: Vec<String> = Vec::new();
            let mut i: usize = 0;
            while i < take
                invariant
                    take <= l.len(),
                    i <= take,
                    out@ == l@.take(i as int),
                decreases take - i,
            {
                out.push(l[i].clone());
                i = i + 1;
                assert(out@ =~= l@.take(i as int));
            }
            Ok(out)
        },
    }
}

/// Whether `token` is on the allow-list.
pub fn query_is_token(list: &Option<Vec<String>>, token: &String) -> (r: TokenResponse)
    ensures
        r.is_token == listed(*list, token@),
{
    TokenResponse { is_token: is_token(list, token) }
}

/// The size of a listing page: the asked limit (ten by default), at most the
/// list's capacity.
pub open spec fn page_size(limit: Option<u32>) -> int {
    let asked = match limit {
        Some(l) => l as int,
        None => DEFAULT_PAGINATION_LIMIT as int,
    };
    if asked < TOKEN_LIMIT { asked } else { TOKEN_LIMIT as int }
}

/// One page of the allow-list.
pub fn query_all_token(list: &Option<Vec<String>>, limit: Option<u32>) -> (r: Result<AllTokenResponse, CollectorError>)
    ensures
        list is None ==> r == Err::<AllTokenResponse, CollectorError>(CollectorError::NoTokens),
        list matches Some(l) ==> r matches Ok(resp) && resp.token_list@ == l@.take(
            if page_size(limit) < l.len() { page_size(limit) } else { l.len() as int },
        ),
{
    let asked: u32 = match limit {
        Some(l) => l,
        None => DEFAULT_PAGINATION_LIMIT,
    };
    let size: usize = if (asked as usize) < TOKEN_LIMIT { asked as usize } else { TOKEN_LIMIT };
    let token_list = read_token_list(list, size)?;
    Ok(AllTokenResponse { token_list })
}

/// How many tokens are on the allow-list, counting at most its capacity.
pub fn query_token_list_length(list: &Option<Vec<String>>) -> (r: Result<TokenLengthResponse, CollectorError>)
    ensures
        list is None ==> r == Err::<TokenLengthResponse, CollectorError>(CollectorError::NoTokens),
        list matches Some(l) ==> r == Ok::<TokenLengthResponse, CollectorError>(TokenLengthResponse {
            length: if l.len() < TOKEN_LIMIT { l.len() } else { TOKEN_LIMIT },
        }),
{
    let tokens = read_token_list(list, TOKEN_LIMIT)?;
    Ok(TokenLengthResponse { length: tokens.len() })
}

/// Whether `sender` may move the collector's funds: the owner, or the
/// whitelisted address.
pub open spec fn may_send(owner: Option<String>, whitelist: Seq<char>, sender: Seq<char>) -> bool {
    (owner matches Some(o) && o@ == sender) || whitelist == sender
}

/// Checks a payout of `amount` of `token` to `recipient`, given the
/// collector's current `balance` of it, and builds the transfer.
pub fn send_token(
    owner: &Option<String>,
    whitelist: &String,
    list: &Option<Vec<String>>,
    sender: &String,
    token: String,
    amount: u128,
    recipient: String,
    balance: u128,
) -> (r: Result<Msg, CollectorError>)
    ensures
        amount == 0 ==> r == Err::<Msg, CollectorError>(CollectorError::ZeroAmount),
        amount != 0 && !may_send(*owner, whitelist@, sender@) ==> r == Err::<Msg, CollectorError>(CollectorError::Unauthorized),
        amount != 0 && may_send(*owner, whitelist@, sender@) && !listed(*list, token@)
            ==> r == Err::<Msg, CollectorError>(CollectorError::UnsupportedToken),
        amount != 0 && may_send(*owner, whitelist@, sender@) && listed(*list, token@) && balance < amount
            ==> r == Err::<Msg, CollectorError>(CollectorError::InsufficientFunds),
        r is Ok <==> amount != 0 && may_send(*owner, whitelist@, sender@) && listed(*list, token@) && balance >= amount,
        r is Ok ==> r == Ok::<Msg, CollectorError>(Msg::BankSend { to_address: recipient, denom: token, amount }),
{
    if amount == 0 {
        return Err(CollectorError::ZeroAmount);
    }
    let is_owner = match owner {
        Some(o) => o.eq(sender),
        None => false,
    };
    if !is_owner && !whitelist.eq(sender) {
        return Err(CollectorError::Unauthorized);
    }
    if !is_token(list, &token) {
        return Err(CollectorError::UnsupportedToken);
    }
    if balance < amount {
        return Err(CollectorError::InsufficientFunds);
    }
    Ok(Msg::BankSend { to_address: recipient, denom: token, amount })
}

} // verus!
