//! Properties of the accrual engine that relate several calls or hold of
//! every state.

use vstd::prelude::*;
use crate::math::lemma_pow10_monotone;
use crate::rewards::{
    accrual_fits, accrued, accumulate, accumulate_fits, earned, pending_of, rewards_of, rpt_of, scale, settle_fits,
    settled, settled_claimable, update_fits, updated_user,
};
use crate::query::{claimable_fits, projected_rpt};
use crate::state::{Chain, Config, Globals, UserStake};

verus! {

/// An accrual never lowers the rewards-per-token accumulator.
pub proof fn law_accumulator_monotone(cfg: Config, g: Globals, chain: Chain)
    requires
        accrual_fits(cfg, g, chain),
    ensures
        accrued(cfg, g, chain).rewards_per_token >= g.rewards_per_token,
{
    lemma_pow10_monotone(0, cfg.reward_decimals as nat);
    let r = rewards_of(cfg, g, chain);
    let s = chain.derivative_supply as int;
    if s != 0 && r != 0 {
        assert(r * scale(cfg) >= 0) by (nonlinear_arith)
            requires r >= 0, scale(cfg) >= 1;
        assert(r * scale(cfg) / s >= 0) by (nonlinear_arith)
            requires r * scale(cfg) >= 0, s > 0;
    }
}

/// A second accrual at the same time finds nothing pending and leaves the
/// accumulator where the first one put it.
pub proof fn law_no_double_counting(cfg: Config, g: Globals, chain: Chain)
    requires
        accrual_fits(cfg, g, chain),
    ensures
        pending_of(cfg, accrued(cfg, g, chain).state, chain) == 0,
        rewards_of(cfg, accrued(cfg, g, chain), chain) == 0,
        accrual_fits(cfg, accrued(cfg, g, chain), chain),
        accrued(cfg, accrued(cfg, g, chain), chain) == accrued(cfg, g, chain),
{
    let g1 = accrued(cfg, g, chain);
    assert(rpt_of(cfg, g1, chain) == g1.rewards_per_token);
}

/// Settling an account twice at the same time, with no stake change in
/// between, credits nothing the second time.
pub proof fn law_settlement_idempotent(
    cfg: Config,
    g: Globals,
    u: UserStake,
    chain: Chain,
    account: Seq<char>,
    contract: Seq<char>,
)
    requires
        update_fits(cfg, g, u, chain, account, contract),
    ensures
        ({
            let g1 = accrued(cfg, g, chain);
            let u1 = updated_user(cfg, g, u, chain, account, contract);
            &&& rpt_of(cfg, g1, chain) == g1.rewards_per_token
            &&& update_fits(cfg, g1, u1, chain, account, contract)
                ==> updated_user(cfg, g1, u1, chain, account, contract).claimable_rewards == u1.claimable_rewards
        }),
{
    lemma_pow10_monotone(0, cfg.reward_decimals as nat);
    law_no_double_counting(cfg, g, chain);
    law_accumulator_monotone(cfg, g, chain);
    let g1 = accrued(cfg, g, chain);
    let u1 = updated_user(cfg, g, u, chain, account, contract);
    let rpt = g1.rewards_per_token as int;
    if account != contract {
        assert(u1.previous_cumulative_rewards_per_token == rpt);
        assert(earned(u1, rpt, scale(cfg)) == 0) by (nonlinear_arith)
            requires
                earned(u1, rpt, scale(cfg)) == u1.staked_amounts * (rpt - u1.previous_cumulative_rewards_per_token) / scale(cfg),
                u1.previous_cumulative_rewards_per_token == rpt,
                scale(cfg) >= 1;
        assert(settled_claimable(u1, rpt, scale(cfg)) == u1.claimable_rewards);
    }
}

/// With no derivative tokens in circulation an accrual adds nothing to the
/// accumulator and cannot fail on a division: it succeeds exactly when the
/// scale fits, the clock did not run back and the emission fits. A
/// projected claimable balance is then the stored balance plus what the
/// stake earned up to the current accumulator.
pub proof fn law_zero_supply(cfg: Config, g: Globals, u: UserStake, chain: Chain)
    requires
        chain.derivative_supply == 0,
    ensures
        accumulate(g.rewards_per_token as int, rewards_of(cfg, g, chain), 0, scale(cfg)) == g.rewards_per_token,
        accumulate_fits(g.rewards_per_token as int, rewards_of(cfg, g, chain), 0, scale(cfg)),
        accrual_fits(cfg, g, chain) <==> scale(cfg) <= u128::MAX && g.state.last_distribution <= chain.time
            && pending_of(cfg, g.state, chain) <= u128::MAX,
        accrual_fits(cfg, g, chain) ==> accrued(cfg, g, chain).rewards_per_token == g.rewards_per_token,
        projected_rpt(cfg, g, chain) == g.rewards_per_token,
        claimable_fits(cfg, g, u, chain) ==> settled_claimable(u, projected_rpt(cfg, g, chain), scale(cfg))
            == u.claimable_rewards + earned(u, g.rewards_per_token as int, scale(cfg)),
{
}

/// What one account is owed, scaled by `dp`: its claimable balance plus what
/// its stake has earned since its snapshot and not yet been credited.
pub open spec fn owed_one(u: UserStake, rpt: int, dp: int) -> int {
    u.claimable_rewards * dp + u.staked_amounts * (rpt - u.previous_cumulative_rewards_per_token)
}

/// What all `users` are owed, scaled by `dp`.
pub open spec fn owed(users: Seq<UserStake>, rpt: int, dp: int) -> int
    decreases users.len(),
{
    if users.len() == 0 {
        0
    } else {
        owed(users.drop_last(), rpt, dp) + owed_one(users.last(), rpt, dp)
    }
}

/// Total principal staked by `users`.
pub open spec fn sum_staked(users: Seq<UserStake>) -> int
    decreases users.len(),
{
    if users.len() == 0 {
        0
    } else {
        sum_staked(users.drop_last()) + users.last().staked_amounts
    }
}

/// Total claimable balance of `users`.
pub open spec fn sum_claimable(users: Seq<UserStake>) -> int
    decreases users.len(),
{
    if users.len() == 0 {
        0
    } else {
        sum_claimable(users.drop_last()) + users.last().claimable_rewards
    }
}

/// No snapshot is ahead of the accumulator.
pub open spec fn snapshots_behind(users: Seq<UserStake>, rpt: int) -> bool {
    forall|j: int| 0 <= j < users.len() ==> #[trigger] users[j].previous_cumulative_rewards_per_token <= rpt
}

/// The ledger owes no more than was pulled from the collector and not yet
/// paid out.
pub open spec fn conserved(users: Seq<UserStake>, rpt: int, dp: int, paid: int, pulled: int) -> bool {
    owed(users, rpt, dp) + paid * dp <= pulled * dp
}

proof fn lemma_owed_shift(users: Seq<UserStake>, rpt: int, q: int, dp: int)
    ensures
        owed(users, rpt + q, dp) == owed(users, rpt, dp) + q * sum_staked(users),
    decreases users.len(),
{
    if users.len() > 0 {
        lemma_owed_shift(users.drop_last(), rpt, q, dp);
        let u = users.last();
        let s = u.staked_amounts as int;
        let p = u.previous_cumulative_rewards_per_token as int;
        assert(s * (rpt + q - p) == s * (rpt - p) + q * s) by (nonlinear_arith);
        assert(q * sum_staked(users) == q * sum_staked(users.drop_last()) + q * s) by (nonlinear_arith)
            requires sum_staked(users) == sum_staked(users.drop_last()) + s;
    }
}

proof fn lemma_owed_update(users: Seq<UserStake>, i: int, v: UserStake, rpt: int, dp: int)
    requires
        0 <= i < users.len(),
    ensures
        owed(users.update(i, v), rpt, dp) == owed(users, rpt, dp) - owed_one(users[i], rpt, dp) + owed_one(v, rpt, dp),
        sum_claimable(users.update(i, v)) == sum_claimable(users) - users[i].claimable_rewards + v.claimable_rewards,
    decreases users.len(),
{
    let w = users.update(i, v);
    if i == users.len() - 1 {
        assert(w.drop_last() =~= users.drop_last());
    } else {
        lemma_owed_update(users.drop_last(), i, v, rpt, dp);
        assert(w.drop_last() =~= users.drop_last().update(i, v));
    }
}

proof fn lemma_claimable_below_owed(users: Seq<UserStake>, rpt: int, dp: int)
    requires
        snapshots_behind(users, rpt),
        dp >= 0,
    ensures
        sum_claimable(users) * dp <= owed(users, rpt, dp),
    decreases users.len(),
{
    if users.len() > 0 {
        let init = users.drop_last();
        assert(snapshots_behind(init, rpt)) by {
            assert forall|j: int| 0 <= j < init.len() implies #[trigger] init[j].previous_cumulative_rewards_per_token <= rpt by {
                assert(init[j] == users[j]);
            }
        }
        lemma_claimable_below_owed(init, rpt, dp);
        let u = users.last();
        assert(users[users.len() - 1] == u);
        let c = u.claimable_rewards as int;
        let d = rpt - u.previous_cumulative_rewards_per_token;
        assert(u.staked_amounts * d >= 0) by (nonlinear_arith)
            requires d >= 0, u.staked_amounts >= 0;
        assert(sum_claimable(users) * dp == sum_claimable(init) * dp + c * dp) by (nonlinear_arith)
            requires sum_claimable(users) == sum_claimable(init) + c;
    }
}

/// Conservation of rewards. Take a ledger that owes no more than was pulled
/// from the collector and not yet paid, whose accounts stake no more than the
/// derivative supply. An accrual of `rewards` followed by the settlement of
/// account `i` keeps it so, with `rewards` more pulled; and the claimable
/// balances plus what was paid never exceed what was pulled.
pub proof fn law_conservation(
    users: Seq<UserStake>,
    i: int,
    rpt: u128,
    rewards: u128,
    supply: u128,
    dp: u128,
    paid: nat,
    pulled: nat,
)
    requires
        dp >= 1,
        0 <= i < users.len(),
        sum_staked(users) <= supply,
        snapshots_behind(users, rpt as int),
        conserved(users, rpt as int, dp as int, paid as int, pulled as int),
        accumulate_fits(rpt as int, rewards as int, supply as int, dp as int),
        settle_fits(users[i], accumulate(rpt as int, rewards as int, supply as int, dp as int), dp as int),
    ensures
        ({
            let rpt2 = accumulate(rpt as int, rewards as int, supply as int, dp as int);
            let users2 = users.update(i, settled(users[i], rpt2, dp as int));
            &&& snapshots_behind(users2, rpt2)
            &&& conserved(users2, rpt2, dp as int, paid as int, pulled + rewards)
            &&& sum_claimable(users2) + paid <= pulled + rewards
        }),
{
    let rpt2 = accumulate(rpt as int, rewards as int, supply as int, dp as int);
    let q = rpt2 - rpt;
    let d = dp as int;
    // the accrual
    lemma_owed_shift(users, rpt as int, q, d);
    if supply != 0 && rewards != 0 {
        let x = rewards * d;
        assert(q == x / (supply as int));
        assert(q >= 0 && q * (supply as int) <= x) by (nonlinear_arith)
            requires q == x / (supply as int), supply > 0, x >= 0;
        assert(q * sum_staked(users) <= q * (supply as int)) by (nonlinear_arith)
            requires q >= 0, sum_staked(users) <= supply;
    } else {
        assert(q == 0);
    }
    assert(owed(users, rpt2, d) <= owed(users, rpt as int, d) + rewards * d);
    // the settlement
    let u = users[i];
    let v = settled(u, rpt2, d);
    lemma_owed_update(users, i, v, rpt2, d);
    let e = earned(u, rpt2, d);
    let gap = u.staked_amounts * (rpt2 - u.previous_cumulative_rewards_per_token);
    assert(e * d <= gap && e >= 0) by (nonlinear_arith)
        requires e == gap / d, d >= 1, gap >= 0;
    assert(0 <= rpt2 <= u128::MAX);
    assert(v.previous_cumulative_rewards_per_token == rpt2);
    assert(v.claimable_rewards == u.claimable_rewards + e);
    assert(v.staked_amounts * (rpt2 - v.previous_cumulative_rewards_per_token) == 0) by (nonlinear_arith)
        requires v.previous_cumulative_rewards_per_token == rpt2;
    assert(owed_one(v, rpt2, d) == (u.claimable_rewards + e) * d);
    assert((u.claimable_rewards + e) * d == u.claimable_rewards * d + e * d) by (nonlinear_arith);
    assert(owed_one(v, rpt2, d) <= owed_one(u, rpt2, d));
    let users2 = users.update(i, v);
    assert(snapshots_behind(users2, rpt2)) by {
        assert forall|j: int| 0 <= j < users2.len() implies #[trigger] users2[j].previous_cumulative_rewards_per_token <= rpt2 by {
            if j != i {
                assert(users2[j] == users[j]);
            }
        }
    }
    assert((pulled + rewards) * d == pulled * d + rewards * d) by (nonlinear_arith);
    lemma_claimable_below_owed(users2, rpt2, d);
    let total = sum_claimable(users2) + paid;
    assert(total * d == sum_claimable(users2) * d + paid * d) by (nonlinear_arith)
        requires total == sum_claimable(users2) + paid;
    assert(total <= pulled + rewards) by (nonlinear_arith)
        requires total * d <= (pulled + rewards) * d, d >= 1;
}

/// A claim that pays account `i` its claimable balance and zeroes it keeps
/// the ledger within what was pulled.
pub proof fn law_claim_conserves(users: Seq<UserStake>, i: int, rpt: int, dp: nat, paid: nat, pulled: nat)
    requires
        0 <= i < users.len(),
        conserved(users, rpt, dp as int, paid as int, pulled as int),
    ensures
        conserved(
            users.update(i, UserStake { claimable_rewards: 0, ..users[i] }),
            rpt,
            dp as int,
            paid + users[i].claimable_rewards,
            pulled as int,
        ),
{
    let v = UserStake { claimable_rewards: 0, ..users[i] };
    lemma_owed_update(users, i, v, rpt, dp as int);
    let c = users[i].claimable_rewards as int;
    assert((paid + c) * dp == paid * dp + c * dp) by (nonlinear_arith);
}

} // verus!
