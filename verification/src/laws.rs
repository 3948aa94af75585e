//! Laws of the staking ledger that relate several operations, stated and
//! proved over the same spec functions the operations' contracts use.

use vstd::prelude::*;
use crate::clock::spec_days_elapsed;
use crate::engine::{spec_capped_reward, StakingEngine};
use crate::errors::Error;
use crate::reward::spec_daily_rate;

verus! {

/// The daily rate grows with the balance it is derived from: a larger
/// principal never earns a smaller daily reward.
pub proof fn lemma_daily_rate_monotonic(a: int, b: int)
    requires
        0 <= a <= b,
    ensures
        spec_daily_rate(a) <= spec_daily_rate(b),
{
    vstd::arithmetic::div_mod::lemma_div_is_ordered(a * 7, b * 7, 100);
    vstd::arithmetic::div_mod::lemma_div_is_ordered(
        a + (a * 7) / 100,
        b + (b * 7) / 100,
        365,
    );
}

/// Any settlement stamps the account with the current time, so querying the
/// redeemable amount at that same time finds zero elapsed days and fails with
/// `TooEarly`. In particular, staking and immediately querying always fails.
pub proof fn lemma_settled_then_query_too_early(e: StakingEngine, account: u64, now: u64)
    requires
        e.record(account).last_redeemed_timestamp == now,
    ensures
        e.spec_redeemable(account, now) == Err::<u128, Error>(Error::TooEarly),
{
    assert(spec_days_elapsed(now, now) == 0);
}

/// An account with balance `B`, rate `R`, last settled at `T0`, can redeem
/// exactly `min(R * n, B)` when queried `n` whole days later, for any
/// `n >= 1`.
pub proof fn lemma_redeemable_after_whole_days(e: StakingEngine, account: u64, n: u64)
    requires
        e.record(account).locked_balance > 0,
        n >= 1,
        e.record(account).last_redeemed_timestamp + n * 86400 <= u64::MAX,
    ensures
        e.spec_redeemable(
            account,
            (e.record(account).last_redeemed_timestamp + n * 86400) as u64,
        ) == Ok::<u128, Error>(
            spec_capped_reward(
                e.record(account).daily_reward_rate,
                n as int,
                e.record(account).locked_balance,
            ),
        ),
{
    let t0 = e.record(account).last_redeemed_timestamp;
    let at = (t0 + n * 86400) as u64;
    assert(at as int - t0 as int == n * 86400);
    vstd::arithmetic::div_mod::lemma_div_multiples_vanish(n as int, 86400);
    assert(spec_days_elapsed(t0, at) == n as int);
}

/// Withdrawing exactly the locked principal plus the redeemable reward
/// empties the account: the settled state holds balance zero and daily rate
/// zero.
pub proof fn lemma_full_withdraw_empties_account(
    pre: StakingEngine,
    post: StakingEngine,
    account: u64,
    amount: u128,
    now: u64,
)
    requires
        pre.spec_redeemable(account, now) matches Ok(red)
            && amount == pre.record(account).locked_balance + red,
        StakingEngine::withdraw_settled(pre, post, account, amount, now),
    ensures
        post.record(account).locked_balance == 0,
        post.record(account).daily_reward_rate == 0,
{
    assert(spec_daily_rate(0) == 0);
}

/// Read-only queries are functions of the state and their arguments alone:
/// two redeemable queries with no mutation in between report the same value.
pub proof fn lemma_redeemable_query_idempotent(
    e: StakingEngine,
    account: u64,
    now: u64,
    r1: Result<u128, Error>,
    r2: Result<u128, Error>,
)
    requires
        r1 == e.spec_redeemable(account, now),
        r2 == e.spec_redeemable(account, now),
    ensures
        r1 == r2,
{
}

} // verus!
