//! The staking engine: the four mutating operations and the read-only
//! queries, over the per-account ledger.
//!
//! The engine never talks to the token ledger or the clock itself. Every
//! operation takes the externally observed values — the caller's token
//! balance, the program's allowance, the current time, and the outcome of the
//! one transfer the environment performed — as plain arguments, so the whole
//! decision and bookkeeping logic is verified for every possible observation.
//!
//! Settlement discipline: every operation validates all of its preconditions
//! first, then consults the transfer outcome, and only then commits the new
//! record. The environment is expected to run the matching check function (or
//! the redeemable query), perform the transfer only when it passes, and hand
//! the outcome back; on any failure, including a failed transfer, no state
//! changes — a failed withdrawal in particular never costs the account any
//! locked balance.
//!
//! Settlement timestamps: every successful stake stamps the account with the
//! current time, first stake included, so a stake is always a settlement and
//! accrual always starts from the most recent one.

use vstd::prelude::*;
use crate::clock::{days_elapsed, spec_days_elapsed};
use crate::errors::Error;
use crate::ledger::{AccountLedger, AccountRecord};
use crate::reward::{daily_rate_of, rate_computable, spec_daily_rate};

verus! {

/// Smallest external token balance an account must hold to enter the staking
/// program, at the token's 12-decimal precision: 1000 whole tokens.
pub const MINIMUM_STAKE_BALANCE: u128 = 1000 * 1000000000000;

/// The staking program's state: the set-once globals and the account records.
pub struct StakingEngine {
    /// Account identifier of the deploying administrator.
    pub manager: u64,
    /// Identifier of the external token ledger this program operates on.
    pub token_address: u64,
    /// Seconds since epoch at which the program was created.
    pub started_date_in_timestamp: u64,
    /// The per-account records.
    pub ledger: AccountLedger,
}

/// The reward an account can redeem: the daily rate times the whole days
/// elapsed, never more than the locked principal it is computed against.
pub open spec fn spec_capped_reward(rate: u128, days: int, balance: u128) -> u128 {
    if rate * days > balance {
        balance
    } else {
        (rate * days) as u128
    }
}

impl StakingEngine {
    /// The record the engine holds for `account`.
    pub open spec fn record(self, account: u64) -> AccountRecord {
        self.ledger.spec_record(account)
    }

    /// Every account's books are consistent (rate derived from balance, and
    /// re-derivable in 128 bits).
    pub open spec fn wf(self) -> bool {
        self.ledger.wf()
    }

    /// The set-once globals are those of `pre`.
    pub open spec fn same_globals(self, pre: StakingEngine) -> bool {
        &&& self.manager == pre.manager
        &&& self.token_address == pre.token_address
        &&& self.started_date_in_timestamp == pre.started_date_in_timestamp
    }

    /// All records but `account`'s are those of `pre`.
    pub open spec fn same_records_except(self, pre: StakingEngine, account: u64) -> bool {
        forall|a: u64| a != account ==> self.record(a) == pre.record(a)
    }

    /// Nothing at all changed against `pre`.
    pub open spec fn unchanged_from(self, pre: StakingEngine) -> bool {
        &&& self.same_globals(pre)
        &&& forall|a: u64| self.record(a) == pre.record(a)
    }

    /// What `get_redeemable_amount` reports for `account` at time `now`.
    pub open spec fn spec_redeemable(self, account: u64, now: u64) -> Result<u128, Error> {
        let rec = self.record(account);
        let days = spec_days_elapsed(rec.last_redeemed_timestamp, now);
        if days <= 0 {
            Err(Error::TooEarly)
        } else if rec.locked_balance == 0 {
            Err(Error::NothingStaked)
        } else {
            Ok(spec_capped_reward(rec.daily_reward_rate, days, rec.locked_balance))
        }
    }

    /// The first validation failure a stake request runs into, if any:
    /// the minimum-stake threshold for accounts entering the program, then
    /// the allowance, then the caller's token balance, then the arithmetic.
    pub open spec fn spec_stake_check(
        self,
        account: u64,
        amount: u128,
        token_balance: u128,
        allowance: u128,
    ) -> Option<Error> {
        let rec = self.record(account);
        if rec.locked_balance == 0 && token_balance < MINIMUM_STAKE_BALANCE {
            Some(Error::InsufficientBalance)
        } else if allowance < amount {
            Some(Error::InsufficientAllowance)
        } else if token_balance < amount {
            Some(Error::InsufficientBalance)
        } else if !rate_computable(rec.locked_balance + amount) {
            Some(Error::ArithmeticOverflow)
        } else {
            None
        }
    }

    /// `post` is `pre` after a stake of `amount` by `account` settled at
    /// `now`: the principal grew by the staked amount, the rate was re-derived
    /// from the new principal, the settlement time was stamped, and nothing
    /// else moved.
    pub open spec fn stake_settled(
        pre: StakingEngine,
        post: StakingEngine,
        account: u64,
        amount: u128,
        now: u64,
    ) -> bool {
        let nb = pre.record(account).locked_balance + amount;
        &&& post.record(account) == (AccountRecord {
            locked_balance: nb as u128,
            daily_reward_rate: spec_daily_rate(nb) as u128,
            last_redeemed_timestamp: now,
        })
        &&& post.same_records_except(pre, account)
        &&& post.same_globals(pre)
    }

    /// `post` is `pre` after `account` withdrew `amount` at `now`: the
    /// principal shrank by the requested amount (flooring at zero where the
    /// accrued reward covered the excess), the rate was re-derived, the
    /// settlement time was stamped, and nothing else moved.
    pub open spec fn withdraw_settled(
        pre: StakingEngine,
        post: StakingEngine,
        account: u64,
        amount: u128,
        now: u64,
    ) -> bool {
        let locked = pre.record(account).locked_balance;
        let nb: u128 = if amount > locked {
            0
        } else {
            (locked - amount) as u128
        };
        &&& post.record(account) == (AccountRecord {
            locked_balance: nb,
            daily_reward_rate: spec_daily_rate(nb as int) as u128,
            last_redeemed_timestamp: now,
        })
        &&& post.same_records_except(pre, account)
        &&& post.same_globals(pre)
    }

    /// A fresh program: created by `manager` at `now`, operating on the token
    /// ledger at `token_address`, with no account staked yet.
    pub fn new(manager: u64, token_address: u64, now: u64) -> (r: StakingEngine)
        ensures
            r.wf(),
            r.manager == manager,
            r.token_address == token_address,
            r.started_date_in_timestamp == now,
            forall|a: u64| r.record(a) == AccountRecord::spec_default(),
    {
        StakingEngine {
            manager,
            token_address,
            started_date_in_timestamp: now,
            ledger: AccountLedger::new(),
        }
    }

    /// The principal locked for `account`.
    pub fn get_account_total_locked_amount(&self, account: u64) -> (r: u128)
        ensures
            r == self.record(account).locked_balance,
    {
        self.ledger.get_record(account).locked_balance
    }

    /// When `account` last settled; zero if it never did.
    pub fn get_account_last_redeem(&self, account: u64) -> (r: u64)
        ensures
            r == self.record(account).last_redeemed_timestamp,
    {
        self.ledger.get_record(account).last_redeemed_timestamp
    }

    /// The amount `account` accrues per whole day.
    pub fn get_amount_to_give_each_day_to_account(&self, account: u64) -> (r: u128)
        ensures
            r == self.record(account).daily_reward_rate,
    {
        self.ledger.get_record(account).daily_reward_rate
    }

    /// When the program was created, in seconds since epoch.
    pub fn get_started_date(&self) -> (r: u64)
        ensures
            r == self.started_date_in_timestamp,
    {
        self.started_date_in_timestamp
    }

    /// Whole days from the program's creation to `now`.
    pub fn get_days_passed_since_issue(&self, now: u64) -> (r: u64)
        ensures
            r as int == spec_days_elapsed(self.started_date_in_timestamp, now),
    {
        days_elapsed(self.started_date_in_timestamp, now)
    }

    /// The reward `account` can redeem at `now`: its daily rate times the
    /// whole days since its last settlement, capped at its locked principal.
    /// Fails with `TooEarly` before a whole day has elapsed and with
    /// `NothingStaked` when no principal is locked. Read-only; mutating
    /// operations re-derive it at their own call time.
    pub fn get_redeemable_amount(&self, account: u64, now: u64) -> (r: Result<u128, Error>)
        ensures
            r == self.spec_redeemable(account, now),
    {
        let rec = self.ledger.get_record(account);
        let days = days_elapsed(rec.last_redeemed_timestamp, now);
        if days == 0 {
            return Err(Error::TooEarly);
        }
        if rec.locked_balance == 0 {
            return Err(Error::NothingStaked);
        }
        match rec.daily_reward_rate.checked_mul(days as u128) {
            Some(raw) => {
                if raw > rec.locked_balance {
                    Ok(rec.locked_balance)
                } else {
                    Ok(raw)
                }
            },
            None => Ok(rec.locked_balance),
        }
    }

    /// Validates a stake request against the observed token balance and
    /// allowance, reporting the exact error a settlement would run into, so
    /// the environment only performs the token transfer when the settlement
    /// is certain to be accepted.
    pub fn check_add_to_staking(
        &self,
        account: u64,
        amount: u128,
        token_balance: u128,
        allowance: u128,
    ) -> (r: Result<(), Error>)
        requires
            amount > 0,
        ensures
            r == match self.spec_stake_check(account, amount, token_balance, allowance) {
                Some(e) => Err::<(), Error>(e),
                None => Ok::<(), Error>(()),
            },
    {
        let rec = self.ledger.get_record(account);
        if rec.locked_balance == 0 && token_balance < MINIMUM_STAKE_BALANCE {
            return Err(Error::InsufficientBalance);
        }
        if allowance < amount {
            return Err(Error::InsufficientAllowance);
        }
        if token_balance < amount {
            return Err(Error::InsufficientBalance);
        }
        match rec.locked_balance.checked_add(amount) {
            Some(nb) => {
                if nb <= u128::MAX / 7 {
                    Ok(())
                } else {
                    proof {
                        lemma_over_max_div7_not_computable(nb as int);
                    }
                    Err(Error::ArithmeticOverflow)
                }
            },
            None => {
                proof {
                    lemma_over_max_div7_not_computable(
                        rec.locked_balance as int + amount as int,
                    );
                }
                Err(Error::ArithmeticOverflow)
            },
        }
    }

    /// Settles a stake of `amount` by `account` at `now`, after the
    /// environment attempted the transfer of `amount` from the account into
    /// program custody and reported `transfer_ok`. `token_balance` and
    /// `allowance` are the values the token ledger reported before that
    /// transfer. Validation failures and a failed transfer leave the state
    /// untouched; on success the principal grows by `amount`, the rate is
    /// re-derived, and the settlement time is stamped.
    pub fn add_to_staking(
        &mut self,
        account: u64,
        amount: u128,
        token_balance: u128,
        allowance: u128,
        transfer_ok: bool,
        now: u64,
    ) -> (r: Result<(), Error>)
        requires
            old(self).wf(),
            amount > 0,
        ensures
            final(self).wf(),
            match old(self).spec_stake_check(account, amount, token_balance, allowance) {
                Some(e) => r == Err::<(), Error>(e) && final(self).unchanged_from(*old(self)),
                None => if !transfer_ok {
                    r == Err::<(), Error>(Error::TransferFailed)
                        && final(self).unchanged_from(*old(self))
                } else {
                    r == Ok::<(), Error>(())
                        && StakingEngine::stake_settled(*old(self), *final(self), account, amount, now)
                },
            },
    {
        let rec = self.ledger.get_record(account);
        if rec.locked_balance == 0 && token_balance < MINIMUM_STAKE_BALANCE {
            return Err(Error::InsufficientBalance);
        }
        if allowance < amount {
            return Err(Error::InsufficientAllowance);
        }
        if token_balance < amount {
            return Err(Error::InsufficientBalance);
        }
        let new_balance = match rec.locked_balance.checked_add(amount) {
            Some(nb) => nb,
            None => {
                proof {
                    lemma_over_max_div7_not_computable(
                        rec.locked_balance as int + amount as int,
                    );
                }
                return Err(Error::ArithmeticOverflow);
            },
        };
        if new_balance > u128::MAX / 7 {
            proof {
                lemma_over_max_div7_not_computable(new_balance as int);
            }
            return Err(Error::ArithmeticOverflow);
        }
        if !transfer_ok {
            return Err(Error::TransferFailed);
        }
        let new_rate = daily_rate_of(new_balance);
        self.ledger.put_record(
            account,
            AccountRecord {
                locked_balance: new_balance,
                daily_reward_rate: new_rate,
                last_redeemed_timestamp: now,
            },
        );
        Ok(())
    }

    /// Settles a redemption for `account` at `now`, after the environment
    /// transferred the redeemable amount (as `get_redeemable_amount` reported
    /// it at the same `now`) from program custody to the account and reported
    /// `transfer_ok`. Returns the amount paid out. The locked principal and
    /// the daily rate never change — the reward is paid from program custody —
    /// only the settlement time is stamped; on any failure nothing changes.
    pub fn redeem_redeemable_amount(
        &mut self,
        account: u64,
        transfer_ok: bool,
        now: u64,
    ) -> (r: Result<u128, Error>)
        requires
            old(self).wf(),
        ensures
            final(self).wf(),
            match old(self).spec_redeemable(account, now) {
                Err(e) => r == Err::<u128, Error>(e) && final(self).unchanged_from(*old(self)),
                Ok(amt) => if !transfer_ok {
                    r == Err::<u128, Error>(Error::TransferFailed)
                        && final(self).unchanged_from(*old(self))
                } else {
                    r == Ok::<u128, Error>(amt)
                        && final(self).record(account).locked_balance
                            == old(self).record(account).locked_balance
                        && final(self).record(account).daily_reward_rate
                            == old(self).record(account).daily_reward_rate
                        && final(self).record(account).last_redeemed_timestamp == now
                        && final(self).same_records_except(*old(self), account)
                        && final(self).same_globals(*old(self))
                },
            },
    {
        let amount = match self.get_redeemable_amount(account, now) {
            Ok(a) => a,
            Err(e) => {
                return Err(e);
            },
        };
        if !transfer_ok {
            return Err(Error::TransferFailed);
        }
        let rec = self.ledger.get_record(account);
        self.ledger.put_record(
            account,
            AccountRecord {
                locked_balance: rec.locked_balance,
                daily_reward_rate: rec.daily_reward_rate,
                last_redeemed_timestamp: now,
            },
        );
        Ok(amount)
    }

    /// Compounds `account`'s redeemable reward into its locked principal at
    /// `now`. No external transfer is involved: the principal grows by
    /// exactly the redeemable amount at call time, the rate is re-derived,
    /// and the settlement time is stamped. Fails like the redeemable query,
    /// or with `ArithmeticOverflow` when the grown principal leaves the
    /// 128-bit domain; on any failure nothing changes.
    pub fn auto_stack(&mut self, account: u64, now: u64) -> (r: Result<(), Error>)
        requires
            old(self).wf(),
        ensures
            final(self).wf(),
            match old(self).spec_redeemable(account, now) {
                Err(e) => r == Err::<(), Error>(e) && final(self).unchanged_from(*old(self)),
                Ok(amt) => {
                    let nb = old(self).record(account).locked_balance + amt;
                    if !rate_computable(nb) {
                        r == Err::<(), Error>(Error::ArithmeticOverflow)
                            && final(self).unchanged_from(*old(self))
                    } else {
                        r == Ok::<(), Error>(())
                            && StakingEngine::stake_settled(*old(self), *final(self), account, amt, now)
                    }
                },
            },
    {
        let rec = self.ledger.get_record(account);
        let amount = match self.get_redeemable_amount(account, now) {
            Ok(a) => a,
            Err(e) => {
                return Err(e);
            },
        };
        proof {
            assert(rec.wf());
            assert(amount <= rec.locked_balance);
        }
        let new_balance = rec.locked_balance + amount;
        if new_balance > u128::MAX / 7 {
            proof {
                lemma_over_max_div7_not_computable(new_balance as int);
            }
            return Err(Error::ArithmeticOverflow);
        }
        let new_rate = daily_rate_of(new_balance);
        self.ledger.put_record(
            account,
            AccountRecord {
                locked_balance: new_balance,
                daily_reward_rate: new_rate,
                last_redeemed_timestamp: now,
            },
        );
        Ok(())
    }

    /// The first failure a withdrawal request runs into, if any: the
    /// redeemable query's own failures, then the cover check — the locked
    /// principal plus the redeemable reward must cover the requested amount.
    pub open spec fn spec_withdraw_check(self, account: u64, amount: u128, now: u64) -> Option<
        Error,
    > {
        match self.spec_redeemable(account, now) {
            Err(e) => Some(e),
            Ok(red) => if self.record(account).locked_balance + red < amount {
                Some(Error::InsufficientBalance)
            } else {
                None
            },
        }
    }

    /// Validates a withdrawal request, reporting the exact error a settlement
    /// would run into, so the environment only performs the token transfer
    /// when the settlement is certain to be accepted.
    pub fn check_withdraw_specific_amount(&self, account: u64, amount: u128, now: u64) -> (r:
        Result<(), Error>)
        requires
            self.wf(),
        ensures
            r == match self.spec_withdraw_check(account, amount, now) {
                Some(e) => Err::<(), Error>(e),
                None => Ok::<(), Error>(()),
            },
    {
        let rec = self.ledger.get_record(account);
        let redeemable = match self.get_redeemable_amount(account, now) {
            Ok(a) => a,
            Err(e) => {
                return Err(e);
            },
        };
        proof {
            assert(rec.wf());
            assert(redeemable <= rec.locked_balance);
        }
        if rec.locked_balance + redeemable < amount {
            return Err(Error::InsufficientBalance);
        }
        Ok(())
    }

    /// Settles a withdrawal of `amount` by `account` at `now`, after the
    /// environment transferred `amount` from program custody to the account
    /// and reported `transfer_ok`. The request must be covered by the locked
    /// principal plus the redeemable reward; the principal shrinks by the
    /// requested amount, flooring at zero where the reward covers the excess,
    /// the rate is re-derived, and the settlement time is stamped. On any
    /// failure — a failed transfer included — nothing changes, so a failed
    /// transfer never costs the account any locked balance.
    pub fn withdraw_specific_amount(
        &mut self,
        account: u64,
        amount: u128,
        transfer_ok: bool,
        now: u64,
    ) -> (r: Result<(), Error>)
        requires
            old(self).wf(),
        ensures
            final(self).wf(),
            match old(self).spec_withdraw_check(account, amount, now) {
                Some(e) => r == Err::<(), Error>(e) && final(self).unchanged_from(*old(self)),
                None => if !transfer_ok {
                    r == Err::<(), Error>(Error::TransferFailed)
                        && final(self).unchanged_from(*old(self))
                } else {
                    r == Ok::<(), Error>(())
                        && StakingEngine::withdraw_settled(*old(self), *final(self), account, amount, now)
                },
            },
    {
        let rec = self.ledger.get_record(account);
        let redeemable = match self.get_redeemable_amount(account, now) {
            Ok(a) => a,
            Err(e) => {
                return Err(e);
            },
        };
        proof {
            assert(rec.wf());
            assert(redeemable <= rec.locked_balance);
        }
        if rec.locked_balance + redeemable < amount {
            return Err(Error::InsufficientBalance);
        }
        if !transfer_ok {
            return Err(Error::TransferFailed);
        }
        let new_balance = if amount > rec.locked_balance {
            0
        } else {
            rec.locked_balance - amount
        };
        let new_rate = daily_rate_of(new_balance);
        self.ledger.put_record(
            account,
            AccountRecord {
                locked_balance: new_balance,
                daily_reward_rate: new_rate,
                last_redeemed_timestamp: now,
            },
        );
        Ok(())
    }
}

/// A balance beyond `u128::MAX / 7` cannot have its rate formed in 128 bits.
proof fn lemma_over_max_div7_not_computable(balance: int)
    requires
        balance > u128::MAX as int / 7,
    ensures
        !rate_computable(balance),
{
    assert(balance * 7 >= (u128::MAX as int / 7 + 1) * 7) by (nonlinear_arith)
        requires
            balance >= u128::MAX as int / 7 + 1,
    ;
}

} // verus!
