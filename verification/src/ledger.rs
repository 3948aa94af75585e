//! The per-account record store.
//!
//! A record is created implicitly: an account that was never written reads as
//! the zero record. Writes replace the whole record, so the three fields can
//! never go out of step with one another.

use std::collections::HashMap;
use vstd::prelude::*;
use crate::reward::{rate_computable, spec_daily_rate};

verus! {

broadcast use vstd::std_specs::hash::group_hash_axioms;

/// One account's staking record.
#[derive(Clone, Copy, Debug, PartialEq, Eq, Structural)]
pub struct AccountRecord {
    /// Principal currently held on the account's behalf, in the token's
    /// smallest unit.
    pub locked_balance: u128,
    /// Smallest-unit amount accrued per whole day; always derived from
    /// `locked_balance` by the reward formula.
    pub daily_reward_rate: u128,
    /// Seconds since epoch of the account's last settlement; zero if the
    /// account never settled.
    pub last_redeemed_timestamp: u64,
}

impl AccountRecord {
    /// The record of an account that never staked.
    pub open spec fn spec_default() -> AccountRecord {
        AccountRecord { locked_balance: 0, daily_reward_rate: 0, last_redeemed_timestamp: 0 }
    }

    /// The record's books are consistent: the rate is exactly what the reward
    /// formula derives from the balance, and the balance is small enough for
    /// the 128-bit computation to re-derive it.
    pub open spec fn wf(self) -> bool {
        &&& self.daily_reward_rate == spec_daily_rate(self.locked_balance as int)
        &&& rate_computable(self.locked_balance as int)
    }

    /// The zero record of an account that never staked.
    pub fn empty() -> (r: AccountRecord)
        ensures
            r == AccountRecord::spec_default(),
    {
        AccountRecord { locked_balance: 0, daily_reward_rate: 0, last_redeemed_timestamp: 0 }
    }
}

/// The set of account records, keyed by account identifier.
pub struct AccountLedger {
    pub records: HashMap<u64, AccountRecord>,
}

impl AccountLedger {
    /// The record held for `account`; accounts never written read as the
    /// zero record.
    pub open spec fn spec_record(self, account: u64) -> AccountRecord {
        if self.records@.contains_key(account) {
            self.records@[account]
        } else {
            AccountRecord::spec_default()
        }
    }

    /// Every record in the store keeps its books consistent.
    pub open spec fn wf(self) -> bool {
        forall|a: u64| (#[trigger] self.spec_record(a)).wf()
    }

    /// A ledger with no records: every account reads as the zero record.
    pub fn new() -> (r: AccountLedger)
        ensures
            r.wf(),
            forall|a: u64| r.spec_record(a) == AccountRecord::spec_default(),
    {
        AccountLedger { records: HashMap::new() }
    }

    /// Reads `account`'s record, defaulting all three fields to zero where
    /// none was ever written.
    pub fn get_record(&self, account: u64) -> (r: AccountRecord)
        ensures
            r == self.spec_record(account),
    {
        match self.records.get(&account) {
            Some(rec) => *rec,
            None => AccountRecord::empty(),
        }
    }

    /// Overwrites `account`'s record atomically: all three fields together.
    pub fn put_record(&mut self, account: u64, record: AccountRecord)
        ensures
            final(self).spec_record(account) == record,
            forall|a: u64|
                a != account ==> final(self).spec_record(a) == old(self).spec_record(a),
            old(self).wf() && record.wf() ==> final(self).wf(),
    {
        self.records.insert(account, record);
        proof {
            if old(self).wf() && record.wf() {
                assert forall|a: u64| (#[trigger] self.spec_record(a)).wf() by {
                    if a != account {
                        assert(old(self).spec_record(a).wf());
                    }
                }
            }
        }
    }
}

} // verus!
