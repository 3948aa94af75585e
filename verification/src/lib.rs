//! A token-staking ledger.
//!
//! Accounts lock a fungible-token balance with the program, accrue a reward at
//! a per-account daily rate derived from the locked principal, and may redeem
//! the accrued reward, compound it back into principal, or withdraw part of
//! the principal.
//!
//! The external token ledger (balances, allowances, transfers) and the time
//! source sit outside this crate: every operation takes the values read from
//! them as plain arguments, decides, and reports the new state and the exact
//! error, so the whole bookkeeping logic is verified here while the
//! environment performs the actual transfers.

pub mod clock;
pub mod engine;
pub mod errors;
pub mod laws;
pub mod ledger;
pub mod reward;
