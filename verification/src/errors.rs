use vstd::prelude::*;

verus! {

/// The ways an operation of the staking ledger can fail.
///
/// Every failure is terminal for the operation that raised it: the operation
/// reports the kind to the caller and leaves the persisted state untouched.
#[derive(Clone, Copy, Debug, PartialEq, Eq, Structural)]
pub enum Error {
    /// The caller's token balance is below what the operation needs
    /// (the minimum-stake threshold, the staked amount, or the requested
    /// withdrawal).
    InsufficientBalance,
    /// The caller has not approved the program to move the requested amount.
    InsufficientAllowance,
    /// The external token transfer did not go through.
    TransferFailed,
    /// No whole day has elapsed since the account's last settlement.
    TooEarly,
    /// The account has no locked balance to accrue rewards on.
    NothingStaked,
    /// A monetary amount left the 128-bit integer domain.
    ArithmeticOverflow,
}

} // verus!
