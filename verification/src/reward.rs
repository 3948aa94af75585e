//! The reward formula: an approximate 7% simple annual yield on the locked
//! principal, spread evenly over 365 days, all in the token's integer
//! smallest-unit domain, truncating at each division.

use vstd::prelude::*;
use crate::errors::Error;

verus! {

/// Annual yield, in parts per hundred of the principal.
pub const YIELD_PER_CENT: u128 = 7;

/// Days the annual yield is spread over.
pub const DAYS_PER_YEAR: u128 = 365;

/// The daily reward owed on `balance`: one 365th of the principal grown by
/// 7%, rounding down at each division.
pub open spec fn spec_daily_rate(balance: int) -> int {
    (balance + (balance * 7) / 100) / 365
}

/// The 128-bit computation of the daily rate stays in bounds exactly when
/// `balance * 7` does; everything after that first product only shrinks.
pub open spec fn rate_computable(balance: int) -> bool {
    balance * 7 <= u128::MAX
}

/// The daily rate for a balance already known to be representable.
pub fn daily_rate_of(balance: u128) -> (r: u128)
    requires
        rate_computable(balance as int),
    ensures
        r as int == spec_daily_rate(balance as int),
{
    let grown: u128 = balance * 7;
    let bonus: u128 = grown / 100;
    proof {
        vstd::arithmetic::div_mod::lemma_div_is_ordered(
            grown as int,
            u128::MAX as int,
            100,
        );
        vstd::arithmetic::div_mod::lemma_div_is_ordered(
            7 * balance as int,
            u128::MAX as int,
            7,
        );
        vstd::arithmetic::div_mod::lemma_div_multiples_vanish(balance as int, 7);
    }
    (balance + bonus) / 365
}

/// The daily reward rate for `balance`, or `ArithmeticOverflow` where the
/// 128-bit computation cannot form it.
pub fn daily_rate(balance: u128) -> (r: Result<u128, Error>)
    ensures
        rate_computable(balance as int) ==> r == Ok::<u128, Error>(
            spec_daily_rate(balance as int) as u128,
        ),
        !rate_computable(balance as int) ==> r == Err::<u128, Error>(Error::ArithmeticOverflow),
{
    match balance.checked_mul(7) {
        Some(_) => Ok(daily_rate_of(balance)),
        None => Err(Error::ArithmeticOverflow),
    }
}

} // verus!
