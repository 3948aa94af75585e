use staking_contract::engine::{StakingEngine, MINIMUM_STAKE_BALANCE};
use staking_contract::errors::Error;

const UNIT: u128 = 1_000_000_000_000;
const DAY: u64 = 86400;
const MANAGER: u64 = 1;
const TOKEN: u64 = 2;
const ALICE: u64 = 7;
const BOB: u64 = 8;
const START: u64 = 1000;

/// An engine where ALICE staked 1000 whole tokens at time START.
fn staked_engine() -> StakingEngine {
    let mut e = StakingEngine::new(MANAGER, TOKEN, START);
    let amount = 1000 * UNIT;
    assert_eq!(e.check_add_to_staking(ALICE, amount, amount, amount), Ok(()));
    assert_eq!(e.add_to_staking(ALICE, amount, amount, amount, true, START), Ok(()));
    e
}

#[test]
fn new_engine_reads_as_zero() {
    let e = StakingEngine::new(MANAGER, TOKEN, START);
    assert_eq!(e.get_started_date(), START);
    assert_eq!(e.get_account_total_locked_amount(ALICE), 0);
    assert_eq!(e.get_account_last_redeem(ALICE), 0);
    assert_eq!(e.get_amount_to_give_each_day_to_account(ALICE), 0);
    assert_eq!(e.get_days_passed_since_issue(START), 0);
    assert_eq!(e.get_days_passed_since_issue(START + 3 * DAY + 100), 3);
}

#[test]
fn stake_one_thousand_tokens_accrues_published_rate() {
    let e = staked_engine();
    assert_eq!(e.get_account_total_locked_amount(ALICE), 1000 * UNIT);
    // floor(1070e12 / 365)
    assert_eq!(e.get_amount_to_give_each_day_to_account(ALICE), 2_931_506_849_315);
    assert_eq!(e.get_account_last_redeem(ALICE), START);
    // one whole day later the daily rate is redeemable
    assert_eq!(e.get_redeemable_amount(ALICE, START + DAY), Ok(2_931_506_849_315));
    // 400 days later the reward is capped at the locked principal
    assert_eq!(e.get_redeemable_amount(ALICE, START + 400 * DAY), Ok(1000 * UNIT));
}

#[test]
fn stake_then_immediate_query_is_too_early() {
    let e = staked_engine();
    assert_eq!(e.get_redeemable_amount(ALICE, START), Err(Error::TooEarly));
    assert_eq!(e.get_redeemable_amount(ALICE, START + DAY - 1), Err(Error::TooEarly));
}

#[test]
fn restake_stamps_settlement_time() {
    let mut e = staked_engine();
    let t1 = START + DAY;
    let amount = 5 * UNIT;
    assert_eq!(e.check_add_to_staking(ALICE, amount, amount, amount), Ok(()));
    assert_eq!(e.add_to_staking(ALICE, amount, amount, amount, true, t1), Ok(()));
    assert_eq!(e.get_account_total_locked_amount(ALICE), 1005 * UNIT);
    assert_eq!(e.get_account_last_redeem(ALICE), t1);
    assert_eq!(e.get_redeemable_amount(ALICE, t1), Err(Error::TooEarly));
}

#[test]
fn stake_with_low_allowance_fails_and_changes_nothing() {
    let mut e = StakingEngine::new(MANAGER, TOKEN, START);
    let amount = 1000 * UNIT;
    assert_eq!(
        e.check_add_to_staking(ALICE, amount, amount, amount - 1),
        Err(Error::InsufficientAllowance)
    );
    assert_eq!(
        e.add_to_staking(ALICE, amount, amount, amount - 1, true, START),
        Err(Error::InsufficientAllowance)
    );
    assert_eq!(e.get_account_total_locked_amount(ALICE), 0);
    assert_eq!(e.get_amount_to_give_each_day_to_account(ALICE), 0);
    assert_eq!(e.get_account_last_redeem(ALICE), 0);
}

#[test]
fn first_stake_needs_minimum_token_balance() {
    let mut e = StakingEngine::new(MANAGER, TOKEN, START);
    let amount = 5 * UNIT;
    assert_eq!(
        e.add_to_staking(ALICE, amount, MINIMUM_STAKE_BALANCE - 1, amount, true, START),
        Err(Error::InsufficientBalance)
    );
    assert_eq!(e.get_account_total_locked_amount(ALICE), 0);
    // once staked, further stakes need no minimum balance
    let mut staked = staked_engine();
    assert_eq!(staked.add_to_staking(ALICE, amount, amount, amount, true, START + 1), Ok(()));
}

#[test]
fn stake_covering_balance_is_required() {
    let mut e = staked_engine();
    let amount = 5 * UNIT;
    assert_eq!(
        e.add_to_staking(ALICE, amount, amount - 1, amount, true, START + 1),
        Err(Error::InsufficientBalance)
    );
    assert_eq!(e.get_account_total_locked_amount(ALICE), 1000 * UNIT);
}

#[test]
fn stake_failed_transfer_changes_nothing() {
    let mut e = staked_engine();
    let amount = 5 * UNIT;
    assert_eq!(
        e.add_to_staking(ALICE, amount, amount, amount, false, START + 1),
        Err(Error::TransferFailed)
    );
    assert_eq!(e.get_account_total_locked_amount(ALICE), 1000 * UNIT);
    assert_eq!(e.get_account_last_redeem(ALICE), START);
}

#[test]
fn redeem_pays_reward_without_touching_principal() {
    let mut e = staked_engine();
    let t1 = START + DAY;
    assert_eq!(e.redeem_redeemable_amount(ALICE, true, t1), Ok(2_931_506_849_315));
    assert_eq!(e.get_account_total_locked_amount(ALICE), 1000 * UNIT);
    assert_eq!(e.get_amount_to_give_each_day_to_account(ALICE), 2_931_506_849_315);
    assert_eq!(e.get_account_last_redeem(ALICE), t1);
    assert_eq!(e.get_redeemable_amount(ALICE, t1), Err(Error::TooEarly));
}

#[test]
fn redeem_propagates_query_failures_and_transfer_failure() {
    let mut e = staked_engine();
    assert_eq!(e.redeem_redeemable_amount(ALICE, true, START), Err(Error::TooEarly));
    assert_eq!(
        e.redeem_redeemable_amount(ALICE, false, START + DAY),
        Err(Error::TransferFailed)
    );
    assert_eq!(e.get_account_last_redeem(ALICE), START);
    assert_eq!(
        e.redeem_redeemable_amount(BOB, true, START + DAY),
        Err(Error::NothingStaked)
    );
}

#[test]
fn auto_stack_compounds_the_reward() {
    let mut e = staked_engine();
    let t2 = START + 2 * DAY;
    let reward = 2 * 2_931_506_849_315u128;
    assert_eq!(e.auto_stack(ALICE, t2), Ok(()));
    let new_balance = 1000 * UNIT + reward;
    assert_eq!(e.get_account_total_locked_amount(ALICE), new_balance);
    let expected_rate = (new_balance + new_balance * 7 / 100) / 365;
    assert_eq!(e.get_amount_to_give_each_day_to_account(ALICE), expected_rate);
    assert_eq!(e.get_account_last_redeem(ALICE), t2);
}

#[test]
fn auto_stack_rejects_unrepresentable_growth() {
    let mut e = StakingEngine::new(MANAGER, TOKEN, START);
    let amount = u128::MAX / 7;
    assert_eq!(e.add_to_staking(ALICE, amount, amount, amount, true, START), Ok(()));
    // compounding any reward would push the balance past what the rate
    // computation can represent
    assert_eq!(e.auto_stack(ALICE, START + DAY), Err(Error::ArithmeticOverflow));
    assert_eq!(e.get_account_total_locked_amount(ALICE), amount);
    assert_eq!(e.get_account_last_redeem(ALICE), START);
}

#[test]
fn stake_past_representable_balance_fails() {
    let mut e = StakingEngine::new(MANAGER, TOKEN, START);
    let amount = u128::MAX / 7;
    assert_eq!(e.add_to_staking(ALICE, amount, amount, amount, true, START), Ok(()));
    assert_eq!(
        e.check_add_to_staking(ALICE, amount, u128::MAX, u128::MAX),
        Err(Error::ArithmeticOverflow)
    );
    assert_eq!(
        e.add_to_staking(ALICE, amount, u128::MAX, u128::MAX, true, START + 1),
        Err(Error::ArithmeticOverflow)
    );
    assert_eq!(e.get_account_total_locked_amount(ALICE), amount);
}

#[test]
fn withdraw_more_than_covered_fails_and_changes_nothing() {
    let mut e = staked_engine();
    let t1 = START + DAY;
    let covered = 1000 * UNIT + 2_931_506_849_315;
    assert_eq!(
        e.check_withdraw_specific_amount(ALICE, covered + 1, t1),
        Err(Error::InsufficientBalance)
    );
    assert_eq!(
        e.withdraw_specific_amount(ALICE, covered + 1, true, t1),
        Err(Error::InsufficientBalance)
    );
    assert_eq!(e.get_account_total_locked_amount(ALICE), 1000 * UNIT);
    assert_eq!(e.get_account_last_redeem(ALICE), START);
}

#[test]
fn withdraw_part_of_the_principal() {
    let mut e = staked_engine();
    let t1 = START + DAY;
    assert_eq!(e.check_withdraw_specific_amount(ALICE, 400 * UNIT, t1), Ok(()));
    assert_eq!(e.withdraw_specific_amount(ALICE, 400 * UNIT, true, t1), Ok(()));
    let remaining = 600 * UNIT;
    assert_eq!(e.get_account_total_locked_amount(ALICE), remaining);
    let expected_rate = (remaining + remaining * 7 / 100) / 365;
    assert_eq!(e.get_amount_to_give_each_day_to_account(ALICE), expected_rate);
    assert_eq!(e.get_account_last_redeem(ALICE), t1);
}

#[test]
fn withdraw_failed_transfer_keeps_the_principal() {
    let mut e = staked_engine();
    let t1 = START + DAY;
    assert_eq!(
        e.withdraw_specific_amount(ALICE, 400 * UNIT, false, t1),
        Err(Error::TransferFailed)
    );
    assert_eq!(e.get_account_total_locked_amount(ALICE), 1000 * UNIT);
    assert_eq!(e.get_account_last_redeem(ALICE), START);
}

#[test]
fn withdraw_everything_empties_the_account() {
    let mut e = staked_engine();
    let t1 = START + DAY;
    let covered = 1000 * UNIT + 2_931_506_849_315;
    assert_eq!(e.withdraw_specific_amount(ALICE, covered, true, t1), Ok(()));
    assert_eq!(e.get_account_total_locked_amount(ALICE), 0);
    assert_eq!(e.get_amount_to_give_each_day_to_account(ALICE), 0);
    assert_eq!(e.get_account_last_redeem(ALICE), t1);
    // back to the unstaked state: a fresh stake needs the minimum balance again
    assert_eq!(
        e.add_to_staking(ALICE, 5 * UNIT, 5 * UNIT, 5 * UNIT, true, t1 + 1),
        Err(Error::InsufficientBalance)
    );
}

#[test]
fn read_only_queries_are_idempotent() {
    let e = staked_engine();
    let t1 = START + DAY;
    assert_eq!(
        e.get_redeemable_amount(ALICE, t1),
        e.get_redeemable_amount(ALICE, t1)
    );
    assert_eq!(
        e.get_account_total_locked_amount(ALICE),
        e.get_account_total_locked_amount(ALICE)
    );
    assert_eq!(e.get_account_last_redeem(ALICE), e.get_account_last_redeem(ALICE));
    assert_eq!(
        e.get_amount_to_give_each_day_to_account(ALICE),
        e.get_amount_to_give_each_day_to_account(ALICE)
    );
    assert_eq!(e.get_started_date(), e.get_started_date());
    assert_eq!(e.get_days_passed_since_issue(t1), e.get_days_passed_since_issue(t1));
}

#[test]
fn accounts_are_independent() {
    let mut e = staked_engine();
    let amount = 2000 * UNIT;
    assert_eq!(e.add_to_staking(BOB, amount, amount, amount, true, START + 5), Ok(()));
    assert_eq!(e.get_account_total_locked_amount(ALICE), 1000 * UNIT);
    assert_eq!(e.get_account_last_redeem(ALICE), START);
    assert_eq!(e.get_account_total_locked_amount(BOB), amount);
    let t1 = START + 5 + DAY;
    assert_eq!(e.redeem_redeemable_amount(BOB, true, t1).is_ok(), true);
    assert_eq!(e.get_account_last_redeem(ALICE), START);
}
