//! The reward formula, settlement and its refusals.

use staking_rewards::error::StakingError;
use staking_rewards::pubkey::Pubkey;
use staking_rewards::rewards::{settle_rewards, ACC_PRECISION};
use staking_rewards::state::StakeAccount;

fn account(amount: u64, reward_debt: u64, last_update: i64) -> StakeAccount {
    StakeAccount {
        owner: Pubkey { bytes: [9; 32] },
        pool: Pubkey { bytes: [8; 32] },
        amount,
        reward_debt,
        last_update,
        bump: 251,
    }
}

#[test]
fn banks_the_formula_rounded_down() {
    assert_eq!(ACC_PRECISION, 1_000_000_000_000);
    // 1_234_567 * 89 * 5_000_000_000 / 1e12 = 549_382.315
    let mut a = account(1_234_567, 10, 1_000);
    assert_eq!(settle_rewards(&mut a, 5_000_000_000, 1_089), Ok(()));
    assert_eq!(a, account(1_234_567, 549_392, 1_089));
}

#[test]
fn banks_less_than_one_unit_as_nothing() {
    let mut a = account(999_999, 0, 0);
    assert_eq!(settle_rewards(&mut a, 1_000_000, 1), Ok(()));
    assert_eq!(a.reward_debt, 0);
    assert_eq!(a.last_update, 1);
}

#[test]
fn empty_balance_earns_nothing() {
    let mut a = account(0, 5, 0);
    assert_eq!(settle_rewards(&mut a, u64::MAX, i64::MAX), Ok(()));
    assert_eq!(a.reward_debt, 5);
    assert_eq!(a.last_update, i64::MAX);
}

#[test]
fn settling_twice_at_once_is_settling_once() {
    let mut a = account(1_000_000, 0, 0);
    settle_rewards(&mut a, 1_000_000, 100).unwrap();
    let once = a;
    settle_rewards(&mut a, 1_000_000, 100).unwrap();
    assert_eq!(a, once);
    assert_eq!(a.reward_debt, 100);
}

#[test]
fn settling_in_between_loses_at_most_one_unit() {
    let mut whole = account(1_500_000, 0, 0);
    settle_rewards(&mut whole, 1_000_000, 2).unwrap();
    assert_eq!(whole.reward_debt, 3);
    let mut split = account(1_500_000, 0, 0);
    settle_rewards(&mut split, 1_000_000, 1).unwrap();
    settle_rewards(&mut split, 1_000_000, 2).unwrap();
    assert_eq!(split.reward_debt, 2);
}

#[test]
fn clock_running_backwards_earns_nothing_and_is_followed() {
    let mut a = account(1_000_000, 7, 100);
    assert_eq!(settle_rewards(&mut a, 1_000_000, 40), Ok(()));
    assert_eq!(a.reward_debt, 7);
    assert_eq!(a.last_update, 40);
}

#[test]
fn refuses_a_time_span_that_does_not_fit() {
    let mut a = account(1, 0, i64::MIN);
    let before = a;
    assert_eq!(settle_rewards(&mut a, 1, 0), Err(StakingError::MathOverflow));
    assert_eq!(a, before);
    let mut b = account(1, 0, i64::MAX);
    assert_eq!(settle_rewards(&mut b, 1, -2), Err(StakingError::MathOverflow));
}

#[test]
fn refuses_a_product_that_does_not_fit() {
    let mut a = account(u64::MAX, 0, 0);
    let before = a;
    assert_eq!(settle_rewards(&mut a, u64::MAX, i64::MAX), Err(StakingError::MathOverflow));
    assert_eq!(a, before);
}

#[test]
fn refuses_a_reward_wider_than_64_bits() {
    // 2^64 - 1 tokens for 2 seconds at a rate of one per token and second.
    let mut a = account(u64::MAX, 0, 0);
    let before = a;
    assert_eq!(settle_rewards(&mut a, 1_000_000_000_000, 2), Err(StakingError::MathOverflow));
    assert_eq!(a, before);
    // For one second the reward just fits.
    assert_eq!(settle_rewards(&mut a, 1_000_000_000_000, 1), Ok(()));
    assert_eq!(a.reward_debt, u64::MAX);
}

#[test]
fn refuses_a_banked_sum_that_does_not_fit() {
    let mut a = account(1_000_000, u64::MAX - 99, 0);
    let before = a;
    assert_eq!(settle_rewards(&mut a, 1_000_000, 100), Err(StakingError::MathOverflow));
    assert_eq!(a, before);
    assert_eq!(settle_rewards(&mut a, 1_000_000, 99), Ok(()));
    assert_eq!(a.reward_debt, u64::MAX);
}

#[test]
fn messages() {
    assert_eq!(StakingError::ZeroAmount.message(), "Amount must be greater than zero");
    assert_eq!(StakingError::InsufficientStake.message(), "Insufficient staked balance");
    assert_eq!(StakingError::NothingToClaim.message(), "No rewards to claim");
    assert_eq!(StakingError::MathOverflow.message(), "Arithmetic overflow");
}
