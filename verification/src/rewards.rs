//! How rewards accrue.
//!
//! A balance earns `amount * elapsed_seconds * reward_rate / ACC_PRECISION`, rounded down.
//! What was earned since the last settlement is banked in the stake account before its
//! balance changes.

use vstd::prelude::*;

use crate::error::StakingError;
use crate::state::StakeAccount;

verus! {

/// The fixed-point scale of `reward_rate`.
pub const ACC_PRECISION: u128 = 1_000_000_000_000;

/// What a balance of `amount` earns in `elapsed` seconds at `rate`; nothing when the clock
/// stands still or runs backwards.
pub open spec fn reward(amount: int, elapsed: int, rate: int) -> int {
    if elapsed <= 0 {
        0
    } else {
        (amount * elapsed * rate) / (ACC_PRECISION as int)
    }
}

/// What `account` has earned by `now` and not yet banked.
pub open spec fn accrued(account: StakeAccount, rate: u64, now: int) -> int {
    reward(account.amount as int, now - account.last_update, rate as int)
}

/// What `account` could claim at `now`: the banked rewards and those not yet banked.
pub open spec fn owed(account: StakeAccount, rate: u64, now: int) -> int {
    account.reward_debt + accrued(account, rate, now)
}

/// `account` after a settlement at `now`. A settlement is refused when the time since the last
/// one does not fit in 64 bits, or when what is owed does not.
pub open spec fn settled(account: StakeAccount, rate: u64, now: i64) -> Result<
    StakeAccount,
    StakingError,
> {
    if now - account.last_update < i64::MIN || now - account.last_update > i64::MAX {
        Err(StakingError::MathOverflow)
    } else if owed(account, rate, now as int) > u64::MAX {
        Err(StakingError::MathOverflow)
    } else {
        Ok(
            StakeAccount {
                reward_debt: owed(account, rate, now as int) as u64,
                last_update: now,
                ..account
            },
        )
    }
}

/// Banks what `stake_account` has earned up to `now`.
pub fn settle_rewards(stake_account: &mut StakeAccount, reward_rate: u64, now: i64) -> (r: Result<
    (),
    StakingError,
>)
    ensures
        match settled(*old(stake_account), reward_rate, now) {
            Ok(account) => r == Ok::<(), StakingError>(()) && *final(stake_account) == account,
            Err(e) => r == Err::<(), StakingError>(e) && *final(stake_account) == *old(
                stake_account,
            ),
        },
        ({
            let before = *old(stake_account);
            let after = *final(stake_account);
            let passed: int = now - before.last_update;
            let counted: int = if passed > 0 {
                passed
            } else {
                0
            };
            let due: int = before.reward_debt + (before.amount * counted * reward_rate)
                / 1_000_000_000_000;
            &&& r is Ok <==> i64::MIN <= passed <= i64::MAX && due <= u64::MAX
            &&& r is Ok ==> after.reward_debt == due && after.last_update == now
            &&& r is Err ==> r == Err::<(), StakingError>(StakingError::MathOverflow) && after
                == before
            &&& after.amount == before.amount && after.owner == before.owner && after.pool
                == before.pool && after.bump == before.bump
        }),
{
    proof {
        law_settlement(*stake_account, reward_rate, now);
    }
    let elapsed: i64 = match now.checked_sub(stake_account.last_update) {
        Some(v) => v,
        None => return Err(StakingError::MathOverflow),
    };
    if elapsed > 0 && stake_account.amount > 0 {
        let amount: u64 = stake_account.amount;
        let base: u128 = match (amount as u128).checked_mul(elapsed as u128) {
            Some(v) => v,
            None => {
                proof {
                    lemma_base_fits(amount, elapsed);
                }
                return Err(StakingError::MathOverflow);
            },
        };
        let scaled: u128 = match base.checked_mul(reward_rate as u128) {
            Some(v) => v,
            None => {
                return Err(StakingError::MathOverflow);
            },
        };
        let earned: u128 = scaled / ACC_PRECISION;
        if earned > u64::MAX as u128 {
            return Err(StakingError::MathOverflow);
        }
        stake_account.reward_debt = match stake_account.reward_debt.checked_add(earned as u64) {
            Some(v) => v,
            None => return Err(StakingError::MathOverflow),
        };
    }
    proof {
        if old(stake_account).amount == 0 {
            lemma_no_balance_no_reward(elapsed as int, reward_rate as int);
        }
    }
    stake_account.last_update = now;
    Ok(())
}

/// A settlement succeeds exactly when the time since the last one fits in 64 bits and the banked
/// rewards, with what the balance earned in that time, do too; it fails with `MathOverflow`
/// otherwise. It banks just that sum, moves the time, and changes nothing else.
pub proof fn law_settlement(account: StakeAccount, rate: u64, now: i64)
    ensures
        ({
            let passed: int = now - account.last_update;
            let counted: int = if passed > 0 {
                passed
            } else {
                0
            };
            let due: int = account.reward_debt + (account.amount * counted * rate)
                / 1_000_000_000_000;
            let fits = i64::MIN <= passed <= i64::MAX && due <= u64::MAX;
            match settled(account, rate, now) {
                Ok(after) => {
                    &&& fits
                    &&& after.reward_debt == due
                    &&& after.last_update == now
                    &&& after.amount == account.amount
                    &&& after.owner == account.owner
                    &&& after.pool == account.pool
                    &&& after.bump == account.bump
                },
                Err(e) => !fits && e == StakingError::MathOverflow,
            }
        }),
{
    law_owed_formula(account, rate, now as int);
}

/// What is owed at `now` is what is banked, and the balance times the seconds since the last
/// settlement times the rate, scaled down; it is never negative.
pub proof fn law_owed_formula(account: StakeAccount, rate: u64, now: int)
    ensures
        ({
            let passed: int = now - account.last_update;
            let counted: int = if passed > 0 {
                passed
            } else {
                0
            };
            0 <= account.reward_debt <= owed(account, rate, now) == account.reward_debt + (
            account.amount * counted * rate) / 1_000_000_000_000
        }),
{
    let passed: int = now - account.last_update;
    let counted: int = if passed > 0 {
        passed
    } else {
        0
    };
    assert(account.amount * 0 * rate == 0) by (nonlinear_arith);
    assert(0 <= account.amount * counted * rate) by (nonlinear_arith)
        requires
            0 <= counted,
            0 <= account.amount,
            0 <= rate,
    ;
}

/// An empty balance earns nothing.
pub proof fn lemma_no_balance_no_reward(elapsed: int, rate: int)
    ensures
        reward(0, elapsed, rate) == 0,
{
    assert(0 * elapsed * rate == 0) by (nonlinear_arith);
}

/// The product of a balance and a time span always fits in 128 bits.
proof fn lemma_base_fits(amount: u64, elapsed: i64)
    requires
        elapsed >= 0,
    ensures
        0 <= amount * elapsed <= u128::MAX,
{
    assert(0 <= amount * elapsed <= u64::MAX * i64::MAX) by (nonlinear_arith)
        requires
            0 <= amount <= u64::MAX,
            0 <= elapsed <= i64::MAX,
    ;
}

} // verus!
