//! How the instructions change the records of a pool and of a stake account.

use vstd::prelude::*;

use crate::error::StakingError;
use crate::pubkey::Pubkey;
use crate::rewards;
use crate::state::{Pool, StakeAccount};

verus! {

/// A stake account as `stake` finds it: one without an owner becomes the user's, empty.
pub open spec fn opened(
    account: StakeAccount,
    user: Pubkey,
    pool: Pubkey,
    bump: u8,
    now: i64,
) -> StakeAccount {
    if account.owner.is_default() {
        StakeAccount { owner: user, pool, amount: 0, reward_debt: 0, last_update: now, bump }
    } else {
        account
    }
}

/// An account settled for a deposit of `amount`, before the deposit counts.
pub open spec fn prepared(account: StakeAccount, rate: u64, amount: u64, now: i64) -> Result<
    StakeAccount,
    StakingError,
> {
    if amount == 0 {
        Err(StakingError::ZeroAmount)
    } else {
        rewards::settled(account, rate, now)
    }
}

/// The records once a deposit of `amount` counts.
pub open spec fn deposited(account: StakeAccount, pool: Pool, amount: u64) -> Result<
    (StakeAccount, Pool),
    StakingError,
> {
    if account.amount + amount > u64::MAX || pool.total_staked + amount > u64::MAX {
        Err(StakingError::MathOverflow)
    } else {
        Ok(
            (
                StakeAccount { amount: (account.amount + amount) as u64, ..account },
                Pool { total_staked: (pool.total_staked + amount) as u64, ..pool },
            ),
        )
    }
}

/// The records after the whole of a stake of `amount`.
pub open spec fn staked(account: StakeAccount, pool: Pool, amount: u64, now: i64) -> Result<
    (StakeAccount, Pool),
    StakingError,
> {
    match prepared(account, pool.reward_rate, amount, now) {
        Ok(settled) => deposited(settled, pool, amount),
        Err(e) => Err(e),
    }
}

/// The records after a withdrawal of `amount`.
pub open spec fn unstaked(account: StakeAccount, pool: Pool, amount: u64, now: i64) -> Result<
    (StakeAccount, Pool),
    StakingError,
> {
    if amount == 0 {
        Err(StakingError::ZeroAmount)
    } else if account.amount < amount {
        Err(StakingError::InsufficientStake)
    } else {
        match rewards::settled(account, pool.reward_rate, now) {
            Err(e) => Err(e),
            Ok(settled) => if pool.total_staked < amount {
                Err(StakingError::MathOverflow)
            } else {
                Ok(
                    (
                        StakeAccount { amount: (settled.amount - amount) as u64, ..settled },
                        Pool { total_staked: (pool.total_staked - amount) as u64, ..pool },
                    ),
                )
            },
        }
    }
}

/// The account after a claim, and what the claim pays.
pub open spec fn claimed(account: StakeAccount, rate: u64, now: i64) -> Result<
    (StakeAccount, u64),
    StakingError,
> {
    match rewards::settled(account, rate, now) {
        Err(e) => Err(e),
        Ok(settled) => if settled.reward_debt == 0 {
            Err(StakingError::NothingToClaim)
        } else {
            Ok((StakeAccount { reward_debt: 0, ..settled }, settled.reward_debt))
        },
    }
}

} // verus!
