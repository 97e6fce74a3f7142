//! Laws of the reward model and of the records.

use vstd::prelude::*;

use crate::error::StakingError;
use crate::pubkey::Pubkey;
use crate::rewards;
use crate::rewards::ACC_PRECISION;
use crate::state::{Pool, StakeAccount};
use crate::transitions;

verus! {

/// For a time span that is not negative the reward is the plain formula.
proof fn lemma_reward_formula(amount: int, elapsed: int, rate: int)
    requires
        elapsed >= 0,
    ensures
        rewards::reward(amount, elapsed, rate) == (amount * elapsed * rate) / (
        ACC_PRECISION as int),
{
    if elapsed == 0 {
        assert(amount * 0 * rate == 0) by (nonlinear_arith);
    }
}

/// Rewards grow with the balance, the time and the rate, and are never negative.
pub proof fn law_rewards_grow(
    amount: int,
    elapsed: int,
    rate: int,
    amount2: int,
    elapsed2: int,
    rate2: int,
)
    requires
        0 <= amount <= amount2,
        elapsed <= elapsed2,
        0 <= rate <= rate2,
    ensures
        0 <= rewards::reward(amount, elapsed, rate) <= rewards::reward(amount2, elapsed2, rate2),
{
    let e: int = if elapsed < 0 { 0 } else { elapsed };
    let e2: int = if elapsed2 < 0 { 0 } else { elapsed2 };
    lemma_reward_formula(amount, e, rate);
    lemma_reward_formula(amount2, e2, rate2);
    assert(0 <= amount * e * rate <= amount2 * e2 * rate2) by (nonlinear_arith)
        requires
            0 <= amount <= amount2,
            0 <= e <= e2,
            0 <= rate <= rate2,
    ;
}

/// Rewards are proportional to time up to rounding: settling in between never pays more than
/// settling once, and less by at most one unit.
pub proof fn law_rewards_add_over_time(amount: int, first: int, second: int, rate: int)
    requires
        amount >= 0,
        first >= 0,
        second >= 0,
        rate >= 0,
    ensures
        ({
            let split = rewards::reward(amount, first, rate) + rewards::reward(
                amount,
                second,
                rate,
            );
            split <= rewards::reward(amount, first + second, rate) <= split + 1
        }),
{
    lemma_reward_formula(amount, first, rate);
    lemma_reward_formula(amount, second, rate);
    lemma_reward_formula(amount, first + second, rate);
    assert(amount * (first + second) * rate == amount * first * rate + amount * second * rate)
        by (nonlinear_arith);
}

/// Rewards are proportional to the balance up to rounding: splitting a balance never pays more
/// than keeping it whole, and less by at most one unit.
pub proof fn law_rewards_add_over_balances(first: int, second: int, elapsed: int, rate: int)
    requires
        first >= 0,
        second >= 0,
        rate >= 0,
    ensures
        ({
            let split = rewards::reward(first, elapsed, rate) + rewards::reward(
                second,
                elapsed,
                rate,
            );
            split <= rewards::reward(first + second, elapsed, rate) <= split + 1
        }),
{
    assert((first + second) * elapsed * rate == first * elapsed * rate + second * elapsed * rate)
        by (nonlinear_arith);
}

/// Settling again at the same moment changes nothing.
pub proof fn law_settling_is_idempotent(account: StakeAccount, rate: u64, now: i64)
    ensures
        rewards::settled(account, rate, now) matches Ok(after) ==> rewards::settled(
            after,
            rate,
            now,
        ) == Ok::<StakeAccount, StakingError>(after),
{
}

/// A settlement banks what is owed at that moment and keeps the balance: from then on the
/// account is owed what it was owed, and what its balance earns from that moment.
pub proof fn law_settling_keeps_what_is_owed(account: StakeAccount, rate: u64, now: i64, later: int)
    ensures
        rewards::settled(account, rate, now) matches Ok(after) ==> {
            &&& after.amount == account.amount
            &&& after.reward_debt == rewards::owed(account, rate, now as int)
            &&& rewards::owed(after, rate, later) == rewards::owed(account, rate, now as int)
                + rewards::reward(account.amount as int, later - now, rate as int)
        },
{
    law_rewards_grow(
        account.amount as int,
        now - account.last_update,
        rate as int,
        account.amount as int,
        now - account.last_update,
        rate as int,
    );
}

/// While the clock runs forward, a settlement in between never raises what is owed later, and
/// lowers it by at most one unit.
pub proof fn law_early_settlement_costs_at_most_one_unit(
    account: StakeAccount,
    rate: u64,
    now: i64,
    later: int,
)
    requires
        account.last_update <= now <= later,
    ensures
        rewards::settled(account, rate, now) matches Ok(after) ==> rewards::owed(after, rate, later)
            <= rewards::owed(account, rate, later) <= rewards::owed(after, rate, later) + 1,
{
    law_settling_keeps_what_is_owed(account, rate, now, later);
    law_rewards_add_over_time(
        account.amount as int,
        now - account.last_update,
        later - now,
        rate as int,
    );
}

/// Staking settles first, so that it never reprices the past: at that moment the account is owed
/// what it was owed before, and from then on the new balance earns. Balance and total grow by
/// the amount staked.
pub proof fn law_stake_keeps_what_is_owed(
    account: StakeAccount,
    pool: Pool,
    user: Pubkey,
    pool_key: Pubkey,
    bump: u8,
    amount: u64,
    now: i64,
    later: int,
)
    requires
        account.wf(),
    ensures
        transitions::staked(
            transitions::opened(account, user, pool_key, bump, now),
            pool,
            amount,
            now,
        ) matches Ok((after, pool_after)) ==> {
            &&& after.amount == account.amount + amount
            &&& pool_after.total_staked == pool.total_staked + amount
            &&& rewards::owed(after, pool.reward_rate, now as int) == rewards::owed(
                account,
                pool.reward_rate,
                now as int,
            )
            &&& rewards::owed(after, pool.reward_rate, later) == rewards::owed(
                account,
                pool.reward_rate,
                now as int,
            ) + rewards::reward(account.amount + amount, later - now, pool.reward_rate as int)
        },
{
    let found = transitions::opened(account, user, pool_key, bump, now);
    law_settling_keeps_what_is_owed(found, pool.reward_rate, now, later);
    if account.owner.is_default() {
        rewards::lemma_no_balance_no_reward(
            now - account.last_update,
            pool.reward_rate as int,
        );
    }
}

/// Unstaking settles first, so that it never reprices the past: at that moment the account is
/// owed what it was owed before, and from then on what is left of the balance earns. Balance and
/// total shrink by the amount withdrawn.
pub proof fn law_unstake_keeps_what_is_owed(
    account: StakeAccount,
    pool: Pool,
    amount: u64,
    now: i64,
    later: int,
)
    ensures
        transitions::unstaked(account, pool, amount, now) matches Ok((after, pool_after)) ==> {
            &&& after.amount == account.amount - amount
            &&& pool_after.total_staked == pool.total_staked - amount
            &&& rewards::owed(after, pool.reward_rate, now as int) == rewards::owed(
                account,
                pool.reward_rate,
                now as int,
            )
            &&& rewards::owed(after, pool.reward_rate, later) == rewards::owed(
                account,
                pool.reward_rate,
                now as int,
            ) + rewards::reward(account.amount - amount, later - now, pool.reward_rate as int)
        },
{
    law_settling_keeps_what_is_owed(account, pool.reward_rate, now, later);
}

/// A claim pays exactly what is owed at that moment, leaves the balance alone, and leaves nothing
/// owed but what the balance earns from then on.
pub proof fn law_claim_pays_what_is_owed(account: StakeAccount, rate: u64, now: i64, later: int)
    ensures
        transitions::claimed(account, rate, now) matches Ok((after, paid)) ==> {
            &&& paid == rewards::owed(account, rate, now as int)
            &&& paid > 0
            &&& after.amount == account.amount
            &&& rewards::owed(after, rate, later) == rewards::reward(
                account.amount as int,
                later - now,
                rate as int,
            )
        },
{
    law_settling_keeps_what_is_owed(account, rate, now, later);
}

/// A first stake earns from that moment on only, whatever the untouched record holds.
pub proof fn law_first_stake_earns_from_now_on(
    account: StakeAccount,
    pool: Pool,
    user: Pubkey,
    pool_key: Pubkey,
    bump: u8,
    amount: u64,
    now: i64,
    later: int,
)
    requires
        account.owner.is_default(),
    ensures
        transitions::staked(
            transitions::opened(account, user, pool_key, bump, now),
            pool,
            amount,
            now,
        ) matches Ok((after, _)) ==> {
            &&& after.owner == user
            &&& after.pool == pool_key
            &&& after.bump == bump
            &&& after.amount == amount
            &&& after.reward_debt == 0
            &&& rewards::owed(after, pool.reward_rate, later) == rewards::reward(
                amount as int,
                later - now,
                pool.reward_rate as int,
            )
        },
{
}

/// Withdrawing a stake at the moment it is made undoes it: the pool is as before, and the
/// account is the one a mere settlement gives.
pub proof fn law_unstake_undoes_stake(account: StakeAccount, pool: Pool, amount: u64, now: i64)
    ensures
        transitions::staked(account, pool, amount, now) matches Ok((after, pool_after)) ==> (
        rewards::settled(account, pool.reward_rate, now) matches Ok(settled)
            && transitions::unstaked(after, pool_after, amount, now) == Ok::<
            (StakeAccount, Pool),
            StakingError,
        >((settled, pool))),
{
    if let Ok((after, pool_after)) = transitions::staked(account, pool, amount, now) {
        law_settling_is_idempotent(account, pool.reward_rate, now);
        assert(transitions::unstaked(after, pool_after, amount, now) is Ok);
    }
}

/// Staking or unstaking nothing, unstaking more than the balance, and claiming when nothing is
/// owed are refused.
pub proof fn law_refusals(account: StakeAccount, pool: Pool, amount: u64, now: i64)
    ensures
        transitions::staked(account, pool, 0, now) == Err::<(StakeAccount, Pool), StakingError>(
            StakingError::ZeroAmount,
        ),
        transitions::unstaked(account, pool, 0, now) == Err::<(StakeAccount, Pool), StakingError>(
            StakingError::ZeroAmount,
        ),
        amount > account.amount ==> transitions::unstaked(account, pool, amount, now) == Err::<
            (StakeAccount, Pool),
            StakingError,
        >(StakingError::InsufficientStake),
        rewards::settled(account, pool.reward_rate, now) is Ok && rewards::owed(
            account,
            pool.reward_rate,
            now as int,
        ) == 0 ==> transitions::claimed(account, pool.reward_rate, now) == Err::<
            (StakeAccount, u64),
            StakingError,
        >(StakingError::NothingToClaim),
{
}

/// No instruction changes whose account it is, and none but the deposits and withdrawals changes
/// the pool; of the pool those change the total alone.
pub proof fn law_identities_are_kept(account: StakeAccount, pool: Pool, amount: u64, now: i64)
    ensures
        transitions::staked(account, pool, amount, now) matches Ok((after, pool_after)) ==> {
            &&& after.owner == account.owner && after.pool == account.pool && after.bump
                == account.bump
            &&& pool_after == (Pool { total_staked: pool_after.total_staked, ..pool })
        },
        transitions::unstaked(account, pool, amount, now) matches Ok((after, pool_after)) ==> {
            &&& after.owner == account.owner && after.pool == account.pool && after.bump
                == account.bump
            &&& pool_after == (Pool { total_staked: pool_after.total_staked, ..pool })
        },
        transitions::claimed(account, pool.reward_rate, now) matches Ok((after, _)) ==> {
            &&& after.owner == account.owner && after.pool == account.pool && after.bump
                == account.bump
        },
{
}

} // verus!
