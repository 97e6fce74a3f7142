//! What the instructions do once their accounts have passed the rules.
//!
//! An instruction computes the new records and the token transfer to be made. On refusal it
//! leaves the records as they were. `stake` counts the deposit only after the transfer went
//! through, which `stake_transferred` does.

use vstd::prelude::*;

use crate::accounts::{
    Claim, FundRewards, InitializePool, InitializePoolBumps, PoolAccount, Stake, StakeBumps,
    Unstake, UserAccount,
};
use crate::address::PoolSigner;
use crate::error::StakingError;
use crate::pubkey::Pubkey;
use crate::rewards::settle_rewards;
use crate::state::{Pool, StakeAccount};
use crate::transitions;

verus! {

/// A transfer for the token program to make.
#[derive(Clone, Copy, Debug, PartialEq, Eq)]
pub struct TokenTransfer {
    pub token_program: Pubkey,
    pub from: Pubkey,
    pub to: Pubkey,
    pub authority: Pubkey,
    pub amount: u64,
    /// What the program signs with for `authority`; `None` where the authority has signed the
    /// transaction itself.
    pub signer: Option<PoolSigner>,
}

/// The record of a new pool: empty, at a fixed rate.
pub open spec fn new_pool(
    ctx: InitializePool,
    bumps: InitializePoolBumps,
    reward_rate: u64,
) -> Pool {
    Pool {
        admin: ctx.admin.key,
        stake_mint: ctx.stake_mint,
        reward_mint: ctx.reward_mint,
        stake_vault: ctx.stake_vault.key,
        reward_vault: ctx.reward_vault.key,
        reward_rate,
        total_staked: 0,
        bump: bumps.pool,
    }
}

/// The transfer that funds the reward vault.
pub open spec fn funding(ctx: FundRewards, amount: u64) -> TokenTransfer {
    TokenTransfer {
        token_program: ctx.token_program.key,
        from: ctx.admin_reward_account.key,
        to: ctx.reward_vault.key,
        authority: ctx.admin.key,
        amount,
        signer: None,
    }
}

/// What `stake` asks of its amount before it looks at the time.
pub open spec fn stake_admission(amount: u64) -> Result<(), StakingError> {
    if amount == 0 {
        Err(StakingError::ZeroAmount)
    } else {
        Ok(())
    }
}

/// What `unstake` asks of its amount before it looks at the time.
pub open spec fn unstake_admission(ctx: Unstake, amount: u64) -> Result<(), StakingError> {
    if amount == 0 {
        Err(StakingError::ZeroAmount)
    } else if ctx.stake_account.data.amount < amount {
        Err(StakingError::InsufficientStake)
    } else {
        Ok(())
    }
}

/// The first half of `stake`: the settled account, and the deposit to be transferred.
pub open spec fn stake_outcome(ctx: Stake, bumps: StakeBumps, amount: u64, now: i64) -> Result<
    (Stake, TokenTransfer),
    StakingError,
> {
    let account = transitions::opened(
        ctx.stake_account.data,
        ctx.user.key,
        ctx.pool.key,
        bumps.stake_account,
        now,
    );
    match transitions::prepared(account, ctx.pool.data.reward_rate, amount, now) {
        Err(e) => Err(e),
        Ok(data) => Ok(
            (
                Stake { stake_account: UserAccount { data, ..ctx.stake_account }, ..ctx },
                TokenTransfer {
                    token_program: ctx.token_program.key,
                    from: ctx.user_stake_account.key,
                    to: ctx.stake_vault.key,
                    authority: ctx.user.key,
                    amount,
                    signer: None,
                },
            ),
        ),
    }
}

/// The second half of `stake`: the deposit counts for the user and for the pool.
pub open spec fn deposit_outcome(ctx: Stake, amount: u64) -> Result<Stake, StakingError> {
    match transitions::deposited(ctx.stake_account.data, ctx.pool.data, amount) {
        Err(e) => Err(e),
        Ok((account, pool)) => Ok(
            Stake {
                stake_account: UserAccount { data: account, ..ctx.stake_account },
                pool: PoolAccount { data: pool, ..ctx.pool },
                ..ctx
            },
        ),
    }
}

/// `unstake`: the settled accounts without `amount`, and the release from the stake vault.
pub open spec fn unstake_outcome(ctx: Unstake, amount: u64, now: i64) -> Result<
    (Unstake, TokenTransfer),
    StakingError,
> {
    match transitions::unstaked(ctx.stake_account.data, ctx.pool.data, amount, now) {
        Err(e) => Err(e),
        Ok((account, pool)) => Ok(
            (
                Unstake {
                    stake_account: UserAccount { data: account, ..ctx.stake_account },
                    pool: PoolAccount { data: pool, ..ctx.pool },
                    ..ctx
                },
                TokenTransfer {
                    token_program: ctx.token_program.key,
                    from: ctx.stake_vault.key,
                    to: ctx.user_stake_account.key,
                    authority: ctx.pool.key,
                    amount,
                    signer: Some(
                        PoolSigner {
                            stake_mint: ctx.pool.data.stake_mint,
                            bump: ctx.pool.data.bump,
                        },
                    ),
                },
            ),
        ),
    }
}

/// `claim`: the settled account with nothing banked, and the payment from the reward vault.
pub open spec fn claim_outcome(ctx: Claim, now: i64) -> Result<
    (Claim, TokenTransfer),
    StakingError,
> {
    match transitions::claimed(ctx.stake_account.data, ctx.pool.data.reward_rate, now) {
        Err(e) => Err(e),
        Ok((data, reward)) => Ok(
            (
                Claim { stake_account: UserAccount { data, ..ctx.stake_account }, ..ctx },
                TokenTransfer {
                    token_program: ctx.token_program.key,
                    from: ctx.reward_vault.key,
                    to: ctx.user_reward_account.key,
                    authority: ctx.pool.key,
                    amount: reward,
                    signer: Some(
                        PoolSigner {
                            stake_mint: ctx.pool.data.stake_mint,
                            bump: ctx.pool.data.bump,
                        },
                    ),
                },
            ),
        ),
    }
}

/// Creates the pool. `reward_rate` is reward tokens per staked token per second, scaled by
/// `ACC_PRECISION`.
pub fn initialize_pool(ctx: &InitializePool, bumps: InitializePoolBumps, reward_rate: u64) -> (r:
    Result<Pool, StakingError>)
    ensures
        r == Ok::<Pool, StakingError>(new_pool(*ctx, bumps, reward_rate)),
{
    Ok(
        Pool {
            admin: ctx.admin.key,
            stake_mint: ctx.stake_mint,
            reward_mint: ctx.reward_mint,
            stake_vault: ctx.stake_vault.key,
            reward_vault: ctx.reward_vault.key,
            reward_rate,
            total_staked: 0,
            bump: bumps.pool,
        },
    )
}

/// The admin tops up the reward vault so that the pool can pay out claims.
pub fn fund_rewards(ctx: &FundRewards, amount: u64) -> (r: Result<TokenTransfer, StakingError>)
    ensures
        r == Ok::<TokenTransfer, StakingError>(funding(*ctx, amount)),
{
    Ok(
        TokenTransfer {
            token_program: ctx.token_program.key,
            from: ctx.admin_reward_account.key,
            to: ctx.reward_vault.key,
            authority: ctx.admin.key,
            amount,
            signer: None,
        },
    )
}

/// Refuses an amount that `stake` refuses at any time.
pub fn admit_stake(amount: u64) -> (r: Result<(), StakingError>)
    ensures
        r == stake_admission(amount),
{
    if amount == 0 {
        return Err(StakingError::ZeroAmount);
    }
    Ok(())
}

/// Refuses an amount that `unstake` refuses at any time.
pub fn admit_unstake(ctx: &Unstake, amount: u64) -> (r: Result<(), StakingError>)
    ensures
        r == unstake_admission(*ctx, amount),
{
    if amount == 0 {
        return Err(StakingError::ZeroAmount);
    }
    if ctx.stake_account.data.amount < amount {
        return Err(StakingError::InsufficientStake);
    }
    Ok(())
}

/// Begins to stake `amount` tokens: settles pending rewards, so that the new balance does not
/// change past accrual, and asks for the transfer.
pub fn stake(ctx: &mut Stake, bumps: StakeBumps, amount: u64, now: i64) -> (r: Result<
    TokenTransfer,
    StakingError,
>)
    ensures
        match stake_outcome(*old(ctx), bumps, amount, now) {
            Ok((after, transfer)) => r == Ok::<TokenTransfer, StakingError>(transfer) && *final(ctx)
                == after,
            Err(e) => r == Err::<TokenTransfer, StakingError>(e) && *final(ctx) == *old(ctx),
        },
{
    if let Err(e) = admit_stake(amount) {
        return Err(e);
    }
    let mut account: StakeAccount = ctx.stake_account.data;
    let nobody = Pubkey::default();
    proof {
        account.owner.lemma_view_injective(nobody);
    }
    if account.owner == nobody {
        account =
        StakeAccount {
            owner: ctx.user.key,
            pool: ctx.pool.key,
            amount: 0,
            reward_debt: 0,
            last_update: now,
            bump: bumps.stake_account,
        };
    }
    if let Err(e) = settle_rewards(&mut account, ctx.pool.data.reward_rate, now) {
        return Err(e);
    }
    ctx.stake_account.data = account;
    Ok(
        TokenTransfer {
            token_program: ctx.token_program.key,
            from: ctx.user_stake_account.key,
            to: ctx.stake_vault.key,
            authority: ctx.user.key,
            amount,
            signer: None,
        },
    )
}

/// Completes a stake whose transfer has gone through.
pub fn stake_transferred(ctx: &mut Stake, amount: u64) -> (r: Result<(), StakingError>)
    ensures
        match deposit_outcome(*old(ctx), amount) {
            Ok(after) => r == Ok::<(), StakingError>(()) && *final(ctx) == after,
            Err(e) => r == Err::<(), StakingError>(e) && *final(ctx) == *old(ctx),
        },
{
    let balance: u64 = match ctx.stake_account.data.amount.checked_add(amount) {
        Some(v) => v,
        None => return Err(StakingError::MathOverflow),
    };
    let total: u64 = match ctx.pool.data.total_staked.checked_add(amount) {
        Some(v) => v,
        None => return Err(StakingError::MathOverflow),
    };
    ctx.stake_account.data.amount = balance;
    ctx.pool.data.total_staked = total;
    Ok(())
}

/// Unstakes `amount` tokens, settling rewards first.
pub fn unstake(ctx: &mut Unstake, amount: u64, now: i64) -> (r: Result<TokenTransfer, StakingError>)
    ensures
        match unstake_outcome(*old(ctx), amount, now) {
            Ok((after, transfer)) => r == Ok::<TokenTransfer, StakingError>(transfer) && *final(ctx)
                == after,
            Err(e) => r == Err::<TokenTransfer, StakingError>(e) && *final(ctx) == *old(ctx),
        },
{
    if let Err(e) = admit_unstake(ctx, amount) {
        return Err(e);
    }
    let mut account: StakeAccount = ctx.stake_account.data;
    if let Err(e) = settle_rewards(&mut account, ctx.pool.data.reward_rate, now) {
        return Err(e);
    }
    account.amount = account.amount - amount;
    let total: u64 = match ctx.pool.data.total_staked.checked_sub(amount) {
        Some(v) => v,
        None => return Err(StakingError::MathOverflow),
    };
    ctx.stake_account.data = account;
    ctx.pool.data.total_staked = total;
    Ok(
        TokenTransfer {
            token_program: ctx.token_program.key,
            from: ctx.stake_vault.key,
            to: ctx.user_stake_account.key,
            authority: ctx.pool.key,
            amount,
            signer: Some(
                PoolSigner { stake_mint: ctx.pool.data.stake_mint, bump: ctx.pool.data.bump },
            ),
        },
    )
}

/// Claims all accrued rewards.
pub fn claim(ctx: &mut Claim, now: i64) -> (r: Result<TokenTransfer, StakingError>)
    ensures
        match claim_outcome(*old(ctx), now) {
            Ok((after, transfer)) => r == Ok::<TokenTransfer, StakingError>(transfer) && *final(ctx)
                == after,
            Err(e) => r == Err::<TokenTransfer, StakingError>(e) && *final(ctx) == *old(ctx),
        },
{
    let mut account: StakeAccount = ctx.stake_account.data;
    if let Err(e) = settle_rewards(&mut account, ctx.pool.data.reward_rate, now) {
        return Err(e);
    }
    let reward: u64 = account.reward_debt;
    if reward == 0 {
        return Err(StakingError::NothingToClaim);
    }
    account.reward_debt = 0;
    ctx.stake_account.data = account;
    Ok(
        TokenTransfer {
            token_program: ctx.token_program.key,
            from: ctx.reward_vault.key,
            to: ctx.user_reward_account.key,
            authority: ctx.pool.key,
            amount: reward,
            signer: Some(
                PoolSigner { stake_mint: ctx.pool.data.stake_mint, bump: ctx.pool.data.bump },
            ),
        },
    )
}

} // verus!
