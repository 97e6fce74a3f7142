//! The instructions as a caller meets them: the accounts are held to the rules, then the
//! instruction runs.
//!
//! The refusals of `stake` and `unstake` that hold at any time come before those that depend on
//! the clock; `admit_stake` and `admit_unstake` give them without one.
//! A `stake` is complete once its transfer has been made and `stake_transferred` has run.

use vstd::prelude::*;

use crate::accounts::{Claim, FundRewards, InitializePool, Stake, Unstake};
use crate::error::{InstructionError, StakingError};
use crate::instructions;
use crate::instructions::TokenTransfer;
use crate::state::Pool;

verus! {

/// The record of the pool that `execute_initialize_pool` creates.
pub open spec fn initialize_pool_execution(ctx: InitializePool, reward_rate: u64) -> Result<
    Pool,
    InstructionError,
> {
    match ctx.validated() {
        Err(e) => Err(InstructionError::Accounts(e)),
        Ok(bumps) => Ok(instructions::new_pool(ctx, bumps, reward_rate)),
    }
}

/// The transfer that `execute_fund_rewards` asks for.
pub open spec fn fund_rewards_execution(ctx: FundRewards, amount: u64) -> Result<
    TokenTransfer,
    InstructionError,
> {
    match ctx.validated() {
        Err(e) => Err(InstructionError::Accounts(e)),
        Ok(_) => Ok(instructions::funding(ctx, amount)),
    }
}

/// Whether `execute_stake` passes what it checks before the time, or why not.
pub open spec fn stake_admission(ctx: Stake, amount: u64) -> Result<(), InstructionError> {
    match ctx.validated() {
        Err(e) => Err(InstructionError::Accounts(e)),
        Ok(_) => match instructions::stake_admission(amount) {
            Err(e) => Err(InstructionError::Program(e)),
            Ok(_) => Ok(()),
        },
    }
}

/// Whether `execute_unstake` passes what it checks before the time, or why not.
pub open spec fn unstake_admission(ctx: Unstake, amount: u64) -> Result<(), InstructionError> {
    match ctx.validated() {
        Err(e) => Err(InstructionError::Accounts(e)),
        Ok(_) => match instructions::unstake_admission(ctx, amount) {
            Err(e) => Err(InstructionError::Program(e)),
            Ok(_) => Ok(()),
        },
    }
}

/// What `execute_stake` leaves and asks for.
pub open spec fn stake_execution(ctx: Stake, amount: u64, now: i64) -> Result<
    (Stake, TokenTransfer),
    InstructionError,
> {
    match ctx.validated() {
        Err(e) => Err(InstructionError::Accounts(e)),
        Ok(bumps) => match instructions::stake_outcome(ctx, bumps, amount, now) {
            Err(e) => Err(InstructionError::Program(e)),
            Ok(outcome) => Ok(outcome),
        },
    }
}

/// What `execute_unstake` leaves and asks for.
pub open spec fn unstake_execution(ctx: Unstake, amount: u64, now: i64) -> Result<
    (Unstake, TokenTransfer),
    InstructionError,
> {
    match ctx.validated() {
        Err(e) => Err(InstructionError::Accounts(e)),
        Ok(_) => match instructions::unstake_outcome(ctx, amount, now) {
            Err(e) => Err(InstructionError::Program(e)),
            Ok(outcome) => Ok(outcome),
        },
    }
}

/// What `execute_claim` leaves and asks for.
pub open spec fn claim_execution(ctx: Claim, now: i64) -> Result<
    (Claim, TokenTransfer),
    InstructionError,
> {
    match ctx.validated() {
        Err(e) => Err(InstructionError::Accounts(e)),
        Ok(_) => match instructions::claim_outcome(ctx, now) {
            Err(e) => Err(InstructionError::Program(e)),
            Ok(outcome) => Ok(outcome),
        },
    }
}

/// Creates a pool.
pub fn execute_initialize_pool(ctx: &InitializePool, reward_rate: u64) -> (r: Result<
    Pool,
    InstructionError,
>)
    ensures
        r == initialize_pool_execution(*ctx, reward_rate),
{
    match ctx.validate() {
        Err(e) => Err(InstructionError::Accounts(e)),
        Ok(bumps) => match instructions::initialize_pool(ctx, bumps, reward_rate) {
            Err(e) => Err(InstructionError::Program(e)),
            Ok(pool) => Ok(pool),
        },
    }
}

/// Funds the reward vault.
pub fn execute_fund_rewards(ctx: &FundRewards, amount: u64) -> (r: Result<
    TokenTransfer,
    InstructionError,
>)
    ensures
        r == fund_rewards_execution(*ctx, amount),
{
    match ctx.validate() {
        Err(e) => Err(InstructionError::Accounts(e)),
        Ok(_) => match instructions::fund_rewards(ctx, amount) {
            Err(e) => Err(InstructionError::Program(e)),
            Ok(transfer) => Ok(transfer),
        },
    }
}

/// Gives the refusals of `execute_stake` that need no clock.
pub fn admit_stake(ctx: &Stake, amount: u64) -> (r: Result<(), InstructionError>)
    ensures
        r == stake_admission(*ctx, amount),
{
    match ctx.validate() {
        Err(e) => Err(InstructionError::Accounts(e)),
        Ok(_) => match instructions::admit_stake(amount) {
            Err(e) => Err(InstructionError::Program(e)),
            Ok(_) => Ok(()),
        },
    }
}

/// Gives the refusals of `execute_unstake` that need no clock.
pub fn admit_unstake(ctx: &Unstake, amount: u64) -> (r: Result<(), InstructionError>)
    ensures
        r == unstake_admission(*ctx, amount),
{
    match ctx.validate() {
        Err(e) => Err(InstructionError::Accounts(e)),
        Ok(_) => match instructions::admit_unstake(ctx, amount) {
            Err(e) => Err(InstructionError::Program(e)),
            Ok(_) => Ok(()),
        },
    }
}

/// What is refused without a clock is refused alike at any time, and what is then still refused
/// is refused for its arithmetic.
pub proof fn law_refusals_without_a_clock_come_first(
    stake: Stake,
    unstake: Unstake,
    amount: u64,
    now: i64,
)
    ensures
        match stake_admission(stake, amount) {
            Err(e) => stake_execution(stake, amount, now) == Err::<
                (Stake, TokenTransfer),
                InstructionError,
            >(e),
            Ok(_) => stake_execution(stake, amount, now) matches Err(e) ==> e
                == InstructionError::Program(StakingError::MathOverflow),
        },
        match unstake_admission(unstake, amount) {
            Err(e) => unstake_execution(unstake, amount, now) == Err::<
                (Unstake, TokenTransfer),
                InstructionError,
            >(e),
            Ok(_) => unstake_execution(unstake, amount, now) matches Err(e) ==> e
                == InstructionError::Program(StakingError::MathOverflow),
        },
{
}

/// Begins to stake.
pub fn execute_stake(ctx: &mut Stake, amount: u64, now: i64) -> (r: Result<
    TokenTransfer,
    InstructionError,
>)
    ensures
        match stake_execution(*old(ctx), amount, now) {
            Ok((after, transfer)) => r == Ok::<TokenTransfer, InstructionError>(transfer)
                && *final(ctx) == after,
            Err(e) => r == Err::<TokenTransfer, InstructionError>(e) && *final(ctx) == *old(ctx),
        },
{
    match ctx.validate() {
        Err(e) => Err(InstructionError::Accounts(e)),
        Ok(bumps) => match instructions::stake(ctx, bumps, amount, now) {
            Err(e) => Err(InstructionError::Program(e)),
            Ok(transfer) => Ok(transfer),
        },
    }
}

/// Unstakes.
pub fn execute_unstake(ctx: &mut Unstake, amount: u64, now: i64) -> (r: Result<
    TokenTransfer,
    InstructionError,
>)
    ensures
        match unstake_execution(*old(ctx), amount, now) {
            Ok((after, transfer)) => r == Ok::<TokenTransfer, InstructionError>(transfer)
                && *final(ctx) == after,
            Err(e) => r == Err::<TokenTransfer, InstructionError>(e) && *final(ctx) == *old(ctx),
        },
{
    match ctx.validate() {
        Err(e) => Err(InstructionError::Accounts(e)),
        Ok(_) => match instructions::unstake(ctx, amount, now) {
            Err(e) => Err(InstructionError::Program(e)),
            Ok(transfer) => Ok(transfer),
        },
    }
}

/// Claims.
pub fn execute_claim(ctx: &mut Claim, now: i64) -> (r: Result<TokenTransfer, InstructionError>)
    ensures
        match claim_execution(*old(ctx), now) {
            Ok((after, transfer)) => r == Ok::<TokenTransfer, InstructionError>(transfer)
                && *final(ctx) == after,
            Err(e) => r == Err::<TokenTransfer, InstructionError>(e) && *final(ctx) == *old(ctx),
        },
{
    match ctx.validate() {
        Err(e) => Err(InstructionError::Accounts(e)),
        Ok(_) => match instructions::claim(ctx, now) {
            Err(e) => Err(InstructionError::Program(e)),
            Ok(transfer) => Ok(transfer),
        },
    }
}

} // verus!
