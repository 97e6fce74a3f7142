//! What the instructions do, stated over the accounts they take and leave.
//!
//! The laws here speak of balances, banked rewards, seconds and transfers alone: they say when an
//! instruction is accepted, what it writes, what it leaves as it was, which transfer it asks for,
//! and how one instruction relates to the next.

use vstd::prelude::*;

use crate::accounts::{
    Claim, FundRewards, InitializePool, InitializePoolBumps, PoolAccount, Stake, StakeBumps,
    Unstake, UserAccount,
};
use crate::error::{ConstraintError, InstructionError, StakingError};
use crate::instructions;
use crate::instructions::TokenTransfer;
use crate::program;
use crate::rewards;
use crate::state::Pool;
use crate::transitions;

verus! {

/// To stake is accepted exactly when the amount is not zero and the settlement fits. It banks what
/// the account was owed, from then on counts from `now`, and asks for a transfer of the amount from
/// the user to the vault. An account of nobody becomes the user's, with nothing in it.
pub proof fn law_stake(ctx: Stake, bumps: StakeBumps, amount: u64, now: i64)
    ensures
        ({
            let found = ctx.stake_account.data;
            let unowned = forall|i: int| 0 <= i < 32 ==> found.owner.bytes@[i] == 0;
            let balance: int = if unowned {
                0
            } else {
                found.amount as int
            };
            let banked: int = if unowned {
                0
            } else {
                found.reward_debt as int
            };
            let passed: int = if unowned {
                0
            } else {
                now - found.last_update
            };
            let counted: int = if passed > 0 {
                passed
            } else {
                0
            };
            let due: int = banked + (balance * counted * ctx.pool.data.reward_rate)
                / 1_000_000_000_000;
            let fits = i64::MIN <= passed <= i64::MAX && due <= u64::MAX;
            match instructions::stake_outcome(ctx, bumps, amount, now) {
                Ok((after, transfer)) => {
                    let left = after.stake_account.data;
                    &&& amount > 0 && fits
                    &&& left.amount == balance
                    &&& left.reward_debt == due
                    &&& left.last_update == now
                    &&& unowned ==> left.owner == ctx.user.key && left.pool == ctx.pool.key
                        && left.bump == bumps.stake_account
                    &&& !unowned ==> left.owner == found.owner && left.pool == found.pool
                        && left.bump == found.bump
                    &&& after == (Stake {
                        stake_account: UserAccount { data: left, ..ctx.stake_account },
                        ..ctx
                    })
                    &&& transfer.from == ctx.user_stake_account.key
                    &&& transfer.to == ctx.stake_vault.key
                    &&& transfer.authority == ctx.user.key
                    &&& transfer.amount == amount
                    &&& transfer.token_program == ctx.token_program.key
                    &&& transfer.signer is None
                },
                Err(e) => {
                    ||| amount == 0 && e == StakingError::ZeroAmount
                    ||| amount > 0 && !fits && e == StakingError::MathOverflow
                },
            }
        }),
{
    let found = ctx.stake_account.data;
    found.owner.law_default_is_all_zero();
    let opened = transitions::opened(
        found,
        ctx.user.key,
        ctx.pool.key,
        bumps.stake_account,
        now,
    );
    rewards::law_settlement(opened, ctx.pool.data.reward_rate, now);
}

/// A deposit counts exactly when the balance and the total with it fit in 64 bits: both grow by the
/// amount, and nothing else changes.
pub proof fn law_deposit(ctx: Stake, amount: u64)
    ensures
        match instructions::deposit_outcome(ctx, amount) {
            Ok(after) => {
                let left = after.stake_account.data;
                let found = ctx.stake_account.data;
                &&& left.amount == found.amount + amount
                &&& left.reward_debt == found.reward_debt
                &&& left.last_update == found.last_update
                &&& left.owner == found.owner && left.pool == found.pool && left.bump
                    == found.bump
                &&& after.pool.data.total_staked == ctx.pool.data.total_staked + amount
                &&& after.pool.data == (Pool {
                    total_staked: after.pool.data.total_staked,
                    ..ctx.pool.data
                })
                &&& after == (Stake {
                    stake_account: UserAccount { data: left, ..ctx.stake_account },
                    pool: PoolAccount { data: after.pool.data, ..ctx.pool },
                    ..ctx
                })
            },
            Err(e) => e == StakingError::MathOverflow && (ctx.stake_account.data.amount + amount
                > u64::MAX || ctx.pool.data.total_staked + amount > u64::MAX),
        },
{
}

/// To unstake is accepted exactly when the amount is neither zero nor more than the balance or the
/// total, and the settlement fits. It banks what the account was owed, whatever is left of the
/// balance, lowers balance and total by the amount, and asks for a transfer of the amount from the
/// vault to the user.
pub proof fn law_unstake(ctx: Unstake, amount: u64, now: i64)
    ensures
        ({
            let found = ctx.stake_account.data;
            let passed: int = now - found.last_update;
            let counted: int = if passed > 0 {
                passed
            } else {
                0
            };
            let due: int = found.reward_debt + (found.amount * counted * ctx.pool.data.reward_rate)
                / 1_000_000_000_000;
            let fits = i64::MIN <= passed <= i64::MAX && due <= u64::MAX;
            match instructions::unstake_outcome(ctx, amount, now) {
                Ok((after, transfer)) => {
                    let left = after.stake_account.data;
                    &&& 0 < amount && fits
                    &&& left.amount == found.amount - amount
                    &&& left.reward_debt == due
                    &&& left.last_update == now
                    &&& left.owner == found.owner && left.pool == found.pool && left.bump
                        == found.bump
                    &&& after.pool.data.total_staked == ctx.pool.data.total_staked - amount
                    &&& after.pool.data == (Pool {
                        total_staked: after.pool.data.total_staked,
                        ..ctx.pool.data
                    })
                    &&& after == (Unstake {
                        stake_account: UserAccount { data: left, ..ctx.stake_account },
                        pool: PoolAccount { data: after.pool.data, ..ctx.pool },
                        ..ctx
                    })
                    &&& transfer.from == ctx.stake_vault.key
                    &&& transfer.to == ctx.user_stake_account.key
                    &&& transfer.authority == ctx.pool.key
                    &&& transfer.amount == amount
                    &&& transfer.token_program == ctx.token_program.key
                    &&& transfer.signer matches Some(signer) && signer.stake_mint
                        == ctx.pool.data.stake_mint && signer.bump == ctx.pool.data.bump
                },
                Err(e) => {
                    ||| amount == 0 && e == StakingError::ZeroAmount
                    ||| amount > found.amount && e == StakingError::InsufficientStake
                    ||| 0 < amount <= found.amount && (!fits || amount
                        > ctx.pool.data.total_staked) && e == StakingError::MathOverflow
                },
            }
        }),
{
    rewards::law_settlement(ctx.stake_account.data, ctx.pool.data.reward_rate, now);
}

/// To claim is accepted exactly when the settlement fits and something is owed, whatever the
/// balance. It pays all that is owed from the vault to the user, leaves nothing banked, and counts
/// from `now` on.
pub proof fn law_claim(ctx: Claim, now: i64)
    ensures
        ({
            let found = ctx.stake_account.data;
            let passed: int = now - found.last_update;
            let counted: int = if passed > 0 {
                passed
            } else {
                0
            };
            let due: int = found.reward_debt + (found.amount * counted * ctx.pool.data.reward_rate)
                / 1_000_000_000_000;
            let fits = i64::MIN <= passed <= i64::MAX && due <= u64::MAX;
            match instructions::claim_outcome(ctx, now) {
                Ok((after, transfer)) => {
                    let left = after.stake_account.data;
                    &&& fits && due > 0
                    &&& left.amount == found.amount
                    &&& left.reward_debt == 0
                    &&& left.last_update == now
                    &&& left.owner == found.owner && left.pool == found.pool && left.bump
                        == found.bump
                    &&& after == (Claim {
                        stake_account: UserAccount { data: left, ..ctx.stake_account },
                        ..ctx
                    })
                    &&& transfer.from == ctx.reward_vault.key
                    &&& transfer.to == ctx.user_reward_account.key
                    &&& transfer.authority == ctx.pool.key
                    &&& transfer.amount == due
                    &&& transfer.token_program == ctx.token_program.key
                    &&& transfer.signer matches Some(signer) && signer.stake_mint
                        == ctx.pool.data.stake_mint && signer.bump == ctx.pool.data.bump
                },
                Err(e) => {
                    ||| !fits && e == StakingError::MathOverflow
                    ||| fits && due == 0 && e == StakingError::NothingToClaim
                },
            }
        }),
{
    rewards::law_owed_formula(ctx.stake_account.data, ctx.pool.data.reward_rate, now as int);
    rewards::law_settlement(ctx.stake_account.data, ctx.pool.data.reward_rate, now);
}

/// To fund a pool whose accounts pass is always accepted, and asks for a transfer of exactly the
/// given amount from the admin's token account to the reward vault, on the admin's authority.
pub proof fn law_fund_rewards(ctx: FundRewards, amount: u64)
    ensures
        match program::fund_rewards_execution(ctx, amount) {
            Ok(transfer) => {
                &&& ctx.validated() is Ok
                &&& transfer.from == ctx.admin_reward_account.key
                &&& transfer.to == ctx.reward_vault.key
                &&& transfer.to == ctx.pool.data.reward_vault
                &&& transfer.authority == ctx.admin.key
                &&& transfer.amount == amount
                &&& transfer.token_program == ctx.token_program.key
                &&& transfer.signer is None
            },
            Err(e) => ctx.validated() is Err && e == InstructionError::Accounts(
                ctx.validated()->Err_0,
            ),
        },
        instructions::funding(ctx, amount).amount == amount,
        instructions::funding(ctx, amount).from == ctx.admin_reward_account.key,
        instructions::funding(ctx, amount).to == ctx.reward_vault.key,
        instructions::funding(ctx, amount).authority == ctx.admin.key,
        instructions::funding(ctx, amount).token_program == ctx.token_program.key,
        instructions::funding(ctx, amount).signer is None,
{
}

/// To create a pool whose accounts pass is always accepted, and records the admin, the two mints,
/// the two vaults, the rate as it is given, and nothing staked.
pub proof fn law_initialize_pool(
    ctx: InitializePool,
    bumps: InitializePoolBumps,
    reward_rate: u64,
)
    ensures
        ({
            let pool = instructions::new_pool(ctx, bumps, reward_rate);
            &&& pool.admin == ctx.admin.key
            &&& pool.stake_mint == ctx.stake_mint
            &&& pool.reward_mint == ctx.reward_mint
            &&& pool.stake_vault == ctx.stake_vault.key
            &&& pool.reward_vault == ctx.reward_vault.key
            &&& pool.reward_rate == reward_rate
            &&& pool.total_staked == 0
            &&& pool.bump == bumps.pool
        }),
        match program::initialize_pool_execution(ctx, reward_rate) {
            Ok(pool) => {
                &&& ctx.validated() == Ok::<InitializePoolBumps, ConstraintError>(
                    InitializePoolBumps { pool: pool.bump },
                )
                &&& pool.admin == ctx.admin.key
                &&& pool.stake_mint == ctx.stake_mint
                &&& pool.reward_mint == ctx.reward_mint
                &&& pool.stake_vault == ctx.stake_vault.key
                &&& pool.reward_vault == ctx.reward_vault.key
                &&& pool.reward_rate == reward_rate
                &&& pool.total_staked == 0
            },
            Err(e) => ctx.validated() is Err && e == InstructionError::Accounts(
                ctx.validated()->Err_0,
            ),
        },
{
}

/// An instruction is refused for its accounts exactly when a rule on them is broken, and is
/// otherwise answered as the instruction itself answers; with the bump found for the address of the
/// stake account, in `stake`.
pub proof fn law_rules_come_first(
    stake: Stake,
    unstake: Unstake,
    claim: Claim,
    amount: u64,
    now: i64,
)
    ensures
        match (stake.validated(), program::stake_execution(stake, amount, now)) {
            (Err(e), answer) => answer == Err::<(Stake, TokenTransfer), InstructionError>(
                InstructionError::Accounts(e),
            ),
            (Ok(bumps), Ok(done)) => instructions::stake_outcome(stake, bumps, amount, now) == Ok::<
                (Stake, TokenTransfer),
                StakingError,
            >(done),
            (Ok(bumps), Err(e)) => e is Program && instructions::stake_outcome(
                stake,
                bumps,
                amount,
                now,
            ) == Err::<(Stake, TokenTransfer), StakingError>(e->Program_0),
        },
        match (unstake.validated(), program::unstake_execution(unstake, amount, now)) {
            (Err(e), answer) => answer == Err::<(Unstake, TokenTransfer), InstructionError>(
                InstructionError::Accounts(e),
            ),
            (Ok(_), Ok(done)) => instructions::unstake_outcome(unstake, amount, now) == Ok::<
                (Unstake, TokenTransfer),
                StakingError,
            >(done),
            (Ok(_), Err(e)) => e is Program && instructions::unstake_outcome(unstake, amount, now)
                == Err::<(Unstake, TokenTransfer), StakingError>(e->Program_0),
        },
        match (claim.validated(), program::claim_execution(claim, now)) {
            (Err(e), answer) => answer == Err::<(Claim, TokenTransfer), InstructionError>(
                InstructionError::Accounts(e),
            ),
            (Ok(_), Ok(done)) => instructions::claim_outcome(claim, now) == Ok::<
                (Claim, TokenTransfer),
                StakingError,
            >(done),
            (Ok(_), Err(e)) => e is Program && instructions::claim_outcome(claim, now) == Err::<
                (Claim, TokenTransfer),
                StakingError,
            >(e->Program_0),
        },
{
}

/// Before the time is looked at, a stake of nothing, and a withdrawal of nothing or of more than
/// the balance, are refused if the accounts pass, and nothing else is.
pub proof fn law_admission(stake: Stake, unstake: Unstake, amount: u64)
    ensures
        match program::stake_admission(stake, amount) {
            Ok(_) => stake.validated() is Ok && amount > 0,
            Err(InstructionError::Accounts(e)) => stake.validated() == Err::<
                StakeBumps,
                ConstraintError,
            >(e),
            Err(InstructionError::Program(e)) => stake.validated() is Ok && amount == 0 && e
                == StakingError::ZeroAmount,
        },
        match program::unstake_admission(unstake, amount) {
            Ok(_) => unstake.validated() is Ok && 0 < amount <= unstake.stake_account.data.amount,
            Err(InstructionError::Accounts(e)) => unstake.validated() == Err::<
                (),
                ConstraintError,
            >(e),
            Err(InstructionError::Program(e)) => unstake.validated() is Ok && if amount == 0 {
                e == StakingError::ZeroAmount
            } else {
                amount > unstake.stake_account.data.amount && e == StakingError::InsufficientStake
            },
        },
        match instructions::stake_admission(amount) {
            Ok(_) => amount > 0,
            Err(e) => amount == 0 && e == StakingError::ZeroAmount,
        },
        match instructions::unstake_admission(unstake, amount) {
            Ok(_) => 0 < amount <= unstake.stake_account.data.amount,
            Err(e) => if amount == 0 {
                e == StakingError::ZeroAmount
            } else {
                amount > unstake.stake_account.data.amount && e == StakingError::InsufficientStake
            },
        },
{
}

/// A stake never reprices the past: once its deposit counts, the account is at any later time owed
/// what it was owed at the moment of staking, and what the balance with the deposit has earned
/// since; the time in which the balance was empty counts for nothing.
pub proof fn law_stake_never_reprices(ctx: Stake, amount: u64, now: i64, later: int)
    requires
        later >= now,
        exists|i: int| 0 <= i < 32 && ctx.stake_account.data.owner.bytes@[i] != 0,
    ensures
        program::stake_execution(ctx, amount, now) matches Ok((settled, _)) ==> (
        instructions::deposit_outcome(settled, amount) matches Ok(after) ==> {
            let rate = ctx.pool.data.reward_rate;
            let before = ctx.stake_account.data;
            let left = after.stake_account.data;
            let counted: int = if now > before.last_update {
                now - before.last_update
            } else {
                0
            };
            let due: int = before.reward_debt + (before.amount * counted * rate)
                / 1_000_000_000_000;
            &&& left.amount == before.amount + amount
            &&& left.last_update == now
            &&& left.reward_debt == due
            &&& left.reward_debt + (left.amount * (later - left.last_update) * rate)
                / 1_000_000_000_000 == due + ((before.amount + amount) * (later - now) * rate)
                / 1_000_000_000_000
        }),
{
    if let Ok(bumps) = ctx.validated() {
        law_stake(ctx, bumps, amount, now);
        if let Ok((settled, _)) = instructions::stake_outcome(ctx, bumps, amount, now) {
            law_deposit(settled, amount);
        }
    }
}

/// A first stake earns from its moment on and nothing before, whatever the untouched record holds,
/// and is the user's.
pub proof fn law_first_stake(ctx: Stake, amount: u64, now: i64, later: int)
    requires
        later >= now,
        forall|i: int| 0 <= i < 32 ==> ctx.stake_account.data.owner.bytes@[i] == 0,
    ensures
        program::stake_execution(ctx, amount, now) matches Ok((settled, _)) ==> (
        instructions::deposit_outcome(settled, amount) matches Ok(after) ==> {
            let left = after.stake_account.data;
            &&& left.owner == ctx.user.key
            &&& left.pool == ctx.pool.key
            &&& left.amount == amount
            &&& left.reward_debt == 0
            &&& left.last_update == now
            &&& left.reward_debt + (left.amount * (later - left.last_update)
                * ctx.pool.data.reward_rate) / 1_000_000_000_000 == (amount * (later - now)
                * ctx.pool.data.reward_rate) / 1_000_000_000_000
        }),
{
    if let Ok(bumps) = ctx.validated() {
        law_stake(ctx, bumps, amount, now);
        assert(0 * 0 * ctx.pool.data.reward_rate == 0) by (nonlinear_arith);
        if let Ok((settled, _)) = instructions::stake_outcome(ctx, bumps, amount, now) {
            law_deposit(settled, amount);
        }
    }
}

/// A withdrawal never reprices the past: what the account was owed at that moment it is owed
/// afterwards, though nothing be left of the balance, and at any later time that and what the rest
/// of the balance has earned since.
pub proof fn law_unstake_never_reprices(ctx: Unstake, amount: u64, now: i64, later: int)
    requires
        later >= now,
    ensures
        program::unstake_execution(ctx, amount, now) matches Ok((after, _)) ==> {
            let rate = ctx.pool.data.reward_rate;
            let before = ctx.stake_account.data;
            let left = after.stake_account.data;
            let counted: int = if now > before.last_update {
                now - before.last_update
            } else {
                0
            };
            let due: int = before.reward_debt + (before.amount * counted * rate)
                / 1_000_000_000_000;
            &&& left.amount == before.amount - amount
            &&& left.last_update == now
            &&& left.reward_debt == due
            &&& left.reward_debt + (left.amount * (later - left.last_update) * rate)
                / 1_000_000_000_000 == due + ((before.amount - amount) * (later - now) * rate)
                / 1_000_000_000_000
        },
{
    law_unstake(ctx, amount, now);
}

/// A claim that follows a stake pays what the account was owed when the stake was made and what the
/// balance with the deposit has earned since, and is accepted if that is not zero and fits.
pub proof fn law_claim_after_stake(ctx: Stake, amount: u64, now: i64, claim: Claim, later: i64)
    requires
        later >= now,
        later - now <= i64::MAX,
        exists|i: int| 0 <= i < 32 && ctx.stake_account.data.owner.bytes@[i] != 0,
        claim.validated() is Ok,
        claim.pool.data.reward_rate == ctx.pool.data.reward_rate,
    ensures
        program::stake_execution(ctx, amount, now) matches Ok((settled, _)) ==> (
        instructions::deposit_outcome(settled, amount) matches Ok(after) ==> (
        claim.stake_account.data == after.stake_account.data ==> {
            let rate = ctx.pool.data.reward_rate;
            let before = ctx.stake_account.data;
            let counted: int = if now > before.last_update {
                now - before.last_update
            } else {
                0
            };
            let pay: int = before.reward_debt + (before.amount * counted * rate)
                / 1_000_000_000_000 + ((before.amount + amount) * (later - now) * rate)
                / 1_000_000_000_000;
            match program::claim_execution(claim, later) {
                Ok((left, transfer)) => {
                    &&& transfer.amount == pay
                    &&& left.stake_account.data.reward_debt == 0
                    &&& left.stake_account.data.amount == before.amount + amount
                },
                Err(e) => pay == 0 || pay > u64::MAX,
            }
        })),
{
    law_stake_never_reprices(ctx, amount, now, later as int);
    law_claim(claim, later);
}

/// A claim that follows a withdrawal, a full one too, pays what the account was owed when the
/// withdrawal was made and what the rest of the balance has earned since, and is accepted if that
/// is not zero and fits.
pub proof fn law_claim_after_unstake(ctx: Unstake, amount: u64, now: i64, claim: Claim, later: i64)
    requires
        later >= now,
        later - now <= i64::MAX,
        claim.validated() is Ok,
        claim.pool.data.reward_rate == ctx.pool.data.reward_rate,
    ensures
        program::unstake_execution(ctx, amount, now) matches Ok((after, _)) ==> (
        claim.stake_account.data == after.stake_account.data ==> {
            let rate = ctx.pool.data.reward_rate;
            let before = ctx.stake_account.data;
            let counted: int = if now > before.last_update {
                now - before.last_update
            } else {
                0
            };
            let pay: int = before.reward_debt + (before.amount * counted * rate)
                / 1_000_000_000_000 + ((before.amount - amount) * (later - now) * rate)
                / 1_000_000_000_000;
            match program::claim_execution(claim, later) {
                Ok((left, transfer)) => {
                    &&& transfer.amount == pay
                    &&& left.stake_account.data.reward_debt == 0
                    &&& left.stake_account.data.amount == before.amount - amount
                },
                Err(e) => pay == 0 || pay > u64::MAX,
            }
        }),
{
    law_unstake_never_reprices(ctx, amount, now, later as int);
    law_claim(claim, later);
}

/// A second claim pays what the balance has earned since the first, and nothing of it twice.
pub proof fn law_claim_after_claim(ctx: Claim, now: i64, again: Claim, later: i64)
    requires
        later >= now,
        later - now <= i64::MAX,
        again.validated() is Ok,
        again.pool.data.reward_rate == ctx.pool.data.reward_rate,
    ensures
        program::claim_execution(ctx, now) matches Ok((after, _)) ==> (again.stake_account.data
            == after.stake_account.data ==> {
            let pay: int = (ctx.stake_account.data.amount * (later - now)
                * ctx.pool.data.reward_rate) / 1_000_000_000_000;
            match program::claim_execution(again, later) {
                Ok((_, transfer)) => transfer.amount == pay,
                Err(e) => pay == 0 || pay > u64::MAX,
            }
        }),
{
    law_claim(ctx, now);
    law_claim(again, later);
}

/// Whoever has staked can always withdraw: with accounts that pass and rewards that fit, any part
/// of the balance, the whole of it too, is released.
pub proof fn law_the_balance_can_be_withdrawn(ctx: Unstake, amount: u64, now: i64)
    requires
        ctx.validated() is Ok,
        0 < amount <= ctx.stake_account.data.amount <= ctx.pool.data.total_staked,
        i64::MIN <= now - ctx.stake_account.data.last_update <= i64::MAX,
        ({
            let counted: int = if now > ctx.stake_account.data.last_update {
                now - ctx.stake_account.data.last_update
            } else {
                0
            };
            ctx.stake_account.data.reward_debt + (ctx.stake_account.data.amount * counted
                * ctx.pool.data.reward_rate) / 1_000_000_000_000 <= u64::MAX
        }),
    ensures
        program::unstake_execution(ctx, amount, now) matches Ok((_, transfer)) && transfer.amount
            == amount && transfer.from == ctx.stake_vault.key && transfer.to
            == ctx.user_stake_account.key,
{
    law_unstake(ctx, amount, now);
}

/// Whatever is owed can be claimed: with accounts that pass and rewards that fit, a claim is
/// accepted exactly when something is owed, and pays it; it is refused as one for nothing exactly
/// when nothing is. The balance does not matter.
pub proof fn law_what_is_owed_can_be_claimed(ctx: Claim, now: i64)
    requires
        ctx.validated() is Ok,
        i64::MIN <= now - ctx.stake_account.data.last_update <= i64::MAX,
    ensures
        ({
            let found = ctx.stake_account.data;
            let counted: int = if now > found.last_update {
                now - found.last_update
            } else {
                0
            };
            let due: int = found.reward_debt + (found.amount * counted * ctx.pool.data.reward_rate)
                / 1_000_000_000_000;
            due <= u64::MAX ==> {
                &&& program::claim_execution(ctx, now) is Ok <==> due > 0
                &&& program::claim_execution(ctx, now) matches Ok((_, transfer))
                    ==> transfer.amount == due
                &&& due == 0 <==> program::claim_execution(ctx, now) == Err::<
                    (Claim, TokenTransfer),
                    InstructionError,
                >(InstructionError::Program(StakingError::NothingToClaim))
            }
        }),
{
    law_claim(ctx, now);
}

/// Any amount but zero can be staked: with accounts that pass and rewards that fit, the deposit is
/// asked for, and counts once it is made, unless the balance or the total would not fit.
pub proof fn law_any_amount_can_be_staked(ctx: Stake, amount: u64, now: i64)
    requires
        ctx.validated() is Ok,
        amount > 0,
        exists|i: int| 0 <= i < 32 && ctx.stake_account.data.owner.bytes@[i] != 0,
        i64::MIN <= now - ctx.stake_account.data.last_update <= i64::MAX,
        ({
            let counted: int = if now > ctx.stake_account.data.last_update {
                now - ctx.stake_account.data.last_update
            } else {
                0
            };
            ctx.stake_account.data.reward_debt + (ctx.stake_account.data.amount * counted
                * ctx.pool.data.reward_rate) / 1_000_000_000_000 <= u64::MAX
        }),
    ensures
        program::stake_execution(ctx, amount, now) matches Ok((settled, transfer)) && {
            &&& transfer.amount == amount
            &&& transfer.from == ctx.user_stake_account.key
            &&& transfer.to == ctx.stake_vault.key
            &&& instructions::deposit_outcome(settled, amount) is Ok
                <==> ctx.stake_account.data.amount + amount <= u64::MAX
                && ctx.pool.data.total_staked + amount <= u64::MAX
        },
{
    if let Ok(bumps) = ctx.validated() {
        law_stake(ctx, bumps, amount, now);
        if let Ok((settled, _)) = instructions::stake_outcome(ctx, bumps, amount, now) {
            law_deposit(settled, amount);
        }
    }
}

/// A first stake of any amount but zero is accepted whenever the accounts pass, at any time.
pub proof fn law_anybody_can_begin(ctx: Stake, amount: u64, now: i64)
    requires
        ctx.validated() is Ok,
        amount > 0,
        forall|i: int| 0 <= i < 32 ==> ctx.stake_account.data.owner.bytes@[i] == 0,
    ensures
        program::stake_execution(ctx, amount, now) matches Ok((_, transfer)) && transfer.amount
            == amount && transfer.from == ctx.user_stake_account.key && transfer.to
            == ctx.stake_vault.key,
{
    if let Ok(bumps) = ctx.validated() {
        law_stake(ctx, bumps, amount, now);
        assert(0 * 0 * ctx.pool.data.reward_rate == 0) by (nonlinear_arith);
    }
}

} // verus!
