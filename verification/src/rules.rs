//! The rules on the accounts of each instruction, in the order in which they are tried.
//!
//! For each instruction one law says, over the fields of its accounts, when they pass, and what
//! a refusal tells of them: that the rule it names is broken, and that those tried before it hold.
//! Another says which addresses the accounts are held to.

use vstd::prelude::*;

use crate::accounts::{Claim, FundRewards, InitializePool, Stake, Unstake};
use crate::address;
use crate::address::{
    ASSOCIATED_TOKEN_PROGRAM_ID, PROGRAM_ID, SYSTEM_PROGRAM_ID, TOKEN_PROGRAM_ID,
};
use crate::error::{AccountName, Constraint};

verus! {

/// The admin signs and pays; the pool is new and lives at the address found for its mint, and each
/// vault is new, another than the other, and lives at the associated token address of the pool and
/// its mint. The bump handed on is the one found for the pool.
pub proof fn law_initialize_pool_rules(
    ctx: InitializePool,
    pool: Option<(Seq<u8>, u8)>,
    stake_vault: Option<(Seq<u8>, u8)>,
    reward_vault: Option<(Seq<u8>, u8)>,
)
    ensures
        ({
            let signed = ctx.admin.is_signer;
            let token_called = {
                &&& signed
                &&& ctx.token_program.key.bytes == TOKEN_PROGRAM_ID
                &&& ctx.token_program.executable
            };
            let associated_called = {
                &&& token_called
                &&& ctx.associated_token_program.key.bytes == ASSOCIATED_TOKEN_PROGRAM_ID
                &&& ctx.associated_token_program.executable
            };
            let called = {
                &&& associated_called
                &&& ctx.system_program.key.bytes == SYSTEM_PROGRAM_ID
                &&& ctx.system_program.executable
            };
            let pool_free = {
                &&& called
                &&& pool is Some
                &&& (pool->0).0 == ctx.pool.key@
                &&& !ctx.pool.in_use
                &&& ctx.pool.is_writable
            };
            let stake_vault_free = {
                &&& pool_free
                &&& stake_vault is Some
                &&& (stake_vault->0).0 == ctx.stake_vault.key@
                &&& !ctx.stake_vault.in_use
                &&& ctx.stake_vault.is_writable
            };
            let reward_vault_free = {
                &&& stake_vault_free
                &&& reward_vault is Some
                &&& (reward_vault->0).0 == ctx.reward_vault.key@
                &&& !ctx.reward_vault.in_use
                &&& ctx.reward_vault.key != ctx.stake_vault.key
                &&& ctx.reward_vault.is_writable
            };
            let paid = {
                &&& reward_vault_free
                &&& ctx.admin.is_writable
            };
            match ctx.decision(pool, stake_vault, reward_vault) {
                Ok(bumps) => paid && bumps.pool == (pool->0).1,
                Err(e) => match (e.account, e.constraint) {
                    (AccountName::Admin, Constraint::Signer) => !ctx.admin.is_signer,
                    (AccountName::TokenProgram, Constraint::ProgramId) => {
                        &&& signed
                        &&& ctx.token_program.key.bytes != TOKEN_PROGRAM_ID
                    },
                    (AccountName::TokenProgram, Constraint::Executable) => {
                        &&& signed
                        &&& ctx.token_program.key.bytes == TOKEN_PROGRAM_ID
                        &&& !ctx.token_program.executable
                    },
                    (AccountName::AssociatedTokenProgram, Constraint::ProgramId) => {
                        &&& token_called
                        &&& ctx.associated_token_program.key.bytes != ASSOCIATED_TOKEN_PROGRAM_ID
                    },
                    (AccountName::AssociatedTokenProgram, Constraint::Executable) => {
                        &&& token_called
                        &&& ctx.associated_token_program.key.bytes == ASSOCIATED_TOKEN_PROGRAM_ID
                        &&& !ctx.associated_token_program.executable
                    },
                    (AccountName::SystemProgram, Constraint::ProgramId) => {
                        &&& associated_called
                        &&& ctx.system_program.key.bytes != SYSTEM_PROGRAM_ID
                    },
                    (AccountName::SystemProgram, Constraint::Executable) => {
                        &&& associated_called
                        &&& ctx.system_program.key.bytes == SYSTEM_PROGRAM_ID
                        &&& !ctx.system_program.executable
                    },
                    (AccountName::Pool, Constraint::NoBump) => called && pool is None,
                    (AccountName::Pool, Constraint::Seeds) => {
                        &&& called
                        &&& pool is Some
                        &&& (pool->0).0 != ctx.pool.key@
                    },
                    (AccountName::Pool, Constraint::InUse) => {
                        &&& called
                        &&& pool is Some
                        &&& (pool->0).0 == ctx.pool.key@
                        &&& ctx.pool.in_use
                    },
                    (AccountName::Pool, Constraint::Mut) => {
                        &&& called
                        &&& pool is Some
                        &&& (pool->0).0 == ctx.pool.key@
                        &&& !ctx.pool.in_use
                        &&& !ctx.pool.is_writable
                    },
                    (AccountName::StakeVault, Constraint::Associated) => {
                        &&& pool_free
                        &&& (stake_vault is None || (stake_vault->0).0 != ctx.stake_vault.key@)
                    },
                    (AccountName::StakeVault, Constraint::InUse) => {
                        &&& pool_free
                        &&& stake_vault is Some
                        &&& (stake_vault->0).0 == ctx.stake_vault.key@
                        &&& ctx.stake_vault.in_use
                    },
                    (AccountName::StakeVault, Constraint::Mut) => {
                        &&& pool_free
                        &&& stake_vault is Some
                        &&& (stake_vault->0).0 == ctx.stake_vault.key@
                        &&& !ctx.stake_vault.in_use
                        &&& !ctx.stake_vault.is_writable
                    },
                    (AccountName::RewardVault, Constraint::Associated) => {
                        &&& stake_vault_free
                        &&& (reward_vault is None || (reward_vault->0).0 != ctx.reward_vault.key@)
                    },
                    (AccountName::RewardVault, Constraint::InUse) => {
                        &&& stake_vault_free
                        &&& reward_vault is Some
                        &&& (reward_vault->0).0 == ctx.reward_vault.key@
                        &&& {
                            ||| ctx.reward_vault.in_use
                            ||| ctx.reward_vault.key == ctx.stake_vault.key
                        }
                    },
                    (AccountName::RewardVault, Constraint::Mut) => {
                        &&& stake_vault_free
                        &&& reward_vault is Some
                        &&& (reward_vault->0).0 == ctx.reward_vault.key@
                        &&& !ctx.reward_vault.in_use
                        &&& ctx.reward_vault.key != ctx.stake_vault.key
                        &&& !ctx.reward_vault.is_writable
                    },
                    (AccountName::Admin, Constraint::Mut) => {
                        &&& reward_vault_free
                        &&& !ctx.admin.is_writable
                    },
                    _ => false,
                },
            }
        }),
{
}

/// The pool's admin signs; the pool lives at the address of its recorded mint and bump, the vault
/// is its reward vault, and the token account is the admin's, for the reward mint, and not the
/// vault.
pub proof fn law_fund_rewards_rules(ctx: FundRewards, pool: Option<Seq<u8>>)
    ensures
        ({
            let signed = ctx.admin.is_signer;
            let called = {
                &&& signed
                &&& ctx.token_program.key.bytes == TOKEN_PROGRAM_ID
                &&& ctx.token_program.executable
            };
            let distinct = {
                &&& called
                &&& ctx.admin_reward_account.key != ctx.reward_vault.key
            };
            let run_by_admin = {
                &&& distinct
                &&& ctx.admin.is_writable
                &&& ctx.admin.key == ctx.pool.data.admin
            };
            let pool_found = {
                &&& run_by_admin
                &&& pool == Some(ctx.pool.key@)
            };
            let vault_found = {
                &&& pool_found
                &&& ctx.reward_vault.is_writable
                &&& ctx.reward_vault.key == ctx.pool.data.reward_vault
            };
            let wallet_found = {
                &&& vault_found
                &&& ctx.admin_reward_account.is_writable
                &&& ctx.admin_reward_account.owner == ctx.admin.key
                &&& ctx.admin_reward_account.mint == ctx.pool.data.reward_mint
            };
            match ctx.rules(pool) {
                Ok(_) => wallet_found,
                Err(e) => match (e.account, e.constraint) {
                    (AccountName::Admin, Constraint::Signer) => !ctx.admin.is_signer,
                    (AccountName::TokenProgram, Constraint::ProgramId) => {
                        &&& signed
                        &&& ctx.token_program.key.bytes != TOKEN_PROGRAM_ID
                    },
                    (AccountName::TokenProgram, Constraint::Executable) => {
                        &&& signed
                        &&& ctx.token_program.key.bytes == TOKEN_PROGRAM_ID
                        &&& !ctx.token_program.executable
                    },
                    (AccountName::AdminRewardAccount, Constraint::DuplicateMutable) => {
                        &&& called
                        &&& ctx.admin_reward_account.key == ctx.reward_vault.key
                    },
                    (AccountName::Admin, Constraint::Mut) => distinct && !ctx.admin.is_writable,
                    (AccountName::Admin, Constraint::Address) => {
                        &&& distinct
                        &&& ctx.admin.is_writable
                        &&& ctx.admin.key != ctx.pool.data.admin
                    },
                    (AccountName::Pool, Constraint::Seeds) => {
                        &&& run_by_admin
                        &&& pool != Some(ctx.pool.key@)
                    },
                    (AccountName::RewardVault, Constraint::Mut) => {
                        &&& pool_found
                        &&& !ctx.reward_vault.is_writable
                    },
                    (AccountName::RewardVault, Constraint::Address) => {
                        &&& pool_found
                        &&& ctx.reward_vault.is_writable
                        &&& ctx.reward_vault.key != ctx.pool.data.reward_vault
                    },
                    (AccountName::AdminRewardAccount, Constraint::Mut) => {
                        &&& vault_found
                        &&& !ctx.admin_reward_account.is_writable
                    },
                    (AccountName::AdminRewardAccount, Constraint::TokenOwner) => {
                        &&& vault_found
                        &&& ctx.admin_reward_account.is_writable
                        &&& ctx.admin_reward_account.owner != ctx.admin.key
                    },
                    (AccountName::AdminRewardAccount, Constraint::TokenMint) => {
                        &&& vault_found
                        &&& ctx.admin_reward_account.is_writable
                        &&& ctx.admin_reward_account.owner == ctx.admin.key
                        &&& ctx.admin_reward_account.mint != ctx.pool.data.reward_mint
                    },
                    _ => false,
                },
            }
        }),
{
}

/// The user signs and pays; the stake account lives at the address found for the pool and the user,
/// the pool at that of its recorded mint and bump, the vault is its stake vault, the token account
/// is the user's, for the stake mint, and no account is handed in twice. The bump handed on is the
/// one found for the stake account.
pub proof fn law_stake_rules(ctx: Stake, pool: Option<Seq<u8>>, stake: Option<(Seq<u8>, u8)>)
    ensures
        ({
            let signed = ctx.user.is_signer;
            let token_called = {
                &&& signed
                &&& ctx.token_program.key.bytes == TOKEN_PROGRAM_ID
                &&& ctx.token_program.executable
            };
            let called = {
                &&& token_called
                &&& ctx.system_program.key.bytes == SYSTEM_PROGRAM_ID
                &&& ctx.system_program.executable
            };
            let stake_found = {
                &&& called
                &&& stake is Some
                &&& (stake->0).0 == ctx.stake_account.key@
                &&& ctx.stake_account.is_writable
            };
            let stake_apart = {
                &&& stake_found
                &&& ctx.stake_account.key != ctx.pool.key
            };
            let vault_apart = {
                &&& stake_apart
                &&& ctx.stake_vault.key != ctx.pool.key
                &&& ctx.stake_vault.key != ctx.stake_account.key
            };
            let distinct = {
                &&& vault_apart
                &&& ctx.user_stake_account.key != ctx.pool.key
                &&& ctx.user_stake_account.key != ctx.stake_account.key
                &&& ctx.user_stake_account.key != ctx.stake_vault.key
            };
            let paid = {
                &&& distinct
                &&& ctx.user.is_writable
            };
            let pool_found = {
                &&& paid
                &&& pool == Some(ctx.pool.key@)
                &&& ctx.pool.is_writable
            };
            let vault_found = {
                &&& pool_found
                &&& ctx.stake_vault.is_writable
                &&& ctx.stake_vault.key == ctx.pool.data.stake_vault
            };
            let wallet_found = {
                &&& vault_found
                &&& ctx.user_stake_account.is_writable
                &&& ctx.user_stake_account.owner == ctx.user.key
                &&& ctx.user_stake_account.mint == ctx.pool.data.stake_mint
            };
            match ctx.decision(pool, stake) {
                Ok(bumps) => wallet_found && bumps.stake_account == (stake->0).1,
                Err(e) => match (e.account, e.constraint) {
                    (AccountName::User, Constraint::Signer) => !ctx.user.is_signer,
                    (AccountName::TokenProgram, Constraint::ProgramId) => {
                        &&& signed
                        &&& ctx.token_program.key.bytes != TOKEN_PROGRAM_ID
                    },
                    (AccountName::TokenProgram, Constraint::Executable) => {
                        &&& signed
                        &&& ctx.token_program.key.bytes == TOKEN_PROGRAM_ID
                        &&& !ctx.token_program.executable
                    },
                    (AccountName::SystemProgram, Constraint::ProgramId) => {
                        &&& token_called
                        &&& ctx.system_program.key.bytes != SYSTEM_PROGRAM_ID
                    },
                    (AccountName::SystemProgram, Constraint::Executable) => {
                        &&& token_called
                        &&& ctx.system_program.key.bytes == SYSTEM_PROGRAM_ID
                        &&& !ctx.system_program.executable
                    },
                    (AccountName::StakeAccount, Constraint::NoBump) => called && stake is None,
                    (AccountName::StakeAccount, Constraint::Seeds) => {
                        &&& called
                        &&& stake is Some
                        &&& (stake->0).0 != ctx.stake_account.key@
                    },
                    (AccountName::StakeAccount, Constraint::Mut) => {
                        &&& called
                        &&& stake is Some
                        &&& (stake->0).0 == ctx.stake_account.key@
                        &&& !ctx.stake_account.is_writable
                    },
                    (AccountName::StakeAccount, Constraint::DuplicateMutable) => {
                        &&& stake_found
                        &&& ctx.stake_account.key == ctx.pool.key
                    },
                    (AccountName::StakeVault, Constraint::DuplicateMutable) => {
                        &&& stake_apart
                        &&& {
                            ||| ctx.stake_vault.key == ctx.pool.key
                            ||| ctx.stake_vault.key == ctx.stake_account.key
                        }
                    },
                    (AccountName::UserStakeAccount, Constraint::DuplicateMutable) => {
                        &&& vault_apart
                        &&& {
                            ||| ctx.user_stake_account.key == ctx.pool.key
                            ||| ctx.user_stake_account.key == ctx.stake_account.key
                            ||| ctx.user_stake_account.key == ctx.stake_vault.key
                        }
                    },
                    (AccountName::User, Constraint::Mut) => distinct && !ctx.user.is_writable,
                    (AccountName::Pool, Constraint::Seeds) => paid && pool != Some(ctx.pool.key@),
                    (AccountName::Pool, Constraint::Mut) => {
                        &&& paid
                        &&& pool == Some(ctx.pool.key@)
                        &&& !ctx.pool.is_writable
                    },
                    (AccountName::StakeVault, Constraint::Mut) => {
                        &&& pool_found
                        &&& !ctx.stake_vault.is_writable
                    },
                    (AccountName::StakeVault, Constraint::Address) => {
                        &&& pool_found
                        &&& ctx.stake_vault.is_writable
                        &&& ctx.stake_vault.key != ctx.pool.data.stake_vault
                    },
                    (AccountName::UserStakeAccount, Constraint::Mut) => {
                        &&& vault_found
                        &&& !ctx.user_stake_account.is_writable
                    },
                    (AccountName::UserStakeAccount, Constraint::TokenOwner) => {
                        &&& vault_found
                        &&& ctx.user_stake_account.is_writable
                        &&& ctx.user_stake_account.owner != ctx.user.key
                    },
                    (AccountName::UserStakeAccount, Constraint::TokenMint) => {
                        &&& vault_found
                        &&& ctx.user_stake_account.is_writable
                        &&& ctx.user_stake_account.owner == ctx.user.key
                        &&& ctx.user_stake_account.mint != ctx.pool.data.stake_mint
                    },
                    _ => false,
                },
            }
        }),
{
}

/// The owner of the stake account signs; the stake account lives at the address of the pool, the
/// user and its recorded bump, the pool at that of its recorded mint and bump, the vault is its
/// stake vault, the token account is the user's, for the stake mint, and no account is handed in
/// twice.
pub proof fn law_unstake_rules(ctx: Unstake, pool: Option<Seq<u8>>, stake: Option<Seq<u8>>)
    ensures
        ({
            let signed = ctx.user.is_signer;
            let called = {
                &&& signed
                &&& ctx.token_program.key.bytes == TOKEN_PROGRAM_ID
                &&& ctx.token_program.executable
            };
            let stake_apart = {
                &&& called
                &&& ctx.stake_account.key != ctx.pool.key
            };
            let vault_apart = {
                &&& stake_apart
                &&& ctx.stake_vault.key != ctx.pool.key
                &&& ctx.stake_vault.key != ctx.stake_account.key
            };
            let distinct = {
                &&& vault_apart
                &&& ctx.user_stake_account.key != ctx.pool.key
                &&& ctx.user_stake_account.key != ctx.stake_account.key
                &&& ctx.user_stake_account.key != ctx.stake_vault.key
            };
            let pool_found = {
                &&& distinct
                &&& pool == Some(ctx.pool.key@)
                &&& ctx.pool.is_writable
            };
            let stake_found = {
                &&& pool_found
                &&& stake == Some(ctx.stake_account.key@)
                &&& ctx.stake_account.is_writable
            };
            let owned = {
                &&& stake_found
                &&& ctx.stake_account.data.owner == ctx.owner
                &&& ctx.owner == ctx.user.key
            };
            let vault_found = {
                &&& owned
                &&& ctx.stake_vault.is_writable
                &&& ctx.stake_vault.key == ctx.pool.data.stake_vault
            };
            let wallet_found = {
                &&& vault_found
                &&& ctx.user_stake_account.is_writable
                &&& ctx.user_stake_account.owner == ctx.user.key
                &&& ctx.user_stake_account.mint == ctx.pool.data.stake_mint
            };
            match ctx.rules(pool, stake) {
                Ok(_) => wallet_found,
                Err(e) => match (e.account, e.constraint) {
                    (AccountName::User, Constraint::Signer) => !ctx.user.is_signer,
                    (AccountName::TokenProgram, Constraint::ProgramId) => {
                        &&& signed
                        &&& ctx.token_program.key.bytes != TOKEN_PROGRAM_ID
                    },
                    (AccountName::TokenProgram, Constraint::Executable) => {
                        &&& signed
                        &&& ctx.token_program.key.bytes == TOKEN_PROGRAM_ID
                        &&& !ctx.token_program.executable
                    },
                    (AccountName::StakeAccount, Constraint::DuplicateMutable) => {
                        &&& called
                        &&& ctx.stake_account.key == ctx.pool.key
                    },
                    (AccountName::StakeVault, Constraint::DuplicateMutable) => {
                        &&& stake_apart
                        &&& {
                            ||| ctx.stake_vault.key == ctx.pool.key
                            ||| ctx.stake_vault.key == ctx.stake_account.key
                        }
                    },
                    (AccountName::UserStakeAccount, Constraint::DuplicateMutable) => {
                        &&& vault_apart
                        &&& {
                            ||| ctx.user_stake_account.key == ctx.pool.key
                            ||| ctx.user_stake_account.key == ctx.stake_account.key
                            ||| ctx.user_stake_account.key == ctx.stake_vault.key
                        }
                    },
                    (AccountName::Pool, Constraint::Seeds) => {
                        &&& distinct
                        &&& pool != Some(ctx.pool.key@)
                    },
                    (AccountName::Pool, Constraint::Mut) => {
                        &&& distinct
                        &&& pool == Some(ctx.pool.key@)
                        &&& !ctx.pool.is_writable
                    },
                    (AccountName::StakeAccount, Constraint::Seeds) => {
                        &&& pool_found
                        &&& stake != Some(ctx.stake_account.key@)
                    },
                    (AccountName::StakeAccount, Constraint::Mut) => {
                        &&& pool_found
                        &&& stake == Some(ctx.stake_account.key@)
                        &&& !ctx.stake_account.is_writable
                    },
                    (AccountName::StakeAccount, Constraint::HasOne) => {
                        &&& stake_found
                        &&& ctx.stake_account.data.owner != ctx.owner
                    },
                    (AccountName::Owner, Constraint::Address) => {
                        &&& stake_found
                        &&& ctx.stake_account.data.owner == ctx.owner
                        &&& ctx.owner != ctx.user.key
                    },
                    (AccountName::StakeVault, Constraint::Mut) => {
                        &&& owned
                        &&& !ctx.stake_vault.is_writable
                    },
                    (AccountName::StakeVault, Constraint::Address) => {
                        &&& owned
                        &&& ctx.stake_vault.is_writable
                        &&& ctx.stake_vault.key != ctx.pool.data.stake_vault
                    },
                    (AccountName::UserStakeAccount, Constraint::Mut) => {
                        &&& vault_found
                        &&& !ctx.user_stake_account.is_writable
                    },
                    (AccountName::UserStakeAccount, Constraint::TokenOwner) => {
                        &&& vault_found
                        &&& ctx.user_stake_account.is_writable
                        &&& ctx.user_stake_account.owner != ctx.user.key
                    },
                    (AccountName::UserStakeAccount, Constraint::TokenMint) => {
                        &&& vault_found
                        &&& ctx.user_stake_account.is_writable
                        &&& ctx.user_stake_account.owner == ctx.user.key
                        &&& ctx.user_stake_account.mint != ctx.pool.data.stake_mint
                    },
                    _ => false,
                },
            }
        }),
{
}

/// The owner of the stake account signs; the stake account lives at the address of the pool, the
/// user and its recorded bump, the pool at that of its recorded mint and bump, the vault is its
/// reward vault, the token account is the user's, for the reward mint, and no account is handed in
/// twice for writing.
pub proof fn law_claim_rules(ctx: Claim, pool: Option<Seq<u8>>, stake: Option<Seq<u8>>)
    ensures
        ({
            let signed = ctx.user.is_signer;
            let called = {
                &&& signed
                &&& ctx.token_program.key.bytes == TOKEN_PROGRAM_ID
                &&& ctx.token_program.executable
            };
            let vault_apart = {
                &&& called
                &&& ctx.reward_vault.key != ctx.stake_account.key
            };
            let distinct = {
                &&& vault_apart
                &&& ctx.user_reward_account.key != ctx.stake_account.key
                &&& ctx.user_reward_account.key != ctx.reward_vault.key
            };
            let pool_found = {
                &&& distinct
                &&& pool == Some(ctx.pool.key@)
            };
            let stake_found = {
                &&& pool_found
                &&& stake == Some(ctx.stake_account.key@)
                &&& ctx.stake_account.is_writable
            };
            let owned = {
                &&& stake_found
                &&& ctx.stake_account.data.owner == ctx.owner
                &&& ctx.owner == ctx.user.key
            };
            let vault_found = {
                &&& owned
                &&& ctx.reward_vault.is_writable
                &&& ctx.reward_vault.key == ctx.pool.data.reward_vault
            };
            let wallet_found = {
                &&& vault_found
                &&& ctx.user_reward_account.is_writable
                &&& ctx.user_reward_account.owner == ctx.user.key
                &&& ctx.user_reward_account.mint == ctx.pool.data.reward_mint
            };
            match ctx.rules(pool, stake) {
                Ok(_) => wallet_found,
                Err(e) => match (e.account, e.constraint) {
                    (AccountName::User, Constraint::Signer) => !ctx.user.is_signer,
                    (AccountName::TokenProgram, Constraint::ProgramId) => {
                        &&& signed
                        &&& ctx.token_program.key.bytes != TOKEN_PROGRAM_ID
                    },
                    (AccountName::TokenProgram, Constraint::Executable) => {
                        &&& signed
                        &&& ctx.token_program.key.bytes == TOKEN_PROGRAM_ID
                        &&& !ctx.token_program.executable
                    },
                    (AccountName::RewardVault, Constraint::DuplicateMutable) => {
                        &&& called
                        &&& ctx.reward_vault.key == ctx.stake_account.key
                    },
                    (AccountName::UserRewardAccount, Constraint::DuplicateMutable) => {
                        &&& vault_apart
                        &&& {
                            ||| ctx.user_reward_account.key == ctx.stake_account.key
                            ||| ctx.user_reward_account.key == ctx.reward_vault.key
                        }
                    },
                    (AccountName::Pool, Constraint::Seeds) => {
                        &&& distinct
                        &&& pool != Some(ctx.pool.key@)
                    },
                    (AccountName::StakeAccount, Constraint::Seeds) => {
                        &&& pool_found
                        &&& stake != Some(ctx.stake_account.key@)
                    },
                    (AccountName::StakeAccount, Constraint::Mut) => {
                        &&& pool_found
                        &&& stake == Some(ctx.stake_account.key@)
                        &&& !ctx.stake_account.is_writable
                    },
                    (AccountName::StakeAccount, Constraint::HasOne) => {
                        &&& stake_found
                        &&& ctx.stake_account.data.owner != ctx.owner
                    },
                    (AccountName::Owner, Constraint::Address) => {
                        &&& stake_found
                        &&& ctx.stake_account.data.owner == ctx.owner
                        &&& ctx.owner != ctx.user.key
                    },
                    (AccountName::RewardVault, Constraint::Mut) => {
                        &&& owned
                        &&& !ctx.reward_vault.is_writable
                    },
                    (AccountName::RewardVault, Constraint::Address) => {
                        &&& owned
                        &&& ctx.reward_vault.is_writable
                        &&& ctx.reward_vault.key != ctx.pool.data.reward_vault
                    },
                    (AccountName::UserRewardAccount, Constraint::Mut) => {
                        &&& vault_found
                        &&& !ctx.user_reward_account.is_writable
                    },
                    (AccountName::UserRewardAccount, Constraint::TokenOwner) => {
                        &&& vault_found
                        &&& ctx.user_reward_account.is_writable
                        &&& ctx.user_reward_account.owner != ctx.user.key
                    },
                    (AccountName::UserRewardAccount, Constraint::TokenMint) => {
                        &&& vault_found
                        &&& ctx.user_reward_account.is_writable
                        &&& ctx.user_reward_account.owner == ctx.user.key
                        &&& ctx.user_reward_account.mint != ctx.pool.data.reward_mint
                    },
                    _ => false,
                },
            }
        }),
{
}

/// A new pool is held to the address found for the word `pool` and the mint it takes, and its
/// vaults to those found for the pool, the token program and their mints.
pub proof fn law_initialize_pool_addresses(ctx: InitializePool)
    ensures
        ({
            let pool = address::canonical_address(
                seq![seq![0x70u8, 0x6fu8, 0x6fu8, 0x6cu8], ctx.stake_mint@],
                PROGRAM_ID@,
            );
            let stake_vault = address::canonical_address(
                seq![ctx.pool.key@, TOKEN_PROGRAM_ID@, ctx.stake_mint@],
                ASSOCIATED_TOKEN_PROGRAM_ID@,
            );
            let reward_vault = address::canonical_address(
                seq![ctx.pool.key@, TOKEN_PROGRAM_ID@, ctx.reward_mint@],
                ASSOCIATED_TOKEN_PROGRAM_ID@,
            );
            ctx.validated() == ctx.decision(pool, stake_vault, reward_vault)
        }),
{
}

/// A pool to be funded is held to the address that the word `pool`, its recorded mint and its
/// recorded bump derive.
pub proof fn law_fund_rewards_addresses(ctx: FundRewards)
    ensures
        ({
            let pool = address::program_address(
                seq![
                    seq![0x70u8, 0x6fu8, 0x6fu8, 0x6cu8],
                    ctx.pool.data.stake_mint@,
                    seq![ctx.pool.data.bump],
                ],
                PROGRAM_ID@,
            );
            ctx.validated() == ctx.rules(pool)
        }),
{
    address::law_pool_address(ctx.pool.data.stake_mint, ctx.pool.data.bump);
}

/// A pool to stake in is held to the address that the word `pool`, its recorded mint and its
/// recorded bump derive; the stake account to the one found for the word `stake`, the pool and the
/// user.
pub proof fn law_stake_addresses(ctx: Stake)
    ensures
        ({
            let pool = address::program_address(
                seq![
                    seq![0x70u8, 0x6fu8, 0x6fu8, 0x6cu8],
                    ctx.pool.data.stake_mint@,
                    seq![ctx.pool.data.bump],
                ],
                PROGRAM_ID@,
            );
            let stake = address::canonical_address(
                seq![seq![0x73u8, 0x74u8, 0x61u8, 0x6bu8, 0x65u8], ctx.pool.key@, ctx.user.key@],
                PROGRAM_ID@,
            );
            ctx.validated() == ctx.decision(pool, stake)
        }),
{
    address::law_pool_address(ctx.pool.data.stake_mint, ctx.pool.data.bump);
}

/// A pool to withdraw from is held to the address that the word `pool`, its recorded mint and its
/// recorded bump derive; the stake account to the one that the word `stake`, the pool, the user and
/// its recorded bump derive.
pub proof fn law_unstake_addresses(ctx: Unstake)
    ensures
        ({
            let pool = address::program_address(
                seq![
                    seq![0x70u8, 0x6fu8, 0x6fu8, 0x6cu8],
                    ctx.pool.data.stake_mint@,
                    seq![ctx.pool.data.bump],
                ],
                PROGRAM_ID@,
            );
            let stake = address::program_address(
                seq![
                    seq![0x73u8, 0x74u8, 0x61u8, 0x6bu8, 0x65u8],
                    ctx.pool.key@,
                    ctx.user.key@,
                    seq![ctx.stake_account.data.bump],
                ],
                PROGRAM_ID@,
            );
            ctx.validated() == ctx.rules(pool, stake)
        }),
{
    address::law_pool_address(ctx.pool.data.stake_mint, ctx.pool.data.bump);
    address::law_stake_address(ctx.pool.key, ctx.user.key, ctx.stake_account.data.bump);
}

/// A pool to claim from is held to the address that the word `pool`, its recorded mint and its
/// recorded bump derive; the stake account to the one that the word `stake`, the pool, the user and
/// its recorded bump derive.
pub proof fn law_claim_addresses(ctx: Claim)
    ensures
        ({
            let pool = address::program_address(
                seq![
                    seq![0x70u8, 0x6fu8, 0x6fu8, 0x6cu8],
                    ctx.pool.data.stake_mint@,
                    seq![ctx.pool.data.bump],
                ],
                PROGRAM_ID@,
            );
            let stake = address::program_address(
                seq![
                    seq![0x73u8, 0x74u8, 0x61u8, 0x6bu8, 0x65u8],
                    ctx.pool.key@,
                    ctx.user.key@,
                    seq![ctx.stake_account.data.bump],
                ],
                PROGRAM_ID@,
            );
            ctx.validated() == ctx.rules(pool, stake)
        }),
{
    address::law_pool_address(ctx.pool.data.stake_mint, ctx.pool.data.bump);
    address::law_stake_address(ctx.pool.key, ctx.user.key, ctx.stake_account.data.bump);
}

} // verus!
