//! The rules on accounts: each one broken in turn, and the order in which they are tried.

use staking_rewards::accounts::{
    Claim, FundRewards, InitializePool, NewAccount, PoolAccount, Program, Signer, Stake,
    TokenAccount, Unstake, UserAccount,
};
use staking_rewards::address::{
    find_associated_token_address, find_pool_address, find_stake_address,
    ASSOCIATED_TOKEN_PROGRAM_ID, SYSTEM_PROGRAM_ID, TOKEN_PROGRAM_ID,
};
use staking_rewards::error::{
    AccountName as A, Constraint as C, ConstraintError, InstructionError, StakingError,
};
use staking_rewards::instructions::{
    claim, fund_rewards, initialize_pool, stake, stake_transferred, unstake,
};
use staking_rewards::program::{
    admit_stake, admit_unstake, execute_claim, execute_fund_rewards, execute_initialize_pool,
    execute_stake, execute_unstake,
};
use staking_rewards::pubkey::Pubkey;
use staking_rewards::state::{Pool, StakeAccount};

fn key(tag: u8) -> Pubkey {
    Pubkey { bytes: [tag; 32] }
}

const ADMIN: u8 = 1;
const STAKE_MINT: u8 = 2;
const REWARD_MINT: u8 = 3;
const USER: u8 = 7;
const STRANGER: u8 = 8;

fn signer(tag: u8) -> Signer {
    Signer { key: key(tag), is_signer: true, is_writable: true }
}

fn program(id: [u8; 32]) -> Program {
    Program { key: Pubkey { bytes: id }, executable: true }
}

fn fresh(k: Pubkey) -> NewAccount {
    NewAccount { key: k, is_writable: true, in_use: false }
}

fn wallet(tag: u8, mint: u8, owner: u8) -> TokenAccount {
    TokenAccount { key: key(tag), is_writable: true, mint: key(mint), owner: key(owner) }
}

fn pool_key() -> Pubkey {
    find_pool_address(&key(STAKE_MINT)).unwrap().0
}

fn vault_key(mint: u8) -> Pubkey {
    find_associated_token_address(&pool_key(), &key(mint)).unwrap().0
}

fn vault(mint: u8) -> TokenAccount {
    TokenAccount { key: vault_key(mint), is_writable: true, mint: key(mint), owner: pool_key() }
}

fn pool() -> Pool {
    Pool {
        admin: key(ADMIN),
        stake_mint: key(STAKE_MINT),
        reward_mint: key(REWARD_MINT),
        stake_vault: vault_key(STAKE_MINT),
        reward_vault: vault_key(REWARD_MINT),
        reward_rate: 1_000_000,
        total_staked: 3_000_000,
        bump: find_pool_address(&key(STAKE_MINT)).unwrap().1,
    }
}

fn pool_account() -> PoolAccount {
    PoolAccount { key: pool_key(), is_writable: true, data: pool() }
}

fn stake_account() -> UserAccount {
    let (address, bump) = find_stake_address(&pool_key(), &key(USER)).unwrap();
    UserAccount {
        key: address,
        is_writable: true,
        data: StakeAccount {
            owner: key(USER),
            pool: pool_key(),
            amount: 1_000_000,
            reward_debt: 5,
            last_update: 100,
            bump,
        },
    }
}

fn initialize_ctx() -> InitializePool {
    InitializePool {
        admin: signer(ADMIN),
        pool: fresh(pool_key()),
        stake_mint: key(STAKE_MINT),
        reward_mint: key(REWARD_MINT),
        stake_vault: fresh(vault_key(STAKE_MINT)),
        reward_vault: fresh(vault_key(REWARD_MINT)),
        token_program: program(TOKEN_PROGRAM_ID),
        associated_token_program: program(ASSOCIATED_TOKEN_PROGRAM_ID),
        system_program: program(SYSTEM_PROGRAM_ID),
    }
}

fn fund_ctx() -> FundRewards {
    FundRewards {
        admin: signer(ADMIN),
        pool: pool_account(),
        reward_vault: vault(REWARD_MINT),
        admin_reward_account: wallet(40, REWARD_MINT, ADMIN),
        token_program: program(TOKEN_PROGRAM_ID),
    }
}

fn stake_ctx() -> Stake {
    Stake {
        user: signer(USER),
        pool: pool_account(),
        stake_account: stake_account(),
        stake_vault: vault(STAKE_MINT),
        user_stake_account: wallet(41, STAKE_MINT, USER),
        token_program: program(TOKEN_PROGRAM_ID),
        system_program: program(SYSTEM_PROGRAM_ID),
    }
}

fn unstake_ctx() -> Unstake {
    Unstake {
        user: Signer { is_writable: false, ..signer(USER) },
        pool: pool_account(),
        stake_account: stake_account(),
        owner: key(USER),
        stake_vault: vault(STAKE_MINT),
        user_stake_account: wallet(41, STAKE_MINT, USER),
        token_program: program(TOKEN_PROGRAM_ID),
    }
}

fn claim_ctx() -> Claim {
    Claim {
        user: Signer { is_writable: false, ..signer(USER) },
        pool: PoolAccount { is_writable: false, ..pool_account() },
        stake_account: stake_account(),
        owner: key(USER),
        reward_vault: vault(REWARD_MINT),
        user_reward_account: wallet(42, REWARD_MINT, USER),
        token_program: program(TOKEN_PROGRAM_ID),
    }
}

fn broken(account: A, constraint: C) -> ConstraintError {
    ConstraintError { account, constraint }
}

fn initialize_refused(change: fn(&mut InitializePool), a: A, c: C) {
    let mut ctx = initialize_ctx();
    change(&mut ctx);
    assert_eq!(ctx.validate(), Err(broken(a, c)));
    assert_eq!(
        execute_initialize_pool(&ctx, 5),
        Err(InstructionError::Accounts(broken(a, c)))
    );
}

fn fund_refused(change: fn(&mut FundRewards), a: A, c: C) {
    let mut ctx = fund_ctx();
    change(&mut ctx);
    assert_eq!(ctx.validate(), Err(broken(a, c)));
    assert_eq!(execute_fund_rewards(&ctx, 5), Err(InstructionError::Accounts(broken(a, c))));
}

fn stake_refused(change: fn(&mut Stake), a: A, c: C) {
    let mut ctx = stake_ctx();
    change(&mut ctx);
    let before = ctx;
    assert_eq!(ctx.validate(), Err(broken(a, c)));
    assert_eq!(execute_stake(&mut ctx, 5, 200), Err(InstructionError::Accounts(broken(a, c))));
    assert_eq!(ctx, before);
}

fn unstake_refused(change: fn(&mut Unstake), a: A, c: C) {
    let mut ctx = unstake_ctx();
    change(&mut ctx);
    let before = ctx;
    assert_eq!(ctx.validate(), Err(broken(a, c)));
    assert_eq!(execute_unstake(&mut ctx, 5, 200), Err(InstructionError::Accounts(broken(a, c))));
    assert_eq!(ctx, before);
}

fn claim_refused(change: fn(&mut Claim), a: A, c: C) {
    let mut ctx = claim_ctx();
    change(&mut ctx);
    let before = ctx;
    assert_eq!(ctx.validate(), Err(broken(a, c)));
    assert_eq!(execute_claim(&mut ctx, 200), Err(InstructionError::Accounts(broken(a, c))));
    assert_eq!(ctx, before);
}

#[test]
fn initialize_rules() {
    let (_, bump) = find_pool_address(&key(STAKE_MINT)).unwrap();
    assert_eq!(initialize_ctx().validate().map(|b| b.pool), Ok(bump));
    initialize_refused(|c| c.admin.is_signer = false, A::Admin, C::Signer);
    initialize_refused(|c| c.token_program.key = key(9), A::TokenProgram, C::ProgramId);
    initialize_refused(|c| c.token_program.executable = false, A::TokenProgram, C::Executable);
    initialize_refused(
        |c| c.associated_token_program.key = key(9),
        A::AssociatedTokenProgram,
        C::ProgramId,
    );
    initialize_refused(
        |c| c.associated_token_program.executable = false,
        A::AssociatedTokenProgram,
        C::Executable,
    );
    initialize_refused(|c| c.system_program.key = key(9), A::SystemProgram, C::ProgramId);
    initialize_refused(|c| c.system_program.executable = false, A::SystemProgram, C::Executable);
    initialize_refused(|c| c.pool.key = key(9), A::Pool, C::Seeds);
    initialize_refused(|c| c.stake_mint = key(9), A::Pool, C::Seeds);
    initialize_refused(|c| c.pool.in_use = true, A::Pool, C::InUse);
    initialize_refused(|c| c.pool.is_writable = false, A::Pool, C::Mut);
    initialize_refused(|c| c.stake_vault.key = key(9), A::StakeVault, C::Associated);
    initialize_refused(|c| c.stake_vault.in_use = true, A::StakeVault, C::InUse);
    initialize_refused(|c| c.stake_vault.is_writable = false, A::StakeVault, C::Mut);
    initialize_refused(|c| c.reward_vault.key = key(9), A::RewardVault, C::Associated);
    initialize_refused(|c| c.reward_vault.in_use = true, A::RewardVault, C::InUse);
    initialize_refused(|c| c.reward_vault.is_writable = false, A::RewardVault, C::Mut);
    initialize_refused(|c| c.admin.is_writable = false, A::Admin, C::Mut);
}

#[test]
fn one_mint_cannot_serve_for_both_vaults() {
    initialize_refused(
        |c| {
            c.reward_mint = c.stake_mint;
            c.reward_vault.key = c.stake_vault.key;
        },
        A::RewardVault,
        C::InUse,
    );
}

#[test]
fn rules_on_given_addresses() {
    let found = Some((pool_key(), 200));
    let stakes = Some((vault_key(STAKE_MINT), 255));
    let rewards = Some((vault_key(REWARD_MINT), 255));
    assert_eq!(initialize_ctx().check(found, stakes, rewards).map(|b| b.pool), Ok(200));
    assert_eq!(
        initialize_ctx().check(None, stakes, rewards),
        Err(broken(A::Pool, C::NoBump))
    );
    assert_eq!(
        stake_ctx().check(Some(pool_key()), None),
        Err(broken(A::StakeAccount, C::NoBump))
    );
    assert_eq!(
        stake_ctx()
            .check(Some(pool_key()), Some((stake_account().key, 3)))
            .map(|b| b.stake_account),
        Ok(3)
    );
    assert_eq!(fund_ctx().check(None), Err(broken(A::Pool, C::Seeds)));
    assert_eq!(fund_ctx().check(Some(pool_key())), Ok(()));
    assert_eq!(
        unstake_ctx().check(Some(pool_key()), None),
        Err(broken(A::StakeAccount, C::Seeds))
    );
    assert_eq!(
        claim_ctx().check(Some(key(9)), Some(stake_account().key)),
        Err(broken(A::Pool, C::Seeds))
    );
}

#[test]
fn fund_rules() {
    assert_eq!(fund_ctx().validate(), Ok(()));
    fund_refused(|c| c.admin.is_signer = false, A::Admin, C::Signer);
    fund_refused(|c| c.token_program.key = key(9), A::TokenProgram, C::ProgramId);
    fund_refused(|c| c.token_program.executable = false, A::TokenProgram, C::Executable);
    fund_refused(
        |c| c.admin_reward_account.key = c.reward_vault.key,
        A::AdminRewardAccount,
        C::DuplicateMutable,
    );
    fund_refused(|c| c.admin.is_writable = false, A::Admin, C::Mut);
    fund_refused(|c| c.admin.key = key(STRANGER), A::Admin, C::Address);
    fund_refused(|c| c.pool.key = key(9), A::Pool, C::Seeds);
    fund_refused(|c| c.pool.data.stake_mint = key(9), A::Pool, C::Seeds);
    fund_refused(|c| c.reward_vault.is_writable = false, A::RewardVault, C::Mut);
    fund_refused(|c| c.reward_vault.key = key(9), A::RewardVault, C::Address);
    fund_refused(|c| c.admin_reward_account.is_writable = false, A::AdminRewardAccount, C::Mut);
    fund_refused(
        |c| c.admin_reward_account.owner = key(STRANGER),
        A::AdminRewardAccount,
        C::TokenOwner,
    );
    fund_refused(
        |c| c.admin_reward_account.mint = key(STAKE_MINT),
        A::AdminRewardAccount,
        C::TokenMint,
    );
}

#[test]
fn stake_rules() {
    assert_eq!(stake_ctx().validate().map(|b| b.stake_account), Ok(stake_account().data.bump));
    stake_refused(|c| c.user.is_signer = false, A::User, C::Signer);
    stake_refused(|c| c.token_program.key = key(9), A::TokenProgram, C::ProgramId);
    stake_refused(|c| c.system_program.key = key(9), A::SystemProgram, C::ProgramId);
    stake_refused(|c| c.stake_account.key = key(9), A::StakeAccount, C::Seeds);
    // Another user's stake account.
    stake_refused(|c| c.user.key = key(STRANGER), A::StakeAccount, C::Seeds);
    stake_refused(|c| c.stake_account.is_writable = false, A::StakeAccount, C::Mut);
    stake_refused(|c| c.stake_vault.key = c.pool.key, A::StakeVault, C::DuplicateMutable);
    stake_refused(|c| c.stake_vault.key = c.stake_account.key, A::StakeVault, C::DuplicateMutable);
    stake_refused(
        |c| c.user_stake_account.key = c.stake_vault.key,
        A::UserStakeAccount,
        C::DuplicateMutable,
    );
    stake_refused(
        |c| c.user_stake_account.key = c.pool.key,
        A::UserStakeAccount,
        C::DuplicateMutable,
    );
    stake_refused(|c| c.user.is_writable = false, A::User, C::Mut);
    stake_refused(|c| c.pool.data.bump = 0, A::Pool, C::Seeds);
    stake_refused(|c| c.pool.is_writable = false, A::Pool, C::Mut);
    stake_refused(|c| c.stake_vault.is_writable = false, A::StakeVault, C::Mut);
    stake_refused(|c| c.stake_vault.key = key(9), A::StakeVault, C::Address);
    stake_refused(|c| c.user_stake_account.is_writable = false, A::UserStakeAccount, C::Mut);
    stake_refused(
        |c| c.user_stake_account.owner = key(STRANGER),
        A::UserStakeAccount,
        C::TokenOwner,
    );
    stake_refused(
        |c| c.user_stake_account.mint = key(REWARD_MINT),
        A::UserStakeAccount,
        C::TokenMint,
    );
}

#[test]
fn unstake_rules() {
    assert_eq!(unstake_ctx().validate(), Ok(()));
    unstake_refused(|c| c.user.is_signer = false, A::User, C::Signer);
    unstake_refused(|c| c.token_program.executable = false, A::TokenProgram, C::Executable);
    unstake_refused(|c| c.stake_account.key = c.pool.key, A::StakeAccount, C::DuplicateMutable);
    unstake_refused(
        |c| c.user_stake_account.key = c.stake_vault.key,
        A::UserStakeAccount,
        C::DuplicateMutable,
    );
    unstake_refused(|c| c.pool.key = key(9), A::Pool, C::Seeds);
    unstake_refused(|c| c.pool.is_writable = false, A::Pool, C::Mut);
    unstake_refused(|c| c.stake_account.key = key(9), A::StakeAccount, C::Seeds);
    unstake_refused(|c| c.stake_account.is_writable = false, A::StakeAccount, C::Mut);
    unstake_refused(|c| c.stake_account.data.owner = key(STRANGER), A::StakeAccount, C::HasOne);
    unstake_refused(
        |c| {
            c.stake_account.data.owner = key(STRANGER);
            c.owner = key(STRANGER);
        },
        A::Owner,
        C::Address,
    );
    // A stranger signs for somebody else's position.
    unstake_refused(|c| c.user.key = key(STRANGER), A::StakeAccount, C::Seeds);
    unstake_refused(|c| c.stake_vault.is_writable = false, A::StakeVault, C::Mut);
    unstake_refused(|c| c.stake_vault.key = key(9), A::StakeVault, C::Address);
    unstake_refused(
        |c| c.user_stake_account.owner = key(STRANGER),
        A::UserStakeAccount,
        C::TokenOwner,
    );
    unstake_refused(
        |c| c.user_stake_account.mint = key(REWARD_MINT),
        A::UserStakeAccount,
        C::TokenMint,
    );
}

#[test]
fn claim_rules() {
    assert_eq!(claim_ctx().validate(), Ok(()));
    claim_refused(|c| c.user.is_signer = false, A::User, C::Signer);
    claim_refused(|c| c.token_program.key = key(9), A::TokenProgram, C::ProgramId);
    claim_refused(
        |c| c.reward_vault.key = c.stake_account.key,
        A::RewardVault,
        C::DuplicateMutable,
    );
    claim_refused(
        |c| c.user_reward_account.key = c.reward_vault.key,
        A::UserRewardAccount,
        C::DuplicateMutable,
    );
    claim_refused(|c| c.pool.key = key(9), A::Pool, C::Seeds);
    claim_refused(|c| c.stake_account.data.bump = 0, A::StakeAccount, C::Seeds);
    claim_refused(|c| c.user.key = key(STRANGER), A::StakeAccount, C::Seeds);
    claim_refused(|c| c.stake_account.is_writable = false, A::StakeAccount, C::Mut);
    claim_refused(|c| c.owner = key(STRANGER), A::StakeAccount, C::HasOne);
    claim_refused(
        |c| {
            c.owner = key(STRANGER);
            c.stake_account.data.owner = key(STRANGER);
        },
        A::Owner,
        C::Address,
    );
    claim_refused(|c| c.reward_vault.is_writable = false, A::RewardVault, C::Mut);
    // The stake vault cannot stand in for the reward vault.
    claim_refused(|c| c.reward_vault.key = vault_key(STAKE_MINT), A::RewardVault, C::Address);
    claim_refused(
        |c| c.user_reward_account.owner = key(STRANGER),
        A::UserRewardAccount,
        C::TokenOwner,
    );
    claim_refused(
        |c| c.user_reward_account.mint = key(STAKE_MINT),
        A::UserRewardAccount,
        C::TokenMint,
    );
}

#[test]
fn first_broken_rule_is_reported() {
    unstake_refused(
        |c| {
            c.pool.is_writable = false;
            c.stake_account.is_writable = false;
            c.stake_vault.key = key(9);
            c.owner = key(STRANGER);
        },
        A::Pool,
        C::Mut,
    );
}

#[test]
fn initialize_records_the_pool() {
    let ctx = initialize_ctx();
    let bumps = ctx.validate().unwrap();
    let record = Pool { reward_rate: 77, total_staked: 0, ..pool() };
    assert_eq!(initialize_pool(&ctx, bumps, 77), Ok(record));
    assert_eq!(execute_initialize_pool(&ctx, 77), Ok(record));
    assert_eq!(record.bump, bumps.pool);
}

#[test]
fn fund_asks_for_the_transfer() {
    let ctx = fund_ctx();
    let t = fund_rewards(&ctx, 123).unwrap();
    assert_eq!(t.token_program, Pubkey { bytes: TOKEN_PROGRAM_ID });
    assert_eq!((t.from, t.to, t.authority), (key(40), vault_key(REWARD_MINT), key(ADMIN)));
    assert_eq!(t.amount, 123);
    assert_eq!(t.signer, None);
}

#[test]
fn stake_settles_then_counts_the_deposit() {
    let mut ctx = stake_ctx();
    let bumps = ctx.validate().unwrap();
    let t = stake(&mut ctx, bumps, 500, 200).unwrap();
    assert_eq!((t.from, t.to, t.authority), (key(41), vault_key(STAKE_MINT), key(USER)));
    assert_eq!(t.amount, 500);
    assert_eq!(t.signer, None);
    // 1_000_000 staked for 100 seconds on top of 5.
    assert_eq!(ctx.stake_account.data.reward_debt, 105);
    assert_eq!(ctx.stake_account.data.last_update, 200);
    assert_eq!(ctx.stake_account.data.amount, 1_000_000);
    assert_eq!(ctx.pool.data.total_staked, 3_000_000);
    assert_eq!(stake_transferred(&mut ctx, 500), Ok(()));
    assert_eq!(ctx.stake_account.data.amount, 1_000_500);
    assert_eq!(ctx.pool.data.total_staked, 3_000_500);
}

#[test]
fn stake_overflows_are_refused() {
    let mut ctx = stake_ctx();
    ctx.stake_account.data.amount = u64::MAX;
    let before = ctx;
    assert_eq!(stake_transferred(&mut ctx, 1), Err(StakingError::MathOverflow));
    assert_eq!(ctx, before);
    let mut ctx = stake_ctx();
    ctx.pool.data.total_staked = u64::MAX;
    let before = ctx;
    assert_eq!(stake_transferred(&mut ctx, 1), Err(StakingError::MathOverflow));
    assert_eq!(ctx, before);
    let mut ctx = stake_ctx();
    ctx.stake_account.data.reward_debt = u64::MAX;
    let before = ctx;
    let bumps = ctx.validate().unwrap();
    assert_eq!(stake(&mut ctx, bumps, 1, 200), Err(StakingError::MathOverflow));
    assert_eq!(ctx, before);
}

#[test]
fn unstake_releases_with_the_pools_signature() {
    let mut ctx = unstake_ctx();
    let t = unstake(&mut ctx, 400_000, 150).unwrap();
    assert_eq!((t.from, t.to, t.authority), (vault_key(STAKE_MINT), key(41), pool_key()));
    assert_eq!(t.amount, 400_000);
    let signer = t.signer.unwrap();
    assert_eq!((signer.stake_mint, signer.bump), (key(STAKE_MINT), pool().bump));
    assert_eq!(ctx.stake_account.data.amount, 600_000);
    assert_eq!(ctx.stake_account.data.reward_debt, 55);
    assert_eq!(ctx.pool.data.total_staked, 2_600_000);
}

#[test]
fn unstake_refusals() {
    let mut ctx = unstake_ctx();
    let before = ctx;
    assert_eq!(unstake(&mut ctx, 0, 150), Err(StakingError::ZeroAmount));
    assert_eq!(unstake(&mut ctx, 1_000_001, 150), Err(StakingError::InsufficientStake));
    assert_eq!(ctx, before);
    ctx.pool.data.total_staked = 9;
    let before = ctx;
    assert_eq!(unstake(&mut ctx, 10, 150), Err(StakingError::MathOverflow));
    assert_eq!(ctx, before);
}

#[test]
fn claim_pays_everything_owed_once() {
    let mut ctx = claim_ctx();
    let t = claim(&mut ctx, 110).unwrap();
    assert_eq!((t.from, t.to, t.authority), (vault_key(REWARD_MINT), key(42), pool_key()));
    assert_eq!(t.amount, 15);
    assert_eq!(t.signer.unwrap().seeds().len(), 3);
    assert_eq!(ctx.stake_account.data.reward_debt, 0);
    assert_eq!(ctx.stake_account.data.last_update, 110);
    assert_eq!(ctx.stake_account.data.amount, 1_000_000);
    let before = ctx;
    assert_eq!(claim(&mut ctx, 110), Err(StakingError::NothingToClaim));
    assert_eq!(ctx, before);
}

#[test]
fn pool_is_created_once() {
    let first = initialize_ctx();
    assert!(execute_initialize_pool(&first, 1_000_000).is_ok());
    // Another admin, another rate and other reward tokens make no difference.
    let mut second = initialize_ctx();
    second.admin = signer(STRANGER);
    second.reward_mint = key(9);
    second.reward_vault = fresh(vault_key(9));
    assert!(execute_initialize_pool(&second, 7).is_ok());
    second.pool.in_use = true;
    let refused = Err(InstructionError::Accounts(broken(A::Pool, C::InUse)));
    assert_eq!(execute_initialize_pool(&second, 7), refused);
    second.pool = fresh(key(77));
    let elsewhere = Err(InstructionError::Accounts(broken(A::Pool, C::Seeds)));
    assert_eq!(execute_initialize_pool(&second, 7), elsewhere);
}

#[test]
fn refusals_without_a_clock_come_first() {
    let ctx = stake_ctx();
    assert_eq!(admit_stake(&ctx, 1), Ok(()));
    assert_eq!(admit_stake(&ctx, 0), Err(InstructionError::Program(StakingError::ZeroAmount)));
    let mut unsigned = stake_ctx();
    unsigned.user.is_signer = false;
    let accounts = Err(InstructionError::Accounts(broken(A::User, C::Signer)));
    assert_eq!(admit_stake(&unsigned, 0), accounts);

    let ctx = unstake_ctx();
    assert_eq!(admit_unstake(&ctx, 1_000_000), Ok(()));
    let zero = InstructionError::Program(StakingError::ZeroAmount);
    let overdrawn = InstructionError::Program(StakingError::InsufficientStake);
    assert_eq!(admit_unstake(&ctx, 0), Err(zero));
    assert_eq!(admit_unstake(&ctx, 1_000_001), Err(overdrawn));
    let mut unsigned = unstake_ctx();
    unsigned.user.is_signer = false;
    assert_eq!(admit_unstake(&unsigned, 0), accounts);

    // At a time whose distance to the last update does not fit, the same refusals come.
    for now in [i64::MIN, 150, i64::MAX] {
        let mut request = unstake_ctx();
        request.stake_account.data.last_update = 1;
        assert_eq!(execute_unstake(&mut request, 0, now), Err(zero));
        assert_eq!(execute_unstake(&mut request, 1_000_001, now), Err(overdrawn));
        let mut request = stake_ctx();
        request.stake_account.data.last_update = 1;
        assert_eq!(execute_stake(&mut request, 0, now), Err(zero));
    }
}

/// A pool for another mint whose record names the vaults of the first, and the user's stake in it.
fn other_pool() -> (PoolAccount, UserAccount) {
    let (address, bump) = find_pool_address(&key(9)).unwrap();
    let data = Pool { stake_mint: key(9), bump, ..pool() };
    let (stake_key, stake_bump) = find_stake_address(&address, &key(USER)).unwrap();
    let mut account = stake_account();
    account.key = stake_key;
    account.data.pool = address;
    account.data.bump = stake_bump;
    (PoolAccount { key: address, is_writable: true, data }, account)
}

#[test]
fn another_pool_has_no_authority_over_the_vaults() {
    let (other, account) = other_pool();
    assert_ne!(other.key, pool_key());
    let mut ctx = unstake_ctx();
    ctx.pool = other;
    ctx.stake_account = account;
    ctx.user_stake_account = wallet(41, 9, USER);
    let t = execute_unstake(&mut ctx, 400_000, 150).unwrap();
    assert_eq!((t.from, t.authority), (vault_key(STAKE_MINT), other.key));
    assert_ne!(t.authority, ctx.stake_vault.owner);

    let mut ctx = claim_ctx();
    ctx.pool = other;
    ctx.stake_account = account;
    let t = execute_claim(&mut ctx, 150).unwrap();
    assert_eq!((t.from, t.authority), (vault_key(REWARD_MINT), other.key));
    assert_ne!(t.authority, ctx.reward_vault.owner);
}

#[test]
fn another_pool_cannot_draw_on_a_stake_account() {
    let (other, account) = other_pool();
    assert_ne!(account.key, stake_account().key);
    let seeds = InstructionError::Accounts(broken(A::StakeAccount, C::Seeds));
    let mut ctx = unstake_ctx();
    ctx.pool = other;
    assert_eq!(execute_unstake(&mut ctx, 1, 150), Err(seeds));
    let mut ctx = claim_ctx();
    ctx.pool = other;
    assert_eq!(execute_claim(&mut ctx, 150), Err(seeds));
    let mut ctx = stake_ctx();
    ctx.pool = other;
    assert_eq!(execute_stake(&mut ctx, 1, 150), Err(seeds));
}
