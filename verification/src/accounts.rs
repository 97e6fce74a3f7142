//! The accounts that each instruction takes, and the rules they must meet.
//!
//! The rules of an instruction are tried in a fixed order and the first one broken is reported.
//! The addresses they compare with are derived beforehand: `check` takes them as arguments,
//! `validate` derives them.

use vstd::prelude::*;

use crate::address;
use crate::address::{
    ASSOCIATED_TOKEN_PROGRAM_ID, PROGRAM_ID, SYSTEM_PROGRAM_ID, TOKEN_PROGRAM_ID,
};
use crate::error::{AccountName, Constraint, ConstraintError};
use crate::pubkey::Pubkey;
use crate::state::{Pool, StakeAccount};

verus! {

/// An account that must have signed the transaction.
#[derive(Clone, Copy, Debug, PartialEq, Eq)]
pub struct Signer {
    pub key: Pubkey,
    pub is_signer: bool,
    pub is_writable: bool,
}

/// A pool with its record.
#[derive(Clone, Copy, Debug, PartialEq, Eq)]
pub struct PoolAccount {
    pub key: Pubkey,
    pub is_writable: bool,
    pub data: Pool,
}

/// A stake account with its record, all zero where the account has just been created.
#[derive(Clone, Copy, Debug, PartialEq, Eq)]
pub struct UserAccount {
    pub key: Pubkey,
    pub is_writable: bool,
    pub data: StakeAccount,
}

/// A token account, with what the rules read of it.
#[derive(Clone, Copy, Debug, PartialEq, Eq)]
pub struct TokenAccount {
    pub key: Pubkey,
    pub is_writable: bool,
    pub mint: Pubkey,
    pub owner: Pubkey,
}

/// An account that the instruction creates.
#[derive(Clone, Copy, Debug, PartialEq, Eq)]
pub struct NewAccount {
    pub key: Pubkey,
    pub is_writable: bool,
    /// Whether creation is refused here: the address is already owned by a program other than
    /// the system program, or holds data. Lamports alone do not count.
    pub in_use: bool,
}

/// A program to be called.
#[derive(Clone, Copy, Debug, PartialEq, Eq)]
pub struct Program {
    pub key: Pubkey,
    pub executable: bool,
}

/// `account` breaks `constraint`.
fn fault(account: AccountName, constraint: Constraint) -> (e: ConstraintError)
    ensures
        e == (ConstraintError { account, constraint }),
{
    ConstraintError { account, constraint }
}

/// The answer to accounts of which `account` breaks `constraint`.
pub open spec fn broken(account: AccountName, constraint: Constraint) -> Result<
    (),
    ConstraintError,
> {
    Err(ConstraintError { account, constraint })
}

/// The rules on a program: it is the one with address `id`, and executable.
pub open spec fn program_rules(program: Program, id: [u8; 32], name: AccountName) -> Result<
    (),
    ConstraintError,
> {
    if program.key.bytes != id {
        broken(name, Constraint::ProgramId)
    } else if !program.executable {
        broken(name, Constraint::Executable)
    } else {
        Ok(())
    }
}

/// The rules on a vault: it is writable, and the one that the pool names.
pub open spec fn vault_rules(vault: TokenAccount, address: Pubkey, name: AccountName) -> Result<
    (),
    ConstraintError,
> {
    if !vault.is_writable {
        broken(name, Constraint::Mut)
    } else if vault.key != address {
        broken(name, Constraint::Address)
    } else {
        Ok(())
    }
}

/// The rules on the token account of a person: it is writable, theirs, and for `mint`.
pub open spec fn wallet_rules(
    wallet: TokenAccount,
    owner: Pubkey,
    mint: Pubkey,
    name: AccountName,
) -> Result<(), ConstraintError> {
    if !wallet.is_writable {
        broken(name, Constraint::Mut)
    } else if wallet.owner != owner {
        broken(name, Constraint::TokenOwner)
    } else if wallet.mint != mint {
        broken(name, Constraint::TokenMint)
    } else {
        Ok(())
    }
}

fn check_program(program: &Program, id: [u8; 32], name: AccountName) -> (r: Result<
    (),
    ConstraintError,
>)
    ensures
        r == program_rules(*program, id, name),
{
    if program.key != (Pubkey { bytes: id }) {
        Err(fault(name, Constraint::ProgramId))
    } else if !program.executable {
        Err(fault(name, Constraint::Executable))
    } else {
        Ok(())
    }
}

fn check_vault(vault: &TokenAccount, address: &Pubkey, name: AccountName) -> (r: Result<
    (),
    ConstraintError,
>)
    ensures
        r == vault_rules(*vault, *address, name),
{
    if !vault.is_writable {
        Err(fault(name, Constraint::Mut))
    } else if vault.key != *address {
        Err(fault(name, Constraint::Address))
    } else {
        Ok(())
    }
}

fn check_wallet(wallet: &TokenAccount, owner: &Pubkey, mint: &Pubkey, name: AccountName) -> (r:
    Result<(), ConstraintError>)
    ensures
        r == wallet_rules(*wallet, *owner, *mint, name),
{
    if !wallet.is_writable {
        Err(fault(name, Constraint::Mut))
    } else if wallet.owner != *owner {
        Err(fault(name, Constraint::TokenOwner))
    } else if wallet.mint != *mint {
        Err(fault(name, Constraint::TokenMint))
    } else {
        Ok(())
    }
}

/// Whether an account lives at a derived address.
fn lives_at(key: &Pubkey, derived: &Option<Pubkey>) -> (r: bool)
    ensures
        r == (address::key_view(*derived) == Some(key@)),
{
    match derived {
        Some(address) => {
            proof {
                key.lemma_view_injective(*address);
            }
            *key == *address
        },
        None => false,
    }
}

/// The address in the outcome of a search for a canonical bump.
pub open spec fn found_address(found: Option<(Seq<u8>, u8)>) -> Option<Seq<u8>> {
    match found {
        Some((address, _)) => Some(address),
        None => None,
    }
}

/// Whether an account lives at the address that a search for a canonical bump has found.
fn lives_at_found(key: &Pubkey, found: &Option<(Pubkey, u8)>) -> (r: bool)
    ensures
        r == (found_address(address::found_view(*found)) == Some(key@)),
{
    match found {
        Some((address, _)) => lives_at(key, &Some(*address)),
        None => false,
    }
}

/// What `initialize_pool` takes: the admin creates a pool and its two vaults.
#[derive(Clone, Copy, Debug, PartialEq, Eq)]
pub struct InitializePool {
    pub admin: Signer,
    pub pool: NewAccount,
    pub stake_mint: Pubkey,
    pub reward_mint: Pubkey,
    pub stake_vault: NewAccount,
    pub reward_vault: NewAccount,
    pub token_program: Program,
    pub associated_token_program: Program,
    pub system_program: Program,
}

/// The bump found for a new pool.
#[derive(Clone, Copy, Debug, PartialEq, Eq)]
pub struct InitializePoolBumps {
    pub pool: u8,
}

impl InitializePool {
    /// The rules, given the canonical address of a pool for the stake mint and the associated
    /// token addresses of that pool for both mints.
    pub open spec fn rules(
        self,
        pool: Option<(Seq<u8>, u8)>,
        stake_vault: Option<(Seq<u8>, u8)>,
        reward_vault: Option<(Seq<u8>, u8)>,
    ) -> Result<(), ConstraintError> {
        let token = program_rules(self.token_program, TOKEN_PROGRAM_ID, AccountName::TokenProgram);
        let associated = program_rules(
            self.associated_token_program,
            ASSOCIATED_TOKEN_PROGRAM_ID,
            AccountName::AssociatedTokenProgram,
        );
        let system = program_rules(
            self.system_program,
            SYSTEM_PROGRAM_ID,
            AccountName::SystemProgram,
        );
        if !self.admin.is_signer {
            broken(AccountName::Admin, Constraint::Signer)
        } else if token is Err {
            token
        } else if associated is Err {
            associated
        } else if system is Err {
            system
        } else if pool is None {
            broken(AccountName::Pool, Constraint::NoBump)
        } else if found_address(pool) != Some(self.pool.key@) {
            broken(AccountName::Pool, Constraint::Seeds)
        } else if self.pool.in_use {
            broken(AccountName::Pool, Constraint::InUse)
        } else if !self.pool.is_writable {
            broken(AccountName::Pool, Constraint::Mut)
        } else if found_address(stake_vault) != Some(self.stake_vault.key@) {
            broken(AccountName::StakeVault, Constraint::Associated)
        } else if self.stake_vault.in_use {
            broken(AccountName::StakeVault, Constraint::InUse)
        } else if !self.stake_vault.is_writable {
            broken(AccountName::StakeVault, Constraint::Mut)
        } else if found_address(reward_vault) != Some(self.reward_vault.key@) {
            broken(AccountName::RewardVault, Constraint::Associated)
        } else if self.reward_vault.in_use || self.reward_vault.key == self.stake_vault.key {
            broken(AccountName::RewardVault, Constraint::InUse)
        } else if !self.reward_vault.is_writable {
            broken(AccountName::RewardVault, Constraint::Mut)
        } else if !self.admin.is_writable {
            broken(AccountName::Admin, Constraint::Mut)
        } else {
            Ok(())
        }
    }

    /// What is decided on given addresses: the bump of the pool's address, or the rule broken.
    pub open spec fn decision(
        self,
        pool: Option<(Seq<u8>, u8)>,
        stake_vault: Option<(Seq<u8>, u8)>,
        reward_vault: Option<(Seq<u8>, u8)>,
    ) -> Result<InitializePoolBumps, ConstraintError> {
        match self.rules(pool, stake_vault, reward_vault) {
            Ok(_) => Ok(InitializePoolBumps { pool: (pool->0).1 }),
            Err(e) => Err(e),
        }
    }

    /// What is decided on the addresses that the seeds derive.
    pub open spec fn validated(self) -> Result<InitializePoolBumps, ConstraintError> {
        self.decision(
            address::canonical_address(address::pool_seeds(self.stake_mint@), PROGRAM_ID@),
            address::canonical_address(
                address::associated_token_seeds(self.pool.key@, self.stake_mint@),
                ASSOCIATED_TOKEN_PROGRAM_ID@,
            ),
            address::canonical_address(
                address::associated_token_seeds(self.pool.key@, self.reward_mint@),
                ASSOCIATED_TOKEN_PROGRAM_ID@,
            ),
        )
    }

    /// Tries the rules on given addresses.
    pub fn check(
        &self,
        pool: Option<(Pubkey, u8)>,
        stake_vault: Option<(Pubkey, u8)>,
        reward_vault: Option<(Pubkey, u8)>,
    ) -> (r: Result<InitializePoolBumps, ConstraintError>)
        ensures
            r == self.decision(
                address::found_view(pool),
                address::found_view(stake_vault),
                address::found_view(reward_vault),
            ),
    {
        if !self.admin.is_signer {
            return Err(fault(AccountName::Admin, Constraint::Signer));
        }
        if let Err(e) = check_program(
            &self.token_program,
            TOKEN_PROGRAM_ID,
            AccountName::TokenProgram,
        ) {
            return Err(e);
        }
        if let Err(e) = check_program(
            &self.associated_token_program,
            ASSOCIATED_TOKEN_PROGRAM_ID,
            AccountName::AssociatedTokenProgram,
        ) {
            return Err(e);
        }
        if let Err(e) = check_program(
            &self.system_program,
            SYSTEM_PROGRAM_ID,
            AccountName::SystemProgram,
        ) {
            return Err(e);
        }
        let bump: u8 = match pool {
            Some((_, bump)) => bump,
            None => return Err(fault(AccountName::Pool, Constraint::NoBump)),
        };
        if !lives_at_found(&self.pool.key, &pool) {
            return Err(fault(AccountName::Pool, Constraint::Seeds));
        }
        if self.pool.in_use {
            return Err(fault(AccountName::Pool, Constraint::InUse));
        }
        if !self.pool.is_writable {
            return Err(fault(AccountName::Pool, Constraint::Mut));
        }
        if !lives_at_found(&self.stake_vault.key, &stake_vault) {
            return Err(fault(AccountName::StakeVault, Constraint::Associated));
        }
        if self.stake_vault.in_use {
            return Err(fault(AccountName::StakeVault, Constraint::InUse));
        }
        if !self.stake_vault.is_writable {
            return Err(fault(AccountName::StakeVault, Constraint::Mut));
        }
        if !lives_at_found(&self.reward_vault.key, &reward_vault) {
            return Err(fault(AccountName::RewardVault, Constraint::Associated));
        }
        if self.reward_vault.in_use || self.reward_vault.key == self.stake_vault.key {
            return Err(fault(AccountName::RewardVault, Constraint::InUse));
        }
        if !self.reward_vault.is_writable {
            return Err(fault(AccountName::RewardVault, Constraint::Mut));
        }
        if !self.admin.is_writable {
            return Err(fault(AccountName::Admin, Constraint::Mut));
        }
        Ok(InitializePoolBumps { pool: bump })
    }

    /// Derives the addresses and tries the rules.
    pub fn validate(&self) -> (r: Result<InitializePoolBumps, ConstraintError>)
        ensures
            r == self.validated(),
    {
        self.check(
            address::find_pool_address(&self.stake_mint),
            address::find_associated_token_address(&self.pool.key, &self.stake_mint),
            address::find_associated_token_address(&self.pool.key, &self.reward_mint),
        )
    }
}

/// What `fund_rewards` takes: the admin pays into the reward vault.
#[derive(Clone, Copy, Debug, PartialEq, Eq)]
pub struct FundRewards {
    pub admin: Signer,
    pub pool: PoolAccount,
    pub reward_vault: TokenAccount,
    pub admin_reward_account: TokenAccount,
    pub token_program: Program,
}

impl FundRewards {
    /// The rules, given the address that the pool's seeds derive.
    pub open spec fn rules(self, pool: Option<Seq<u8>>) -> Result<(), ConstraintError> {
        let token = program_rules(self.token_program, TOKEN_PROGRAM_ID, AccountName::TokenProgram);
        let vault = vault_rules(
            self.reward_vault,
            self.pool.data.reward_vault,
            AccountName::RewardVault,
        );
        if !self.admin.is_signer {
            broken(AccountName::Admin, Constraint::Signer)
        } else if token is Err {
            token
        } else if self.admin_reward_account.key == self.reward_vault.key {
            broken(AccountName::AdminRewardAccount, Constraint::DuplicateMutable)
        } else if !self.admin.is_writable {
            broken(AccountName::Admin, Constraint::Mut)
        } else if self.admin.key != self.pool.data.admin {
            broken(AccountName::Admin, Constraint::Address)
        } else if pool != Some(self.pool.key@) {
            broken(AccountName::Pool, Constraint::Seeds)
        } else if vault is Err {
            vault
        } else {
            wallet_rules(
                self.admin_reward_account,
                self.admin.key,
                self.pool.data.reward_mint,
                AccountName::AdminRewardAccount,
            )
        }
    }

    /// What is decided on the address that the pool's seeds derive.
    pub open spec fn validated(self) -> Result<(), ConstraintError> {
        self.rules(address::pool_address_spec(self.pool.data.stake_mint, self.pool.data.bump))
    }

    /// Tries the rules on a given address.
    pub fn check(&self, pool: Option<Pubkey>) -> (r: Result<(), ConstraintError>)
        ensures
            r == self.rules(address::key_view(pool)),
    {
        if !self.admin.is_signer {
            return Err(fault(AccountName::Admin, Constraint::Signer));
        }
        if let Err(e) = check_program(
            &self.token_program,
            TOKEN_PROGRAM_ID,
            AccountName::TokenProgram,
        ) {
            return Err(e);
        }
        if self.admin_reward_account.key == self.reward_vault.key {
            return Err(fault(AccountName::AdminRewardAccount, Constraint::DuplicateMutable));
        }
        if !self.admin.is_writable {
            return Err(fault(AccountName::Admin, Constraint::Mut));
        }
        if self.admin.key != self.pool.data.admin {
            return Err(fault(AccountName::Admin, Constraint::Address));
        }
        if !lives_at(&self.pool.key, &pool) {
            return Err(fault(AccountName::Pool, Constraint::Seeds));
        }
        if let Err(e) = check_vault(
            &self.reward_vault,
            &self.pool.data.reward_vault,
            AccountName::RewardVault,
        ) {
            return Err(e);
        }
        check_wallet(
            &self.admin_reward_account,
            &self.admin.key,
            &self.pool.data.reward_mint,
            AccountName::AdminRewardAccount,
        )
    }

    /// Derives the pool's address and tries the rules.
    pub fn validate(&self) -> (r: Result<(), ConstraintError>)
        ensures
            r == self.validated(),
    {
        self.check(address::pool_address(&self.pool.data.stake_mint, self.pool.data.bump))
    }
}

/// What `stake` takes. The user's stake account is created on first use.
#[derive(Clone, Copy, Debug, PartialEq, Eq)]
pub struct Stake {
    pub user: Signer,
    pub pool: PoolAccount,
    pub stake_account: UserAccount,
    pub stake_vault: TokenAccount,
    pub user_stake_account: TokenAccount,
    pub token_program: Program,
    pub system_program: Program,
}

/// The bump found for the user's stake account.
#[derive(Clone, Copy, Debug, PartialEq, Eq)]
pub struct StakeBumps {
    pub stake_account: u8,
}

impl Stake {
    /// The rules, given the address that the pool's seeds derive and the canonical address of
    /// the user's stake account.
    pub open spec fn rules(
        self,
        pool: Option<Seq<u8>>,
        stake_account: Option<(Seq<u8>, u8)>,
    ) -> Result<(), ConstraintError> {
        let token = program_rules(self.token_program, TOKEN_PROGRAM_ID, AccountName::TokenProgram);
        let system = program_rules(
            self.system_program,
            SYSTEM_PROGRAM_ID,
            AccountName::SystemProgram,
        );
        let vault = vault_rules(
            self.stake_vault,
            self.pool.data.stake_vault,
            AccountName::StakeVault,
        );
        if !self.user.is_signer {
            broken(AccountName::User, Constraint::Signer)
        } else if token is Err {
            token
        } else if system is Err {
            system
        } else if stake_account is None {
            broken(AccountName::StakeAccount, Constraint::NoBump)
        } else if found_address(stake_account) != Some(self.stake_account.key@) {
            broken(AccountName::StakeAccount, Constraint::Seeds)
        } else if !self.stake_account.is_writable {
            broken(AccountName::StakeAccount, Constraint::Mut)
        } else if self.stake_account.key == self.pool.key {
            broken(AccountName::StakeAccount, Constraint::DuplicateMutable)
        } else if self.stake_vault.key == self.pool.key || self.stake_vault.key
            == self.stake_account.key {
            broken(AccountName::StakeVault, Constraint::DuplicateMutable)
        } else if self.user_stake_account.key == self.pool.key || self.user_stake_account.key
            == self.stake_account.key || self.user_stake_account.key == self.stake_vault.key {
            broken(AccountName::UserStakeAccount, Constraint::DuplicateMutable)
        } else if !self.user.is_writable {
            broken(AccountName::User, Constraint::Mut)
        } else if pool != Some(self.pool.key@) {
            broken(AccountName::Pool, Constraint::Seeds)
        } else if !self.pool.is_writable {
            broken(AccountName::Pool, Constraint::Mut)
        } else if vault is Err {
            vault
        } else {
            wallet_rules(
                self.user_stake_account,
                self.user.key,
                self.pool.data.stake_mint,
                AccountName::UserStakeAccount,
            )
        }
    }

    /// What is decided on given addresses: the bump of the stake account's address, or the rule
    /// broken.
    pub open spec fn decision(
        self,
        pool: Option<Seq<u8>>,
        stake_account: Option<(Seq<u8>, u8)>,
    ) -> Result<StakeBumps, ConstraintError> {
        match self.rules(pool, stake_account) {
            Ok(_) => Ok(StakeBumps { stake_account: (stake_account->0).1 }),
            Err(e) => Err(e),
        }
    }

    /// What is decided on the addresses that the seeds derive.
    pub open spec fn validated(self) -> Result<StakeBumps, ConstraintError> {
        self.decision(
            address::pool_address_spec(self.pool.data.stake_mint, self.pool.data.bump),
            address::canonical_address(
                address::stake_seeds(self.pool.key@, self.user.key@),
                PROGRAM_ID@,
            ),
        )
    }

    /// Tries the rules on given addresses.
    pub fn check(&self, pool: Option<Pubkey>, stake_account: Option<(Pubkey, u8)>) -> (r: Result<
        StakeBumps,
        ConstraintError,
    >)
        ensures
            r == self.decision(address::key_view(pool), address::found_view(stake_account)),
    {
        if !self.user.is_signer {
            return Err(fault(AccountName::User, Constraint::Signer));
        }
        if let Err(e) = check_program(
            &self.token_program,
            TOKEN_PROGRAM_ID,
            AccountName::TokenProgram,
        ) {
            return Err(e);
        }
        if let Err(e) = check_program(
            &self.system_program,
            SYSTEM_PROGRAM_ID,
            AccountName::SystemProgram,
        ) {
            return Err(e);
        }
        let bump: u8 = match stake_account {
            Some((_, bump)) => bump,
            None => return Err(fault(AccountName::StakeAccount, Constraint::NoBump)),
        };
        if !lives_at_found(&self.stake_account.key, &stake_account) {
            return Err(fault(AccountName::StakeAccount, Constraint::Seeds));
        }
        if !self.stake_account.is_writable {
            return Err(fault(AccountName::StakeAccount, Constraint::Mut));
        }
        if self.stake_account.key == self.pool.key {
            return Err(fault(AccountName::StakeAccount, Constraint::DuplicateMutable));
        }
        if self.stake_vault.key == self.pool.key || self.stake_vault.key
            == self.stake_account.key {
            return Err(fault(AccountName::StakeVault, Constraint::DuplicateMutable));
        }
        if self.user_stake_account.key == self.pool.key || self.user_stake_account.key
            == self.stake_account.key || self.user_stake_account.key == self.stake_vault.key {
            return Err(fault(AccountName::UserStakeAccount, Constraint::DuplicateMutable));
        }
        if !self.user.is_writable {
            return Err(fault(AccountName::User, Constraint::Mut));
        }
        if !lives_at(&self.pool.key, &pool) {
            return Err(fault(AccountName::Pool, Constraint::Seeds));
        }
        if !self.pool.is_writable {
            return Err(fault(AccountName::Pool, Constraint::Mut));
        }
        if let Err(e) = check_vault(
            &self.stake_vault,
            &self.pool.data.stake_vault,
            AccountName::StakeVault,
        ) {
            return Err(e);
        }
        if let Err(e) = check_wallet(
            &self.user_stake_account,
            &self.user.key,
            &self.pool.data.stake_mint,
            AccountName::UserStakeAccount,
        ) {
            return Err(e);
        }
        Ok(StakeBumps { stake_account: bump })
    }

    /// Derives the addresses and tries the rules.
    pub fn validate(&self) -> (r: Result<StakeBumps, ConstraintError>)
        ensures
            r == self.validated(),
    {
        self.check(
            address::pool_address(&self.pool.data.stake_mint, self.pool.data.bump),
            address::find_stake_address(&self.pool.key, &self.user.key),
        )
    }
}

/// What `unstake` takes.
#[derive(Clone, Copy, Debug, PartialEq, Eq)]
pub struct Unstake {
    pub user: Signer,
    pub pool: PoolAccount,
    pub stake_account: UserAccount,
    pub owner: Pubkey,
    pub stake_vault: TokenAccount,
    pub user_stake_account: TokenAccount,
    pub token_program: Program,
}

impl Unstake {
    /// The rules, given the addresses that the seeds of the pool and the stake account derive.
    pub open spec fn rules(
        self,
        pool: Option<Seq<u8>>,
        stake_account: Option<Seq<u8>>,
    ) -> Result<(), ConstraintError> {
        let token = program_rules(self.token_program, TOKEN_PROGRAM_ID, AccountName::TokenProgram);
        let vault = vault_rules(
            self.stake_vault,
            self.pool.data.stake_vault,
            AccountName::StakeVault,
        );
        if !self.user.is_signer {
            broken(AccountName::User, Constraint::Signer)
        } else if token is Err {
            token
        } else if self.stake_account.key == self.pool.key {
            broken(AccountName::StakeAccount, Constraint::DuplicateMutable)
        } else if self.stake_vault.key == self.pool.key || self.stake_vault.key
            == self.stake_account.key {
            broken(AccountName::StakeVault, Constraint::DuplicateMutable)
        } else if self.user_stake_account.key == self.pool.key || self.user_stake_account.key
            == self.stake_account.key || self.user_stake_account.key == self.stake_vault.key {
            broken(AccountName::UserStakeAccount, Constraint::DuplicateMutable)
        } else if pool != Some(self.pool.key@) {
            broken(AccountName::Pool, Constraint::Seeds)
        } else if !self.pool.is_writable {
            broken(AccountName::Pool, Constraint::Mut)
        } else if stake_account != Some(self.stake_account.key@) {
            broken(AccountName::StakeAccount, Constraint::Seeds)
        } else if !self.stake_account.is_writable {
            broken(AccountName::StakeAccount, Constraint::Mut)
        } else if self.stake_account.data.owner != self.owner {
            broken(AccountName::StakeAccount, Constraint::HasOne)
        } else if self.owner != self.user.key {
            broken(AccountName::Owner, Constraint::Address)
        } else if vault is Err {
            vault
        } else {
            wallet_rules(
                self.user_stake_account,
                self.user.key,
                self.pool.data.stake_mint,
                AccountName::UserStakeAccount,
            )
        }
    }

    /// What is decided on the addresses that the seeds derive.
    pub open spec fn validated(self) -> Result<(), ConstraintError> {
        self.rules(
            address::pool_address_spec(self.pool.data.stake_mint, self.pool.data.bump),
            address::stake_address_spec(
                self.pool.key,
                self.user.key,
                self.stake_account.data.bump,
            ),
        )
    }

    /// Tries the rules on given addresses.
    pub fn check(&self, pool: Option<Pubkey>, stake_account: Option<Pubkey>) -> (r: Result<
        (),
        ConstraintError,
    >)
        ensures
            r == self.rules(address::key_view(pool), address::key_view(stake_account)),
    {
        if !self.user.is_signer {
            return Err(fault(AccountName::User, Constraint::Signer));
        }
        if let Err(e) = check_program(
            &self.token_program,
            TOKEN_PROGRAM_ID,
            AccountName::TokenProgram,
        ) {
            return Err(e);
        }
        if self.stake_account.key == self.pool.key {
            return Err(fault(AccountName::StakeAccount, Constraint::DuplicateMutable));
        }
        if self.stake_vault.key == self.pool.key || self.stake_vault.key
            == self.stake_account.key {
            return Err(fault(AccountName::StakeVault, Constraint::DuplicateMutable));
        }
        if self.user_stake_account.key == self.pool.key || self.user_stake_account.key
            == self.stake_account.key || self.user_stake_account.key == self.stake_vault.key {
            return Err(fault(AccountName::UserStakeAccount, Constraint::DuplicateMutable));
        }
        if !lives_at(&self.pool.key, &pool) {
            return Err(fault(AccountName::Pool, Constraint::Seeds));
        }
        if !self.pool.is_writable {
            return Err(fault(AccountName::Pool, Constraint::Mut));
        }
        if !lives_at(&self.stake_account.key, &stake_account) {
            return Err(fault(AccountName::StakeAccount, Constraint::Seeds));
        }
        if !self.stake_account.is_writable {
            return Err(fault(AccountName::StakeAccount, Constraint::Mut));
        }
        if self.stake_account.data.owner != self.owner {
            return Err(fault(AccountName::StakeAccount, Constraint::HasOne));
        }
        if self.owner != self.user.key {
            return Err(fault(AccountName::Owner, Constraint::Address));
        }
        if let Err(e) = check_vault(
            &self.stake_vault,
            &self.pool.data.stake_vault,
            AccountName::StakeVault,
        ) {
            return Err(e);
        }
        check_wallet(
            &self.user_stake_account,
            &self.user.key,
            &self.pool.data.stake_mint,
            AccountName::UserStakeAccount,
        )
    }

    /// Derives the addresses and tries the rules.
    pub fn validate(&self) -> (r: Result<(), ConstraintError>)
        ensures
            r == self.validated(),
    {
        self.check(
            address::pool_address(&self.pool.data.stake_mint, self.pool.data.bump),
            address::stake_address(
                &self.pool.key,
                &self.user.key,
                self.stake_account.data.bump,
            ),
        )
    }
}

/// What `claim` takes. The pool is only read.
#[derive(Clone, Copy, Debug, PartialEq, Eq)]
pub struct Claim {
    pub user: Signer,
    pub pool: PoolAccount,
    pub stake_account: UserAccount,
    pub owner: Pubkey,
    pub reward_vault: TokenAccount,
    pub user_reward_account: TokenAccount,
    pub token_program: Program,
}

impl Claim {
    /// The rules, given the addresses that the seeds of the pool and the stake account derive.
    pub open spec fn rules(
        self,
        pool: Option<Seq<u8>>,
        stake_account: Option<Seq<u8>>,
    ) -> Result<(), ConstraintError> {
        let token = program_rules(self.token_program, TOKEN_PROGRAM_ID, AccountName::TokenProgram);
        let vault = vault_rules(
            self.reward_vault,
            self.pool.data.reward_vault,
            AccountName::RewardVault,
        );
        if !self.user.is_signer {
            broken(AccountName::User, Constraint::Signer)
        } else if token is Err {
            token
        } else if self.reward_vault.key == self.stake_account.key {
            broken(AccountName::RewardVault, Constraint::DuplicateMutable)
        } else if self.user_reward_account.key == self.stake_account.key
            || self.user_reward_account.key == self.reward_vault.key {
            broken(AccountName::UserRewardAccount, Constraint::DuplicateMutable)
        } else if pool != Some(self.pool.key@) {
            broken(AccountName::Pool, Constraint::Seeds)
        } else if stake_account != Some(self.stake_account.key@) {
            broken(AccountName::StakeAccount, Constraint::Seeds)
        } else if !self.stake_account.is_writable {
            broken(AccountName::StakeAccount, Constraint::Mut)
        } else if self.stake_account.data.owner != self.owner {
            broken(AccountName::StakeAccount, Constraint::HasOne)
        } else if self.owner != self.user.key {
            broken(AccountName::Owner, Constraint::Address)
        } else if vault is Err {
            vault
        } else {
            wallet_rules(
                self.user_reward_account,
                self.user.key,
                self.pool.data.reward_mint,
                AccountName::UserRewardAccount,
            )
        }
    }

    /// What is decided on the addresses that the seeds derive.
    pub open spec fn validated(self) -> Result<(), ConstraintError> {
        self.rules(
            address::pool_address_spec(self.pool.data.stake_mint, self.pool.data.bump),
            address::stake_address_spec(
                self.pool.key,
                self.user.key,
                self.stake_account.data.bump,
            ),
        )
    }

    /// Tries the rules on given addresses.
    pub fn check(&self, pool: Option<Pubkey>, stake_account: Option<Pubkey>) -> (r: Result<
        (),
        ConstraintError,
    >)
        ensures
            r == self.rules(address::key_view(pool), address::key_view(stake_account)),
    {
        if !self.user.is_signer {
            return Err(fault(AccountName::User, Constraint::Signer));
        }
        if let Err(e) = check_program(
            &self.token_program,
            TOKEN_PROGRAM_ID,
            AccountName::TokenProgram,
        ) {
            return Err(e);
        }
        if self.reward_vault.key == self.stake_account.key {
            return Err(fault(AccountName::RewardVault, Constraint::DuplicateMutable));
        }
        if self.user_reward_account.key == self.stake_account.key
            || self.user_reward_account.key == self.reward_vault.key {
            return Err(fault(AccountName::UserRewardAccount, Constraint::DuplicateMutable));
        }
        if !lives_at(&self.pool.key, &pool) {
            return Err(fault(AccountName::Pool, Constraint::Seeds));
        }
        if !lives_at(&self.stake_account.key, &stake_account) {
            return Err(fault(AccountName::StakeAccount, Constraint::Seeds));
        }
        if !self.stake_account.is_writable {
            return Err(fault(AccountName::StakeAccount, Constraint::Mut));
        }
        if self.stake_account.data.owner != self.owner {
            return Err(fault(AccountName::StakeAccount, Constraint::HasOne));
        }
        if self.owner != self.user.key {
            return Err(fault(AccountName::Owner, Constraint::Address));
        }
        if let Err(e) = check_vault(
            &self.reward_vault,
            &self.pool.data.reward_vault,
            AccountName::RewardVault,
        ) {
            return Err(e);
        }
        check_wallet(
            &self.user_reward_account,
            &self.user.key,
            &self.pool.data.reward_mint,
            AccountName::UserRewardAccount,
        )
    }

    /// Derives the addresses and tries the rules.
    pub fn validate(&self) -> (r: Result<(), ConstraintError>)
        ensures
            r == self.validated(),
    {
        self.check(
            address::pool_address(&self.pool.data.stake_mint, self.pool.data.bump),
            address::stake_address(
                &self.pool.key,
                &self.user.key,
                self.stake_account.data.bump,
            ),
        )
    }
}

} // verus!
