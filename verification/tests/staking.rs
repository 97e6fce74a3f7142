//! Whole instructions against a small bank that plays the token program.

use std::collections::HashMap;

use anchor_lang::prelude::Pubkey as ChainKey;
use staking_rewards::accounts::{
    Claim, FundRewards, InitializePool, NewAccount, PoolAccount, Program, Signer, Stake,
    TokenAccount, Unstake, UserAccount,
};
use staking_rewards::address::{
    ASSOCIATED_TOKEN_PROGRAM_ID, PROGRAM_ID, SYSTEM_PROGRAM_ID, TOKEN_PROGRAM_ID,
};
use staking_rewards::error::{InstructionError, StakingError};
use staking_rewards::instructions::{stake_transferred, TokenTransfer};
use staking_rewards::program::{
    execute_claim, execute_fund_rewards, execute_initialize_pool, execute_stake, execute_unstake,
};
use staking_rewards::pubkey::Pubkey;
use staking_rewards::state::{Pool, StakeAccount};

/// With this rate, `reward = staked * elapsed / 1_000_000`.
const REWARD_RATE: u64 = 1_000_000;

fn key(tag: u8) -> Pubkey {
    Pubkey { bytes: [tag; 32] }
}

fn chain(k: &Pubkey) -> ChainKey {
    ChainKey::new_from_array(k.bytes)
}

fn derive(seeds: &[&[u8]], program: [u8; 32]) -> Pubkey {
    let (address, _) = ChainKey::find_program_address(seeds, &ChainKey::new_from_array(program));
    Pubkey { bytes: address.to_bytes() }
}

/// Classic associated-token-account derivation.
fn ata(wallet: &Pubkey, mint: &Pubkey) -> Pubkey {
    derive(&[&wallet.bytes, &TOKEN_PROGRAM_ID, &mint.bytes], ASSOCIATED_TOKEN_PROGRAM_ID)
}

fn signer(k: Pubkey) -> Signer {
    Signer { key: k, is_signer: true, is_writable: true }
}

fn token_program() -> Program {
    Program { key: Pubkey { bytes: TOKEN_PROGRAM_ID }, executable: true }
}

fn system_program() -> Program {
    Program { key: Pubkey { bytes: SYSTEM_PROGRAM_ID }, executable: true }
}

fn fresh(k: Pubkey) -> NewAccount {
    NewAccount { key: k, is_writable: true, in_use: false }
}

fn blank() -> StakeAccount {
    StakeAccount {
        owner: Pubkey::default(),
        pool: Pubkey::default(),
        amount: 0,
        reward_debt: 0,
        last_update: 0,
        bump: 0,
    }
}

struct World {
    now: i64,
    admin: Pubkey,
    stake_mint: Pubkey,
    reward_mint: Pubkey,
    pool_key: Pubkey,
    pool: Pool,
    stakes: HashMap<[u8; 32], StakeAccount>,
    balances: HashMap<[u8; 32], u64>,
}

struct User {
    key: Pubkey,
    stake_tokens: Pubkey,
    reward_tokens: Pubkey,
    stake_account: Pubkey,
}

/// Two mints and an initialized pool.
fn setup() -> World {
    let admin = key(1);
    let stake_mint = key(2);
    let reward_mint = key(3);
    let pool_key = derive(&[b"pool", &stake_mint.bytes], PROGRAM_ID);
    let ctx = InitializePool {
        admin: signer(admin),
        pool: fresh(pool_key),
        stake_mint,
        reward_mint,
        stake_vault: fresh(ata(&pool_key, &stake_mint)),
        reward_vault: fresh(ata(&pool_key, &reward_mint)),
        token_program: token_program(),
        associated_token_program: Program {
            key: Pubkey { bytes: ASSOCIATED_TOKEN_PROGRAM_ID },
            executable: true,
        },
        system_program: system_program(),
    };
    let pool = execute_initialize_pool(&ctx, REWARD_RATE).unwrap();
    World {
        now: 1_700_000_000,
        admin,
        stake_mint,
        reward_mint,
        pool_key,
        pool,
        stakes: HashMap::new(),
        balances: HashMap::new(),
    }
}

impl World {
    fn token_balance(&self, account: &Pubkey) -> u64 {
        *self.balances.get(&account.bytes).unwrap_or(&0)
    }

    fn warp(&mut self, secs: i64) {
        self.now += secs;
    }

    fn vault(&self, k: Pubkey, mint: Pubkey) -> TokenAccount {
        TokenAccount { key: k, is_writable: true, mint, owner: self.pool_key }
    }

    fn wallet(&self, k: Pubkey, mint: Pubkey, owner: Pubkey) -> TokenAccount {
        TokenAccount { key: k, is_writable: true, mint, owner }
    }

    fn pool_account(&self) -> PoolAccount {
        PoolAccount { key: self.pool_key, is_writable: true, data: self.pool }
    }

    fn stake_record(&self, account: &Pubkey) -> UserAccount {
        let data = match self.stakes.get(&account.bytes) {
            Some(data) => *data,
            None => blank(),
        };
        UserAccount { key: *account, is_writable: true, data }
    }

    /// What the runtime and the token program do with a transfer.
    fn transfer(&mut self, t: &TokenTransfer) -> Result<(), String> {
        if t.token_program.bytes != TOKEN_PROGRAM_ID {
            return Err("wrong program".into());
        }
        if let Some(pool_signer) = &t.signer {
            let seeds = pool_signer.seeds();
            let slices: Vec<&[u8]> = seeds.iter().map(|s| s.as_slice()).collect();
            let signed =
                ChainKey::create_program_address(&slices, &ChainKey::new_from_array(PROGRAM_ID));
            if signed != Ok(chain(&t.authority)) {
                return Err("missing signature".into());
            }
        }
        let from = self.token_balance(&t.from);
        if from < t.amount {
            return Err("insufficient funds".into());
        }
        self.balances.insert(t.from.bytes, from - t.amount);
        let to = self.token_balance(&t.to);
        self.balances.insert(t.to.bytes, to + t.amount);
        Ok(())
    }

    fn fund_rewards(&mut self, amount: u64) {
        let admin_reward = ata(&self.admin, &self.reward_mint);
        self.balances.insert(admin_reward.bytes, amount);
        let ctx = FundRewards {
            admin: signer(self.admin),
            pool: self.pool_account(),
            reward_vault: self.vault(self.pool.reward_vault, self.reward_mint),
            admin_reward_account: self.wallet(admin_reward, self.reward_mint, self.admin),
            token_program: token_program(),
        };
        let t = execute_fund_rewards(&ctx, amount).unwrap();
        self.transfer(&t).unwrap();
    }

    fn make_user(&mut self, tag: u8, mint_amount: u64) -> User {
        let user = key(tag);
        let stake_tokens = ata(&user, &self.stake_mint);
        self.balances.insert(stake_tokens.bytes, mint_amount);
        User {
            key: user,
            stake_tokens,
            reward_tokens: ata(&user, &self.reward_mint),
            stake_account: derive(&[b"stake", &self.pool_key.bytes, &user.bytes], PROGRAM_ID),
        }
    }

    fn stake(&mut self, user: &User, amount: u64) -> Result<(), String> {
        let mut ctx = Stake {
            user: signer(user.key),
            pool: self.pool_account(),
            stake_account: self.stake_record(&user.stake_account),
            stake_vault: self.vault(self.pool.stake_vault, self.stake_mint),
            user_stake_account: self.wallet(user.stake_tokens, self.stake_mint, user.key),
            token_program: token_program(),
            system_program: system_program(),
        };
        let t = execute_stake(&mut ctx, amount, self.now).map_err(|e| format!("{:?}", e))?;
        self.transfer(&t)?;
        stake_transferred(&mut ctx, amount).map_err(|e| format!("{:?}", e))?;
        self.pool = ctx.pool.data;
        self.stakes.insert(user.stake_account.bytes, ctx.stake_account.data);
        Ok(())
    }

    fn unstake(&mut self, user: &User, amount: u64) -> Result<(), String> {
        let mut ctx = Unstake {
            user: signer(user.key),
            pool: self.pool_account(),
            stake_account: self.stake_record(&user.stake_account),
            owner: user.key,
            stake_vault: self.vault(self.pool.stake_vault, self.stake_mint),
            user_stake_account: self.wallet(user.stake_tokens, self.stake_mint, user.key),
            token_program: token_program(),
        };
        let t = execute_unstake(&mut ctx, amount, self.now).map_err(|e| format!("{:?}", e))?;
        self.transfer(&t)?;
        self.pool = ctx.pool.data;
        self.stakes.insert(user.stake_account.bytes, ctx.stake_account.data);
        Ok(())
    }

    fn claim(&mut self, user: &User) -> Result<(), String> {
        let mut ctx = Claim {
            user: signer(user.key),
            pool: self.pool_account(),
            stake_account: self.stake_record(&user.stake_account),
            owner: user.key,
            reward_vault: self.vault(self.pool.reward_vault, self.reward_mint),
            user_reward_account: self.wallet(user.reward_tokens, self.reward_mint, user.key),
            token_program: token_program(),
        };
        let t = execute_claim(&mut ctx, self.now).map_err(|e| format!("{:?}", e))?;
        self.transfer(&t)?;
        self.stakes.insert(user.stake_account.bytes, ctx.stake_account.data);
        Ok(())
    }
}

fn refusal(e: StakingError) -> Result<(), String> {
    Err(format!("{:?}", InstructionError::Program(e)))
}

#[test]
fn full_lifecycle() {
    let mut w = setup();
    w.fund_rewards(1_000_000);
    assert_eq!(w.token_balance(&w.pool.reward_vault), 1_000_000);

    let user = w.make_user(7, 5_000_000);

    // Stake 1_000_000.
    w.stake(&user, 1_000_000).unwrap();
    assert_eq!(w.token_balance(&w.pool.stake_vault), 1_000_000);
    assert_eq!(w.token_balance(&user.stake_tokens), 4_000_000);

    // Accrue for 100s: reward = 1_000_000 * 100 / 1_000_000 = 100.
    w.warp(100);
    w.claim(&user).unwrap();
    assert_eq!(w.token_balance(&user.reward_tokens), 100);

    // Accrue another 50s on the full stake, then unstake part of it.
    w.warp(50);
    w.unstake(&user, 400_000).unwrap();
    assert_eq!(w.token_balance(&w.pool.stake_vault), 600_000);
    assert_eq!(w.token_balance(&user.stake_tokens), 4_400_000);

    // The 50s accrual (1_000_000 * 50 / 1_000_000 = 50) is now claimable.
    w.claim(&user).unwrap();
    assert_eq!(w.token_balance(&user.reward_tokens), 150);
}

#[test]
fn rejects_zero_stake() {
    let mut w = setup();
    let user = w.make_user(7, 1_000_000);
    assert!(w.stake(&user, 0).is_err());
    assert_eq!(w.stake(&user, 0), refusal(StakingError::ZeroAmount));
}

#[test]
fn rejects_overdraw_unstake() {
    let mut w = setup();
    let user = w.make_user(7, 1_000_000);
    w.stake(&user, 1_000_000).unwrap();

    assert!(w.unstake(&user, 2_000_000).is_err());
    assert_eq!(w.unstake(&user, 2_000_000), refusal(StakingError::InsufficientStake));
}

#[test]
fn rejects_empty_claim() {
    let mut w = setup();
    w.fund_rewards(1_000_000);
    let user = w.make_user(7, 1_000_000);
    w.stake(&user, 1_000_000).unwrap();

    // No time has passed: nothing accrued, so claim must reject.
    assert!(w.claim(&user).is_err());
    assert_eq!(w.claim(&user), refusal(StakingError::NothingToClaim));
}

#[test]
fn rejects_zero_unstake() {
    let mut w = setup();
    let user = w.make_user(7, 1_000_000);
    w.stake(&user, 1_000_000).unwrap();
    assert_eq!(w.unstake(&user, 0), refusal(StakingError::ZeroAmount));
}

#[test]
fn first_stake_opens_the_account() {
    let mut w = setup();
    let user = w.make_user(7, 1_000_000);
    w.stake(&user, 10).unwrap();
    let record = w.stake_record(&user.stake_account).data;
    let (address, bump) = ChainKey::find_program_address(
        &[b"stake", &w.pool_key.bytes, &user.key.bytes],
        &ChainKey::new_from_array(PROGRAM_ID),
    );
    assert_eq!(chain(&user.stake_account), address);
    assert_eq!(
        record,
        StakeAccount {
            owner: user.key,
            pool: w.pool_key,
            amount: 10,
            reward_debt: 0,
            last_update: w.now,
            bump,
        }
    );
}

#[test]
fn topping_up_does_not_reprice_the_past() {
    let mut w = setup();
    w.fund_rewards(1_000_000);
    let user = w.make_user(7, 10_000_000);
    w.stake(&user, 1_000_000).unwrap();
    w.warp(100);
    // 100 banked at the old balance, then 100 * 4 at the new one.
    w.stake(&user, 3_000_000).unwrap();
    assert_eq!(w.stake_record(&user.stake_account).data.reward_debt, 100);
    w.warp(100);
    w.claim(&user).unwrap();
    assert_eq!(w.token_balance(&user.reward_tokens), 500);
}

#[test]
fn books_balance_with_two_users() {
    let mut w = setup();
    w.fund_rewards(1_000_000);
    let ann = w.make_user(7, 5_000_000);
    let bob = w.make_user(8, 5_000_000);
    w.stake(&ann, 1_000_000).unwrap();
    w.stake(&bob, 2_500_000).unwrap();
    w.warp(10);
    w.unstake(&ann, 300_000).unwrap();
    w.claim(&bob).unwrap();
    let total = w.stake_record(&ann.stake_account).data.amount
        + w.stake_record(&bob.stake_account).data.amount;
    assert_eq!(total, 3_200_000);
    assert_eq!(w.pool.total_staked, total);
    assert_eq!(w.token_balance(&w.pool.stake_vault), total);
    assert_eq!(w.token_balance(&bob.reward_tokens), 25);
    assert_eq!(w.token_balance(&ann.reward_tokens), 0);
    assert_eq!(w.token_balance(&w.pool.reward_vault), 999_975);
    assert_eq!(w.pool.reward_rate, REWARD_RATE);
}

#[test]
fn unstaking_at_once_undoes_a_stake() {
    let mut w = setup();
    let user = w.make_user(7, 5_000_000);
    w.stake(&user, 1_000_000).unwrap();
    let pool = w.pool;
    let record = w.stake_record(&user.stake_account).data;
    w.stake(&user, 2_000_000).unwrap();
    w.unstake(&user, 2_000_000).unwrap();
    assert_eq!(w.pool, pool);
    assert_eq!(w.stake_record(&user.stake_account).data, record);
    assert_eq!(w.token_balance(&user.stake_tokens), 4_000_000);
}

#[test]
fn failed_transfer_leaves_the_books_alone() {
    let mut w = setup();
    let user = w.make_user(7, 5);
    w.stake(&user, 5).unwrap();
    let pool = w.pool;
    assert_eq!(w.stake(&user, 6), Err("insufficient funds".to_string()));
    assert_eq!(w.pool, pool);
    assert_eq!(w.stake_record(&user.stake_account).data.amount, 5);
}
