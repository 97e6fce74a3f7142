//! The records the program keeps.

use vstd::prelude::*;

use crate::pubkey::Pubkey;

verus! {

/// A staking pool: who runs it, which tokens it handles, what it pays and how much it holds.
#[derive(Clone, Copy, Debug, PartialEq, Eq)]
pub struct Pool {
    pub admin: Pubkey,
    pub stake_mint: Pubkey,
    pub reward_mint: Pubkey,
    pub stake_vault: Pubkey,
    pub reward_vault: Pubkey,
    /// Reward tokens per staked token per second, scaled by `ACC_PRECISION`.
    pub reward_rate: u64,
    /// The sum of the balances of all stake accounts of the pool.
    pub total_staked: u64,
    pub bump: u8,
}

/// One user's position in a pool.
#[derive(Clone, Copy, Debug, PartialEq, Eq)]
pub struct StakeAccount {
    pub owner: Pubkey,
    pub pool: Pubkey,
    /// Tokens staked.
    pub amount: u64,
    /// Rewards banked and not yet claimed.
    pub reward_debt: u64,
    /// When rewards were last banked, in seconds.
    pub last_update: i64,
    pub bump: u8,
}

impl StakeAccount {
    /// A record that belongs to nobody holds nothing.
    pub open spec fn wf(self) -> bool {
        self.owner.is_default() ==> self.amount == 0 && self.reward_debt == 0
    }
}

} // verus!
