//! A token staking vault with time-based rewards.
//!
//! Users stake one token into a vault that the pool owns and accrue another as rewards, in
//! proportion to how much they stake and for how long. Rewards are banked on every change of a
//! balance, so that a change never reprices what was earned before it, and are paid from a second
//! vault that the admin funds.
//!
//! * `rewards`: how rewards accrue and are settled.
//! * `transitions`: how the instructions change the records in `state`.
//! * `instructions`: the instructions, and the token transfers they ask for.
//! * `accounts`: what each instruction takes, and the rules on it; `address` derives the
//!   addresses that the rules compare with.
//! * `program`: the instructions with their rules applied.
//! * `effects`: what each instruction does to balances, rewards and vaults, and how one relates to
//!   the next.
//! * `rules`: the rules on accounts, over the fields of the accounts.
//! * `laws` and `ledger`: what holds of rewards and records, and of a pool as a whole over any
//!   sequence of instructions on it and on other pools.

pub mod accounts;
pub mod address;
pub mod effects;
pub mod error;
pub mod instructions;
pub mod laws;
pub mod ledger;
pub mod program;
pub mod pubkey;
pub mod rewards;
pub mod rules;
pub mod state;
pub mod transitions;
