# staking_rewards

A token staking vault with time-based rewards, with its rules and arithmetic proved in Verus.

Users stake a token into a vault that a pool owns and accrue a second token as rewards:

```
reward = staked_amount * elapsed_seconds * reward_rate / 1e12
```

Rewards are banked on every change of a balance before the balance moves, so that a change never
reprices past accrual. All arithmetic is checked: a request that would overflow is refused.

## Layout

- `src/` is the library. `rewards`, `transitions` and `instructions` say what the five
  instructions do to the records; `accounts` and `address` hold the rules on the accounts handed
  to them; `program` puts the two together. `laws` and `ledger` prove what holds of rewards, of
  records, and of a pool over any sequence of instructions on it and on other pools: it is created
  once, its books balance, the stake vault covers every withdrawal, principal leaves only to its
  owner, the terms never change, other pools cannot touch it. These take it that no two pools
  derive the same address for a stake account.
- `app/` is the on-chain program around it: it loads accounts with Anchor, calls the library, and
  has the token program make the transfers that the library asks for.
- `tests/` runs the library against a small bank that plays the token program.

Program addresses are derived by the Solana library behind `anchor-lang`, whose derivation is
trusted; see `src/address.rs`.
