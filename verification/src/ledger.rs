//! A pool over time, among the other pools of the program: all its stake accounts, the balances of
//! its vaults, and what any sequence of instructions, on this pool or on others, can do to them.
//!
//! The ledger is a model for stating laws; nothing of it runs. An instruction takes effect when
//! the program accepts it and the other programs do what it asks of them: make the transfer, or
//! create the accounts. It leaves everything as it was otherwise.

use vstd::prelude::*;

use crate::accounts::{
    Claim, FundRewards, InitializePool, Stake, TokenAccount, Unstake, UserAccount,
};
use crate::address;
use crate::effects;
use crate::error::InstructionError;
use crate::instructions;
use crate::instructions::TokenTransfer;
use crate::program;
use crate::pubkey::Pubkey;
use crate::rewards;
use crate::state::{Pool, StakeAccount};

verus! {

/// A pool at `key`, its stake accounts by address, the tokens in its vaults, and the records of
/// the other pools by address.
#[verifier::ext_equal]
pub struct Ledger {
    pub key: Pubkey,
    pub pool: Pool,
    pub stakes: Map<Pubkey, StakeAccount>,
    pub stake_vault: int,
    pub reward_vault: int,
    pub others: Map<Pubkey, Pool>,
}

/// An instruction to the program, with its accounts, its arguments and the time.
#[allow(inconsistent_fields)]
pub enum Request {
    Initialize { ctx: InitializePool, reward_rate: u64 },
    Fund { ctx: FundRewards, amount: u64 },
    Stake { ctx: Stake, amount: u64, now: i64 },
    Unstake { ctx: Unstake, amount: u64, now: i64 },
    Claim { ctx: Claim, now: i64 },
}

/// The sum of the balances of all stake accounts.
pub open spec fn total(stakes: Map<Pubkey, StakeAccount>) -> int
    decreases stakes.dom().len(),
    when stakes.dom().finite()
{
    if stakes.dom().len() == 0 {
        0
    } else {
        let k = stakes.dom().choose();
        stakes[k].amount + total(stakes.remove(k))
    }
}

/// The change that a transfer, if there is one, makes to the balance of `vault`.
pub open spec fn change(transfer: Option<TokenTransfer>, vault: Pubkey) -> int {
    match transfer {
        None => 0,
        Some(t) => (if t.to == vault {
            t.amount as int
        } else {
            0
        }) - (if t.from == vault {
            t.amount as int
        } else {
            0
        }),
    }
}

/// `pool` has `key` as one of its two vaults.
pub open spec fn is_vault(pool: Pool, key: Pubkey) -> bool {
    key == pool.stake_vault || key == pool.reward_vault
}

/// The accounts to be created for a pool are in use where they are vaults of `pool`.
pub open spec fn finds_vaults_in_use(ctx: InitializePool, pool: Pool) -> bool {
    &&& is_vault(pool, ctx.stake_vault.key) ==> ctx.stake_vault.in_use
    &&& is_vault(pool, ctx.reward_vault.key) ==> ctx.reward_vault.in_use
}

/// The ledger of a pool that has just been created at `key`, among `others`.
pub open spec fn created(key: Pubkey, pool: Pool, others: Map<Pubkey, Pool>) -> Ledger {
    Ledger { key, pool, stakes: Map::empty(), stake_vault: 0, reward_vault: 0, others }
}

impl Ledger {
    /// The pool's vaults are two and no other pool's, every stake account belongs to somebody and
    /// lives at the address derived for its owner, the recorded total is the sum of the balances,
    /// and the stake vault holds at least that.
    pub open spec fn wf(self) -> bool {
        &&& self.stakes.dom().finite()
        &&& self.pool.stake_vault != self.pool.reward_vault
        &&& forall|k: Pubkey| #[trigger]
            self.others.dom().contains(k) ==> self.shares_no_vault(self.others[k])
        &&& forall|k: Pubkey| #[trigger]
            self.stakes.dom().contains(k) ==> self.holds(k, self.stakes[k])
        &&& self.pool.total_staked == total(self.stakes)
        &&& self.stake_vault >= self.pool.total_staked
    }

    /// No vault of the pool is one of `other`.
    pub open spec fn shares_no_vault(self, other: Pool) -> bool {
        !is_vault(self.pool, other.stake_vault) && !is_vault(self.pool, other.reward_vault)
    }

    /// `account` belongs to somebody, and `key` is the address derived for them.
    pub open spec fn holds(self, key: Pubkey, account: StakeAccount) -> bool {
        &&& !account.owner.is_default()
        &&& address::stake_address_spec(self.key, account.owner, account.bump) == Some(key@)
    }

    /// The pool owns its vaults.
    pub open spec fn owns_its_vaults(self, wallet: TokenAccount) -> bool {
        is_vault(self.pool, wallet.key) ==> wallet.owner == self.key
    }

    /// The record of the pool at `key`, this one or another, is `pool`.
    pub open spec fn records(self, key: Pubkey, pool: Pool) -> bool {
        if key == self.key {
            pool == self.pool
        } else {
            self.others.dom().contains(key) && pool == self.others[key]
        }
    }

    /// What another pool derives for `user` is the address of none of the stake accounts.
    pub open spec fn derived_apart(self, pool: Pubkey, user: Pubkey) -> bool {
        forall|k: Pubkey, bump: u8|
            #![trigger self.stakes.dom().contains(k), address::stake_address_spec(pool, user, bump)]
            self.stakes.dom().contains(k) ==> address::stake_address_spec(pool, user, bump) != Some(
                k@,
            )
    }

    /// `account` is a recorded stake account where it is drawn on in this pool; where `user` draws
    /// in another pool, theirs is derived apart.
    pub open spec fn loads_stake(self, pool: Pubkey, user: Pubkey, account: UserAccount) -> bool {
        if pool == self.key {
            self.stakes.dom().contains(account.key) && account.data == self.stakes[account.key]
        } else {
            self.derived_apart(pool, user)
        }
    }

    /// The ledger with `pool` written to the account at `key`.
    pub open spec fn with_pool(self, key: Pubkey, pool: Pool) -> Ledger {
        if key == self.key {
            Ledger { pool, ..self }
        } else {
            Ledger { others: self.others.insert(key, pool), ..self }
        }
    }

    /// The ledger with `account` written to the account at `key` by an instruction on `pool`. One
    /// on another pool opens no stake account here.
    pub open spec fn with_stake(self, pool: Pubkey, key: Pubkey, account: StakeAccount) -> Ledger {
        if pool == self.key || self.stakes.dom().contains(key) {
            Ledger { stakes: self.stakes.insert(key, account), ..self }
        } else {
            self
        }
    }

    /// What the program answers to a request: the new records with the transfer to be made, or
    /// why it refuses. To create a pool asks for no transfer.
    pub open spec fn answer(self, request: Request) -> Result<
        (Ledger, Option<TokenTransfer>),
        InstructionError,
    > {
        match request {
            Request::Initialize { ctx, reward_rate } => match program::initialize_pool_execution(
                ctx,
                reward_rate,
            ) {
                Err(e) => Err(e),
                Ok(pool) => Ok((self.with_pool(ctx.pool.key, pool), None)),
            },
            Request::Fund { ctx, amount } => match program::fund_rewards_execution(ctx, amount) {
                Err(e) => Err(e),
                Ok(transfer) => Ok((self, Some(transfer))),
            },
            Request::Stake { ctx, amount, now } => match program::stake_execution(
                ctx,
                amount,
                now,
            ) {
                Err(e) => Err(e),
                Ok((settled, transfer)) => match instructions::deposit_outcome(settled, amount) {
                    Err(e) => Err(InstructionError::Program(e)),
                    Ok(after) => Ok(
                        (
                            self.with_pool(ctx.pool.key, after.pool.data).with_stake(
                                ctx.pool.key,
                                ctx.stake_account.key,
                                after.stake_account.data,
                            ),
                            Some(transfer),
                        ),
                    ),
                },
            },
            Request::Unstake { ctx, amount, now } => match program::unstake_execution(
                ctx,
                amount,
                now,
            ) {
                Err(e) => Err(e),
                Ok((after, transfer)) => Ok(
                    (
                        self.with_pool(ctx.pool.key, after.pool.data).with_stake(
                            ctx.pool.key,
                            ctx.stake_account.key,
                            after.stake_account.data,
                        ),
                        Some(transfer),
                    ),
                ),
            },
            Request::Claim { ctx, now } => match program::claim_execution(ctx, now) {
                Err(e) => Err(e),
                Ok((after, transfer)) => Ok(
                    (
                        self.with_stake(
                            ctx.pool.key,
                            ctx.stake_account.key,
                            after.stake_account.data,
                        ),
                        Some(transfer),
                    ),
                ),
            },
        }
    }

    /// The ledger after a request, given whether what it asks of other programs was done.
    pub open spec fn after(self, request: Request, done: bool) -> Ledger {
        match self.answer(request) {
            Ok((records, transfer)) => if done {
                Ledger {
                    stake_vault: self.stake_vault + change(transfer, self.pool.stake_vault),
                    reward_vault: self.reward_vault + change(transfer, self.pool.reward_vault),
                    ..records
                }
            } else {
                self
            },
            Err(_) => self,
        }
    }

    /// The ledger after a sequence of requests.
    pub open spec fn run(self, requests: Seq<(Request, bool)>) -> Ledger
        decreases requests.len(),
    {
        if requests.len() == 0 {
            self
        } else {
            let before = self.run(requests.drop_last());
            before.after(requests.last().0, requests.last().1)
        }
    }

    /// Each request of a sequence is loaded from the ledger it meets.
    pub open spec fn loads(self, requests: Seq<(Request, bool)>) -> bool
        decreases requests.len(),
    {
        requests.len() > 0 ==> {
            &&& self.loads(requests.drop_last())
            &&& requests.last().0.loaded_from(self.run(requests.drop_last()))
        }
    }
}

impl Request {
    /// The address of the pool that the request is on.
    pub open spec fn pool(self) -> Pubkey {
        match self {
            Request::Initialize { ctx, .. } => ctx.pool.key,
            Request::Fund { ctx, .. } => ctx.pool.key,
            Request::Stake { ctx, .. } => ctx.pool.key,
            Request::Unstake { ctx, .. } => ctx.pool.key,
            Request::Claim { ctx, .. } => ctx.pool.key,
        }
    }

    /// The key of the one whose signature the request asks for.
    pub open spec fn signer(self) -> Pubkey {
        match self {
            Request::Initialize { ctx, .. } => ctx.admin.key,
            Request::Fund { ctx, .. } => ctx.admin.key,
            Request::Stake { ctx, .. } => ctx.user.key,
            Request::Unstake { ctx, .. } => ctx.user.key,
            Request::Claim { ctx, .. } => ctx.user.key,
        }
    }

    /// The accounts of the request hold what the ledger records: the addresses of the pool and its
    /// vaults are in use; the record of the pool that the request is on, this one or another; the
    /// stake account's record, or for a new one that of nobody; and the pool as the owner of its
    /// vaults. The one who signs is not the pool, for whose address there is no private key, nor,
    /// where they stake here, the system program, whose address is all zero. What another pool
    /// derives for a user is not the address of a stake account of this one.
    pub open spec fn loaded_from(self, ledger: Ledger) -> bool {
        match self {
            Request::Initialize { ctx, .. } => {
                &&& ctx.pool.key == ledger.key ==> ctx.pool.in_use
                &&& finds_vaults_in_use(ctx, ledger.pool)
            },
            Request::Fund { ctx, .. } => {
                &&& ledger.records(ctx.pool.key, ctx.pool.data)
                &&& ledger.owns_its_vaults(ctx.admin_reward_account)
                &&& ctx.admin.key != ledger.key
            },
            Request::Stake { ctx, .. } => {
                &&& ledger.records(ctx.pool.key, ctx.pool.data)
                &&& if ctx.pool.key != ledger.key {
                    ledger.derived_apart(ctx.pool.key, ctx.user.key)
                } else if ledger.stakes.dom().contains(ctx.stake_account.key) {
                    ctx.stake_account.data == ledger.stakes[ctx.stake_account.key]
                } else {
                    ctx.stake_account.data.owner.is_default() && ctx.stake_account.data.wf()
                }
                &&& ledger.owns_its_vaults(ctx.user_stake_account)
                &&& ctx.user.key != ledger.key
                &&& ctx.pool.key == ledger.key ==> !ctx.user.key.is_default()
            },
            Request::Unstake { ctx, .. } => {
                &&& ledger.records(ctx.pool.key, ctx.pool.data)
                &&& ledger.loads_stake(ctx.pool.key, ctx.user.key, ctx.stake_account)
                &&& ledger.owns_its_vaults(ctx.user_stake_account)
                &&& ctx.user.key != ledger.key
            },
            Request::Claim { ctx, .. } => {
                &&& ledger.records(ctx.pool.key, ctx.pool.data)
                &&& ledger.loads_stake(ctx.pool.key, ctx.user.key, ctx.stake_account)
                &&& ledger.owns_its_vaults(ctx.user_reward_account)
                &&& ctx.user.key != ledger.key
            },
        }
    }
}

/// Any account can be taken out of the sum first.
proof fn lemma_total_remove(stakes: Map<Pubkey, StakeAccount>, k: Pubkey)
    requires
        stakes.dom().finite(),
        stakes.dom().contains(k),
    ensures
        total(stakes) == stakes[k].amount + total(stakes.remove(k)),
    decreases stakes.dom().len(),
{
    let c = stakes.dom().choose();
    if c != k {
        lemma_total_remove(stakes.remove(c), k);
        lemma_total_remove(stakes.remove(k), c);
        assert(stakes.remove(c).remove(k) =~= stakes.remove(k).remove(c));
    }
}

/// Writing one account changes the sum by the change of its balance.
proof fn lemma_total_insert(stakes: Map<Pubkey, StakeAccount>, k: Pubkey, account: StakeAccount)
    requires
        stakes.dom().finite(),
    ensures
        total(stakes.insert(k, account)) == total(stakes) + account.amount - (
        if stakes.dom().contains(k) {
            stakes[k].amount as int
        } else {
            0
        }),
{
    lemma_total_remove(stakes.insert(k, account), k);
    if stakes.dom().contains(k) {
        lemma_total_remove(stakes, k);
        assert(stakes.insert(k, account).remove(k) =~= stakes.remove(k));
    } else {
        assert(stakes.insert(k, account).remove(k) =~= stakes);
    }
}

/// No balance exceeds the sum.
proof fn lemma_total_bounds(stakes: Map<Pubkey, StakeAccount>, k: Pubkey)
    requires
        stakes.dom().finite(),
    ensures
        total(stakes) >= 0,
        stakes.dom().contains(k) ==> stakes[k].amount <= total(stakes),
    decreases stakes.dom().len(),
{
    if stakes.dom().len() > 0 {
        let c = stakes.dom().choose();
        lemma_total_bounds(stakes.remove(c), k);
        if stakes.dom().contains(k) {
            lemma_total_remove(stakes, k);
            lemma_total_bounds(stakes.remove(k), k);
        }
    }
}

/// The stake account of an accepted `stake` lives at an address derived for the user.
proof fn lemma_stake_derives_its_address(ctx: Stake)
    ensures
        ctx.validated() matches Ok(bumps) ==> address::stake_address_spec(
            ctx.pool.key,
            ctx.user.key,
            bumps.stake_account,
        ) == Some(ctx.stake_account.key@),
{
    address::law_canonical_bump_derives_the_address(
        address::stake_seeds(ctx.pool.key@, ctx.user.key@),
        address::PROGRAM_ID@,
    );
}

/// Whatever is asked of the program, on this pool or on another, and whether or not what it
/// asks for is done, a pool whose books balance has balanced books afterwards.
pub proof fn law_books_stay_balanced(ledger: Ledger, request: Request, done: bool)
    requires
        ledger.wf(),
        request.loaded_from(ledger),
    ensures
        ledger.after(request, done).wf(),
{
    match request {
        Request::Initialize { .. } => {},
        Request::Fund { .. } => {},
        Request::Stake { ctx, amount, now } => {
            if let Ok((records, _)) = ledger.answer(request) {
                let k = ctx.stake_account.key;
                lemma_total_insert(ledger.stakes, k, records.stakes[k]);
                lemma_stake_derives_its_address(ctx);
            }
        },
        Request::Unstake { ctx, amount, now } => {
            if let Ok((records, _)) = ledger.answer(request) {
                let k = ctx.stake_account.key;
                lemma_total_insert(ledger.stakes, k, records.stakes[k]);
            }
        },
        Request::Claim { ctx, now } => {
            if let Ok((records, _)) = ledger.answer(request) {
                let k = ctx.stake_account.key;
                lemma_total_insert(ledger.stakes, k, records.stakes[k]);
            }
        },
    }
}

/// A pool whose books balance keeps them balanced through any sequence of requests.
pub proof fn law_books_always_balance(ledger: Ledger, requests: Seq<(Request, bool)>)
    requires
        ledger.wf(),
        ledger.loads(requests),
    ensures
        ledger.run(requests).wf(),
    decreases requests.len(),
{
    if requests.len() > 0 {
        law_books_always_balance(ledger, requests.drop_last());
        law_books_stay_balanced(
            ledger.run(requests.drop_last()),
            requests.last().0,
            requests.last().1,
        );
    }
}

/// A newly initialized pool has balanced books, vaults of its own, runs at the rate it was given,
/// and lives at the address that its recorded mint and bump derive, as every later instruction
/// demands of it.
pub proof fn law_new_pool_is_sound(
    ctx: InitializePool,
    reward_rate: u64,
    others: Map<Pubkey, Pool>,
)
    requires
        forall|k: Pubkey| #[trigger]
            others.dom().contains(k) ==> finds_vaults_in_use(ctx, others[k]),
    ensures
        program::initialize_pool_execution(ctx, reward_rate) matches Ok(pool) ==> {
            &&& created(ctx.pool.key, pool, others).wf()
            &&& pool.reward_rate == reward_rate
            &&& pool.admin == ctx.admin.key
            &&& address::pool_address_spec(pool.stake_mint, pool.bump) == Some(ctx.pool.key@)
        },
{
    address::law_canonical_bump_derives_the_address(
        address::pool_seeds(ctx.stake_mint@),
        address::PROGRAM_ID@,
    );
}

/// A pool cannot be created a second time: once there is one for a mint, so that its address is in
/// use, every request to create one for that mint is refused, whoever makes it and whatever the
/// rate.
pub proof fn law_pool_is_created_once(first: InitializePool, second: InitializePool, rate: u64)
    requires
        first.validated() is Ok,
        second.stake_mint == first.stake_mint,
        second.pool.key == first.pool.key ==> second.pool.in_use,
    ensures
        program::initialize_pool_execution(second, rate) is Err,
{
    first.pool.key.lemma_view_injective(second.pool.key);
}

/// From its creation on, through any sequence of instructions, a pool has balanced books, the
/// rate it was created at, the admin who created it, and its vaults, which are no other pool's.
pub proof fn law_pool_keeps_what_it_was_created_with(
    ctx: InitializePool,
    reward_rate: u64,
    others: Map<Pubkey, Pool>,
    requests: Seq<(Request, bool)>,
)
    requires
        forall|k: Pubkey| #[trigger]
            others.dom().contains(k) ==> finds_vaults_in_use(ctx, others[k]),
    ensures
        program::initialize_pool_execution(ctx, reward_rate) matches Ok(pool) ==> {
            let start = created(ctx.pool.key, pool, others);
            start.loads(requests) ==> {
                let now = start.run(requests);
                &&& now.wf()
                &&& now.pool.reward_rate == reward_rate
                &&& now.pool.admin == ctx.admin.key
                &&& now.pool.stake_vault == ctx.stake_vault.key
                &&& now.pool.reward_vault == ctx.reward_vault.key
            }
        },
{
    if let Ok(pool) = program::initialize_pool_execution(ctx, reward_rate) {
        let start = created(ctx.pool.key, pool, others);
        if start.loads(requests) {
            law_new_pool_is_sound(ctx, reward_rate, others);
            law_books_always_balance(start, requests);
            law_terms_are_fixed_forever(start, requests);
        }
    }
}

/// The program never asks for a release from a vault of a pool on the authority of that pool but
/// in a request on it: one on another pool that names the vault asks on an authority that does not
/// own it, and the token program releases nothing on that.
pub proof fn law_no_release_on_another_pool(ledger: Ledger, request: Request)
    requires
        request.pool() != ledger.key,
        request.signer() != ledger.key,
    ensures
        ledger.answer(request) matches Ok((_, Some(transfer))) ==> transfer.authority
            != ledger.key,
        match request {
            Request::Unstake { ctx, amount, now } => ledger.owns_its_vaults(ctx.stake_vault) ==> (
            program::unstake_execution(ctx, amount, now) matches Ok((_, transfer)) ==> (is_vault(
                ledger.pool,
                transfer.from,
            ) ==> transfer.authority != ctx.stake_vault.owner)),
            Request::Claim { ctx, now } => ledger.owns_its_vaults(ctx.reward_vault) ==> (
            program::claim_execution(ctx, now) matches Ok((_, transfer)) ==> (is_vault(
                ledger.pool,
                transfer.from,
            ) ==> transfer.authority != ctx.reward_vault.owner)),
            _ => true,
        },
{
}

/// What is asked of the program on another pool leaves this one as it is: its record, its stake
/// accounts and the tokens in its vaults.
pub proof fn law_other_pools_leave_it_alone(ledger: Ledger, request: Request, done: bool)
    requires
        ledger.wf(),
        request.loaded_from(ledger),
        request.pool() != ledger.key,
    ensures
        ledger.after(request, done) == (Ledger {
            others: ledger.after(request, done).others,
            ..ledger
        }),
{
    if let Request::Stake { ctx, .. } = request {
        lemma_stake_derives_its_address(ctx);
    }
}

/// The stake vault always covers a withdrawal that the program accepts, and nobody is refused
/// their balance but for rewards that cannot be settled.
pub proof fn law_vault_covers_withdrawals(ledger: Ledger, ctx: Unstake, amount: u64, now: i64)
    requires
        ledger.wf(),
        (Request::Unstake { ctx, amount, now }).loaded_from(ledger),
        ctx.pool.key == ledger.key,
    ensures
        ledger.answer(Request::Unstake { ctx, amount, now }) matches Ok((_, Some(transfer)))
            ==> transfer.amount <= ledger.stake_vault,
        ctx.validated() is Ok && 0 < amount <= ctx.stake_account.data.amount && rewards::settled(
            ctx.stake_account.data,
            ctx.pool.data.reward_rate,
            now,
        ) is Ok ==> ledger.answer(Request::Unstake { ctx, amount, now }) is Ok,
{
    lemma_total_bounds(ledger.stakes, ctx.stake_account.key);
}

/// The stake vault changes by exactly what the recorded total changes by.
pub proof fn law_vault_follows_the_total(ledger: Ledger, request: Request, done: bool)
    requires
        ledger.wf(),
        request.loaded_from(ledger),
    ensures
        ledger.after(request, done).stake_vault - ledger.stake_vault == ledger.after(
            request,
            done,
        ).pool.total_staked - ledger.pool.total_staked,
{
}

/// Staked tokens leave the stake vault only in an `unstake` signed by the owner of the stake
/// account they are taken from, into a token account of theirs, and never more than the balance
/// of that account. There is no other way out, for the admin or anyone else.
pub proof fn law_principal_leaves_only_to_its_owner(
    ledger: Ledger,
    request: Request,
    done: bool,
)
    requires
        ledger.wf(),
        request.loaded_from(ledger),
        ledger.after(request, done).stake_vault < ledger.stake_vault,
    ensures
        request matches Request::Unstake { ctx, amount, now } && {
            let account = ledger.stakes[ctx.stake_account.key];
            &&& ctx.pool.key == ledger.key
            &&& ctx.user.is_signer
            &&& account.owner == ctx.user.key
            &&& ctx.user_stake_account.owner == ctx.user.key
            &&& ledger.answer(request) matches Ok((_, Some(transfer)))
            &&& transfer.from == ledger.pool.stake_vault
            &&& transfer.to == ctx.user_stake_account.key
            &&& transfer.amount == amount
            &&& amount <= account.amount
            &&& ledger.after(request, done).stake_vault == ledger.stake_vault - amount
        },
{
}

/// Reward tokens leave the reward vault only in a `claim` signed by the owner of the stake
/// account, into a token account of theirs, and exactly as many as that account is owed.
pub proof fn law_rewards_leave_only_as_claims(ledger: Ledger, request: Request, done: bool)
    requires
        ledger.wf(),
        request.loaded_from(ledger),
        ledger.after(request, done).reward_vault < ledger.reward_vault,
    ensures
        request matches Request::Claim { ctx, now } && {
            let account = ledger.stakes[ctx.stake_account.key];
            &&& ctx.pool.key == ledger.key
            &&& ctx.user.is_signer
            &&& account.owner == ctx.user.key
            &&& ctx.user_reward_account.owner == ctx.user.key
            &&& ledger.answer(request) matches Ok((_, Some(transfer)))
            &&& transfer.from == ledger.pool.reward_vault
            &&& transfer.to == ctx.user_reward_account.key
            &&& ledger.after(request, done).reward_vault == ledger.reward_vault
                - rewards::owed(account, ledger.pool.reward_rate, now as int)
        },
{
}

/// An accepted request on the pool has its effect, once what it asks for is done. Funding brings
/// the amount into the reward vault. A stake brings it into the stake vault, and adds it to the
/// balance and to the total; a withdrawal takes it out of all three; both bank what was owed. A
/// claim takes all that was owed out of the reward vault. What is not named stays as it was.
pub proof fn law_accepted_requests_take_effect(ledger: Ledger, request: Request)
    requires
        ledger.wf(),
        request.loaded_from(ledger),
        request.pool() == ledger.key,
        ledger.answer(request) is Ok,
    ensures
        ({
            let after = ledger.after(request, true);
            let rate = ledger.pool.reward_rate;
            match request {
                Request::Initialize { .. } => false,
                Request::Fund { amount, .. } => {
                    after == (Ledger { reward_vault: ledger.reward_vault + amount, ..ledger })
                },
                Request::Stake { ctx, amount, now } => {
                    let key = ctx.stake_account.key;
                    let left = after.stakes[key];
                    &&& after.stake_vault == ledger.stake_vault + amount
                    &&& after.reward_vault == ledger.reward_vault
                    &&& after.pool.total_staked == ledger.pool.total_staked + amount
                    &&& after.stakes == ledger.stakes.insert(key, left)
                    &&& left.last_update == now
                    &&& !ledger.stakes.dom().contains(key) ==> left.amount == amount
                        && left.reward_debt == 0 && left.owner == ctx.user.key
                    &&& ledger.stakes.dom().contains(key) ==> {
                        let before = ledger.stakes[key];
                        let counted: int = if now > before.last_update {
                            now - before.last_update
                        } else {
                            0
                        };
                        &&& left.amount == before.amount + amount
                        &&& left.reward_debt == before.reward_debt + (before.amount * counted
                            * rate) / 1_000_000_000_000
                        &&& left.owner == before.owner
                    }
                },
                Request::Unstake { ctx, amount, now } => {
                    let key = ctx.stake_account.key;
                    let before = ledger.stakes[key];
                    let left = after.stakes[key];
                    let counted: int = if now > before.last_update {
                        now - before.last_update
                    } else {
                        0
                    };
                    &&& after.stake_vault == ledger.stake_vault - amount
                    &&& after.reward_vault == ledger.reward_vault
                    &&& after.pool.total_staked == ledger.pool.total_staked - amount
                    &&& after.stakes == ledger.stakes.insert(key, left)
                    &&& left.last_update == now
                    &&& left.amount == before.amount - amount
                    &&& left.reward_debt == before.reward_debt + (before.amount * counted * rate)
                        / 1_000_000_000_000
                    &&& left.owner == before.owner
                },
                Request::Claim { ctx, now } => {
                    let key = ctx.stake_account.key;
                    let before = ledger.stakes[key];
                    let left = after.stakes[key];
                    let counted: int = if now > before.last_update {
                        now - before.last_update
                    } else {
                        0
                    };
                    &&& after.stake_vault == ledger.stake_vault
                    &&& after.reward_vault == ledger.reward_vault - before.reward_debt - (
                    before.amount * counted * rate) / 1_000_000_000_000
                    &&& after.pool == ledger.pool
                    &&& after.stakes == ledger.stakes.insert(key, left)
                    &&& left.last_update == now
                    &&& left.amount == before.amount
                    &&& left.reward_debt == 0
                    &&& left.owner == before.owner
                },
            }
        }),
{
    match request {
        Request::Initialize { .. } => {},
        Request::Fund { ctx, amount } => {
            effects::law_fund_rewards(ctx, amount);
        },
        Request::Stake { ctx, amount, now } => {
            if let Ok(bumps) = ctx.validated() {
                effects::law_stake(ctx, bumps, amount, now);
                ctx.stake_account.data.owner.law_default_is_all_zero();
                assert(0 * 0 * ledger.pool.reward_rate == 0) by (nonlinear_arith);
                if let Ok((settled, _)) = instructions::stake_outcome(ctx, bumps, amount, now) {
                    effects::law_deposit(settled, amount);
                }
            }
        },
        Request::Unstake { ctx, amount, now } => {
            effects::law_unstake(ctx, amount, now);
        },
        Request::Claim { ctx, now } => {
            effects::law_claim(ctx, now);
        },
    }
}

/// The reward vault grows only when the admin funds it.
pub proof fn law_only_the_admin_funds(ledger: Ledger, request: Request, done: bool)
    requires
        ledger.wf(),
        request.loaded_from(ledger),
        ledger.after(request, done).reward_vault > ledger.reward_vault,
    ensures
        request matches Request::Fund { ctx, amount } && {
            &&& ctx.pool.key == ledger.key
            &&& ctx.admin.is_signer
            &&& ctx.admin.key == ledger.pool.admin
            &&& ledger.after(request, done).reward_vault == ledger.reward_vault + amount
        },
{
}

/// The terms of a pool, its rate among them, are fixed when it is created: no request changes
/// anything of its record but the total staked.
pub proof fn law_terms_are_fixed(ledger: Ledger, request: Request, done: bool)
    requires
        request.loaded_from(ledger),
    ensures
        ledger.after(request, done).key == ledger.key,
        ledger.after(request, done).pool == (Pool {
            total_staked: ledger.after(request, done).pool.total_staked,
            ..ledger.pool
        }),
{
}

/// The terms of a pool stay fixed through any sequence of requests.
pub proof fn law_terms_are_fixed_forever(ledger: Ledger, requests: Seq<(Request, bool)>)
    requires
        ledger.loads(requests),
    ensures
        ledger.run(requests).key == ledger.key,
        ledger.run(requests).pool == (Pool {
            total_staked: ledger.run(requests).pool.total_staked,
            ..ledger.pool
        }),
    decreases requests.len(),
{
    if requests.len() > 0 {
        law_terms_are_fixed_forever(ledger, requests.drop_last());
        law_terms_are_fixed(
            ledger.run(requests.drop_last()),
            requests.last().0,
            requests.last().1,
        );
    }
}

/// A request touches at most the one stake account it names, and none of this pool where it is on
/// another. `unstake` and `claim` touch it only
/// where its owner has signed; `stake` only where the one who signed derives the very address
/// that its owner derives.
pub proof fn law_other_positions_are_untouched(
    ledger: Ledger,
    request: Request,
    done: bool,
    key: Pubkey,
)
    requires
        ledger.wf(),
        request.loaded_from(ledger),
        ledger.stakes.dom().contains(key),
    ensures
        ledger.after(request, done).stakes.dom().contains(key),
        ledger.after(request, done).stakes[key] != ledger.stakes[key] ==> request.pool()
            == ledger.key && match request {
            Request::Initialize { .. } => false,
            Request::Fund { .. } => false,
            Request::Stake { ctx, .. } => {
                let owner = ledger.stakes[key].owner;
                let bump = ledger.stakes[key].bump;
                &&& ctx.stake_account.key == key
                &&& ctx.user.is_signer
                &&& exists|user_bump: u8|
                    address::stake_address_spec(ledger.key, ctx.user.key, user_bump)
                        == address::stake_address_spec(ledger.key, owner, bump)
            },
            Request::Unstake { ctx, .. } => ctx.stake_account.key == key && ctx.user.is_signer
                && ctx.user.key == ledger.stakes[key].owner,
            Request::Claim { ctx, .. } => ctx.stake_account.key == key && ctx.user.is_signer
                && ctx.user.key == ledger.stakes[key].owner,
        },
{
    if let Request::Stake { ctx, .. } = request {
        if let Ok(bumps) = ctx.validated() {
            lemma_stake_derives_its_address(ctx);
            assert(address::stake_address_spec(ctx.pool.key, ctx.user.key, bumps.stake_account)
                == Some(ctx.stake_account.key@));
        }
    }
}

/// Nobody but the owner of a stake account can lower its balance or its banked rewards.
pub proof fn law_only_the_owner_draws(
    ledger: Ledger,
    request: Request,
    done: bool,
    key: Pubkey,
)
    requires
        ledger.wf(),
        request.loaded_from(ledger),
        ledger.stakes.dom().contains(key),
    ensures
        ({
            let before = ledger.stakes[key];
            let after = ledger.after(request, done).stakes[key];
            let drawn = after.amount < before.amount || after.reward_debt < before.reward_debt;
            drawn ==> request.pool() == ledger.key && {
                ||| request matches Request::Unstake { ctx, .. } && ctx.user.is_signer
                    && ctx.user.key == before.owner
                ||| request matches Request::Claim { ctx, .. } && ctx.user.is_signer
                    && ctx.user.key == before.owner
            }
        }),
{
    if request.pool() != ledger.key {
        law_other_pools_leave_it_alone(ledger, request, done);
    }
    let rate = ledger.pool.reward_rate;
    if let Request::Stake { ctx, amount, now } = request {
        crate::laws::law_rewards_grow(
            ctx.stake_account.data.amount as int,
            now - ctx.stake_account.data.last_update,
            rate as int,
            ctx.stake_account.data.amount as int,
            now - ctx.stake_account.data.last_update,
            rate as int,
        );
    }
}

/// A refused request, or one of which what it asks for fails, changes nothing.
pub proof fn law_refusal_changes_nothing(ledger: Ledger, request: Request, done: bool)
    requires
        ledger.answer(request) is Err || !done,
    ensures
        ledger.after(request, done) == ledger,
{
}

/// Every release from a vault is signed for with seeds that derive the address of the pool that the
/// request is on, the authority of the transfer; every other transfer by one who has signed.
pub proof fn law_releases_are_signed_by_the_pool(ledger: Ledger, request: Request)
    requires
        request.loaded_from(ledger),
    ensures
        ledger.answer(request) matches Ok((_, Some(transfer))) ==> match request {
            Request::Initialize { .. } => false,
            Request::Unstake { .. } | Request::Claim { .. } => {
                &&& transfer.authority == request.pool()
                &&& transfer.signer matches Some(signer)
                &&& address::program_address(signer.seeds_spec(), address::PROGRAM_ID@) == Some(
                    request.pool()@,
                )
            },
            Request::Fund { ctx, .. } => transfer.authority == ctx.admin.key
                && ctx.admin.is_signer && transfer.signer is None,
            Request::Stake { ctx, .. } => transfer.authority == ctx.user.key
                && ctx.user.is_signer && transfer.signer is None,
        },
{
}

} // verus!
