//! Addresses that are derived from seeds, and those of the programs involved.
//!
//! A pool lives at the address derived from `["pool", stake_mint]`, a stake account at the one
//! derived from `["stake", pool, user]`, and a pool's vault for a mint at the associated token
//! address of the two. A one-byte bump is appended to the seeds so that the address is one for
//! which no private key exists.

use vstd::prelude::*;

use anchor_lang::solana_program::pubkey::PubkeyError;

use crate::pubkey::Pubkey;

verus! {

/// `BGnGLvL5nBwwPwJtbaqCCRzihjU5uETzv1vo6WTCgS2c`, the address of this program.
pub const PROGRAM_ID: [u8; 32] = [
    152, 159, 195, 30, 67, 35, 162, 162, 234, 47, 143, 54, 106, 247, 217, 43, 21, 124, 228, 208,
    162, 30, 246, 10, 163, 63, 7, 99, 220, 77, 120, 169,
];

/// `TokenkegQfeZyiNwAJbNbGKPFXCWuBvf9Ss623VQ5DA`, the address of the token program.
pub const TOKEN_PROGRAM_ID: [u8; 32] = [
    6, 221, 246, 225, 215, 101, 161, 147, 217, 203, 225, 70, 206, 235, 121, 172, 28, 180, 133, 237,
    95, 91, 55, 145, 58, 140, 245, 133, 126, 255, 0, 169,
];

/// `ATokenGPvbdGVxr1b2hvZbsiqW5xWH25efTNsLJA8knL`, the address of the associated token program.
pub const ASSOCIATED_TOKEN_PROGRAM_ID: [u8; 32] = [
    140, 151, 37, 143, 78, 36, 137, 241, 187, 61, 16, 41, 20, 142, 13, 131, 11, 90, 19, 153, 218,
    255, 16, 132, 4, 142, 123, 216, 219, 233, 248, 89,
];

/// `11111111111111111111111111111111`, the address of the system program.
pub const SYSTEM_PROGRAM_ID: [u8; 32] = [
    0, 0, 0, 0, 0, 0, 0, 0, 0, 0, 0, 0, 0, 0, 0, 0, 0, 0, 0, 0, 0, 0, 0, 0, 0, 0, 0, 0, 0, 0, 0, 0,
];

/// The error of the address derivation. Callers only care that there is one.
#[verifier::external_type_specification]
#[verifier::external_body]
pub struct ExPubkeyError(PubkeyError);

/// The address that `seeds` derive under `program_id`: `None` where there are too many seeds,
/// where one is too long, or where the derived bytes are a point of the signature curve.
pub uninterp spec fn program_address(seeds: Seq<Seq<u8>>, program_id: Seq<u8>) -> Option<Seq<u8>>;

/// `bump` is the largest byte but zero that completes `seeds` to the seeds of an address.
pub open spec fn is_canonical_bump(seeds: Seq<Seq<u8>>, program_id: Seq<u8>, bump: u8) -> bool {
    &&& bump >= 1
    &&& program_address(seeds.push(seq![bump]), program_id) is Some
    &&& forall|other: u8|
        other > bump ==> program_address(#[trigger] seeds.push(seq![other]), program_id) is None
}

/// The address that `seeds` derive with the canonical bump, and that bump; `None` where no bump
/// yields an address.
pub open spec fn canonical_address(seeds: Seq<Seq<u8>>, program_id: Seq<u8>) -> Option<
    (Seq<u8>, u8),
> {
    if exists|bump: u8| is_canonical_bump(seeds, program_id, bump) {
        let bump = choose|bump: u8| is_canonical_bump(seeds, program_id, bump);
        Some((program_address(seeds.push(seq![bump]), program_id)->0, bump))
    } else {
        None
    }
}

/// The bytes of a derived address.
pub open spec fn key_view(key: Option<Pubkey>) -> Option<Seq<u8>> {
    match key {
        Some(k) => Some(k@),
        None => None,
    }
}

/// The bytes of a derived address, with its bump.
pub open spec fn found_view(found: Option<(Pubkey, u8)>) -> Option<(Seq<u8>, u8)> {
    match found {
        Some((k, bump)) => Some((k@, bump)),
        None => None,
    }
}

/// Calls `Pubkey::create_program_address`. Claims that whether it succeeds, and the address it
/// then returns, are a function of the seeds and the program's address; `program_address` names
/// that function. Nothing is claimed of which error comes.
#[verifier::external_body]
fn create_program_address(seeds: &Vec<Vec<u8>>, program_id: &Pubkey) -> (r: Result<
    Pubkey,
    PubkeyError,
>)
    ensures
        match r {
            Ok(key) => program_address(seeds.deep_view(), program_id@) == Some(key@),
            Err(_) => program_address(seeds.deep_view(), program_id@) is None,
        },
{
    let seeds: Vec<&[u8]> = seeds.iter().map(|seed| seed.as_slice()).collect();
    let program_id = anchor_lang::prelude::Pubkey::new_from_array(program_id.bytes);
    match anchor_lang::prelude::Pubkey::create_program_address(&seeds, &program_id) {
        Ok(key) => Ok(Pubkey { bytes: key.to_bytes() }),
        Err(e) => Err(e),
    }
}

/// Calls `Pubkey::try_find_program_address`. Claims that it returns the first address that
/// `create_program_address` yields for the seeds followed by a bump, as the bump runs from 255
/// down to 1, together with that bump; and `None` where there is none.
#[verifier::external_body]
fn try_find_program_address(seeds: &Vec<Vec<u8>>, program_id: &Pubkey) -> (r: Option<(Pubkey, u8)>)
    ensures
        found_view(r) == canonical_address(seeds.deep_view(), program_id@),
{
    let seeds: Vec<&[u8]> = seeds.iter().map(|seed| seed.as_slice()).collect();
    let program_id = anchor_lang::prelude::Pubkey::new_from_array(program_id.bytes);
    match anchor_lang::prelude::Pubkey::try_find_program_address(&seeds, &program_id) {
        Some((key, bump)) => Some((Pubkey { bytes: key.to_bytes() }, bump)),
        None => None,
    }
}

/// The seeds of a pool's address, without the bump: the word `pool` and the mint it takes.
pub open spec fn pool_seeds(stake_mint: Seq<u8>) -> Seq<Seq<u8>> {
    seq![seq![0x70u8, 0x6fu8, 0x6fu8, 0x6cu8], stake_mint]
}

/// The seeds of a stake account's address, without the bump: the word `stake`, its pool and
/// its user.
pub open spec fn stake_seeds(pool: Seq<u8>, user: Seq<u8>) -> Seq<Seq<u8>> {
    seq![seq![0x73u8, 0x74u8, 0x61u8, 0x6bu8, 0x65u8], pool, user]
}

/// The seeds of the associated token address of a wallet and a mint, without the bump.
pub open spec fn associated_token_seeds(wallet: Seq<u8>, mint: Seq<u8>) -> Seq<Seq<u8>> {
    seq![wallet, TOKEN_PROGRAM_ID@, mint]
}

/// The address of the pool for `stake_mint` that `bump` yields.
pub open spec fn pool_address_spec(stake_mint: Pubkey, bump: u8) -> Option<Seq<u8>> {
    program_address(pool_seeds(stake_mint@).push(seq![bump]), PROGRAM_ID@)
}

/// The address of `user`'s stake account in `pool` that `bump` yields.
pub open spec fn stake_address_spec(pool: Pubkey, user: Pubkey, bump: u8) -> Option<Seq<u8>> {
    program_address(stake_seeds(pool@, user@).push(seq![bump]), PROGRAM_ID@)
}

/// What the program signs with for a pool: the seeds of the pool's address.
#[derive(Clone, Copy, Debug, PartialEq, Eq)]
pub struct PoolSigner {
    pub stake_mint: Pubkey,
    pub bump: u8,
}

impl PoolSigner {
    pub open spec fn seeds_spec(self) -> Seq<Seq<u8>> {
        pool_seeds(self.stake_mint@).push(seq![self.bump])
    }

    /// The seeds, the bump among them.
    pub fn seeds(&self) -> (seeds: Vec<Vec<u8>>)
        ensures
            seeds.deep_view() == self.seeds_spec(),
    {
        let seeds: Vec<Vec<u8>> = vec![
            vec![0x70, 0x6f, 0x6f, 0x6c],
            self.stake_mint.to_seed(),
            vec![self.bump],
        ];
        assert(seeds.deep_view() =~~= self.seeds_spec());
        seeds
    }
}

/// Derives the address of the pool for `stake_mint` with a given bump.
pub fn pool_address(stake_mint: &Pubkey, bump: u8) -> (r: Option<Pubkey>)
    ensures
        key_view(r) == pool_address_spec(*stake_mint, bump),
{
    let seeds = PoolSigner { stake_mint: *stake_mint, bump }.seeds();
    match create_program_address(&seeds, &Pubkey { bytes: PROGRAM_ID }) {
        Ok(key) => Some(key),
        Err(_) => None,
    }
}

/// Derives the address of the pool for `stake_mint` with the canonical bump.
pub fn find_pool_address(stake_mint: &Pubkey) -> (r: Option<(Pubkey, u8)>)
    ensures
        found_view(r) == canonical_address(pool_seeds(stake_mint@), PROGRAM_ID@),
{
    let seeds: Vec<Vec<u8>> = vec![vec![0x70, 0x6f, 0x6f, 0x6c], stake_mint.to_seed()];
    assert(seeds.deep_view() =~~= pool_seeds(stake_mint@));
    try_find_program_address(&seeds, &Pubkey { bytes: PROGRAM_ID })
}

/// Derives the address of `user`'s stake account in `pool` with a given bump.
pub fn stake_address(pool: &Pubkey, user: &Pubkey, bump: u8) -> (r: Option<Pubkey>)
    ensures
        key_view(r) == stake_address_spec(*pool, *user, bump),
{
    let seeds: Vec<Vec<u8>> = vec![
        vec![0x73, 0x74, 0x61, 0x6b, 0x65],
        pool.to_seed(),
        user.to_seed(),
        vec![bump],
    ];
    assert(seeds.deep_view() =~~= stake_seeds(pool@, user@).push(seq![bump]));
    match create_program_address(&seeds, &Pubkey { bytes: PROGRAM_ID }) {
        Ok(key) => Some(key),
        Err(_) => None,
    }
}

/// Derives the address of `user`'s stake account in `pool` with the canonical bump.
pub fn find_stake_address(pool: &Pubkey, user: &Pubkey) -> (r: Option<(Pubkey, u8)>)
    ensures
        found_view(r) == canonical_address(stake_seeds(pool@, user@), PROGRAM_ID@),
{
    let seeds: Vec<Vec<u8>> = vec![
        vec![0x73, 0x74, 0x61, 0x6b, 0x65],
        pool.to_seed(),
        user.to_seed(),
    ];
    assert(seeds.deep_view() =~~= stake_seeds(pool@, user@));
    try_find_program_address(&seeds, &Pubkey { bytes: PROGRAM_ID })
}

/// Derives the associated token address of `wallet` and `mint`, with its bump.
pub fn find_associated_token_address(wallet: &Pubkey, mint: &Pubkey) -> (r: Option<(Pubkey, u8)>)
    ensures
        found_view(r) == canonical_address(
            associated_token_seeds(wallet@, mint@),
            ASSOCIATED_TOKEN_PROGRAM_ID@,
        ),
{
    let seeds: Vec<Vec<u8>> = vec![
        wallet.to_seed(),
        Pubkey { bytes: TOKEN_PROGRAM_ID }.to_seed(),
        mint.to_seed(),
    ];
    assert(seeds.deep_view() =~~= associated_token_seeds(wallet@, mint@));
    try_find_program_address(&seeds, &Pubkey { bytes: ASSOCIATED_TOKEN_PROGRAM_ID })
}

/// A pool's address is derived by the word `pool`, the mint and the bump, in this order, under this
/// program; and the program signs for a pool with the seeds of its address.
pub proof fn law_pool_address(stake_mint: Pubkey, bump: u8)
    ensures
        ({
            let seeds = seq![seq![0x70u8, 0x6fu8, 0x6fu8, 0x6cu8], stake_mint@, seq![bump]];
            &&& pool_address_spec(stake_mint, bump) == program_address(seeds, PROGRAM_ID@)
            &&& (PoolSigner { stake_mint, bump }).seeds_spec() == seeds
        }),
        pool_seeds(stake_mint@) == seq![seq![0x70u8, 0x6fu8, 0x6fu8, 0x6cu8], stake_mint@],
{
    let seeds = seq![seq![0x70u8, 0x6fu8, 0x6fu8, 0x6cu8], stake_mint@, seq![bump]];
    assert(pool_seeds(stake_mint@).push(seq![bump]) =~= seeds);
}

/// A stake account's address is derived by the word `stake`, the pool, the user and the bump, in
/// this order, under this program.
pub proof fn law_stake_address(pool: Pubkey, user: Pubkey, bump: u8)
    ensures
        stake_address_spec(pool, user, bump) == program_address(
            seq![
                seq![0x73u8, 0x74u8, 0x61u8, 0x6bu8, 0x65u8],
                pool@,
                user@,
                seq![bump],
            ],
            PROGRAM_ID@,
        ),
        stake_seeds(pool@, user@) == seq![
            seq![0x73u8, 0x74u8, 0x61u8, 0x6bu8, 0x65u8],
            pool@,
            user@,
        ],
{
    let seeds = seq![seq![0x73u8, 0x74u8, 0x61u8, 0x6bu8, 0x65u8], pool@, user@, seq![bump]];
    assert(stake_seeds(pool@, user@).push(seq![bump]) =~= seeds);
}

/// The associated token address of a wallet and a mint is derived by the wallet, the token program
/// and the mint, in this order.
pub proof fn law_associated_token_seeds(wallet: Pubkey, mint: Pubkey)
    ensures
        associated_token_seeds(wallet@, mint@) == seq![wallet@, TOKEN_PROGRAM_ID@, mint@],
{
}

/// The search for a canonical bump finds the largest one that derives an address, with that
/// address, and comes back with nothing only where none but zero derives one.
pub proof fn law_canonical_address_is_the_first(seeds: Seq<Seq<u8>>, program_id: Seq<u8>)
    ensures
        match canonical_address(seeds, program_id) {
            Some((address, bump)) => {
                &&& bump >= 1
                &&& program_address(seeds.push(seq![bump]), program_id) == Some(address)
                &&& forall|other: u8|
                    other > bump ==> program_address(
                        #[trigger] seeds.push(seq![other]),
                        program_id,
                    ) is None
            },
            None => forall|other: u8|
                other >= 1 ==> program_address(#[trigger] seeds.push(seq![other]), program_id)
                    is None,
        },
{
    if canonical_address(seeds, program_id) is None {
        assert forall|other: u8| other >= 1 implies program_address(
            #[trigger] seeds.push(seq![other]),
            program_id,
        ) is None by {
            if program_address(seeds.push(seq![other]), program_id) is Some {
                lemma_canonical_bump_exists(seeds, program_id, other);
            }
        }
    }
}

/// Where a bump derives an address, there is a canonical one.
proof fn lemma_canonical_bump_exists(seeds: Seq<Seq<u8>>, program_id: Seq<u8>, bump: u8)
    requires
        bump >= 1,
        program_address(seeds.push(seq![bump]), program_id) is Some,
    ensures
        exists|b: u8| is_canonical_bump(seeds, program_id, b),
    decreases 255 - bump,
{
    if !is_canonical_bump(seeds, program_id, bump) {
        let other = choose|other: u8|
            other > bump && program_address(#[trigger] seeds.push(seq![other]), program_id)
                is Some;
        lemma_canonical_bump_exists(seeds, program_id, other);
    }
}

/// The canonical bump is one that derives the canonical address.
pub proof fn law_canonical_bump_derives_the_address(seeds: Seq<Seq<u8>>, program_id: Seq<u8>)
    ensures
        canonical_address(seeds, program_id) matches Some((address, bump)) ==> program_address(
            seeds.push(seq![bump]),
            program_id,
        ) == Some(address),
{
}

} // verus!
