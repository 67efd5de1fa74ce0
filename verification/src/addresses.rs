//! Program-derived addresses.
use crate::account;
use crate::bytes;
use crate::bytes::{append, append_le};
use crate::governance;
use crate::governance::authority_address;
use crate::pubkey;
use crate::pubkey::{Pubkey, PERCOLATOR_PROGRAM};
use crate::squads;
use crate::squads::{create_key_seeds, multisig_address};
use vstd::prelude::*;

verus! {

/// What `Pubkey::try_find_program_address` finds for a list of seeds: the bytes of the address and
/// its bump, or nothing.
pub uninterp spec fn program_address(seeds: Seq<Seq<u8>>, program_id: Seq<u8>) -> Option<
    (Seq<u8>, u8),
>;

/// An address that no key signs for, with the bump that completes its seeds.
#[derive(Clone, Copy, PartialEq, Eq, Debug)]
pub struct Address {
    pub key: Pubkey,
    pub bump: u8,
}

/// The address that a program's seeds derive, if they derive one.
pub open spec fn address_of(seeds: Seq<Seq<u8>>, program_id: Pubkey) -> Option<Address> {
    match program_address(seeds, program_id@) {
        Some((key, bump)) => Some(Address { key: pubkey::key_of(key), bump }),
        None => None,
    }
}

/// Calls `solana_program::pubkey::Pubkey::try_find_program_address`. The address and the bump depend
/// on the seeds and the program alone; the search itself (SHA-256 over the seeds, a bump and the
/// program, off the curve) is not stated.
#[verifier::external_body]
fn try_find_program_address(seeds: &Vec<Vec<u8>>, program_id: &Pubkey) -> (r: Option<(Pubkey, u8)>)
    ensures
        (match r {
            Some((key, bump)) => Some((key@, bump)),
            None => None,
        }) == program_address(account::seed_views(seeds@), program_id@),
{
    let seeds: Vec<&[u8]> = seeds.iter().map(|seed| seed.as_slice()).collect();
    let program_id = solana_program::pubkey::Pubkey::new_from_array(program_id.bytes);
    solana_program::pubkey::Pubkey::try_find_program_address(&seeds, &program_id).map(
        |(key, bump)| (Pubkey { bytes: key.to_bytes() }, bump),
    )
}

/// The address that a program's seeds derive.
pub fn find_program_address(seeds: &Vec<Vec<u8>>, program_id: &Pubkey) -> (r: Option<Address>)
    ensures
        r == address_of(account::seed_views(seeds@), *program_id),
{
    match try_find_program_address(seeds, program_id) {
        Some((key, bump)) => {
            proof {
                pubkey::lemma_key_of_bytes(key);
            }
            Some(Address { key, bump })
        },
        None => None,
    }
}

/// Whether `key` is the derived address; nothing is, where no address was derived.
pub open spec fn is_at(key: Pubkey, address: Option<Address>) -> bool {
    address is Some && address->0.key == key
}

pub fn key_is_at(key: &Pubkey, address: &Option<Address>) -> (r: bool)
    ensures
        r == is_at(*key, *address),
{
    match address {
        Some(a) => a.key.same(key),
        None => false,
    }
}

/// The seeds that sign for a derived address: its own seeds and then its bump.
pub open spec fn signer_seeds(seeds: Seq<Seq<u8>>, bump: u8) -> Seq<Seq<u8>> {
    seeds.push(seq![bump])
}

pub fn with_bump(seeds: Vec<Vec<u8>>, bump: u8) -> (r: Vec<Vec<u8>>)
    ensures
        account::seed_views(r@) == signer_seeds(account::seed_views(seeds@), bump),
{
    let ghost before = seeds@;
    let mut r = seeds;
    let mut last: Vec<u8> = Vec::new();
    last.push(bump);
    assert(last@ =~= seq![bump]);
    r.push(last);
    assert(account::seed_views(r@) =~= signer_seeds(account::seed_views(before), bump));
    r
}

/// A list of seeds with one more.
pub fn with_seed(seeds: Vec<Vec<u8>>, seed: &[u8]) -> (r: Vec<Vec<u8>>)
    ensures
        account::seed_views(r@) == account::seed_views(seeds@).push(seed@),
{
    let ghost before = seeds@;
    let mut r = seeds;
    let mut last: Vec<u8> = Vec::new();
    append(&mut last, seed);
    assert(last@ =~= seed@);
    r.push(last);
    assert(account::seed_views(r@) =~= account::seed_views(before).push(seed@));
    r
}

/// No seeds.
pub fn no_seeds() -> (r: Vec<Vec<u8>>)
    ensures
        account::seed_views(r@) == Seq::<Seq<u8>>::empty(),
{
    let r: Vec<Vec<u8>> = Vec::new();
    assert(account::seed_views(r@) =~= Seq::<Seq<u8>>::empty());
    r
}

/// A label and one key.
pub open spec fn labelled(label: Seq<u8>, key: Pubkey) -> Seq<Seq<u8>> {
    seq![label, key@]
}

pub fn labelled_seeds(label: &[u8], key: &Pubkey) -> (r: Vec<Vec<u8>>)
    ensures
        account::seed_views(r@) == labelled(label@, *key),
{
    with_seed(with_seed(no_seeds(), label), &key.bytes)
}

/// `"coin_mint_authority"`.
pub const MINT_AUTHORITY_LABEL: [u8; 19] = [
    99, 111, 105, 110, 95, 109, 105, 110, 116, 95, 97, 117, 116, 104, 111, 114, 105, 116, 121,
];

/// `"coin_cfg"`.
pub const COIN_CFG_LABEL: [u8; 8] = [99, 111, 105, 110, 95, 99, 102, 103];

/// `"percolator_market_admin"`.
pub const MARKET_ADMIN_LABEL: [u8; 23] = [
    112, 101, 114, 99, 111, 108, 97, 116, 111, 114, 95, 109, 97, 114, 107, 101, 116, 95, 97,
    100, 109, 105, 110,
];

/// `"genesis_cfg"`.
pub const GENESIS_CFG_LABEL: [u8; 11] = [103, 101, 110, 101, 115, 105, 115, 95, 99, 102, 103];

/// `"genesis_vault"`.
pub const GENESIS_VAULT_LABEL: [u8; 13] = [
    103, 101, 110, 101, 115, 105, 115, 95, 118, 97, 117, 108, 116,
];

/// `"genesis_position"`.
pub const GENESIS_POSITION_LABEL: [u8; 16] = [
    103, 101, 110, 101, 115, 105, 115, 95, 112, 111, 115, 105, 116, 105, 111, 110,
];

/// `"genesis_distribution"`.
pub const GENESIS_DISTRIBUTION_LABEL: [u8; 20] = [
    103, 101, 110, 101, 115, 105, 115, 95, 100, 105, 115, 116, 114, 105, 98, 117, 116, 105, 111,
    110,
];

/// `"builder_approval"`.
pub const BUILDER_APPROVAL_LABEL: [u8; 16] = [
    98, 117, 105, 108, 100, 101, 114, 95, 97, 112, 112, 114, 111, 118, 97, 108,
];

/// `"vault"`.
pub const PERCOLATOR_VAULT_LABEL: [u8; 5] = [118, 97, 117, 108, 116];

/// The mint authority of a COIN.
pub open spec fn mint_authority_path(coin_mint: Pubkey) -> Seq<Seq<u8>> {
    labelled(MINT_AUTHORITY_LABEL@, coin_mint)
}

pub fn mint_authority_seeds(coin_mint: &Pubkey) -> (r: Vec<Vec<u8>>)
    ensures
        account::seed_views(r@) == mint_authority_path(*coin_mint),
{
    labelled_seeds(&MINT_AUTHORITY_LABEL, coin_mint)
}

/// The configuration of a COIN.
pub open spec fn coin_cfg_path(coin_mint: Pubkey) -> Seq<Seq<u8>> {
    labelled(COIN_CFG_LABEL@, coin_mint)
}

pub fn coin_cfg_seeds(coin_mint: &Pubkey) -> (r: Vec<Vec<u8>>)
    ensures
        account::seed_views(r@) == coin_cfg_path(*coin_mint),
{
    labelled_seeds(&COIN_CFG_LABEL, coin_mint)
}

/// The admin of a COIN's markets, which owns its genesis vault.
pub open spec fn market_admin_path(coin_mint: Pubkey) -> Seq<Seq<u8>> {
    labelled(MARKET_ADMIN_LABEL@, coin_mint)
}

pub fn market_admin_seeds(coin_mint: &Pubkey) -> (r: Vec<Vec<u8>>)
    ensures
        account::seed_views(r@) == market_admin_path(*coin_mint),
{
    labelled_seeds(&MARKET_ADMIN_LABEL, coin_mint)
}

/// The pool of a COIN's genesis.
pub open spec fn genesis_cfg_path(coin_mint: Pubkey) -> Seq<Seq<u8>> {
    labelled(GENESIS_CFG_LABEL@, coin_mint)
}

pub fn genesis_cfg_seeds(coin_mint: &Pubkey) -> (r: Vec<Vec<u8>>)
    ensures
        account::seed_views(r@) == genesis_cfg_path(*coin_mint),
{
    labelled_seeds(&GENESIS_CFG_LABEL, coin_mint)
}

/// The token account that holds the pool.
pub open spec fn genesis_vault_path(coin_mint: Pubkey) -> Seq<Seq<u8>> {
    labelled(GENESIS_VAULT_LABEL@, coin_mint)
}

pub fn genesis_vault_seeds(coin_mint: &Pubkey) -> (r: Vec<Vec<u8>>)
    ensures
        account::seed_views(r@) == genesis_vault_path(*coin_mint),
{
    labelled_seeds(&GENESIS_VAULT_LABEL, coin_mint)
}

/// The position of a depositor in a pool.
pub open spec fn genesis_position_path(genesis_cfg: Pubkey, user: Pubkey) -> Seq<Seq<u8>> {
    labelled(GENESIS_POSITION_LABEL@, genesis_cfg).push(user@)
}

pub fn genesis_position_seeds(genesis_cfg: &Pubkey, user: &Pubkey) -> (r: Vec<Vec<u8>>)
    ensures
        account::seed_views(r@) == genesis_position_path(*genesis_cfg, *user),
{
    with_seed(labelled_seeds(&GENESIS_POSITION_LABEL, genesis_cfg), &user.bytes)
}

/// A candidate distribution of a pool.
pub open spec fn genesis_distribution_path(genesis_cfg: Pubkey, proposal_id: u64) -> Seq<Seq<u8>> {
    labelled(GENESIS_DISTRIBUTION_LABEL@, genesis_cfg).push(bytes::u64_bytes(proposal_id))
}

pub fn genesis_distribution_seeds(genesis_cfg: &Pubkey, proposal_id: u64) -> (r: Vec<Vec<u8>>)
    ensures
        account::seed_views(r@) == genesis_distribution_path(*genesis_cfg, proposal_id),
{
    let mut id: Vec<u8> = Vec::with_capacity(8);
    append_le(&mut id, proposal_id as u128, 8);
    assert(id@ =~= bytes::u64_bytes(proposal_id));
    with_seed(labelled_seeds(&GENESIS_DISTRIBUTION_LABEL, genesis_cfg), &id)
}

/// The approval of a builder program's code.
pub open spec fn builder_approval_path(
    coin_mint: Pubkey,
    builder_program: Pubkey,
    code_hash: [u8; 32],
) -> Seq<Seq<u8>> {
    labelled(BUILDER_APPROVAL_LABEL@, coin_mint).push(builder_program@).push(code_hash@)
}

pub fn builder_approval_seeds(
    coin_mint: &Pubkey,
    builder_program: &Pubkey,
    code_hash: &[u8; 32],
) -> (r: Vec<Vec<u8>>)
    ensures
        account::seed_views(r@) == builder_approval_path(*coin_mint, *builder_program, *code_hash),
{
    with_seed(
        with_seed(labelled_seeds(&BUILDER_APPROVAL_LABEL, coin_mint), &builder_program.bytes),
        code_hash,
    )
}

/// The authority over a market's token vault; Percolator derives it.
pub open spec fn percolator_vault_path(market_slab: Pubkey) -> Seq<Seq<u8>> {
    labelled(PERCOLATOR_VAULT_LABEL@, market_slab)
}

/// The authority over the token vault of the market at `market_slab`.
pub open spec fn percolator_vault_of(market_slab: Pubkey) -> Option<Address> {
    address_of(percolator_vault_path(market_slab), Pubkey { bytes: PERCOLATOR_PROGRAM })
}

pub fn percolator_vault_address(market_slab: &Pubkey) -> (r: Option<Address>)
    ensures
        r == percolator_vault_of(*market_slab),
{
    find_program_address(
        &labelled_seeds(&PERCOLATOR_VAULT_LABEL, market_slab),
        &Pubkey { bytes: PERCOLATOR_PROGRAM },
    )
}

/// The addresses that a COIN's instructions meet. One that its seeds do not derive is absent, and no
/// account stands at it.
#[derive(Clone, Copy, PartialEq, Eq, Debug)]
pub struct CoinAddresses {
    pub governance: Option<Address>,
    pub coin_cfg: Option<Address>,
    pub mint_authority: Option<Address>,
    pub market_admin: Option<Address>,
    pub genesis_cfg: Option<Address>,
    pub genesis_vault: Option<Address>,
    pub create_key: Option<Address>,
    pub multisig: Option<Address>,
}

impl CoinAddresses {
    /// The addresses of the COIN with the given mint, under the given rewards program.
    pub open spec fn of(program_id: Pubkey, coin_mint: Pubkey) -> CoinAddresses {
        let create_key = address_of(squads::create_key_path(coin_mint), program_id);
        CoinAddresses {
            governance: governance::authority_of(program_id, coin_mint),
            coin_cfg: address_of(coin_cfg_path(coin_mint), program_id),
            mint_authority: address_of(mint_authority_path(coin_mint), program_id),
            market_admin: address_of(market_admin_path(coin_mint), program_id),
            genesis_cfg: address_of(genesis_cfg_path(coin_mint), program_id),
            genesis_vault: address_of(genesis_vault_path(coin_mint), program_id),
            create_key,
            multisig: match create_key {
                Some(address) => squads::multisig_of(address.key),
                None => None,
            },
        }
    }

    pub fn derive(program_id: &Pubkey, coin_mint: &Pubkey) -> (r: CoinAddresses)
        ensures
            r == Self::of(*program_id, *coin_mint),
    {
        let create_key = find_program_address(&create_key_seeds(coin_mint), program_id);
        CoinAddresses {
            governance: authority_address(program_id, coin_mint),
            coin_cfg: find_program_address(&coin_cfg_seeds(coin_mint), program_id),
            mint_authority: find_program_address(&mint_authority_seeds(coin_mint), program_id),
            market_admin: find_program_address(&market_admin_seeds(coin_mint), program_id),
            genesis_cfg: find_program_address(&genesis_cfg_seeds(coin_mint), program_id),
            genesis_vault: find_program_address(&genesis_vault_seeds(coin_mint), program_id),
            create_key,
            multisig: match create_key {
                Some(address) => multisig_address(&address.key),
                None => None,
            },
        }
    }
}

} // verus!
