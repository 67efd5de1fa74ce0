//! The Squads v4 multisig that governs the genesis market.
//!
//! The multisig is made by this program: one member, one vote, a timelock of 48 hours, and the COIN's
//! market admin as its config authority. Control passes to the winning DAO by rotating that config
//! authority; Percolator's own authorities are never touched.
use crate::account;
use crate::addresses;
use crate::addresses::{find_program_address, labelled_seeds, no_seeds, with_seed, Address};
use crate::bytes;
use crate::bytes::{append, append_le};
use crate::pubkey::{Pubkey, SQUADS_PROGRAM};
use vstd::prelude::*;

verus! {

/// `"genesis_squads"`.
pub const CREATE_KEY_LABEL: [u8; 14] = [
    103, 101, 110, 101, 115, 105, 115, 95, 115, 113, 117, 97, 100, 115,
];

/// `"multisig"`.
pub const MULTISIG_LABEL: [u8; 8] = [109, 117, 108, 116, 105, 115, 105, 103];

/// The discriminator of `multisig_create_v2`.
pub const IX_MULTISIG_CREATE_V2: [u8; 8] = [50, 221, 199, 93, 40, 245, 139, 233];

/// The discriminator of `multisig_set_config_authority`.
pub const IX_SET_CONFIG_AUTHORITY: [u8; 8] = [143, 93, 199, 143, 92, 169, 193, 232];

/// A member may initiate, vote and execute.
pub const PERM_ALL: u8 = 7;

/// 48 hours, in seconds.
pub const TIMELOCK_48H_SECS: u32 = 172_800;

/// The key that fixes the address of a COIN's multisig.
pub open spec fn create_key_path(coin_mint: Pubkey) -> Seq<Seq<u8>> {
    addresses::labelled(CREATE_KEY_LABEL@, coin_mint)
}

pub fn create_key_seeds(coin_mint: &Pubkey) -> (r: Vec<Vec<u8>>)
    ensures
        account::seed_views(r@) == create_key_path(*coin_mint),
{
    labelled_seeds(&CREATE_KEY_LABEL, coin_mint)
}

/// The multisig that a create-key fixes; Squads derives it.
pub open spec fn multisig_of(create_key: Pubkey) -> Option<Address> {
    addresses::address_of(
        seq![MULTISIG_LABEL@, MULTISIG_LABEL@, create_key@],
        Pubkey { bytes: SQUADS_PROGRAM },
    )
}

pub fn multisig_address(create_key: &Pubkey) -> (r: Option<Address>)
    ensures
        r == multisig_of(*create_key),
{
    let seeds = with_seed(
        with_seed(with_seed(no_seeds(), &MULTISIG_LABEL), &MULTISIG_LABEL),
        &create_key.bytes,
    );
    assert(account::seed_views(seeds@) =~= seq![MULTISIG_LABEL@, MULTISIG_LABEL@, create_key@]);
    find_program_address(&seeds, &Pubkey { bytes: SQUADS_PROGRAM })
}

/// The data of `multisig_create_v2`: the admin is config authority and only member, with every
/// permission; one vote decides, after 48 hours; no rent collector, no memo.
pub open spec fn create_data(admin: Pubkey) -> Seq<u8> {
    IX_MULTISIG_CREATE_V2@ + seq![1u8] + admin@ + bytes::le_bytes(1, 2) + bytes::le_bytes(1, 4)
        + admin@ + seq![PERM_ALL] + bytes::le_bytes(TIMELOCK_48H_SECS as nat, 4) + seq![0u8, 0u8]
}

pub fn create_ix_data(admin: &Pubkey) -> (r: Vec<u8>)
    ensures
        r@ == create_data(*admin),
{
    let mut data: Vec<u8> = Vec::with_capacity(96);
    append(&mut data, &IX_MULTISIG_CREATE_V2);
    assert(data@ =~= IX_MULTISIG_CREATE_V2@);
    append(&mut data, &[1u8]);
    assert([1u8]@ =~= seq![1u8]);
    append(&mut data, &admin.bytes);
    append_le(&mut data, 1, 2);
    append_le(&mut data, 1, 4);
    append(&mut data, &admin.bytes);
    append(&mut data, &[PERM_ALL]);
    assert([PERM_ALL]@ =~= seq![PERM_ALL]);
    append_le(&mut data, TIMELOCK_48H_SECS as u128, 4);
    append(&mut data, &[0u8, 0u8]);
    assert([0u8, 0u8]@ =~= seq![0u8, 0u8]);
    data
}

/// The data of `multisig_set_config_authority`: the new authority; no memo.
pub open spec fn set_config_authority_data(new_authority: Pubkey) -> Seq<u8> {
    IX_SET_CONFIG_AUTHORITY@ + new_authority@ + seq![0u8]
}

pub fn set_config_authority_ix_data(new_authority: &Pubkey) -> (r: Vec<u8>)
    ensures
        r@ == set_config_authority_data(*new_authority),
{
    let mut data: Vec<u8> = Vec::with_capacity(41);
    append(&mut data, &IX_SET_CONFIG_AUTHORITY);
    assert(data@ =~= IX_SET_CONFIG_AUTHORITY@);
    append(&mut data, &new_authority.bytes);
    append(&mut data, &[0u8]);
    assert([0u8]@ =~= seq![0u8]);
    data
}

} // verus!
