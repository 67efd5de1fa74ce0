//! The governance adapter: the program through which a COIN's controller reaches the rewards program.
pub mod forwarding;

use self::forwarding::{
    process_activate_live, process_approve_builder, process_draw_genesis_surplus,
    process_finalize_genesis, process_handover_genesis_squads, process_init_authority,
    process_init_coin_config, process_init_genesis_bootstrap, process_init_genesis_squads,
    process_kickstart_genesis_market, process_mint_reward, process_percolator_admin,
    process_recover_genesis_market, process_transfer_mint_authority,
};
use crate::account;
use crate::account::{Account, Effect, EffectView};
use crate::addresses;
use crate::addresses::{find_program_address, no_seeds, with_seed, Address};
use crate::bytes;
use crate::bytes::{append, holds_at, rest_of};
use crate::error::ProgramError;
use crate::pubkey;
use crate::pubkey::Pubkey;
use vstd::prelude::*;
use vstd::slice::slice_subrange;

verus! {

/// The adapter's own address: the byte 7, 32 times.
pub const GOVERNANCE_PROGRAM: [u8; 32] = [
    7, 7, 7, 7, 7, 7, 7, 7, 7, 7, 7, 7, 7, 7, 7, 7, 7, 7, 7, 7, 7, 7, 7, 7, 7, 7, 7, 7, 7, 7, 7, 7,
];

/// `"rewards_authority"`.
pub const REWARDS_AUTHORITY_LABEL: [u8; 17] = [
    114, 101, 119, 97, 114, 100, 115, 95, 97, 117, 116, 104, 111, 114, 105, 116, 121,
];

/// `"GAUTH001"`.
pub const AUTHORITY_DISC: [u8; 8] = [71, 65, 85, 84, 72, 48, 48, 49];

/// The length of an [`AuthorityConfig`] record.
pub const AUTHORITY_SIZE: usize = 40;

pub fn id() -> (r: Pubkey)
    ensures
        r == (Pubkey { bytes: GOVERNANCE_PROGRAM }),
{
    Pubkey { bytes: GOVERNANCE_PROGRAM }
}

/// The seeds of the authority over a COIN of a rewards program.
pub open spec fn authority_path(rewards_program: Pubkey, coin_mint: Pubkey) -> Seq<Seq<u8>> {
    seq![REWARDS_AUTHORITY_LABEL@, rewards_program@, coin_mint@]
}

pub fn authority_seeds(rewards_program: &Pubkey, coin_mint: &Pubkey) -> (r: Vec<Vec<u8>>)
    ensures
        account::seed_views(r@) == authority_path(*rewards_program, *coin_mint),
{
    with_seed(
        with_seed(with_seed(no_seeds(), &REWARDS_AUTHORITY_LABEL), &rewards_program.bytes),
        &coin_mint.bytes,
    )
}

/// The authority over a COIN: the address that the adapter signs with.
pub open spec fn authority_of(rewards_program: Pubkey, coin_mint: Pubkey) -> Option<Address> {
    addresses::address_of(
        authority_path(rewards_program, coin_mint),
        Pubkey { bytes: GOVERNANCE_PROGRAM },
    )
}

pub fn authority_address(rewards_program: &Pubkey, coin_mint: &Pubkey) -> (r: Option<Address>)
    ensures
        r == authority_of(*rewards_program, *coin_mint),
{
    find_program_address(&authority_seeds(rewards_program, coin_mint), &id())
}

/// Who controls a COIN's authority.
#[derive(Clone, Copy, PartialEq, Eq, Debug)]
pub struct AuthorityConfig {
    pub controller: Pubkey,
}

impl AuthorityConfig {
    pub open spec fn encoded(self) -> Seq<u8> {
        AUTHORITY_DISC@ + self.controller@
    }

    /// The controller that an account's data names.
    pub open spec fn decoded(data: Seq<u8>) -> Result<AuthorityConfig, ProgramError> {
        if data.len() < AUTHORITY_SIZE || data.subrange(0, 8) != AUTHORITY_DISC@ {
            Err(ProgramError::InvalidAccountData)
        } else {
            Ok(AuthorityConfig { controller: pubkey::key_of(data.subrange(8, 40)) })
        }
    }

    /// An account's data with the record in front; what stood behind it stays.
    pub open spec fn written(self, data: Seq<u8>) -> Seq<u8> {
        self.encoded() + data.skip(AUTHORITY_SIZE as int)
    }

    pub fn deserialize(data: &[u8]) -> (r: Result<AuthorityConfig, ProgramError>)
        ensures
            r == Self::decoded(data@),
    {
        if data.len() < AUTHORITY_SIZE || !holds_at(data, 0, &AUTHORITY_DISC) {
            return Err(ProgramError::InvalidAccountData);
        }
        Ok(AuthorityConfig { controller: Pubkey::at(data, 8) })
    }

    /// The record on its own.
    pub fn to_bytes(&self) -> (r: Vec<u8>)
        ensures
            r@ == self.encoded(),
    {
        let mut out: Vec<u8> = Vec::with_capacity(AUTHORITY_SIZE);
        append(&mut out, &AUTHORITY_DISC);
        assert(out@ =~= AUTHORITY_DISC@);
        append(&mut out, &self.controller.bytes);
        out
    }

    pub fn serialize(&self, data: &mut Vec<u8>)
        requires
            old(data)@.len() >= AUTHORITY_SIZE,
        ensures
            final(data)@ == self.written(old(data)@),
    {
        let tail = rest_of(data, AUTHORITY_SIZE);
        let mut out = self.to_bytes();
        append(&mut out, &tail);
        *data = out;
    }

    /// What is written is read back, and the data keeps its length.
    pub proof fn round_trip(self, data: Seq<u8>)
        requires
            data.len() >= AUTHORITY_SIZE,
        ensures
            Self::decoded(self.written(data)) == Ok::<AuthorityConfig, ProgramError>(self),
            self.written(data).len() == data.len(),
            self.encoded().len() == AUTHORITY_SIZE,
    {
        pubkey::lemma_key_of_bytes(self.controller);
        let s = self.written(data);
        assert(s.subrange(0, 8) =~= AUTHORITY_DISC@);
        assert(s.subrange(8, 40) =~= self.controller@);
    }

    /// A record on its own is read back.
    pub proof fn reads_back(self)
        ensures
            Self::decoded(self.encoded()) == Ok::<AuthorityConfig, ProgramError>(self),
            self.encoded().len() == AUTHORITY_SIZE,
    {
        let blank = bytes::zeros(AUTHORITY_SIZE as nat);
        self.round_trip(blank);
        assert(self.written(blank) =~= self.encoded());
    }
}

pub const IX_INIT_AUTHORITY: u8 = 0;

pub const IX_INIT_COIN_CONFIG: u8 = 1;

pub const IX_MINT_REWARD: u8 = 4;

pub const IX_TRANSFER_MINT_AUTHORITY: u8 = 6;

pub const IX_ACTIVATE_LIVE: u8 = 7;

pub const IX_PERCOLATOR_ADMIN: u8 = 9;

pub const IX_INIT_GENESIS_BOOTSTRAP: u8 = 10;

pub const IX_FINALIZE_GENESIS: u8 = 12;

pub const IX_DRAW_GENESIS_SURPLUS: u8 = 13;

pub const IX_KICKSTART_GENESIS_MARKET: u8 = 14;

pub const IX_RECOVER_GENESIS_MARKET: u8 = 15;

pub const IX_APPROVE_BUILDER: u8 = 16;

pub const IX_INIT_GENESIS_SQUADS: u8 = 17;

pub const IX_HANDOVER_GENESIS_SQUADS: u8 = 18;

/// The instruction that the first byte of the data names, on the rest of the data. A tag that is not
/// listed is refused.
pub open spec fn process_outcome(
    program_id: Pubkey,
    accounts: Seq<Account>,
    instruction_data: Seq<u8>,
) -> Result<Seq<EffectView>, ProgramError> {
    let tag = instruction_data[0];
    let data = instruction_data.subrange(1, instruction_data.len() as int);
    let third = authority_of(accounts[2].key, accounts[3].key);
    let fourth = authority_of(accounts[2].key, accounts[4].key);
    if instruction_data.len() == 0 {
        Err(ProgramError::InvalidInstructionData)
    } else if tag == IX_INIT_AUTHORITY {
        forwarding::init_authority_outcome(program_id, accounts, third)
    } else if tag == IX_INIT_COIN_CONFIG {
        forwarding::init_coin_config_outcome(program_id, accounts, data, third)
    } else if tag == IX_MINT_REWARD {
        forwarding::mint_reward_outcome(program_id, accounts, data, third)
    } else if tag == IX_TRANSFER_MINT_AUTHORITY {
        forwarding::transfer_mint_authority_outcome(program_id, accounts, third)
    } else if tag == IX_ACTIVATE_LIVE {
        forwarding::activate_live_outcome(program_id, accounts, data, third)
    } else if tag == IX_PERCOLATOR_ADMIN {
        forwarding::percolator_admin_outcome(program_id, accounts, data, third)
    } else if tag == IX_INIT_GENESIS_BOOTSTRAP {
        forwarding::init_genesis_bootstrap_outcome(program_id, accounts, data, third)
    } else if tag == IX_FINALIZE_GENESIS {
        forwarding::finalize_genesis_outcome(program_id, accounts, data, fourth)
    } else if tag == IX_DRAW_GENESIS_SURPLUS {
        forwarding::draw_genesis_surplus_outcome(program_id, accounts, data, fourth)
    } else if tag == IX_KICKSTART_GENESIS_MARKET {
        forwarding::kickstart_genesis_market_outcome(program_id, accounts, data, third)
    } else if tag == IX_RECOVER_GENESIS_MARKET {
        forwarding::recover_genesis_market_outcome(program_id, accounts, data, third)
    } else if tag == IX_APPROVE_BUILDER {
        forwarding::approve_builder_outcome(program_id, accounts, data, third)
    } else if tag == IX_INIT_GENESIS_SQUADS {
        forwarding::init_genesis_squads_outcome(program_id, accounts, data, third)
    } else if tag == IX_HANDOVER_GENESIS_SQUADS {
        forwarding::handover_genesis_squads_outcome(program_id, accounts, data, third)
    } else {
        Err(ProgramError::InvalidInstructionData)
    }
}

pub fn process_instruction(
    program_id: &Pubkey,
    accounts: &[Account],
    instruction_data: &[u8],
) -> (r: Result<Vec<Effect>, ProgramError>)
    ensures
        account::outcome(r) == process_outcome(*program_id, accounts@, instruction_data@),
{
    if instruction_data.len() == 0 {
        return Err(ProgramError::InvalidInstructionData);
    }
    let tag: u8 = instruction_data[0];
    let data = slice_subrange(instruction_data, 1, instruction_data.len());
    if tag == IX_INIT_AUTHORITY {
        process_init_authority(program_id, accounts)
    } else if tag == IX_INIT_COIN_CONFIG {
        process_init_coin_config(program_id, accounts, data)
    } else if tag == IX_MINT_REWARD {
        process_mint_reward(program_id, accounts, data)
    } else if tag == IX_TRANSFER_MINT_AUTHORITY {
        process_transfer_mint_authority(program_id, accounts)
    } else if tag == IX_ACTIVATE_LIVE {
        process_activate_live(program_id, accounts, data)
    } else if tag == IX_PERCOLATOR_ADMIN {
        process_percolator_admin(program_id, accounts, data)
    } else if tag == IX_INIT_GENESIS_BOOTSTRAP {
        process_init_genesis_bootstrap(program_id, accounts, data)
    } else if tag == IX_FINALIZE_GENESIS {
        process_finalize_genesis(program_id, accounts, data)
    } else if tag == IX_DRAW_GENESIS_SURPLUS {
        process_draw_genesis_surplus(program_id, accounts, data)
    } else if tag == IX_KICKSTART_GENESIS_MARKET {
        process_kickstart_genesis_market(program_id, accounts, data)
    } else if tag == IX_RECOVER_GENESIS_MARKET {
        process_recover_genesis_market(program_id, accounts, data)
    } else if tag == IX_APPROVE_BUILDER {
        process_approve_builder(program_id, accounts, data)
    } else if tag == IX_INIT_GENESIS_SQUADS {
        process_init_genesis_squads(program_id, accounts, data)
    } else if tag == IX_HANDOVER_GENESIS_SQUADS {
        process_handover_genesis_squads(program_id, accounts, data)
    } else {
        Err(ProgramError::InvalidInstructionData)
    }
}

} // verus!
