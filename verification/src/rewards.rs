//! The rewards program: the genesis of a COIN and the governance of its markets.
pub mod coin_lifecycle;
pub mod deposits;
pub mod handover;
pub mod market;
pub mod vote;
pub mod withdrawal;

use crate::account;
use crate::account::{Account, Effect, EffectView};
use crate::addresses;
use crate::addresses::{Address, CoinAddresses};
use crate::bytes;
use crate::error::ProgramError;
use crate::pubkey;
use crate::pubkey::Pubkey;
use self::coin_lifecycle::{
    process_activate_live, process_init_coin_config, process_mint_reward,
    process_transfer_mint_authority,
};
use self::deposits::{process_genesis_deposit, process_init_genesis_bootstrap};
use self::handover::{
    process_approve_builder, process_draw_genesis_surplus, process_finalize_genesis,
    process_handover_genesis_squads, process_init_genesis_squads,
};
use self::market::{
    process_init_percolator_market, process_kickstart_genesis_market, process_percolator_admin,
    process_recover_genesis_market,
};
use self::vote::{
    process_init_genesis_distribution, process_trigger_genesis_distribution,
    process_vote_genesis_distribution,
};
use self::withdrawal::{process_genesis_withdraw, Plan, PlanView};
use vstd::prelude::*;
use vstd::slice::slice_subrange;

verus! {

pub const IX_INIT_COIN_CONFIG: u8 = 3;

pub const IX_MINT_REWARD: u8 = 8;

pub const IX_TRANSFER_MINT_AUTHORITY: u8 = 10;

pub const IX_ACTIVATE_LIVE: u8 = 11;

pub const IX_INIT_PERCOLATOR_MARKET: u8 = 19;

pub const IX_PERCOLATOR_ADMIN: u8 = 20;

pub const IX_INIT_GENESIS_BOOTSTRAP: u8 = 21;

pub const IX_GENESIS_DEPOSIT: u8 = 22;

pub const IX_GENESIS_WITHDRAW: u8 = 23;

pub const IX_TRIGGER_GENESIS_DISTRIBUTION: u8 = 24;

pub const IX_FINALIZE_GENESIS: u8 = 25;

pub const IX_DRAW_GENESIS_SURPLUS: u8 = 26;

pub const IX_KICKSTART_GENESIS_MARKET: u8 = 27;

pub const IX_RECOVER_GENESIS_MARKET: u8 = 28;

pub const IX_INIT_GENESIS_DISTRIBUTION: u8 = 29;

pub const IX_VOTE_GENESIS_DISTRIBUTION: u8 = 30;

pub const IX_APPROVE_BUILDER: u8 = 31;

pub const IX_INIT_GENESIS_SQUADS: u8 = 32;

pub const IX_HANDOVER_GENESIS_SQUADS: u8 = 33;

/// A handler's effects, with nothing left to do once they are carried out.
pub open spec fn complete(r: Result<Seq<EffectView>, ProgramError>) -> Result<
    PlanView,
    ProgramError,
> {
    match r {
        Ok(effects) => Ok(PlanView { effects, exit: None }),
        Err(e) => Err(e),
    }
}

fn completed(r: Result<Vec<Effect>, ProgramError>) -> (p: Result<Plan, ProgramError>)
    ensures
        withdrawal::plan_view(p) == complete(account::outcome(r)),
{
    match r {
        Ok(effects) => Ok(Plan { effects, exit: None }),
        Err(e) => Err(e),
    }
}

/// The address of a depositor's position in a pool.
pub open spec fn position_of(program_id: Pubkey, genesis_cfg: Pubkey, user: Pubkey) -> Option<Address> {
    addresses::address_of(addresses::genesis_position_path(genesis_cfg, user), program_id)
}

/// The instruction that the first byte of the data names, on the rest of the data. The slot is that of
/// the runtime's clock. A tag that is not listed is refused.
pub open spec fn process_outcome(
    program_id: Pubkey,
    accounts: Seq<Account>,
    instruction_data: Seq<u8>,
    slot: u64,
) -> Result<PlanView, ProgramError> {
    let tag = instruction_data[0];
    let data = instruction_data.subrange(1, instruction_data.len() as int);
    let first = CoinAddresses::of(program_id, accounts[1].key);
    let second = CoinAddresses::of(program_id, accounts[2].key);
    let third = CoinAddresses::of(program_id, accounts[3].key);
    let position = position_of(program_id, accounts[3].key, accounts[0].key);
    if instruction_data.len() == 0 {
        Err(ProgramError::InvalidInstructionData)
    } else if tag == IX_INIT_COIN_CONFIG {
        complete(
            coin_lifecycle::init_coin_config_outcome(
                program_id,
                accounts,
                data,
                slot,
                second,
            ),
        )
    } else if tag == IX_MINT_REWARD {
        complete(
            coin_lifecycle::mint_reward_outcome(
                program_id,
                accounts,
                data,
                second,
            ),
        )
    } else if tag == IX_TRANSFER_MINT_AUTHORITY {
        complete(
            coin_lifecycle::transfer_mint_authority_outcome(
                program_id,
                accounts,
                second,
            ),
        )
    } else if tag == IX_ACTIVATE_LIVE {
        complete(
            coin_lifecycle::activate_live_outcome(
                program_id,
                accounts,
                data,
                second,
            ),
        )
    } else if tag == IX_INIT_PERCOLATOR_MARKET {
        complete(
            market::init_percolator_market_outcome(
                program_id,
                accounts,
                data,
                first,
            ),
        )
    } else if tag == IX_PERCOLATOR_ADMIN {
        complete(
            market::percolator_admin_outcome(
                program_id,
                accounts,
                data,
                second,
            ),
        )
    } else if tag == IX_INIT_GENESIS_BOOTSTRAP {
        complete(
            deposits::init_genesis_bootstrap_outcome(
                program_id,
                accounts,
                data,
                slot,
                second,
            ),
        )
    } else if tag == IX_GENESIS_DEPOSIT {
        complete(
            deposits::genesis_deposit_outcome(
                program_id,
                accounts,
                data,
                slot,
                first,
                position,
            ),
        )
    } else if tag == IX_GENESIS_WITHDRAW {
        withdrawal::genesis_withdraw_outcome(
            program_id,
            accounts,
            data,
            first,
            position,
            addresses::percolator_vault_of(accounts[9].key),
        )
    } else if tag == IX_TRIGGER_GENESIS_DISTRIBUTION {
        complete(
            vote::trigger_genesis_distribution_outcome(
                program_id,
                accounts,
                data,
                second,
            ),
        )
    } else if tag == IX_FINALIZE_GENESIS {
        complete(
            handover::finalize_genesis_outcome(
                program_id,
                accounts,
                data,
                third,
            ),
        )
    } else if tag == IX_DRAW_GENESIS_SURPLUS {
        complete(
            handover::draw_genesis_surplus_outcome(
                program_id,
                accounts,
                data,
                third,
            ),
        )
    } else if tag == IX_KICKSTART_GENESIS_MARKET {
        complete(
            market::kickstart_genesis_market_outcome(
                program_id,
                accounts,
                data,
                second,
                addresses::percolator_vault_of(accounts[6].key),
            ),
        )
    } else if tag == IX_RECOVER_GENESIS_MARKET {
        complete(
            market::recover_genesis_market_outcome(
                program_id,
                accounts,
                data,
                second,
                addresses::percolator_vault_of(accounts[6].key),
            ),
        )
    } else if tag == IX_INIT_GENESIS_DISTRIBUTION {
        complete(
            vote::init_genesis_distribution_outcome(
                program_id,
                accounts,
                data,
                first,
                addresses::address_of(
                    addresses::genesis_distribution_path(
                        accounts[3].key,
                        bytes::u64_of(data.subrange(0, 8)),
                    ),
                    program_id,
                ),
            ),
        )
    } else if tag == IX_VOTE_GENESIS_DISTRIBUTION {
        complete(
            vote::vote_genesis_distribution_outcome(
                program_id,
                accounts,
                data,
                slot,
                first,
                position,
            ),
        )
    } else if tag == IX_APPROVE_BUILDER {
        complete(
            handover::approve_builder_outcome(
                program_id,
                accounts,
                data,
                second,
                addresses::address_of(
                    addresses::builder_approval_path(
                        accounts[2].key,
                        accounts[4].key,
                        pubkey::key_of(data.subrange(0, 32)).bytes,
                    ),
                    program_id,
                ),
            ),
        )
    } else if tag == IX_INIT_GENESIS_SQUADS {
        complete(
            handover::init_genesis_squads_outcome(
                program_id,
                accounts,
                data,
                second,
            ),
        )
    } else if tag == IX_HANDOVER_GENESIS_SQUADS {
        complete(
            handover::handover_genesis_squads_outcome(
                program_id,
                accounts,
                data,
                second,
            ),
        )
    } else {
        Err(ProgramError::InvalidInstructionData)
    }
}

/// Whether the instruction reads the slot of the runtime's clock.
pub open spec fn reads_slot(instruction_data: Seq<u8>) -> bool {
    instruction_data.len() > 0 && (instruction_data[0] == IX_INIT_COIN_CONFIG || instruction_data[0]
        == IX_INIT_GENESIS_BOOTSTRAP || instruction_data[0] == IX_GENESIS_DEPOSIT
        || instruction_data[0] == IX_VOTE_GENESIS_DISTRIBUTION)
}

pub fn needs_slot(instruction_data: &[u8]) -> (r: bool)
    ensures
        r == reads_slot(instruction_data@),
{
    if instruction_data.len() == 0 {
        return false;
    }
    let tag: u8 = instruction_data[0];
    tag == IX_INIT_COIN_CONFIG || tag == IX_INIT_GENESIS_BOOTSTRAP || tag == IX_GENESIS_DEPOSIT || tag
        == IX_VOTE_GENESIS_DISTRIBUTION
}

#[verifier::rlimit(50)]
#[verifier::spinoff_prover]
pub fn process_instruction(
    program_id: &Pubkey,
    accounts: &[Account],
    instruction_data: &[u8],
    slot: u64,
) -> (r: Result<Plan, ProgramError>)
    ensures
        withdrawal::plan_view(r) == process_outcome(
            *program_id,
            accounts@,
            instruction_data@,
            slot,
        ),
{
    if instruction_data.len() == 0 {
        return Err(ProgramError::InvalidInstructionData);
    }
    let tag: u8 = instruction_data[0];
    let data = slice_subrange(instruction_data, 1, instruction_data.len());
    if tag == IX_INIT_COIN_CONFIG {
        completed(process_init_coin_config(program_id, accounts, data, slot))
    } else if tag == IX_MINT_REWARD {
        completed(process_mint_reward(program_id, accounts, data))
    } else if tag == IX_TRANSFER_MINT_AUTHORITY {
        completed(process_transfer_mint_authority(program_id, accounts))
    } else if tag == IX_ACTIVATE_LIVE {
        completed(process_activate_live(program_id, accounts, data))
    } else if tag == IX_INIT_PERCOLATOR_MARKET {
        completed(process_init_percolator_market(program_id, accounts, data))
    } else if tag == IX_PERCOLATOR_ADMIN {
        completed(process_percolator_admin(program_id, accounts, data))
    } else if tag == IX_INIT_GENESIS_BOOTSTRAP {
        completed(process_init_genesis_bootstrap(program_id, accounts, data, slot))
    } else if tag == IX_GENESIS_DEPOSIT {
        completed(process_genesis_deposit(program_id, accounts, data, slot))
    } else if tag == IX_GENESIS_WITHDRAW {
        process_genesis_withdraw(program_id, accounts, data)
    } else if tag == IX_TRIGGER_GENESIS_DISTRIBUTION {
        completed(process_trigger_genesis_distribution(program_id, accounts, data))
    } else if tag == IX_FINALIZE_GENESIS {
        completed(process_finalize_genesis(program_id, accounts, data))
    } else if tag == IX_DRAW_GENESIS_SURPLUS {
        completed(process_draw_genesis_surplus(program_id, accounts, data))
    } else if tag == IX_KICKSTART_GENESIS_MARKET {
        completed(process_kickstart_genesis_market(program_id, accounts, data))
    } else if tag == IX_RECOVER_GENESIS_MARKET {
        completed(process_recover_genesis_market(program_id, accounts, data))
    } else if tag == IX_INIT_GENESIS_DISTRIBUTION {
        completed(process_init_genesis_distribution(program_id, accounts, data))
    } else if tag == IX_VOTE_GENESIS_DISTRIBUTION {
        completed(process_vote_genesis_distribution(program_id, accounts, data, slot))
    } else if tag == IX_APPROVE_BUILDER {
        completed(process_approve_builder(program_id, accounts, data))
    } else if tag == IX_INIT_GENESIS_SQUADS {
        completed(process_init_genesis_squads(program_id, accounts, data))
    } else if tag == IX_HANDOVER_GENESIS_SQUADS {
        completed(process_handover_genesis_squads(program_id, accounts, data))
    } else {
        Err(ProgramError::InvalidInstructionData)
    }
}

} // verus!
