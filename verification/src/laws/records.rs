//! What the handlers write is what the ledger says, and is read back as such.
use crate::account::{Account, EffectView};
use crate::addresses::{Address, CoinAddresses};
use crate::builder::BuilderApproval;
use crate::bytes;
use crate::checks;
use crate::coin::CoinConfig;
use crate::effects;
use crate::error::ProgramError;
use crate::genesis::{GenesisConfig, GenesisDistribution, GenesisPosition};
use crate::governance::forwarding;
use crate::governance::AuthorityConfig;
use crate::ledger;
use crate::ledger::{Exit, Tally};
use crate::pubkey;
use crate::pubkey::Pubkey;
use crate::rewards::coin_lifecycle;
use crate::rewards::deposits;
use crate::rewards::handover;
use crate::rewards::vote;
use crate::rewards::withdrawal;
use vstd::prelude::*;

verus! {

/// The effect writes the pool `cfg` into account `account`.
pub open spec fn writes_pool(effect: EffectView, account: usize, cfg: GenesisConfig) -> bool {
    effect matches EffectView::Write { account: a, data } && a == account
        && GenesisConfig::decoded(data) == Ok::<GenesisConfig, ProgramError>(cfg)
}

/// The effect writes the position `position` into account `account`.
pub open spec fn writes_position(
    effect: EffectView,
    account: usize,
    position: GenesisPosition,
) -> bool {
    effect matches EffectView::Write { account: a, data } && a == account
        && GenesisPosition::decoded(data) == Ok::<GenesisPosition, ProgramError>(position)
}

/// The effect writes the candidate `candidate` into account `account`.
pub open spec fn writes_candidate(
    effect: EffectView,
    account: usize,
    candidate: GenesisDistribution,
) -> bool {
    effect matches EffectView::Write { account: a, data } && a == account
        && GenesisDistribution::decoded(data) == Ok::<GenesisDistribution, ProgramError>(
        candidate,
    )
}

/// A new COIN is read back as it was set up.
#[verifier::spinoff_prover]
pub proof fn a_new_coin_is_read_back(
    program_id: Pubkey,
    accounts: Seq<Account>,
    data: Seq<u8>,
    slot: u64,
    coin: CoinAddresses,
)
    requires
        coin_lifecycle::init_coin_config_outcome(program_id, accounts, data, slot, coin) is Ok,
    ensures
        ({
            let written = coin_lifecycle::init_coin_config_outcome(
                program_id,
                accounts,
                data,
                slot,
                coin,
            )->Ok_0[1];
            &&& written is Write
            &&& CoinConfig::decoded(written->Write_data) == Ok::<CoinConfig, ProgramError>(
                coin_lifecycle::new_coin(
                    accounts[1].key,
                    coin_lifecycle::optional_u64(data)->Ok_0,
                    slot,
                ),
            )
        }),
{
    coin_lifecycle::new_coin(
        accounts[1].key,
        coin_lifecycle::optional_u64(data)->Ok_0,
        slot,
    ).reads_back();
}

/// A new pool is read back as it was opened: nothing in it, and the supply that the vote decides on.
#[verifier::spinoff_prover]
pub proof fn a_new_pool_is_read_back(
    program_id: Pubkey,
    accounts: Seq<Account>,
    data: Seq<u8>,
    slot: u64,
    coin: CoinAddresses,
)
    requires
        deposits::init_genesis_bootstrap_outcome(program_id, accounts, data, slot, coin) is Ok,
    ensures
        writes_pool(
            deposits::init_genesis_bootstrap_outcome(
                program_id,
                accounts,
                data,
                slot,
                coin,
            )->Ok_0.last(),
            5,
            deposits::new_pool(
                accounts[2].key,
                accounts[4].key,
                accounts[6].key,
                bytes::u64_of(data.subrange(0, 8)),
            ),
        ),
{
    deposits::new_pool(
        accounts[2].key,
        accounts[4].key,
        accounts[6].key,
        bytes::u64_of(data.subrange(0, 8)),
    ).reads_back();
}

/// A deposit takes the amount from the depositor's token account into the vault, and the pool and the
/// position are read back as the ledger has them.
#[verifier::spinoff_prover]
pub proof fn a_deposit_is_read_back(
    program_id: Pubkey,
    accounts: Seq<Account>,
    data: Seq<u8>,
    slot: u64,
    coin: CoinAddresses,
    address: Option<Address>,
)
    requires
        deposits::genesis_deposit_outcome(program_id, accounts, data, slot, coin, address) is Ok,
    ensures
        ({
            let effects = deposits::genesis_deposit_outcome(
                program_id,
                accounts,
                data,
                slot,
                coin,
                address,
            )->Ok_0;
            let amount = bytes::u64_of(data.subrange(0, 8));
            let position = deposits::position_for(
                accounts[4],
                accounts[0].key,
                address,
                program_id,
            );
            let after = ledger::deposited(
                GenesisConfig::decoded(accounts[3].data@)->Ok_0,
                position->Ok_0,
                amount,
                slot,
            );
            &&& after is Ok
            &&& effects.len() >= 3
            &&& effects[effects.len() - 3] == effects::transfer_of(
                accounts,
                5,
                6,
                0,
                7,
                amount,
                Seq::empty(),
            )
            &&& writes_pool(effects[effects.len() - 2], 3, after->Ok_0.0)
            &&& writes_position(effects[effects.len() - 1], 4, after->Ok_0.1)
        }),
{
    let position = deposits::position_for(accounts[4], accounts[0].key, address, program_id);
    let after = ledger::deposited(
        GenesisConfig::decoded(accounts[3].data@)->Ok_0,
        position->Ok_0,
        bytes::u64_of(data.subrange(0, 8)),
        slot,
    )->Ok_0;
    after.0.round_trip(accounts[3].data@);
    if deposits::is_absent(accounts[4]) {
        after.1.reads_back();
    } else {
        after.1.round_trip(accounts[4].data@);
    }
}

/// A candidate is read back as it was registered.
#[verifier::spinoff_prover]
pub proof fn a_candidate_is_read_back(
    program_id: Pubkey,
    accounts: Seq<Account>,
    data: Seq<u8>,
    coin: CoinAddresses,
    address: Option<Address>,
)
    requires
        vote::init_genesis_distribution_outcome(program_id, accounts, data, coin, address) is Ok,
    ensures
        writes_candidate(
            vote::init_genesis_distribution_outcome(
                program_id,
                accounts,
                data,
                coin,
                address,
            )->Ok_0[1],
            4,
            vote::new_candidate(
                accounts[3].key,
                accounts[5].key,
                bytes::u64_of(data.subrange(0, 8)),
            ),
        ),
{
    vote::new_candidate(
        accounts[3].key,
        accounts[5].key,
        bytes::u64_of(data.subrange(0, 8)),
    ).reads_back();
}

/// A vote is read back as the tally has it: the pool, the position and the candidate, and nothing else
/// is written.
#[verifier::spinoff_prover]
pub proof fn a_vote_is_read_back(
    program_id: Pubkey,
    accounts: Seq<Account>,
    data: Seq<u8>,
    slot: u64,
    coin: CoinAddresses,
    address: Option<Address>,
)
    requires
        vote::vote_genesis_distribution_outcome(
            program_id,
            accounts,
            data,
            slot,
            coin,
            address,
        ) is Ok,
    ensures
        ({
            let effects = vote::vote_genesis_distribution_outcome(
                program_id,
                accounts,
                data,
                slot,
                coin,
                address,
            )->Ok_0;
            let tally = Tally {
                cfg: GenesisConfig::decoded(accounts[3].data@)->Ok_0,
                position: GenesisPosition::decoded(accounts[4].data@)->Ok_0,
                candidate: GenesisDistribution::decoded(accounts[5].data@)->Ok_0,
            };
            let after = vote::vote_result(tally, accounts[5].key, data[0], slot);
            &&& after is Ok
            &&& effects.len() == 3
            &&& writes_pool(effects[0], 3, after->Ok_0.cfg)
            &&& writes_position(effects[1], 4, after->Ok_0.position)
            &&& writes_candidate(effects[2], 5, after->Ok_0.candidate)
        }),
{
    let tally = Tally {
        cfg: GenesisConfig::decoded(accounts[3].data@)->Ok_0,
        position: GenesisPosition::decoded(accounts[4].data@)->Ok_0,
        candidate: GenesisDistribution::decoded(accounts[5].data@)->Ok_0,
    };
    let after = vote::vote_result(tally, accounts[5].key, data[0], slot)->Ok_0;
    after.cfg.round_trip(accounts[3].data@);
    after.position.round_trip(accounts[4].data@);
    after.candidate.round_trip(accounts[5].data@);
}

/// The records of an exit are read back as the ledger has them.
#[verifier::spinoff_prover]
pub proof fn an_exit_is_read_back(accounts: Seq<Account>, exit: Exit)
    requires
        exit.cfg.wf(),
        accounts[3].data@.len() >= crate::genesis::GENESIS_CFG_SIZE,
        accounts[4].data@.len() >= crate::genesis::GENESIS_POSITION_SIZE,
    ensures
        withdrawal::records(accounts, exit).len() == 2,
        writes_pool(withdrawal::records(accounts, exit)[0], 3, exit.cfg),
        writes_position(withdrawal::records(accounts, exit)[1], 4, exit.position),
{
    exit.cfg.round_trip(accounts[3].data@);
    exit.position.round_trip(accounts[4].data@);
}

/// An approval is read back as it was given.
#[verifier::spinoff_prover]
pub proof fn an_approval_is_read_back(
    program_id: Pubkey,
    accounts: Seq<Account>,
    data: Seq<u8>,
    coin: CoinAddresses,
    address: Option<Address>,
)
    requires
        handover::approve_builder_outcome(program_id, accounts, data, coin, address) is Ok,
    ensures
        ({
            let written = handover::approve_builder_outcome(
                program_id,
                accounts,
                data,
                coin,
                address,
            )->Ok_0.last();
            &&& written is Write
            &&& BuilderApproval::decoded(written->Write_data) == Ok::<
                BuilderApproval,
                ProgramError,
            >(
                BuilderApproval {
                    coin_mint: accounts[2].key,
                    builder_program: accounts[4].key,
                    code_hash: pubkey::key_of(data.subrange(0, 32)).bytes,
                    terms_hash: pubkey::key_of(data.subrange(32, 64)).bytes,
                    approved_slot: crate::system::slot_of(accounts[7])->Ok_0,
                    enabled: data[64],
                },
            )
        }),
{
    let approval = BuilderApproval {
        coin_mint: accounts[2].key,
        builder_program: accounts[4].key,
        code_hash: pubkey::key_of(data.subrange(0, 32)).bytes,
        terms_hash: pubkey::key_of(data.subrange(32, 64)).bytes,
        approved_slot: crate::system::slot_of(accounts[7])->Ok_0,
        enabled: data[64],
    };
    if deposits::is_absent(accounts[5]) {
        approval.reads_back();
    } else {
        approval.round_trip(accounts[5].data@);
    }
}

/// An approval can be given anew, or taken back. On the record that an approval left behind, another one
/// for the same code succeeds, and is read back in its place.
#[verifier::spinoff_prover]
pub proof fn an_approval_can_be_changed(
    program_id: Pubkey,
    accounts: Seq<Account>,
    data: Seq<u8>,
    coin: CoinAddresses,
    address: Option<Address>,
    later: Seq<Account>,
    later_data: Seq<u8>,
)
    requires
        handover::approve_builder_outcome(program_id, accounts, data, coin, address) is Ok,
        later.len() >= 8,
        later_data.len() == 65,
        later_data[64] <= 1,
        later_data.subrange(0, 32) == data.subrange(0, 32),
        later[2].key == accounts[2].key,
        later[4].key == accounts[4].key,
        later[5].key == accounts[5].key,
        later[5].owner == program_id,
        later[5].lamports > 0,
        later[5].data@ == handover::approve_builder_outcome(
            program_id,
            accounts,
            data,
            coin,
            address,
        )->Ok_0.last()->Write_data,
        later[6].key.bytes == pubkey::SYSTEM_PROGRAM,
        checks::genesis_governance(later[0], later[1], later[3], coin, program_id) is Ok,
        handover::builder_ok(later[4]) is Ok,
        crate::system::slot_of(later[7]) is Ok,
    ensures
        ({
            let outcome = handover::approve_builder_outcome(
                program_id,
                later,
                later_data,
                coin,
                address,
            );
            &&& outcome is Ok
            &&& outcome->Ok_0.len() == 1
            &&& outcome->Ok_0[0] is Write
            &&& BuilderApproval::decoded(outcome->Ok_0[0]->Write_data) == Ok::<
                BuilderApproval,
                ProgramError,
            >(
                BuilderApproval {
                    coin_mint: accounts[2].key,
                    builder_program: accounts[4].key,
                    code_hash: pubkey::key_of(data.subrange(0, 32)).bytes,
                    terms_hash: pubkey::key_of(later_data.subrange(32, 64)).bytes,
                    approved_slot: crate::system::slot_of(later[7])->Ok_0,
                    enabled: later_data[64],
                },
            )
        }),
{
    an_approval_is_read_back(program_id, accounts, data, coin, address);
    an_approval_is_read_back(program_id, later, later_data, coin, address);
}

/// A new authority is read back as controlled by whoever held the mint.
#[verifier::spinoff_prover]
pub proof fn a_new_authority_is_read_back(
    program_id: Pubkey,
    accounts: Seq<Account>,
    address: Option<Address>,
)
    requires
        forwarding::init_authority_outcome(program_id, accounts, address) is Ok,
        accounts[1].lamports == 0,
    ensures
        ({
            let written = forwarding::init_authority_outcome(
                program_id,
                accounts,
                address,
            )->Ok_0.last();
            &&& written is Write
            &&& AuthorityConfig::decoded(written->Write_data) == Ok::<
                AuthorityConfig,
                ProgramError,
            >(AuthorityConfig { controller: accounts[0].key })
            &&& crate::token::mint_of(accounts[3].data@)->Ok_0.mint_authority == Some(
                accounts[0].key,
            )
        }),
{
    AuthorityConfig { controller: accounts[0].key }.reads_back();
}

} // verus!
