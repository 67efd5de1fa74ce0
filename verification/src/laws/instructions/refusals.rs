//! Why an instruction is refused: its conditions in the order in which they are asked for, each with the
//! error that its failure gives.
use crate::account::Account;
use crate::addresses::{Address, CoinAddresses};
use crate::builder::BuilderApproval;
use crate::coin::CoinConfig;
use crate::error::ProgramError;
use crate::genesis::{GenesisConfig, GenesisPosition};
use crate::laws::changes;
use crate::laws::faults;
use crate::laws::instructions::coin::{a_clock, delay_in};
use crate::laws::instructions::market::{may_be_handed_on, touches_genesis};
use crate::laws::instructions::pool::missing;
use crate::laws::instructions::vote::{ballot_is_counted, candidate_in};
use crate::laws::sums;
use crate::laws::terms;
use crate::ledger;
use crate::ledger::Tally;
use crate::pubkey::{
    Pubkey, BPF_LOADER, BPF_LOADER_UPGRADEABLE, PERCOLATOR_PROGRAM, SQUADS_PROGRAM, SYSTEM_PROGRAM,
    TOKEN_PROGRAM,
};
use crate::rewards::withdrawal::MarketExit;
use crate::rewards::{coin_lifecycle, deposits, handover, market, vote, withdrawal};
use crate::token;
use vstd::prelude::*;

verus! {

/// Why the registration of a COIN is refused.
#[verifier::spinoff_prover]
pub proof fn why_a_registration_is_refused(
    program_id: Pubkey,
    accounts: Seq<Account>,
    data: Seq<u8>,
    slot: u64,
    coin: CoinAddresses,
)
    ensures
        ({
            let mint = token::mint_of(accounts[2].data@)->Ok_0;
            let f = faults::unless(
                None,
                accounts.len() >= 5,
                ProgramError::NotEnoughAccountKeys,
            );
            let f = faults::unless(
                f,
                accounts[0].is_signer,
                ProgramError::MissingRequiredSignature,
            );
            let f = faults::or_else(f, faults::authority_fault(accounts[1], coin));
            let f = faults::unless(
                f,
                (data.len() == 0 || data.len() == 8) && slot + delay_in(data) <= u64::MAX,
                ProgramError::InvalidInstructionData,
            );
            let f = faults::or_else(f, faults::mint_fault(accounts[2]));
            let f = faults::unless(
                f,
                mint.freeze_authority is None && mint.mint_authority is Some && (
                coin.mint_authority is Some && coin.mint_authority->0.key
                    == mint.mint_authority->0),
                ProgramError::InvalidAccountData,
            );
            let f = faults::or_else(f, faults::misplaced(accounts[3], coin.coin_cfg));
            faults::refused_for(
                coin_lifecycle::init_coin_config_outcome(program_id, accounts, data, slot, coin),
                f,
            )
        }),
{
    if data.len() == 8 {
        terms::lemma_word(data, 0);
    }
    faults::why_records_are_refused(accounts[1], accounts[3], accounts[0].key, None, coin, program_id);
    faults::why_tokens_are_refused(
        accounts[2],
        terms::pool_in(accounts[2]),
        accounts[0].key,
        accounts[0].key,
        coin,
    );
}

/// Why a COIN does not go live.
#[verifier::spinoff_prover]
pub proof fn why_a_coin_does_not_go_live(
    program_id: Pubkey,
    accounts: Seq<Account>,
    data: Seq<u8>,
    coin: CoinAddresses,
)
    ensures
        ({
            let cfg = terms::coin_in(accounts[3]);
            let end = cfg.bootstrap_start_slot + cfg.bootstrap_delay_slots;
            let live = cfg.phase == 1;
            let f = faults::unless(None, data.len() == 0, ProgramError::InvalidInstructionData);
            let f = faults::unless(f, accounts.len() >= 5, ProgramError::NotEnoughAccountKeys);
            let f = faults::unless(
                f,
                accounts[0].is_signer,
                ProgramError::MissingRequiredSignature,
            );
            let f = faults::or_else(f, faults::authority_fault(accounts[1], coin));
            let f = faults::unless(
                f,
                CoinConfig::decoded(accounts[3].data@) is Ok,
                ProgramError::InvalidAccountData,
            );
            let f = faults::or_else(f, faults::misplaced(accounts[3], coin.coin_cfg));
            let f = faults::unless(
                f,
                accounts[3].owner == program_id,
                ProgramError::IllegalOwner,
            );
            let f = faults::unless(
                f,
                cfg.authority == accounts[1].key,
                ProgramError::MissingRequiredSignature,
            );
            let f = faults::unless(
                f,
                live || a_clock(accounts[4]),
                ProgramError::InvalidArgument,
            );
            let f = faults::unless(f, live || end <= u64::MAX, ProgramError::InvalidAccountData);
            let f = faults::unless(
                f,
                live || terms::word(accounts[4].data@, 0) >= end,
                ProgramError::InvalidInstructionData,
            );
            faults::refused_for(
                coin_lifecycle::activate_live_outcome(program_id, accounts, data, coin),
                f,
            )
        }),
{
    if accounts[4].data@.len() >= 40 {
        terms::lemma_word(accounts[4].data@, 0);
    }
    faults::why_records_are_refused(accounts[1], accounts[3], accounts[0].key, None, coin, program_id);
}

/// Why a later mint is refused.
#[verifier::spinoff_prover]
pub proof fn why_a_later_mint_is_refused(
    program_id: Pubkey,
    accounts: Seq<Account>,
    data: Seq<u8>,
    coin: CoinAddresses,
)
    ensures
        ({
            let f = faults::unless(
                None,
                accounts.len() >= 8,
                ProgramError::NotEnoughAccountKeys,
            );
            let f = faults::unless(
                f,
                data.len() >= 8 && terms::word(data, 0) > 0,
                ProgramError::InvalidInstructionData,
            );
            let f = faults::unless(
                f,
                accounts[0].is_signer,
                ProgramError::MissingRequiredSignature,
            );
            let f = faults::unless(
                f,
                accounts[6].key.bytes == TOKEN_PROGRAM,
                ProgramError::IncorrectProgramId,
            );
            let f = faults::or_else(
                f,
                faults::governed_fault(accounts[1], accounts[3], coin, program_id),
            );
            let f = faults::unless(
                f,
                terms::live(accounts[3]),
                ProgramError::InvalidAccountData,
            );
            let f = faults::or_else(
                f,
                faults::pool_fault(accounts[7], accounts[2].key, coin, program_id),
            );
            let f = faults::unless(
                f,
                terms::pool_in(accounts[7]).finalized == 1,
                ProgramError::InvalidInstructionData,
            );
            let f = faults::or_else(f, faults::token_for_fault(accounts[4], accounts[2].key));
            let f = faults::or_else(f, faults::misplaced(accounts[5], coin.mint_authority));
            faults::refused_for(
                coin_lifecycle::mint_reward_outcome(program_id, accounts, data, coin),
                f,
            )
        }),
{
    if data.len() >= 8 {
        terms::lemma_word(data, 0);
    }
    let key = accounts[2].key;
    faults::why_records_are_refused(accounts[1], accounts[3], key, None, coin, program_id);
    faults::why_records_are_refused(accounts[7], accounts[3], key, None, coin, program_id);
    faults::why_records_are_refused(
        accounts[5],
        accounts[3],
        key,
        coin.mint_authority,
        coin,
        program_id,
    );
    faults::why_tokens_are_refused(accounts[4], terms::pool_in(accounts[7]), key, key, coin);
    terms::lemma_governed(accounts[1], accounts[3], coin, program_id);
    changes::lemma_read(accounts[7].data@);
}

/// Why the end of the mint authority is refused.
#[verifier::spinoff_prover]
pub proof fn why_the_end_of_the_mint_authority_is_refused(
    program_id: Pubkey,
    accounts: Seq<Account>,
    coin: CoinAddresses,
)
    ensures
        ({
            let f = faults::unless(
                None,
                accounts.len() >= 7,
                ProgramError::NotEnoughAccountKeys,
            );
            let f = faults::unless(
                f,
                accounts[0].is_signer,
                ProgramError::MissingRequiredSignature,
            );
            let f = faults::unless(
                f,
                accounts[6].key.bytes == TOKEN_PROGRAM,
                ProgramError::IncorrectProgramId,
            );
            let f = faults::or_else(
                f,
                faults::governed_fault(accounts[1], accounts[3], coin, program_id),
            );
            let f = faults::unless(
                f,
                terms::live(accounts[3]),
                ProgramError::InvalidAccountData,
            );
            let f = faults::or_else(f, faults::misplaced(accounts[4], coin.mint_authority));
            faults::refused_for(
                coin_lifecycle::transfer_mint_authority_outcome(program_id, accounts, coin),
                f,
            )
        }),
{
    let key = accounts[2].key;
    faults::why_records_are_refused(accounts[1], accounts[3], key, None, coin, program_id);
    faults::why_records_are_refused(
        accounts[4],
        accounts[3],
        key,
        coin.mint_authority,
        coin,
        program_id,
    );
    terms::lemma_governed(accounts[1], accounts[3], coin, program_id);
}

/// Why the opening of a pool is refused.
#[verifier::spinoff_prover]
#[verifier::rlimit(40)]
pub proof fn why_an_opening_is_refused(
    program_id: Pubkey,
    accounts: Seq<Account>,
    data: Seq<u8>,
    slot: u64,
    coin: CoinAddresses,
)
    ensures
        ({
            let cfg = terms::coin_in(accounts[3]);
            let end = cfg.bootstrap_start_slot + cfg.bootstrap_delay_slots;
            let f = faults::unless(
                None,
                accounts.len() >= 11,
                ProgramError::NotEnoughAccountKeys,
            );
            let f = faults::unless(
                f,
                (data.len() == 8 || data.len() == 16) && terms::word(data, 0) > 0,
                ProgramError::InvalidInstructionData,
            );
            let f = faults::unless(
                f,
                accounts[0].is_signer,
                ProgramError::MissingRequiredSignature,
            );
            let f = faults::unless(
                f,
                accounts[8].key.bytes == TOKEN_PROGRAM && accounts[10].key.bytes
                    == SYSTEM_PROGRAM,
                ProgramError::IncorrectProgramId,
            );
            let f = faults::or_else(
                f,
                faults::governed_fault(accounts[1], accounts[3], coin, program_id),
            );
            let f = faults::unless(
                f,
                !terms::live(accounts[3]),
                ProgramError::InvalidInstructionData,
            );
            let f = faults::unless(f, end <= u64::MAX, ProgramError::InvalidAccountData);
            let f = faults::unless(
                f,
                slot < end && (data.len() == 16 ==> 0 < terms::word(data, 8) <= end - slot),
                ProgramError::InvalidInstructionData,
            );
            let f = faults::or_else(f, faults::mint_fault(accounts[4]));
            let f = faults::or_else(f, faults::admin_fault(accounts[7], coin));
            let f = faults::or_else(f, faults::misplaced(accounts[5], coin.genesis_cfg));
            let f = faults::or_else(f, faults::misplaced(accounts[6], coin.genesis_vault));
            faults::refused_for(
                deposits::init_genesis_bootstrap_outcome(program_id, accounts, data, slot, coin),
                f,
            )
        }),
{
    if data.len() == 8 || data.len() == 16 {
        terms::lemma_word(data, 0);
    }
    if data.len() == 16 {
        terms::lemma_word(data, 8);
    }
    let key = accounts[2].key;
    faults::why_records_are_refused(accounts[1], accounts[3], key, None, coin, program_id);
    faults::why_records_are_refused(accounts[7], accounts[3], key, None, coin, program_id);
    faults::why_tokens_are_refused(accounts[4], terms::pool_in(accounts[5]), key, key, coin);
    terms::lemma_governed(accounts[1], accounts[3], coin, program_id);
}

/// Why a deposit is refused.
#[verifier::spinoff_prover]
#[verifier::rlimit(40)]
pub proof fn why_a_deposit_is_refused(
    program_id: Pubkey,
    accounts: Seq<Account>,
    data: Seq<u8>,
    slot: u64,
    coin: CoinAddresses,
    position_address: Option<Address>,
)
    ensures
        ({
            let cfg = terms::pool_in(accounts[3]);
            let amount = terms::word(data, 0);
            let new = missing(accounts[4]);
            let f = faults::unless(
                None,
                accounts.len() >= 9,
                ProgramError::NotEnoughAccountKeys,
            );
            let f = faults::unless(
                f,
                data.len() == 8 && amount > 0,
                ProgramError::InvalidInstructionData,
            );
            let f = faults::unless(
                f,
                accounts[0].is_signer,
                ProgramError::MissingRequiredSignature,
            );
            let f = faults::unless(
                f,
                accounts[7].key.bytes == TOKEN_PROGRAM,
                ProgramError::IncorrectProgramId,
            );
            let f = faults::or_else(f, faults::coin_fault(accounts[2], coin, program_id));
            let f = faults::unless(
                f,
                !terms::live(accounts[2]),
                ProgramError::InvalidInstructionData,
            );
            let f = faults::unless(
                f,
                GenesisConfig::decoded(accounts[3].data@) is Ok,
                ProgramError::InvalidAccountData,
            );
            let f = faults::unless(
                f,
                cfg.coin_mint == accounts[1].key && terms::stands(accounts[3], coin.genesis_cfg),
                ProgramError::InvalidSeeds,
            );
            let f = faults::unless(
                f,
                cfg.finalized == 0 && cfg.kicked == 0,
                ProgramError::InvalidInstructionData,
            );
            let f = faults::unless(f, coin.market_admin is Some, ProgramError::InvalidSeeds);
            let f = faults::or_else(
                f,
                faults::vault_fault(accounts[6], cfg, coin.market_admin->0.key, coin),
            );
            let f = faults::or_else(
                f,
                faults::token_by_fault(accounts[5], cfg.base_mint, accounts[0].key),
            );
            let f = faults::or_else(f, faults::misplaced(accounts[4], position_address));
            let f = faults::or_else(
                f,
                if new {
                    None
                } else {
                    faults::position_fault(
                        accounts[4],
                        accounts[0].key,
                        position_address,
                        program_id,
                    )
                },
            );
            let f = faults::unless(
                f,
                cfg.total_deposited + amount <= u64::MAX && (new || terms::position_in(
                    accounts[4],
                ).amount + amount <= u64::MAX),
                ProgramError::ArithmeticOverflow,
            );
            faults::refused_for(
                deposits::genesis_deposit_outcome(
                    program_id,
                    accounts,
                    data,
                    slot,
                    coin,
                    position_address,
                ),
                f,
            )
        }),
{
    let cfg = terms::pool_in(accounts[3]);
    if data.len() == 8 {
        terms::lemma_word(data, 0);
    }
    let key = accounts[0].key;
    faults::why_records_are_refused(accounts[2], accounts[3], key, None, coin, program_id);
    faults::why_records_are_refused(
        accounts[4],
        accounts[3],
        key,
        position_address,
        coin,
        program_id,
    );
    faults::why_tokens_are_refused(accounts[5], cfg, cfg.base_mint, key, coin);
    if coin.market_admin is Some {
        faults::why_tokens_are_refused(
            accounts[6],
            cfg,
            cfg.base_mint,
            coin.market_admin->0.key,
            coin,
        );
    }
    terms::lemma_governed(accounts[1], accounts[2], coin, program_id);
    terms::lemma_position(accounts[4], key, position_address, program_id);
    changes::lemma_read(accounts[3].data@);
}

/// Why a proposal is refused.
#[verifier::spinoff_prover]
pub proof fn why_a_proposal_is_refused(
    program_id: Pubkey,
    accounts: Seq<Account>,
    data: Seq<u8>,
    coin: CoinAddresses,
    candidate_address: Option<Address>,
)
    ensures
        ({
            let f = faults::unless(
                None,
                accounts.len() >= 7,
                ProgramError::NotEnoughAccountKeys,
            );
            let f = faults::unless(f, data.len() == 8, ProgramError::InvalidInstructionData);
            let f = faults::unless(
                f,
                accounts[0].is_signer,
                ProgramError::MissingRequiredSignature,
            );
            let f = faults::unless(
                f,
                accounts[6].key.bytes == SYSTEM_PROGRAM,
                ProgramError::IncorrectProgramId,
            );
            let f = faults::or_else(f, faults::coin_fault(accounts[2], coin, program_id));
            let f = faults::unless(
                f,
                terms::live(accounts[2]),
                ProgramError::InvalidAccountData,
            );
            let f = faults::or_else(
                f,
                faults::pool_fault(accounts[3], accounts[1].key, coin, program_id),
            );
            let f = faults::unless(
                f,
                terms::pool_in(accounts[3]).finalized == 0,
                ProgramError::InvalidInstructionData,
            );
            let f = faults::or_else(f, faults::token_for_fault(accounts[5], accounts[1].key));
            let f = faults::or_else(f, faults::misplaced(accounts[4], candidate_address));
            faults::refused_for(
                vote::init_genesis_distribution_outcome(
                    program_id,
                    accounts,
                    data,
                    coin,
                    candidate_address,
                ),
                f,
            )
        }),
{
    let key = accounts[1].key;
    faults::why_records_are_refused(accounts[2], accounts[3], key, None, coin, program_id);
    faults::why_records_are_refused(accounts[3], accounts[3], key, None, coin, program_id);
    faults::why_records_are_refused(
        accounts[4],
        accounts[3],
        key,
        candidate_address,
        coin,
        program_id,
    );
    faults::why_tokens_are_refused(accounts[5], terms::pool_in(accounts[3]), key, key, coin);
    terms::lemma_governed(accounts[1], accounts[2], coin, program_id);
    changes::lemma_read(accounts[3].data@);
}

/// Why a vote is refused. To back takes weight before it takes a candidate, and then a candidate that was
/// not executed; a ballot for another candidate, or none to retract, is a wrong instruction; totals that
/// do not hold the old ballot are wrong data, and totals without room for the new one overflow.
#[verifier::spinoff_prover]
#[verifier::rlimit(40)]
pub proof fn why_a_vote_is_refused(
    program_id: Pubkey,
    accounts: Seq<Account>,
    data: Seq<u8>,
    slot: u64,
    coin: CoinAddresses,
    position_address: Option<Address>,
)
    ensures
        ({
            let (cfg, p, c) = (
                terms::pool_in(accounts[3]),
                terms::position_in(accounts[4]),
                candidate_in(accounts[5]),
            );
            let backs = data[0] == 1;
            let weight = ledger::ballot_weight(p, slot);
            let f = faults::unless(
                None,
                accounts.len() >= 6,
                ProgramError::NotEnoughAccountKeys,
            );
            let f = faults::unless(
                f,
                data.len() == 1 && (data[0] == 1 || data[0] == 2),
                ProgramError::InvalidInstructionData,
            );
            let f = faults::unless(
                f,
                accounts[0].is_signer,
                ProgramError::MissingRequiredSignature,
            );
            let f = faults::or_else(f, faults::coin_fault(accounts[2], coin, program_id));
            let f = faults::unless(
                f,
                terms::live(accounts[2]),
                ProgramError::InvalidAccountData,
            );
            let f = faults::or_else(
                f,
                faults::pool_fault(accounts[3], accounts[1].key, coin, program_id),
            );
            let f = faults::unless(
                f,
                cfg.finalized == 0,
                ProgramError::InvalidInstructionData,
            );
            let f = faults::unless(
                f,
                terms::stands(accounts[4], position_address) && accounts[4].owner == program_id,
                ProgramError::InvalidSeeds,
            );
            let f = faults::unless(
                f,
                GenesisPosition::decoded(accounts[4].data@) is Ok && p.owner == accounts[0].key,
                ProgramError::InvalidAccountData,
            );
            let f = faults::unless(f, backs ==> weight > 0, ProgramError::InvalidAccountData);
            let f = faults::or_else(
                f,
                faults::candidate_fault(accounts[5], accounts[3].key, program_id),
            );
            let f = faults::unless(
                f,
                backs ==> c.executed == 0,
                ProgramError::InvalidAccountData,
            );
            let f = faults::unless(
                f,
                if backs {
                    p.voted_weight == 0 || p.voted_proposal == accounts[5].key
                } else {
                    p.voted_weight > 0 && p.voted_proposal == accounts[5].key
                },
                ProgramError::InvalidInstructionData,
            );
            let f = faults::unless(
                f,
                ballot_is_counted(cfg, p, c),
                ProgramError::InvalidAccountData,
            );
            let f = faults::unless(
                f,
                backs ==> c.support_weight - p.voted_weight + weight <= u64::MAX
                    && cfg.total_cast_weight - p.voted_weight + weight <= u64::MAX
                    && c.support_principal - p.voted_principal + terms::claim(p) <= u64::MAX
                    && cfg.total_voted_principal - p.voted_principal + terms::claim(p)
                    <= u64::MAX,
                ProgramError::ArithmeticOverflow,
            );
            faults::refused_for(
                vote::vote_genesis_distribution_outcome(
                    program_id,
                    accounts,
                    data,
                    slot,
                    coin,
                    position_address,
                ),
                f,
            )
        }),
{
    let (cfg, p, c) = (
        terms::pool_in(accounts[3]),
        terms::position_in(accounts[4]),
        candidate_in(accounts[5]),
    );
    let key = accounts[1].key;
    faults::why_records_are_refused(accounts[2], accounts[3], key, None, coin, program_id);
    faults::why_records_are_refused(accounts[3], accounts[3], key, None, coin, program_id);
    faults::why_records_are_refused(
        accounts[5],
        accounts[3],
        accounts[3].key,
        None,
        coin,
        program_id,
    );
    terms::lemma_governed(accounts[1], accounts[2], coin, program_id);
    changes::lemma_read(accounts[3].data@);
    changes::lemma_read(accounts[5].data@);
    let tally = Tally { cfg, position: p, candidate: c };
    sums::a_ballot_is_counted(tally, accounts[5].key, ledger::ballot_weight(p, slot));
    sums::a_retraction_is_counted(tally, accounts[5].key);
}

/// Why the mint of the supply is refused.
#[verifier::spinoff_prover]
#[verifier::rlimit(40)]
pub proof fn why_the_mint_of_the_supply_is_refused(
    program_id: Pubkey,
    accounts: Seq<Account>,
    data: Seq<u8>,
    coin: CoinAddresses,
)
    ensures
        ({
            let cfg = terms::pool_in(accounts[1]);
            let c = candidate_in(accounts[6]);
            let f = faults::unless(None, data.len() == 0, ProgramError::InvalidInstructionData);
            let f = faults::unless(f, accounts.len() >= 8, ProgramError::NotEnoughAccountKeys);
            let f = faults::unless(
                f,
                accounts[7].key.bytes == TOKEN_PROGRAM,
                ProgramError::IncorrectProgramId,
            );
            let f = faults::unless(
                f,
                accounts[0].is_signer,
                ProgramError::MissingRequiredSignature,
            );
            let f = faults::or_else(f, faults::coin_fault(accounts[3], coin, program_id));
            let f = faults::unless(
                f,
                terms::live(accounts[3]),
                ProgramError::InvalidAccountData,
            );
            let f = faults::or_else(f, faults::token_for_fault(accounts[4], accounts[2].key));
            let f = faults::or_else(
                f,
                faults::pool_fault(accounts[1], accounts[2].key, coin, program_id),
            );
            let f = faults::unless(
                f,
                cfg.finalized == 0 && cfg.kicked == 1 && cfg.minted_supply == 0,
                ProgramError::InvalidInstructionData,
            );
            let f = faults::or_else(
                f,
                faults::candidate_fault(accounts[6], accounts[1].key, program_id),
            );
            let f = faults::unless(
                f,
                c.destination == accounts[4].key && c.executed == 0,
                ProgramError::InvalidAccountData,
            );
            let f = faults::unless(
                f,
                2 * c.support_weight > cfg.total_cast_weight && 2 * cfg.total_voted_principal
                    > terms::outstanding(cfg),
                ProgramError::InvalidInstructionData,
            );
            let f = faults::or_else(f, faults::misplaced(accounts[5], coin.mint_authority));
            faults::refused_for(
                vote::trigger_genesis_distribution_outcome(program_id, accounts, data, coin),
                f,
            )
        }),
{
    let key = accounts[2].key;
    faults::why_records_are_refused(accounts[3], accounts[3], key, None, coin, program_id);
    faults::why_records_are_refused(accounts[1], accounts[3], key, None, coin, program_id);
    faults::why_records_are_refused(
        accounts[6],
        accounts[3],
        accounts[1].key,
        None,
        coin,
        program_id,
    );
    faults::why_records_are_refused(
        accounts[5],
        accounts[3],
        key,
        coin.mint_authority,
        coin,
        program_id,
    );
    faults::why_tokens_are_refused(accounts[4], terms::pool_in(accounts[1]), key, key, coin);
    terms::lemma_governed(accounts[1], accounts[3], coin, program_id);
    changes::lemma_read(accounts[1].data@);
    changes::lemma_read(accounts[6].data@);
    sums::more_than_half_decides(terms::pool_in(accounts[1]), candidate_in(accounts[6]));
}

/// Why an exit is refused.
#[verifier::spinoff_prover]
#[verifier::rlimit(60)]
pub proof fn why_an_exit_is_refused(
    program_id: Pubkey,
    accounts: Seq<Account>,
    data: Seq<u8>,
    coin: CoinAddresses,
    position_address: Option<Address>,
    percolator_vault: Option<Address>,
)
    ensures
        ({
            let cfg = terms::pool_in(accounts[3]);
            let p = terms::position_in(accounts[4]);
            let claim = terms::claim(p);
            let (insurance, backing) = (terms::word(data, 1), terms::word(data, 9));
            let pulls = cfg.finalized == 0 && cfg.kicked == 1;
            let settles = cfg.finalized == 1 && claim > 0;
            let f = faults::unless(
                None,
                accounts.len() >= 9,
                ProgramError::NotEnoughAccountKeys,
            );
            let f = faults::unless(f, data.len() == 17, ProgramError::InvalidInstructionData);
            let f = faults::unless(
                f,
                accounts[0].is_signer,
                ProgramError::MissingRequiredSignature,
            );
            let f = faults::unless(
                f,
                accounts[8].key.bytes == TOKEN_PROGRAM,
                ProgramError::IncorrectProgramId,
            );
            let f = faults::or_else(f, faults::misplaced(accounts[7], coin.market_admin));
            let f = faults::or_else(f, faults::coin_fault(accounts[2], coin, program_id));
            let f = faults::or_else(
                f,
                faults::pool_fault(accounts[3], accounts[1].key, coin, program_id),
            );
            let f = faults::or_else(
                f,
                faults::vault_fault(accounts[6], cfg, accounts[7].key, coin),
            );
            let f = faults::or_else(
                f,
                faults::token_by_fault(accounts[5], cfg.base_mint, accounts[0].key),
            );
            let f = faults::or_else(
                f,
                faults::position_fault(
                    accounts[4],
                    accounts[0].key,
                    position_address,
                    program_id,
                ),
            );
            let f = faults::unless(
                f,
                cfg.finalized == 1 || p.voted_weight == 0,
                ProgramError::InvalidInstructionData,
            );
            let f = faults::unless(
                f,
                pulls || (insurance == 0 && backing == 0 && accounts.len() == 9),
                ProgramError::InvalidInstructionData,
            );
            let f = faults::unless(
                f,
                pulls ==> insurance + backing <= u64::MAX,
                ProgramError::ArithmeticOverflow,
            );
            let f = faults::unless(
                f,
                pulls ==> 1 <= insurance + backing <= claim,
                ProgramError::InvalidInstructionData,
            );
            let f = faults::unless(
                f,
                pulls ==> accounts.len() >= 13,
                ProgramError::NotEnoughAccountKeys,
            );
            let f = faults::unless(
                f,
                pulls ==> accounts.len() == 13,
                ProgramError::InvalidInstructionData,
            );
            let f = faults::unless(
                f,
                pulls ==> accounts[12].key.bytes == PERCOLATOR_PROGRAM,
                ProgramError::IncorrectProgramId,
            );
            let f = faults::or_else(
                f,
                if pulls {
                    faults::or_else(
                        faults::market_fault(accounts[9], cfg.base_mint, accounts[7].key),
                        faults::market_vault_fault(
                            accounts[10],
                            accounts[11],
                            cfg.base_mint,
                            percolator_vault,
                        ),
                    )
                } else {
                    None
                },
            );
            let f = faults::unless(
                f,
                settles ==> terms::outstanding(cfg) > 0,
                ProgramError::InvalidAccountData,
            );
            let f = faults::unless(
                f,
                settles ==> cfg.total_withdrawn + claim <= u64::MAX,
                ProgramError::ArithmeticOverflow,
            );
            faults::refused_for(
                withdrawal::genesis_withdraw_outcome(
                    program_id,
                    accounts,
                    data,
                    coin,
                    position_address,
                    percolator_vault,
                ),
                f,
            )
        }),
{
    let cfg = terms::pool_in(accounts[3]);
    let p = terms::position_in(accounts[4]);
    if data.len() == 17 {
        terms::lemma_word(data, 1);
        terms::lemma_word(data, 9);
    }
    let key = accounts[1].key;
    faults::why_records_are_refused(
        accounts[7],
        accounts[3],
        key,
        coin.market_admin,
        coin,
        program_id,
    );
    faults::why_records_are_refused(accounts[2], accounts[3], key, None, coin, program_id);
    faults::why_records_are_refused(accounts[3], accounts[3], key, None, coin, program_id);
    faults::why_records_are_refused(
        accounts[4],
        accounts[3],
        accounts[0].key,
        position_address,
        coin,
        program_id,
    );
    faults::why_tokens_are_refused(accounts[6], cfg, cfg.base_mint, accounts[7].key, coin);
    faults::why_tokens_are_refused(accounts[5], cfg, cfg.base_mint, accounts[0].key, coin);
    faults::why_markets_are_refused(
        accounts[9],
        accounts[10],
        accounts[11],
        cfg.base_mint,
        accounts[7].key,
        percolator_vault,
    );
    terms::lemma_pool(accounts[3], accounts[1], accounts[6], accounts[7].key, coin, program_id);
    terms::lemma_position(accounts[4], accounts[0].key, position_address, program_id);
    changes::lemma_read(accounts[3].data@);
}

/// Why the second step of an exit out of the market is refused.
#[verifier::spinoff_prover]
pub proof fn why_a_second_step_is_refused(accounts: Seq<Account>, exit: MarketExit)
    ensures
        ({
            let gain = if terms::balance(accounts[6]) >= exit.vault_before {
                terms::balance(accounts[6]) - exit.vault_before
            } else {
                0
            };
            let paid = sums::least(gain, terms::claim(exit.position));
            let f = faults::unless(
                None,
                accounts.len() >= 9,
                ProgramError::NotEnoughAccountKeys,
            );
            let f = faults::unless(
                f,
                accounts[8].key.bytes == TOKEN_PROGRAM,
                ProgramError::IncorrectProgramId,
            );
            let f = faults::or_else(f, faults::token_fault(accounts[6], true));
            let f = faults::unless(
                f,
                accounts[3].data@.len() >= 192 && accounts[4].data@.len() >= 112,
                ProgramError::InvalidAccountData,
            );
            let f = faults::unless(
                f,
                exit.cfg.total_withdrawn + paid <= u64::MAX,
                ProgramError::ArithmeticOverflow,
            );
            faults::refused_for(withdrawal::market_exit_outcome(accounts, exit), f)
        }),
{
}

/// Why a new market is refused.
#[verifier::spinoff_prover]
pub proof fn why_a_new_market_is_refused(
    program_id: Pubkey,
    accounts: Seq<Account>,
    data: Seq<u8>,
    coin: CoinAddresses,
)
    ensures
        ({
            let f = faults::unless(
                None,
                data.len() > 0 && data[0] == 0,
                ProgramError::InvalidInstructionData,
            );
            let f = faults::unless(f, accounts.len() >= 8, ProgramError::NotEnoughAccountKeys);
            let f = faults::unless(
                f,
                accounts[0].is_signer,
                ProgramError::MissingRequiredSignature,
            );
            let f = faults::unless(
                f,
                accounts[7].key.bytes == SYSTEM_PROGRAM && accounts[6].key.bytes
                    == PERCOLATOR_PROGRAM,
                ProgramError::IncorrectProgramId,
            );
            let f = faults::or_else(f, faults::coin_fault(accounts[2], coin, program_id));
            let f = faults::or_else(f, faults::admin_fault(accounts[3], coin));
            let f = faults::unless(
                f,
                accounts[4].owner.bytes == PERCOLATOR_PROGRAM,
                ProgramError::IllegalOwner,
            );
            let f = faults::or_else(f, faults::mint_fault(accounts[5]));
            faults::refused_for(
                market::init_percolator_market_outcome(program_id, accounts, data, coin),
                f,
            )
        }),
{
    let key = accounts[1].key;
    faults::why_records_are_refused(accounts[2], accounts[3], key, None, coin, program_id);
    faults::why_records_are_refused(accounts[3], accounts[3], key, None, coin, program_id);
    faults::why_tokens_are_refused(accounts[5], terms::pool_in(accounts[4]), key, key, coin);
}

/// Why governance of a market is refused.
#[verifier::spinoff_prover]
#[verifier::rlimit(40)]
pub proof fn why_governance_of_a_market_is_refused(
    program_id: Pubkey,
    accounts: Seq<Account>,
    data: Seq<u8>,
    coin: CoinAddresses,
)
    ensures
        ({
            let has_pool = accounts[6].owner == program_id;
            let f = faults::unless(
                None,
                data.len() > 0 && may_be_handed_on(data[0]),
                ProgramError::InvalidInstructionData,
            );
            let f = faults::unless(f, accounts.len() >= 7, ProgramError::NotEnoughAccountKeys);
            let f = faults::unless(
                f,
                accounts[0].is_signer,
                ProgramError::MissingRequiredSignature,
            );
            let f = faults::unless(
                f,
                accounts[5].key.bytes == PERCOLATOR_PROGRAM,
                ProgramError::IncorrectProgramId,
            );
            let f = faults::or_else(
                f,
                faults::governed_fault(accounts[1], accounts[3], coin, program_id),
            );
            let f = faults::unless(
                f,
                terms::live(accounts[3]),
                ProgramError::InvalidAccountData,
            );
            let f = faults::or_else(f, faults::misplaced(accounts[4], coin.market_admin));
            let f = faults::or_else(f, faults::misplaced(accounts[6], coin.genesis_cfg));
            let f = faults::or_else(
                f,
                if has_pool {
                    faults::pool_fault(accounts[6], accounts[2].key, coin, program_id)
                } else {
                    None
                },
            );
            let f = faults::unless(
                f,
                has_pool && (data[0] == 13 || data[0] == 19 || data[0] == 33)
                    ==> !touches_genesis(accounts),
                ProgramError::InvalidInstructionData,
            );
            faults::refused_for(
                market::percolator_admin_outcome(program_id, accounts, data, coin),
                f,
            )
        }),
{
    let key = accounts[2].key;
    faults::why_records_are_refused(accounts[1], accounts[3], key, None, coin, program_id);
    faults::why_records_are_refused(accounts[6], accounts[3], key, None, coin, program_id);
    faults::why_records_are_refused(
        accounts[4],
        accounts[3],
        key,
        coin.market_admin,
        coin,
        program_id,
    );
    terms::lemma_governed(accounts[1], accounts[3], coin, program_id);
    terms::lemma_pool(accounts[6], accounts[2], accounts[4], accounts[0].key, coin, program_id);
    changes::lemma_read(accounts[6].data@);
    assert(market::mentions(accounts, 7, terms::pool_in(accounts[6]).genesis_market_slab) <==> exists|
        i: int,
    |
        7 <= i < accounts.len() && (#[trigger] accounts[i]).key == terms::pool_in(
            accounts[6],
        ).genesis_market_slab);
}

/// Why the deployment of the pool is refused.
#[verifier::spinoff_prover]
#[verifier::rlimit(40)]
pub proof fn why_a_deployment_is_refused(
    program_id: Pubkey,
    accounts: Seq<Account>,
    data: Seq<u8>,
    coin: CoinAddresses,
    percolator_vault: Option<Address>,
)
    ensures
        ({
            let cfg = terms::pool_in(accounts[4]);
            let f = faults::unless(
                None,
                accounts.len() >= 12,
                ProgramError::NotEnoughAccountKeys,
            );
            let f = faults::unless(f, data.len() == 9, ProgramError::InvalidInstructionData);
            let f = faults::unless(
                f,
                accounts[0].is_signer,
                ProgramError::MissingRequiredSignature,
            );
            let f = faults::unless(
                f,
                accounts[11].key.bytes == TOKEN_PROGRAM && accounts[10].key.bytes
                    == PERCOLATOR_PROGRAM,
                ProgramError::IncorrectProgramId,
            );
            let f = faults::or_else(
                f,
                faults::governed_fault(accounts[1], accounts[3], coin, program_id),
            );
            let f = faults::or_else(f, faults::misplaced(accounts[5], coin.market_admin));
            let f = faults::or_else(
                f,
                faults::pool_fault(accounts[4], accounts[2].key, coin, program_id),
            );
            let f = faults::unless(
                f,
                cfg.finalized == 0 && cfg.kicked == 0 && cfg.total_deposited > 0,
                ProgramError::InvalidInstructionData,
            );
            let f = faults::or_else(
                f,
                faults::vault_fault(accounts[7], cfg, accounts[5].key, coin),
            );
            let f = faults::or_else(
                f,
                faults::market_fault(accounts[6], cfg.base_mint, accounts[5].key),
            );
            let f = faults::or_else(
                f,
                faults::market_vault_fault(
                    accounts[8],
                    accounts[9],
                    cfg.base_mint,
                    percolator_vault,
                ),
            );
            let f = faults::unless(
                f,
                terms::balance(accounts[7]) >= cfg.total_deposited,
                ProgramError::InsufficientFunds,
            );
            faults::refused_for(
                market::kickstart_genesis_market_outcome(
                    program_id,
                    accounts,
                    data,
                    coin,
                    percolator_vault,
                ),
                f,
            )
        }),
{
    let cfg = terms::pool_in(accounts[4]);
    let key = accounts[2].key;
    faults::why_records_are_refused(accounts[1], accounts[3], key, None, coin, program_id);
    faults::why_records_are_refused(accounts[4], accounts[3], key, None, coin, program_id);
    faults::why_records_are_refused(
        accounts[5],
        accounts[3],
        key,
        coin.market_admin,
        coin,
        program_id,
    );
    faults::why_tokens_are_refused(accounts[7], cfg, cfg.base_mint, accounts[5].key, coin);
    faults::why_markets_are_refused(
        accounts[6],
        accounts[8],
        accounts[9],
        cfg.base_mint,
        accounts[5].key,
        percolator_vault,
    );
    terms::lemma_pool(accounts[4], accounts[2], accounts[7], accounts[5].key, coin, program_id);
    changes::lemma_read(accounts[4].data@);
}

/// Why a recovery is refused.
#[verifier::spinoff_prover]
#[verifier::rlimit(40)]
pub proof fn why_a_recovery_is_refused(
    program_id: Pubkey,
    accounts: Seq<Account>,
    data: Seq<u8>,
    coin: CoinAddresses,
    percolator_vault: Option<Address>,
)
    ensures
        ({
            let cfg = terms::pool_in(accounts[4]);
            let earnings = data[0] == 2;
            let f = faults::unless(
                None,
                accounts.len() >= 12,
                ProgramError::NotEnoughAccountKeys,
            );
            let f = faults::unless(f, data.len() == 10, ProgramError::InvalidInstructionData);
            let f = faults::unless(
                f,
                accounts[11].key.bytes == TOKEN_PROGRAM && accounts[10].key.bytes
                    == PERCOLATOR_PROGRAM,
                ProgramError::IncorrectProgramId,
            );
            let f = faults::or_else(
                f,
                faults::live_governed_fault(
                    accounts[0],
                    accounts[1],
                    accounts[3],
                    coin,
                    program_id,
                ),
            );
            let f = faults::or_else(f, faults::misplaced(accounts[5], coin.market_admin));
            let f = faults::or_else(
                f,
                faults::pool_fault(accounts[4], accounts[2].key, coin, program_id),
            );
            let f = faults::unless(
                f,
                cfg.kicked == 1 && cfg.finalized == 0,
                ProgramError::InvalidInstructionData,
            );
            let f = faults::or_else(
                f,
                faults::vault_fault(accounts[7], cfg, accounts[5].key, coin),
            );
            let f = faults::or_else(
                f,
                faults::market_fault(accounts[6], cfg.base_mint, accounts[5].key),
            );
            let f = faults::or_else(
                f,
                faults::market_vault_fault(
                    accounts[8],
                    accounts[9],
                    cfg.base_mint,
                    percolator_vault,
                ),
            );
            let f = faults::unless(
                f,
                terms::word(data, 2) > 0 && data[0] <= 4,
                ProgramError::InvalidInstructionData,
            );
            let f = faults::unless(
                f,
                earnings ==> accounts.len() >= 13,
                ProgramError::NotEnoughAccountKeys,
            );
            let f = faults::unless(
                f,
                accounts.len() <= if earnings {
                    13int
                } else {
                    12int
                },
                ProgramError::InvalidInstructionData,
            );
            let f = faults::unless(
                f,
                earnings ==> accounts[12].owner.bytes == PERCOLATOR_PROGRAM,
                ProgramError::IllegalOwner,
            );
            faults::refused_for(
                market::recover_genesis_market_outcome(
                    program_id,
                    accounts,
                    data,
                    coin,
                    percolator_vault,
                ),
                f,
            )
        }),
{
    let cfg = terms::pool_in(accounts[4]);
    let key = accounts[2].key;
    if data.len() == 10 {
        terms::lemma_word(data, 2);
    }
    faults::why_governance_is_refused(accounts[0], accounts[1], accounts[3], coin, program_id);
    faults::why_records_are_refused(accounts[4], accounts[3], key, None, coin, program_id);
    faults::why_records_are_refused(
        accounts[5],
        accounts[3],
        key,
        coin.market_admin,
        coin,
        program_id,
    );
    faults::why_tokens_are_refused(accounts[7], cfg, cfg.base_mint, accounts[5].key, coin);
    faults::why_markets_are_refused(
        accounts[6],
        accounts[8],
        accounts[9],
        cfg.base_mint,
        accounts[5].key,
        percolator_vault,
    );
    terms::lemma_pool(accounts[4], accounts[2], accounts[7], accounts[5].key, coin, program_id);
    changes::lemma_read(accounts[4].data@);
}

/// Why finalization is refused.
#[verifier::spinoff_prover]
pub proof fn why_finalization_is_refused(
    program_id: Pubkey,
    accounts: Seq<Account>,
    data: Seq<u8>,
    coin: CoinAddresses,
)
    ensures
        ({
            let cfg = terms::pool_in(accounts[2]);
            let f = faults::unless(None, data.len() == 0, ProgramError::InvalidInstructionData);
            let f = faults::unless(f, accounts.len() >= 5, ProgramError::NotEnoughAccountKeys);
            let f = faults::or_else(
                f,
                faults::live_governed_fault(
                    accounts[0],
                    accounts[1],
                    accounts[4],
                    coin,
                    program_id,
                ),
            );
            let f = faults::or_else(
                f,
                faults::pool_fault(accounts[2], accounts[3].key, coin, program_id),
            );
            let f = faults::unless(
                f,
                cfg.kicked == 1 && cfg.minted_supply == cfg.reward_supply,
                ProgramError::InvalidInstructionData,
            );
            faults::refused_for(
                handover::finalize_genesis_outcome(program_id, accounts, data, coin),
                f,
            )
        }),
{
    faults::why_governance_is_refused(accounts[0], accounts[1], accounts[4], coin, program_id);
    faults::why_records_are_refused(
        accounts[2],
        accounts[3],
        accounts[3].key,
        None,
        coin,
        program_id,
    );
    terms::lemma_pool(accounts[2], accounts[3], accounts[4], accounts[0].key, coin, program_id);
    changes::lemma_read(accounts[2].data@);
}

/// Why a draw on the surplus is refused.
#[verifier::spinoff_prover]
pub proof fn why_a_draw_is_refused(
    program_id: Pubkey,
    accounts: Seq<Account>,
    data: Seq<u8>,
    coin: CoinAddresses,
)
    ensures
        ({
            let cfg = terms::pool_in(accounts[2]);
            let f = faults::unless(
                None,
                accounts.len() >= 9,
                ProgramError::NotEnoughAccountKeys,
            );
            let f = faults::unless(
                f,
                data.len() == 8 && terms::word(data, 0) > 0,
                ProgramError::InvalidInstructionData,
            );
            let f = faults::unless(
                f,
                accounts[8].key.bytes == TOKEN_PROGRAM,
                ProgramError::IncorrectProgramId,
            );
            let f = faults::or_else(
                f,
                faults::live_governed_fault(
                    accounts[0],
                    accounts[1],
                    accounts[4],
                    coin,
                    program_id,
                ),
            );
            let f = faults::or_else(
                f,
                faults::pool_fault(accounts[2], accounts[3].key, coin, program_id),
            );
            let f = faults::unless(f, cfg.finalized == 1, ProgramError::InvalidInstructionData);
            let f = faults::or_else(f, faults::misplaced(accounts[7], coin.market_admin));
            let f = faults::or_else(
                f,
                faults::vault_fault(accounts[6], cfg, accounts[7].key, coin),
            );
            let f = faults::or_else(f, faults::token_for_fault(accounts[5], cfg.base_mint));
            let f = faults::unless(
                f,
                terms::outstanding(cfg) + terms::word(data, 0) <= terms::balance(accounts[6]),
                ProgramError::InsufficientFunds,
            );
            faults::refused_for(
                handover::draw_genesis_surplus_outcome(program_id, accounts, data, coin),
                f,
            )
        }),
{
    let cfg = terms::pool_in(accounts[2]);
    if data.len() == 8 {
        terms::lemma_word(data, 0);
    }
    faults::why_governance_is_refused(accounts[0], accounts[1], accounts[4], coin, program_id);
    faults::why_records_are_refused(
        accounts[2],
        accounts[3],
        accounts[3].key,
        None,
        coin,
        program_id,
    );
    faults::why_records_are_refused(
        accounts[7],
        accounts[3],
        accounts[3].key,
        coin.market_admin,
        coin,
        program_id,
    );
    faults::why_tokens_are_refused(accounts[6], cfg, cfg.base_mint, accounts[7].key, coin);
    faults::why_tokens_are_refused(accounts[5], cfg, cfg.base_mint, accounts[7].key, coin);
    terms::lemma_pool(accounts[2], accounts[3], accounts[6], accounts[7].key, coin, program_id);
    changes::lemma_read(accounts[2].data@);
}

/// Why the creation of the multisig is refused.
#[verifier::spinoff_prover]
pub proof fn why_the_multisig_is_refused(
    program_id: Pubkey,
    accounts: Seq<Account>,
    data: Seq<u8>,
    coin: CoinAddresses,
)
    ensures
        ({
            let f = faults::unless(None, data.len() == 0, ProgramError::InvalidInstructionData);
            let f = faults::unless(f, accounts.len() >= 11, ProgramError::NotEnoughAccountKeys);
            let f = faults::unless(
                f,
                accounts[0].is_signer,
                ProgramError::MissingRequiredSignature,
            );
            let f = faults::unless(
                f,
                accounts[10].key.bytes == SYSTEM_PROGRAM && accounts[6].key.bytes
                    == SQUADS_PROGRAM,
                ProgramError::IncorrectProgramId,
            );
            let f = faults::or_else(
                f,
                faults::governed_fault(accounts[1], accounts[3], coin, program_id),
            );
            let f = faults::or_else(f, faults::misplaced(accounts[4], coin.market_admin));
            let f = faults::or_else(f, faults::misplaced(accounts[5], coin.create_key));
            let f = faults::or_else(f, faults::misplaced(accounts[9], coin.multisig));
            faults::refused_for(
                handover::init_genesis_squads_outcome(program_id, accounts, data, coin),
                f,
            )
        }),
{
    faults::why_records_are_refused(
        accounts[1],
        accounts[3],
        accounts[2].key,
        None,
        coin,
        program_id,
    );
}

/// Why the handover of the multisig is refused.
#[verifier::spinoff_prover]
pub proof fn why_the_handover_is_refused(
    program_id: Pubkey,
    accounts: Seq<Account>,
    data: Seq<u8>,
    coin: CoinAddresses,
)
    ensures
        ({
            let f = faults::unless(None, data.len() == 0, ProgramError::InvalidInstructionData);
            let f = faults::unless(f, accounts.len() >= 9, ProgramError::NotEnoughAccountKeys);
            let f = faults::unless(
                f,
                accounts[0].is_signer,
                ProgramError::MissingRequiredSignature,
            );
            let f = faults::unless(
                f,
                accounts[6].key.bytes == SQUADS_PROGRAM,
                ProgramError::IncorrectProgramId,
            );
            let f = faults::or_else(
                f,
                faults::governed_fault(accounts[1], accounts[3], coin, program_id),
            );
            let f = faults::or_else(
                f,
                faults::pool_fault(accounts[4], accounts[2].key, coin, program_id),
            );
            let f = faults::unless(
                f,
                terms::pool_in(accounts[4]).finalized == 1,
                ProgramError::InvalidInstructionData,
            );
            let f = faults::or_else(f, faults::misplaced(accounts[5], coin.market_admin));
            let f = faults::or_else(f, faults::misplaced(accounts[7], coin.multisig));
            let f = faults::unless(
                f,
                accounts[8].key.bytes != SYSTEM_PROGRAM && accounts[8].key != accounts[5].key,
                ProgramError::InvalidArgument,
            );
            faults::refused_for(
                handover::handover_genesis_squads_outcome(program_id, accounts, data, coin),
                f,
            )
        }),
{
    let key = accounts[2].key;
    faults::why_records_are_refused(accounts[1], accounts[3], key, None, coin, program_id);
    faults::why_records_are_refused(accounts[4], accounts[3], key, None, coin, program_id);
    faults::why_records_are_refused(
        accounts[5],
        accounts[3],
        key,
        coin.market_admin,
        coin,
        program_id,
    );
    terms::lemma_pool(accounts[4], accounts[2], accounts[7], accounts[0].key, coin, program_id);
    changes::lemma_read(accounts[4].data@);
}

/// Why an approval is refused.
#[verifier::spinoff_prover]
#[verifier::rlimit(40)]
pub proof fn why_an_approval_is_refused(
    program_id: Pubkey,
    accounts: Seq<Account>,
    data: Seq<u8>,
    coin: CoinAddresses,
    approval_address: Option<Address>,
)
    ensures
        ({
            let existing = BuilderApproval::decoded(accounts[5].data@);
            let new = missing(accounts[5]);
            let owner = accounts[4].owner.bytes;
            let f = faults::unless(
                None,
                accounts.len() >= 8,
                ProgramError::NotEnoughAccountKeys,
            );
            let f = faults::unless(
                f,
                data.len() == 65 && data[64] <= 1,
                ProgramError::InvalidInstructionData,
            );
            let f = faults::unless(
                f,
                accounts[6].key.bytes == SYSTEM_PROGRAM,
                ProgramError::IncorrectProgramId,
            );
            let f = faults::or_else(
                f,
                faults::live_governed_fault(
                    accounts[0],
                    accounts[1],
                    accounts[3],
                    coin,
                    program_id,
                ),
            );
            let f = faults::unless(
                f,
                accounts[4].executable,
                ProgramError::InvalidAccountData,
            );
            let f = faults::unless(
                f,
                owner == BPF_LOADER || owner == BPF_LOADER_UPGRADEABLE,
                ProgramError::IllegalOwner,
            );
            let f = faults::or_else(f, faults::misplaced(accounts[5], approval_address));
            let f = faults::unless(
                f,
                new || accounts[5].owner == program_id,
                ProgramError::IllegalOwner,
            );
            let f = faults::unless(
                f,
                new || (existing is Ok && existing->Ok_0.coin_mint == accounts[2].key
                    && existing->Ok_0.builder_program == accounts[4].key && terms::names(
                    data,
                    0,
                    existing->Ok_0.code_hash,
                )),
                ProgramError::InvalidAccountData,
            );
            let f = faults::unless(f, a_clock(accounts[7]), ProgramError::InvalidArgument);
            faults::refused_for(
                handover::approve_builder_outcome(
                    program_id,
                    accounts,
                    data,
                    coin,
                    approval_address,
                ),
                f,
            )
        }),
{
    if data.len() == 65 {
        let existing = BuilderApproval::decoded(accounts[5].data@)->Ok_0;
        terms::lemma_names(data, 0, existing.code_hash);
    }
    faults::why_governance_is_refused(accounts[0], accounts[1], accounts[3], coin, program_id);
}

} // verus!
