//! The vote on the distribution of a COIN's supply.
use crate::account;
use crate::account::{and_then, only, Account, Effect, EffectView};
use crate::addresses;
use crate::addresses::{
    find_program_address, genesis_distribution_seeds, genesis_position_seeds, key_is_at,
    mint_authority_seeds, with_bump, Address, CoinAddresses,
};
use crate::bytes;
use crate::bytes::{copied, u64_at};
use crate::checks;
use crate::checks::{
    load_coin_config, load_token_of_mint, require_live, verify_genesis_config_pda, verify_pda,
    verify_program, verify_signer,
};
use crate::coin::PHASE_LIVE;
use crate::effects;
use crate::effects::{create_pda_account, mint_coin, write_account};
use crate::error::ProgramError;
use crate::genesis::{
    GenesisConfig, GenesisDistribution, GenesisPosition, GENESIS_DISTRIBUTION_SIZE,
    GENESIS_POSITION_SIZE,
};
use crate::ledger;
use crate::ledger::{has_majority, has_quorum, position_weight, Tally};
use crate::pubkey::{Pubkey, SYSTEM_PROGRAM, TOKEN_PROGRAM};
use vstd::prelude::*;

verus! {

/// The action that backs a candidate.
pub const VOTE_BACK: u8 = 1;

/// The action that gives a ballot up.
pub const VOTE_RETRACT: u8 = 2;

/// A candidate that no ballot backs yet.
pub open spec fn new_candidate(
    genesis_cfg: Pubkey,
    destination: Pubkey,
    proposal_id: u64,
) -> GenesisDistribution {
    GenesisDistribution {
        genesis_cfg,
        destination,
        proposal_id,
        support_weight: 0,
        support_principal: 0,
        executed: 0,
    }
}

/// Accounts: payer, COIN mint, COIN configuration, pool, candidate (to create), destination, system
/// program. Data: the candidate's number. Open to anyone while the vote runs.
pub open spec fn init_genesis_distribution_outcome(
    program_id: Pubkey,
    accounts: Seq<Account>,
    data: Seq<u8>,
    coin: CoinAddresses,
    candidate_address: Option<Address>,
) -> Result<Seq<EffectView>, ProgramError> {
    let proposal_id = bytes::u64_of(data.subrange(0, 8));
    let coin_mint = accounts[1].key;
    let coin_cfg = checks::coin_config_at(accounts[2], coin.coin_cfg, program_id);
    let cfg = checks::genesis_config_at(accounts[3], coin_mint, coin.genesis_cfg, program_id);
    let destination = checks::token_of_mint(accounts[5], coin_mint);
    let bump = checks::bump_at(accounts[4], candidate_address);
    if accounts.len() < 7 {
        Err(ProgramError::NotEnoughAccountKeys)
    } else if data.len() != 8 {
        Err(ProgramError::InvalidInstructionData)
    } else if !accounts[0].is_signer {
        Err(ProgramError::MissingRequiredSignature)
    } else if accounts[6].key.bytes != SYSTEM_PROGRAM {
        Err(ProgramError::IncorrectProgramId)
    } else if coin_cfg is Err {
        Err(coin_cfg->Err_0)
    } else if coin_cfg->Ok_0.phase != PHASE_LIVE {
        Err(ProgramError::InvalidAccountData)
    } else if cfg is Err {
        Err(cfg->Err_0)
    } else if cfg->Ok_0.finalized == 1 {
        Err(ProgramError::InvalidInstructionData)
    } else if destination is Err {
        Err(destination->Err_0)
    } else if bump is Err {
        Err(bump->Err_0)
    } else {
        Ok(
            seq![
                effects::creation_of(
                    0,
                    4,
                    6,
                    GENESIS_DISTRIBUTION_SIZE as u64,
                    program_id,
                    addresses::signer_seeds(
                        addresses::genesis_distribution_path(accounts[3].key, proposal_id),
                        bump->Ok_0,
                    ),
                ),
                effects::write_of(
                    4,
                    new_candidate(accounts[3].key, accounts[5].key, proposal_id).encoded(),
                ),
            ],
        )
    }
}

pub fn init_genesis_distribution(
    program_id: &Pubkey,
    accounts: &[Account],
    data: &[u8],
    coin: &CoinAddresses,
    candidate_address: &Option<Address>,
) -> (r: Result<Vec<Effect>, ProgramError>)
    ensures
        account::outcome(r) == init_genesis_distribution_outcome(
            *program_id,
            accounts@,
            data@,
            *coin,
            *candidate_address,
        ),
{
    if accounts.len() < 7 {
        return Err(ProgramError::NotEnoughAccountKeys);
    }
    let coin_mint = accounts[1].key;
    if data.len() != 8 {
        return Err(ProgramError::InvalidInstructionData);
    }
    let proposal_id: u64 = u64_at(data, 0);
    verify_signer(&accounts[0])?;
    verify_program(&accounts[6], &SYSTEM_PROGRAM)?;
    let coin_cfg = load_coin_config(&accounts[2], &coin.coin_cfg, program_id)?;
    require_live(&coin_cfg)?;
    let cfg = verify_genesis_config_pda(&accounts[3], &coin_mint, &coin.genesis_cfg, program_id)?;
    if cfg.is_finalized() {
        return Err(ProgramError::InvalidInstructionData);
    }
    load_token_of_mint(&accounts[5], &coin_mint)?;
    let bump: u8 = verify_pda(&accounts[4], candidate_address)?;
    let create = create_pda_account(
        0,
        4,
        6,
        GENESIS_DISTRIBUTION_SIZE as u64,
        *program_id,
        with_bump(genesis_distribution_seeds(&accounts[3].key, proposal_id), bump),
    );
    let candidate = GenesisDistribution {
        genesis_cfg: accounts[3].key,
        destination: accounts[5].key,
        proposal_id,
        support_weight: 0,
        support_principal: 0,
        executed: 0,
    };
    let plan = and_then(only(create), write_account(4, candidate.to_bytes()));
    assert(account::effect_views(plan@) =~= init_genesis_distribution_outcome(
        *program_id,
        accounts@,
        data@,
        *coin,
        *candidate_address,
    )->Ok_0);
    Ok(plan)
}

pub fn process_init_genesis_distribution(
    program_id: &Pubkey,
    accounts: &[Account],
    data: &[u8],
) -> (r: Result<Vec<Effect>, ProgramError>)
    ensures
        account::outcome(r) == init_genesis_distribution_outcome(
            *program_id,
            accounts@,
            data@,
            CoinAddresses::of(*program_id, accounts@[1].key),
            addresses::address_of(
                addresses::genesis_distribution_path(
                    accounts@[3].key,
                    bytes::u64_of(data@.subrange(0, 8)),
                ),
                *program_id,
            ),
        ),
{
    if accounts.len() < 7 {
        return Err(ProgramError::NotEnoughAccountKeys);
    }
    if data.len() != 8 {
        return Err(ProgramError::InvalidInstructionData);
    }
    let coin = CoinAddresses::derive(program_id, &accounts[1].key);
    let candidate_address = find_program_address(
        &genesis_distribution_seeds(&accounts[3].key, u64_at(data, 0)),
        program_id,
    );
    init_genesis_distribution(program_id, accounts, data, &coin, &candidate_address)
}

/// The position that a voter votes with.
pub open spec fn voter_position(
    account: Account,
    voter: Pubkey,
    address: Option<Address>,
    program_id: Pubkey,
) -> Result<GenesisPosition, ProgramError> {
    let position = GenesisPosition::decoded(account.data@);
    if !addresses::is_at(account.key, address) || account.owner != program_id {
        Err(ProgramError::InvalidSeeds)
    } else if position is Err {
        position
    } else if position->Ok_0.owner != voter {
        Err(ProgramError::InvalidAccountData)
    } else {
        position
    }
}

fn load_voter_position(
    account: &Account,
    voter: &Pubkey,
    address: &Option<Address>,
    program_id: &Pubkey,
) -> (r: Result<GenesisPosition, ProgramError>)
    ensures
        r == voter_position(*account, *voter, *address, *program_id),
        r is Ok ==> account.data@.len() >= GENESIS_POSITION_SIZE,
{
    if !key_is_at(&account.key, address) || !account.owner.same(program_id) {
        return Err(ProgramError::InvalidSeeds);
    }
    let position = GenesisPosition::deserialize(&account.data)?;
    if !position.owner.same(voter) {
        return Err(ProgramError::InvalidAccountData);
    }
    Ok(position)
}

/// A candidate of the pool at `genesis_cfg`.
pub open spec fn candidate_at(account: Account, genesis_cfg: Pubkey, program_id: Pubkey) -> Result<
    GenesisDistribution,
    ProgramError,
> {
    let candidate = GenesisDistribution::decoded(account.data@);
    if account.owner != program_id {
        Err(ProgramError::IllegalOwner)
    } else if candidate is Err {
        candidate
    } else if candidate->Ok_0.genesis_cfg != genesis_cfg {
        Err(ProgramError::InvalidAccountData)
    } else {
        candidate
    }
}

fn load_candidate(account: &Account, genesis_cfg: &Pubkey, program_id: &Pubkey) -> (r: Result<
    GenesisDistribution,
    ProgramError,
>)
    ensures
        r == candidate_at(*account, *genesis_cfg, *program_id),
        r is Ok ==> account.data@.len() >= GENESIS_DISTRIBUTION_SIZE,
{
    if !account.owner.same(program_id) {
        return Err(ProgramError::IllegalOwner);
    }
    let candidate = GenesisDistribution::deserialize(&account.data)?;
    if !candidate.genesis_cfg.same(genesis_cfg) {
        return Err(ProgramError::InvalidAccountData);
    }
    Ok(candidate)
}

/// What a vote does to the tally: a ballot counts the weight that its position has at the slot of the
/// vote, and a position without weight has no ballot. An executed candidate takes no more ballots.
pub open spec fn vote_result(tally: Tally, key: Pubkey, action: u8, slot: u64) -> Result<
    Tally,
    ProgramError,
> {
    if action == VOTE_RETRACT {
        tally.retracted(key)
    } else if tally.candidate.executed == 1 {
        Err(ProgramError::InvalidAccountData)
    } else {
        tally.backed(key, ledger::ballot_weight(tally.position, slot))
    }
}

/// Accounts: voter, COIN mint, COIN configuration, pool, position, candidate. Data: 1 to back the
/// candidate, 2 to retract.
pub open spec fn vote_genesis_distribution_outcome(
    program_id: Pubkey,
    accounts: Seq<Account>,
    data: Seq<u8>,
    slot: u64,
    coin: CoinAddresses,
    position_address: Option<Address>,
) -> Result<Seq<EffectView>, ProgramError> {
    let action = data[0];
    let coin_cfg = checks::coin_config_at(accounts[2], coin.coin_cfg, program_id);
    let cfg = checks::genesis_config_at(
        accounts[3],
        accounts[1].key,
        coin.genesis_cfg,
        program_id,
    );
    let position = voter_position(accounts[4], accounts[0].key, position_address, program_id);
    let candidate = candidate_at(accounts[5], accounts[3].key, program_id);
    let tally = Tally {
        cfg: cfg->Ok_0,
        position: position->Ok_0,
        candidate: candidate->Ok_0,
    };
    let after = vote_result(tally, accounts[5].key, action, slot);
    if accounts.len() < 6 {
        Err(ProgramError::NotEnoughAccountKeys)
    } else if data.len() != 1 || (action != VOTE_BACK && action != VOTE_RETRACT) {
        Err(ProgramError::InvalidInstructionData)
    } else if !accounts[0].is_signer {
        Err(ProgramError::MissingRequiredSignature)
    } else if coin_cfg is Err {
        Err(coin_cfg->Err_0)
    } else if coin_cfg->Ok_0.phase != PHASE_LIVE {
        Err(ProgramError::InvalidAccountData)
    } else if cfg is Err {
        Err(cfg->Err_0)
    } else if cfg->Ok_0.finalized == 1 {
        Err(ProgramError::InvalidInstructionData)
    } else if position is Err {
        Err(position->Err_0)
    } else if action == VOTE_BACK && ledger::ballot_weight(position->Ok_0, slot) == 0 {
        Err(ProgramError::InvalidAccountData)
    } else if candidate is Err {
        Err(candidate->Err_0)
    } else if after is Err {
        Err(after->Err_0)
    } else {
        Ok(
            seq![
                effects::write_of(3, after->Ok_0.cfg.written(accounts[3].data@)),
                effects::write_of(4, after->Ok_0.position.written(accounts[4].data@)),
                effects::write_of(5, after->Ok_0.candidate.written(accounts[5].data@)),
            ],
        )
    }
}

pub fn vote_genesis_distribution(
    program_id: &Pubkey,
    accounts: &[Account],
    data: &[u8],
    slot: u64,
    coin: &CoinAddresses,
    position_address: &Option<Address>,
) -> (r: Result<Vec<Effect>, ProgramError>)
    ensures
        account::outcome(r) == vote_genesis_distribution_outcome(
            *program_id,
            accounts@,
            data@,
            slot,
            *coin,
            *position_address,
        ),
{
    if accounts.len() < 6 {
        return Err(ProgramError::NotEnoughAccountKeys);
    }
    let voter = &accounts[0];
    if data.len() != 1 || (data[0] != VOTE_BACK && data[0] != VOTE_RETRACT) {
        return Err(ProgramError::InvalidInstructionData);
    }
    verify_signer(voter)?;
    let coin_cfg = load_coin_config(&accounts[2], &coin.coin_cfg, program_id)?;
    require_live(&coin_cfg)?;
    let cfg = verify_genesis_config_pda(
        &accounts[3],
        &accounts[1].key,
        &coin.genesis_cfg,
        program_id,
    )?;
    if cfg.is_finalized() {
        return Err(ProgramError::InvalidInstructionData);
    }
    let position = load_voter_position(&accounts[4], &voter.key, position_address, program_id)?;
    let weight: u64 = position_weight(&position, slot);
    if data[0] == VOTE_BACK && weight == 0 {
        return Err(ProgramError::InvalidAccountData);
    }
    let candidate = load_candidate(&accounts[5], &accounts[3].key, program_id)?;
    let tally = Tally { cfg, position, candidate };
    let after = if data[0] == VOTE_RETRACT {
        tally.retract(&accounts[5].key)?
    } else {
        if candidate.is_executed() {
            return Err(ProgramError::InvalidAccountData);
        }
        tally.back(&accounts[5].key, weight)?
    };
    let mut cfg_data = copied(&accounts[3].data);
    after.cfg.serialize(&mut cfg_data);
    let mut position_data = copied(&accounts[4].data);
    after.position.serialize(&mut position_data);
    let mut candidate_data = copied(&accounts[5].data);
    after.candidate.serialize(&mut candidate_data);
    let plan = and_then(
        and_then(only(write_account(3, cfg_data)), write_account(4, position_data)),
        write_account(5, candidate_data),
    );
    assert(account::effect_views(plan@) =~= vote_genesis_distribution_outcome(
        *program_id,
        accounts@,
        data@,
        slot,
        *coin,
        *position_address,
    )->Ok_0);
    Ok(plan)
}

pub fn process_vote_genesis_distribution(
    program_id: &Pubkey,
    accounts: &[Account],
    data: &[u8],
    slot: u64,
) -> (r: Result<Vec<Effect>, ProgramError>)
    ensures
        account::outcome(r) == vote_genesis_distribution_outcome(
            *program_id,
            accounts@,
            data@,
            slot,
            CoinAddresses::of(*program_id, accounts@[1].key),
            addresses::address_of(
                addresses::genesis_position_path(accounts@[3].key, accounts@[0].key),
                *program_id,
            ),
        ),
{
    if accounts.len() < 6 {
        return Err(ProgramError::NotEnoughAccountKeys);
    }
    let coin = CoinAddresses::derive(program_id, &accounts[1].key);
    let position_address = find_program_address(
        &genesis_position_seeds(&accounts[3].key, &accounts[0].key),
        program_id,
    );
    vote_genesis_distribution(program_id, accounts, data, slot, &coin, &position_address)
}

/// The pool once its supply is minted.
pub open spec fn minted(cfg: GenesisConfig) -> GenesisConfig {
    GenesisConfig { minted_supply: cfg.reward_supply, ..cfg }
}

/// The candidate that won.
pub open spec fn executed(candidate: GenesisDistribution) -> GenesisDistribution {
    GenesisDistribution { executed: 1, ..candidate }
}

/// Accounts: anyone, pool, COIN mint, COIN configuration, destination, mint authority, candidate, token
/// program. No data. The whole supply is minted to the destination of the candidate that has a quorum
/// and a majority, once.
pub open spec fn trigger_genesis_distribution_outcome(
    program_id: Pubkey,
    accounts: Seq<Account>,
    data: Seq<u8>,
    coin: CoinAddresses,
) -> Result<Seq<EffectView>, ProgramError> {
    let coin_mint = accounts[2].key;
    let coin_cfg = checks::coin_config_at(accounts[3], coin.coin_cfg, program_id);
    let destination = checks::token_of_mint(accounts[4], coin_mint);
    let cfg = checks::genesis_config_at(accounts[1], coin_mint, coin.genesis_cfg, program_id);
    let candidate = candidate_at(accounts[6], accounts[1].key, program_id);
    let bump = checks::bump_at(accounts[5], coin.mint_authority);
    if data.len() != 0 {
        Err(ProgramError::InvalidInstructionData)
    } else if accounts.len() < 8 {
        Err(ProgramError::NotEnoughAccountKeys)
    } else if accounts[7].key.bytes != TOKEN_PROGRAM {
        Err(ProgramError::IncorrectProgramId)
    } else if !accounts[0].is_signer {
        Err(ProgramError::MissingRequiredSignature)
    } else if coin_cfg is Err {
        Err(coin_cfg->Err_0)
    } else if coin_cfg->Ok_0.phase != PHASE_LIVE {
        Err(ProgramError::InvalidAccountData)
    } else if destination is Err {
        Err(destination->Err_0)
    } else if cfg is Err {
        Err(cfg->Err_0)
    } else if cfg->Ok_0.finalized == 1 || cfg->Ok_0.kicked != 1 || cfg->Ok_0.minted_supply != 0 {
        Err(ProgramError::InvalidInstructionData)
    } else if candidate is Err {
        Err(candidate->Err_0)
    } else if candidate->Ok_0.destination != accounts[4].key || candidate->Ok_0.executed == 1 {
        Err(ProgramError::InvalidAccountData)
    } else if !ledger::majority(cfg->Ok_0, candidate->Ok_0) || !ledger::quorum(cfg->Ok_0) {
        Err(ProgramError::InvalidInstructionData)
    } else if bump is Err {
        Err(bump->Err_0)
    } else {
        Ok(
            seq![
                effects::write_of(1, minted(cfg->Ok_0).written(accounts[1].data@)),
                effects::write_of(6, executed(candidate->Ok_0).written(accounts[6].data@)),
            ] + effects::minting(
                accounts,
                2,
                4,
                5,
                7,
                cfg->Ok_0.reward_supply,
                addresses::signer_seeds(
                    addresses::mint_authority_path(coin_mint),
                    bump->Ok_0,
                ),
            ),
        )
    }
}

pub fn trigger_genesis_distribution(
    program_id: &Pubkey,
    accounts: &[Account],
    data: &[u8],
    coin: &CoinAddresses,
) -> (r: Result<Vec<Effect>, ProgramError>)
    ensures
        account::outcome(r) == trigger_genesis_distribution_outcome(
            *program_id,
            accounts@,
            data@,
            *coin,
        ),
{
    if data.len() != 0 {
        return Err(ProgramError::InvalidInstructionData);
    }
    if accounts.len() < 8 {
        return Err(ProgramError::NotEnoughAccountKeys);
    }
    let coin_mint = accounts[2].key;
    let destination = &accounts[4];
    verify_program(&accounts[7], &TOKEN_PROGRAM)?;
    verify_signer(&accounts[0])?;
    let coin_cfg = load_coin_config(&accounts[3], &coin.coin_cfg, program_id)?;
    require_live(&coin_cfg)?;
    load_token_of_mint(destination, &coin_mint)?;
    let cfg = verify_genesis_config_pda(&accounts[1], &coin_mint, &coin.genesis_cfg, program_id)?;
    if cfg.is_finalized() || !cfg.is_kicked() || cfg.minted_supply != 0 {
        return Err(ProgramError::InvalidInstructionData);
    }
    let candidate = load_candidate(&accounts[6], &accounts[1].key, program_id)?;
    if !candidate.destination.same(&destination.key) || candidate.is_executed() {
        return Err(ProgramError::InvalidAccountData);
    }
    if !has_majority(&cfg, &candidate) || !has_quorum(&cfg) {
        return Err(ProgramError::InvalidInstructionData);
    }
    let bump: u8 = verify_pda(&accounts[5], &coin.mint_authority)?;
    let mut cfg_data = copied(&accounts[1].data);
    let cfg_after = GenesisConfig { minted_supply: cfg.reward_supply, ..cfg };
    cfg_after.serialize(&mut cfg_data);
    let mut candidate_data = copied(&accounts[6].data);
    let candidate_after = GenesisDistribution { executed: 1, ..candidate };
    candidate_after.serialize(&mut candidate_data);
    let signer = with_bump(mint_authority_seeds(&coin_mint), bump);
    let plan = and_then(only(write_account(1, cfg_data)), write_account(6, candidate_data));
    let plan = mint_coin(plan, accounts, 2, 4, 5, 7, cfg.reward_supply, signer)?;
    assert(account::effect_views(plan@) =~= trigger_genesis_distribution_outcome(
        *program_id,
        accounts@,
        data@,
        *coin,
    )->Ok_0);
    Ok(plan)
}

pub fn process_trigger_genesis_distribution(
    program_id: &Pubkey,
    accounts: &[Account],
    data: &[u8],
) -> (r: Result<Vec<Effect>, ProgramError>)
    ensures
        account::outcome(r) == trigger_genesis_distribution_outcome(
            *program_id,
            accounts@,
            data@,
            CoinAddresses::of(*program_id, accounts@[2].key),
        ),
{
    if data.len() != 0 {
        return Err(ProgramError::InvalidInstructionData);
    }
    if accounts.len() < 8 {
        return Err(ProgramError::NotEnoughAccountKeys);
    }
    let coin = CoinAddresses::derive(program_id, &accounts[2].key);
    trigger_genesis_distribution(program_id, accounts, data, &coin)
}

} // verus!
