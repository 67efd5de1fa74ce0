//! A COIN's configuration, its going live and the governed minting of it.
use crate::account;
use crate::account::{and_then, no_effects, only, Account, Effect, EffectView};
use crate::addresses;
use crate::addresses::{coin_cfg_seeds, key_is_at, mint_authority_seeds, with_bump, CoinAddresses};
use crate::bytes;
use crate::bytes::{copied, u64_at};
use crate::checks;
use crate::checks::{
    load_governed_config, load_mint, load_token_of_mint, require_live,
    validate_governance_authority, verify_genesis_config_pda, verify_pda, verify_program,
    verify_signer,
};
use crate::coin::{CoinConfig, COIN_CFG_SIZE, PHASE_BOOTSTRAP, PHASE_LIVE};
use crate::effects;
use crate::effects::{create_pda_account, mint_coin, write_account};
use crate::error::ProgramError;
use crate::pubkey::{Pubkey, SYSTEM_PROGRAM, TOKEN_PROGRAM};
use crate::system;
use crate::system::clock_slot;
use crate::token;
use crate::token::set_mint_authority;
use vstd::prelude::*;

verus! {

/// The optional delay that the data holds: none is no delay.
pub open spec fn optional_u64(data: Seq<u8>) -> Result<u64, ProgramError> {
    if data.len() == 0 {
        Ok(0)
    } else if data.len() == 8 {
        Ok(bytes::u64_of(data.subrange(0, 8)))
    } else {
        Err(ProgramError::InvalidInstructionData)
    }
}

pub fn read_optional_u64(data: &[u8]) -> (r: Result<u64, ProgramError>)
    ensures
        r == optional_u64(data@),
{
    if data.len() == 0 {
        Ok(0)
    } else if data.len() == 8 {
        Ok(u64_at(data, 0))
    } else {
        Err(ProgramError::InvalidInstructionData)
    }
}

/// A new COIN: live at once without a delay, else in its bootstrap phase.
pub open spec fn new_coin(authority: Pubkey, delay: u64, slot: u64) -> CoinConfig {
    CoinConfig {
        authority,
        bootstrap_start_slot: slot,
        bootstrap_delay_slots: delay,
        live_slot: if delay == 0 {
            slot
        } else {
            0
        },
        phase: if delay == 0 {
            PHASE_LIVE
        } else {
            PHASE_BOOTSTRAP
        },
    }
}

/// Accounts: payer, authority, COIN mint, COIN configuration (to create), system program. Data: the
/// bootstrap delay in slots, or nothing.
pub open spec fn init_coin_config_outcome(
    program_id: Pubkey,
    accounts: Seq<Account>,
    data: Seq<u8>,
    slot: u64,
    coin: CoinAddresses,
) -> Result<Seq<EffectView>, ProgramError> {
    let governance = checks::governance_ok(accounts[1], coin.governance);
    let delay = optional_u64(data);
    let mint = checks::mint_at(accounts[2]);
    if accounts.len() < 5 {
        Err(ProgramError::NotEnoughAccountKeys)
    } else if !accounts[0].is_signer {
        Err(ProgramError::MissingRequiredSignature)
    } else if governance is Err {
        Err(governance->Err_0)
    } else if delay is Err {
        Err(delay->Err_0)
    } else if slot + delay->Ok_0 > u64::MAX {
        Err(ProgramError::InvalidInstructionData)
    } else if mint is Err {
        Err(mint->Err_0)
    } else if mint->Ok_0.freeze_authority is Some {
        Err(ProgramError::InvalidAccountData)
    } else if mint->Ok_0.mint_authority is None || !addresses::is_at(
        mint->Ok_0.mint_authority->0,
        coin.mint_authority,
    ) {
        Err(ProgramError::InvalidAccountData)
    } else if !addresses::is_at(accounts[3].key, coin.coin_cfg) {
        Err(ProgramError::InvalidSeeds)
    } else {
        Ok(
            seq![
                effects::creation_of(
                    0,
                    3,
                    4,
                    COIN_CFG_SIZE as u64,
                    program_id,
                    addresses::signer_seeds(
                        addresses::coin_cfg_path(accounts[2].key),
                        coin.coin_cfg->0.bump,
                    ),
                ),
                effects::write_of(
                    3,
                    new_coin(accounts[1].key, delay->Ok_0, slot).encoded(),
                ),
            ],
        )
    }
}

pub fn init_coin_config(
    program_id: &Pubkey,
    accounts: &[Account],
    data: &[u8],
    slot: u64,
    coin: &CoinAddresses,
) -> (r: Result<Vec<Effect>, ProgramError>)
    ensures
        account::outcome(r) == init_coin_config_outcome(
            *program_id,
            accounts@,
            data@,
            slot,
            *coin,
        ),
{
    if accounts.len() < 5 {
        return Err(ProgramError::NotEnoughAccountKeys);
    }
    let (payer, authority) = (&accounts[0], &accounts[1]);
    let (coin_mint, coin_cfg_account) = (&accounts[2], &accounts[3]);
    verify_signer(payer)?;
    validate_governance_authority(authority, &coin.governance)?;
    let delay: u64 = read_optional_u64(data)?;
    if slot.checked_add(delay).is_none() {
        return Err(ProgramError::InvalidInstructionData);
    }
    let mint = load_mint(coin_mint)?;
    if mint.freeze_authority.is_some() {
        return Err(ProgramError::InvalidAccountData);
    }
    match mint.mint_authority {
        Some(key) => if !key_is_at(&key, &coin.mint_authority) {
            return Err(ProgramError::InvalidAccountData);
        },
        None => return Err(ProgramError::InvalidAccountData),
    }
    let bump: u8 = verify_pda(coin_cfg_account, &coin.coin_cfg)?;
    let (phase, live_slot): (u8, u64) = if delay == 0 {
        (PHASE_LIVE, slot)
    } else {
        (PHASE_BOOTSTRAP, 0)
    };
    let cfg = CoinConfig {
        authority: authority.key,
        bootstrap_start_slot: slot,
        bootstrap_delay_slots: delay,
        live_slot,
        phase,
    };
    let create = create_pda_account(
        0,
        3,
        4,
        COIN_CFG_SIZE as u64,
        *program_id,
        with_bump(coin_cfg_seeds(&coin_mint.key), bump),
    );
    let plan = and_then(only(create), write_account(3, cfg.to_bytes()));
    assert(account::effect_views(plan@) =~= init_coin_config_outcome(
        *program_id,
        accounts@,
        data@,
        slot,
        *coin,
    )->Ok_0);
    Ok(plan)
}

pub fn process_init_coin_config(
    program_id: &Pubkey,
    accounts: &[Account],
    data: &[u8],
    slot: u64,
) -> (r: Result<Vec<Effect>, ProgramError>)
    ensures
        account::outcome(r) == init_coin_config_outcome(
            *program_id,
            accounts@,
            data@,
            slot,
            CoinAddresses::of(*program_id, accounts@[2].key),
        ),
{
    if accounts.len() < 5 {
        return Err(ProgramError::NotEnoughAccountKeys);
    }
    let coin = CoinAddresses::derive(program_id, &accounts[2].key);
    init_coin_config(program_id, accounts, data, slot, &coin)
}

/// A COIN that goes live.
pub open spec fn activated(cfg: CoinConfig, slot: u64) -> CoinConfig {
    CoinConfig { phase: PHASE_LIVE, live_slot: slot, ..cfg }
}

/// Accounts: payer, authority, COIN mint, COIN configuration, clock. No data. A COIN that is live
/// stays as it is.
pub open spec fn activate_live_outcome(
    program_id: Pubkey,
    accounts: Seq<Account>,
    data: Seq<u8>,
    coin: CoinAddresses,
) -> Result<Seq<EffectView>, ProgramError> {
    let governance = checks::governance_ok(accounts[1], coin.governance);
    let cfg = CoinConfig::decoded(accounts[3].data@);
    let slot = system::slot_of(accounts[4]);
    if data.len() != 0 {
        Err(ProgramError::InvalidInstructionData)
    } else if accounts.len() < 5 {
        Err(ProgramError::NotEnoughAccountKeys)
    } else if !accounts[0].is_signer {
        Err(ProgramError::MissingRequiredSignature)
    } else if governance is Err {
        Err(governance->Err_0)
    } else if cfg is Err {
        Err(cfg->Err_0)
    } else if !addresses::is_at(accounts[3].key, coin.coin_cfg) {
        Err(ProgramError::InvalidSeeds)
    } else if accounts[3].owner != program_id {
        Err(ProgramError::IllegalOwner)
    } else if accounts[1].key != cfg->Ok_0.authority {
        Err(ProgramError::MissingRequiredSignature)
    } else if cfg->Ok_0.phase == PHASE_LIVE {
        Ok(Seq::empty())
    } else if slot is Err {
        Err(slot->Err_0)
    } else if cfg->Ok_0.live_after() is None {
        Err(ProgramError::InvalidAccountData)
    } else if slot->Ok_0 < cfg->Ok_0.live_after()->0 {
        Err(ProgramError::InvalidInstructionData)
    } else {
        Ok(
            seq![
                effects::write_of(
                    3,
                    activated(cfg->Ok_0, slot->Ok_0).written(accounts[3].data@),
                ),
            ],
        )
    }
}

pub fn activate_live(
    program_id: &Pubkey,
    accounts: &[Account],
    data: &[u8],
    coin: &CoinAddresses,
) -> (r: Result<Vec<Effect>, ProgramError>)
    ensures
        account::outcome(r) == activate_live_outcome(*program_id, accounts@, data@, *coin),
{
    if data.len() != 0 {
        return Err(ProgramError::InvalidInstructionData);
    }
    if accounts.len() < 5 {
        return Err(ProgramError::NotEnoughAccountKeys);
    }
    let (payer, authority) = (&accounts[0], &accounts[1]);
    let (coin_cfg_account, clock) = (&accounts[3], &accounts[4]);
    verify_signer(payer)?;
    validate_governance_authority(authority, &coin.governance)?;
    let cfg = CoinConfig::deserialize(&coin_cfg_account.data)?;
    if !key_is_at(&coin_cfg_account.key, &coin.coin_cfg) {
        return Err(ProgramError::InvalidSeeds);
    }
    if !coin_cfg_account.owner.same(program_id) {
        return Err(ProgramError::IllegalOwner);
    }
    if !authority.key.same(&cfg.authority) {
        return Err(ProgramError::MissingRequiredSignature);
    }
    if cfg.is_live() {
        return Ok(no_effects());
    }
    let slot: u64 = clock_slot(clock)?;
    let live_after: u64 = match cfg.bootstrap_start_slot.checked_add(cfg.bootstrap_delay_slots) {
        Some(live_after) => live_after,
        None => return Err(ProgramError::InvalidAccountData),
    };
    if slot < live_after {
        return Err(ProgramError::InvalidInstructionData);
    }
    let mut written = copied(&coin_cfg_account.data);
    let live = CoinConfig { phase: PHASE_LIVE, live_slot: slot, ..cfg };
    live.serialize(&mut written);
    Ok(only(write_account(3, written)))
}

pub fn process_activate_live(program_id: &Pubkey, accounts: &[Account], data: &[u8]) -> (r: Result<
    Vec<Effect>,
    ProgramError,
>)
    ensures
        account::outcome(r) == activate_live_outcome(
            *program_id,
            accounts@,
            data@,
            CoinAddresses::of(*program_id, accounts@[2].key),
        ),
{
    if data.len() != 0 {
        return Err(ProgramError::InvalidInstructionData);
    }
    if accounts.len() < 5 {
        return Err(ProgramError::NotEnoughAccountKeys);
    }
    let coin = CoinAddresses::derive(program_id, &accounts[2].key);
    activate_live(program_id, accounts, data, &coin)
}

/// Accounts: payer, authority, COIN mint, COIN configuration, destination, mint authority, token
/// program, genesis pool. Data: the amount. Open once the genesis is finalized.
pub open spec fn mint_reward_outcome(
    program_id: Pubkey,
    accounts: Seq<Account>,
    data: Seq<u8>,
    coin: CoinAddresses,
) -> Result<Seq<EffectView>, ProgramError> {
    let amount = bytes::u64_of(data.subrange(0, 8));
    let cfg = checks::governed_config(accounts[1], accounts[3], coin, program_id);
    let genesis = checks::genesis_config_at(
        accounts[7],
        accounts[2].key,
        coin.genesis_cfg,
        program_id,
    );
    let destination = checks::token_of_mint(accounts[4], accounts[2].key);
    let bump = checks::bump_at(accounts[5], coin.mint_authority);
    if accounts.len() < 8 {
        Err(ProgramError::NotEnoughAccountKeys)
    } else if data.len() < 8 || amount == 0 {
        Err(ProgramError::InvalidInstructionData)
    } else if !accounts[0].is_signer {
        Err(ProgramError::MissingRequiredSignature)
    } else if accounts[6].key.bytes != TOKEN_PROGRAM {
        Err(ProgramError::IncorrectProgramId)
    } else if cfg is Err {
        Err(cfg->Err_0)
    } else if cfg->Ok_0.phase != PHASE_LIVE {
        Err(ProgramError::InvalidAccountData)
    } else if genesis is Err {
        Err(genesis->Err_0)
    } else if genesis->Ok_0.finalized != 1 {
        Err(ProgramError::InvalidInstructionData)
    } else if destination is Err {
        Err(destination->Err_0)
    } else if bump is Err {
        Err(bump->Err_0)
    } else {
        Ok(
            seq![
                effects::mint_of(
                    accounts,
                    2,
                    4,
                    5,
                    6,
                    amount,
                    addresses::signer_seeds(
                        addresses::mint_authority_path(accounts[2].key),
                        bump->Ok_0,
                    ),
                ),
            ],
        )
    }
}

pub fn mint_reward(
    program_id: &Pubkey,
    accounts: &[Account],
    data: &[u8],
    coin: &CoinAddresses,
) -> (r: Result<Vec<Effect>, ProgramError>)
    ensures
        account::outcome(r) == mint_reward_outcome(*program_id, accounts@, data@, *coin),
{
    if accounts.len() < 8 {
        return Err(ProgramError::NotEnoughAccountKeys);
    }
    let coin_mint = &accounts[2];
    if data.len() < 8 {
        return Err(ProgramError::InvalidInstructionData);
    }
    let amount: u64 = u64_at(data, 0);
    if amount == 0 {
        return Err(ProgramError::InvalidInstructionData);
    }
    verify_signer(&accounts[0])?;
    verify_program(&accounts[6], &TOKEN_PROGRAM)?;
    let cfg = load_governed_config(&accounts[1], &accounts[3], coin, program_id)?;
    require_live(&cfg)?;
    let genesis = verify_genesis_config_pda(
        &accounts[7],
        &coin_mint.key,
        &coin.genesis_cfg,
        program_id,
    )?;
    if !genesis.is_finalized() {
        return Err(ProgramError::InvalidInstructionData);
    }
    load_token_of_mint(&accounts[4], &coin_mint.key)?;
    let bump: u8 = verify_pda(&accounts[5], &coin.mint_authority)?;
    let signer = with_bump(mint_authority_seeds(&coin_mint.key), bump);
    let plan = mint_coin(no_effects(), accounts, 2, 4, 5, 6, amount, signer)?;
    assert(account::effect_views(plan@) =~= mint_reward_outcome(
        *program_id,
        accounts@,
        data@,
        *coin,
    )->Ok_0);
    Ok(plan)
}

pub fn process_mint_reward(program_id: &Pubkey, accounts: &[Account], data: &[u8]) -> (r: Result<
    Vec<Effect>,
    ProgramError,
>)
    ensures
        account::outcome(r) == mint_reward_outcome(
            *program_id,
            accounts@,
            data@,
            CoinAddresses::of(*program_id, accounts@[2].key),
        ),
{
    if accounts.len() < 8 {
        return Err(ProgramError::NotEnoughAccountKeys);
    }
    let coin = CoinAddresses::derive(program_id, &accounts[2].key);
    mint_reward(program_id, accounts, data, &coin)
}

/// The authority that the mint is handed to: none if the account is the zero address.
pub open spec fn new_mint_authority(key: Pubkey) -> Option<Pubkey> {
    if key.bytes == SYSTEM_PROGRAM {
        None
    } else {
        Some(key)
    }
}

/// Accounts: payer, authority, COIN mint, COIN configuration, mint authority, new authority, token
/// program. The data is not read.
pub open spec fn transfer_mint_authority_outcome(
    program_id: Pubkey,
    accounts: Seq<Account>,
    coin: CoinAddresses,
) -> Result<Seq<EffectView>, ProgramError> {
    let cfg = checks::governed_config(accounts[1], accounts[3], coin, program_id);
    let bump = checks::bump_at(accounts[4], coin.mint_authority);
    if accounts.len() < 7 {
        Err(ProgramError::NotEnoughAccountKeys)
    } else if !accounts[0].is_signer {
        Err(ProgramError::MissingRequiredSignature)
    } else if accounts[6].key.bytes != TOKEN_PROGRAM {
        Err(ProgramError::IncorrectProgramId)
    } else if cfg is Err {
        Err(cfg->Err_0)
    } else if cfg->Ok_0.phase != PHASE_LIVE {
        Err(ProgramError::InvalidAccountData)
    } else if bump is Err {
        Err(bump->Err_0)
    } else {
        Ok(
            seq![
                EffectView::Invoke {
                    instruction: token::set_mint_authority_call(
                        accounts[6].key,
                        accounts[2].key,
                        new_mint_authority(accounts[5].key),
                        accounts[4].key,
                    )->Ok_0,
                    accounts: seq![2usize, 4usize, 6usize],
                    signer: addresses::signer_seeds(
                        addresses::mint_authority_path(accounts[2].key),
                        bump->Ok_0,
                    ),
                },
            ],
        )
    }
}

pub fn transfer_mint_authority(
    program_id: &Pubkey,
    accounts: &[Account],
    coin: &CoinAddresses,
) -> (r: Result<Vec<Effect>, ProgramError>)
    ensures
        account::outcome(r) == transfer_mint_authority_outcome(*program_id, accounts@, *coin),
{
    if accounts.len() < 7 {
        return Err(ProgramError::NotEnoughAccountKeys);
    }
    let coin_mint = &accounts[2];
    verify_signer(&accounts[0])?;
    verify_program(&accounts[6], &TOKEN_PROGRAM)?;
    let cfg = load_governed_config(&accounts[1], &accounts[3], coin, program_id)?;
    require_live(&cfg)?;
    let bump: u8 = verify_pda(&accounts[4], &coin.mint_authority)?;
    let new_authority = if accounts[5].key.is_id(&SYSTEM_PROGRAM) {
        None
    } else {
        Some(accounts[5].key)
    };
    let instruction = set_mint_authority(
        &accounts[6].key,
        &coin_mint.key,
        new_authority,
        &accounts[4].key,
    )?;
    let indices: Vec<usize> = vec![2, 4, 6];
    assert(indices@ =~= seq![2usize, 4usize, 6usize]);
    let signer = with_bump(mint_authority_seeds(&coin_mint.key), bump);
    Ok(only(Effect::Invoke { instruction, accounts: indices, signer }))
}

pub fn process_transfer_mint_authority(program_id: &Pubkey, accounts: &[Account]) -> (r: Result<
    Vec<Effect>,
    ProgramError,
>)
    ensures
        account::outcome(r) == transfer_mint_authority_outcome(
            *program_id,
            accounts@,
            CoinAddresses::of(*program_id, accounts@[2].key),
        ),
{
    if accounts.len() < 7 {
        return Err(ProgramError::NotEnoughAccountKeys);
    }
    let coin = CoinAddresses::derive(program_id, &accounts[2].key);
    transfer_mint_authority(program_id, accounts, &coin)
}

} // verus!
