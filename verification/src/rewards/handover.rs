//! The end of a genesis: finalization, what passes to the DAO, and what the DAO governs.
use crate::account;
use crate::account::{and_then, only, Account, AccountMeta, Effect, EffectView};
use crate::addresses;
use crate::addresses::{
    builder_approval_seeds, find_program_address, key_is_at, with_bump, Address, CoinAddresses,
};
use crate::builder::{BuilderApproval, BUILDER_APPROVAL_SIZE};
use crate::bytes;
use crate::bytes::{copied, u64_at};
use crate::checks;
use crate::checks::{
    load_governed_config, load_token_of_mint, require_genesis_governance,
    verify_genesis_config_pda, verify_genesis_vault, verify_pda, verify_program, verify_signer,
};
use crate::effects;
use crate::effects::{create_pda_account, invoke, token_transfer, write_account};
use crate::error::ProgramError;
use crate::genesis::GenesisConfig;
use crate::ledger;
use crate::ledger::available_surplus;
use crate::pubkey;
use crate::pubkey::{
    Pubkey, BPF_LOADER, BPF_LOADER_UPGRADEABLE, SQUADS_PROGRAM, SYSTEM_PROGRAM, TOKEN_PROGRAM,
};
use crate::rewards::deposits;
use crate::rewards::withdrawal;
use crate::rewards::withdrawal::sign_as_admin;
use crate::squads;
use crate::squads::{create_ix_data, create_key_seeds, set_config_authority_ix_data};
use crate::system;
use crate::system::clock_slot;
use vstd::prelude::*;

verus! {

/// The pool once its genesis is over.
pub open spec fn finalized(cfg: GenesisConfig) -> GenesisConfig {
    GenesisConfig { finalized: 1, ..cfg }
}

/// Accounts: payer, authority, pool, COIN mint, COIN configuration. No data. A genesis is over once its
/// pool was deployed and its whole supply is minted.
pub open spec fn finalize_genesis_outcome(
    program_id: Pubkey,
    accounts: Seq<Account>,
    data: Seq<u8>,
    coin: CoinAddresses,
) -> Result<Seq<EffectView>, ProgramError> {
    let coin_cfg = checks::genesis_governance(
        accounts[0],
        accounts[1],
        accounts[4],
        coin,
        program_id,
    );
    let cfg = checks::genesis_config_at(
        accounts[2],
        accounts[3].key,
        coin.genesis_cfg,
        program_id,
    );
    if data.len() != 0 {
        Err(ProgramError::InvalidInstructionData)
    } else if accounts.len() < 5 {
        Err(ProgramError::NotEnoughAccountKeys)
    } else if coin_cfg is Err {
        Err(coin_cfg->Err_0)
    } else if cfg is Err {
        Err(cfg->Err_0)
    } else if cfg->Ok_0.kicked != 1 || cfg->Ok_0.minted_supply != cfg->Ok_0.reward_supply {
        Err(ProgramError::InvalidInstructionData)
    } else {
        Ok(seq![effects::write_of(2, finalized(cfg->Ok_0).written(accounts[2].data@))])
    }
}

pub fn finalize_genesis(
    program_id: &Pubkey,
    accounts: &[Account],
    data: &[u8],
    coin: &CoinAddresses,
) -> (r: Result<Vec<Effect>, ProgramError>)
    ensures
        account::outcome(r) == finalize_genesis_outcome(*program_id, accounts@, data@, *coin),
{
    if data.len() != 0 {
        return Err(ProgramError::InvalidInstructionData);
    }
    if accounts.len() < 5 {
        return Err(ProgramError::NotEnoughAccountKeys);
    }
    require_genesis_governance(&accounts[0], &accounts[1], &accounts[4], coin, program_id)?;
    let cfg = verify_genesis_config_pda(
        &accounts[2],
        &accounts[3].key,
        &coin.genesis_cfg,
        program_id,
    )?;
    if !cfg.is_kicked() || cfg.minted_supply != cfg.reward_supply {
        return Err(ProgramError::InvalidInstructionData);
    }
    let mut cfg_data = copied(&accounts[2].data);
    let after = GenesisConfig { finalized: 1, ..cfg };
    after.serialize(&mut cfg_data);
    Ok(only(write_account(2, cfg_data)))
}

pub fn process_finalize_genesis(program_id: &Pubkey, accounts: &[Account], data: &[u8]) -> (r: Result<
    Vec<Effect>,
    ProgramError,
>)
    ensures
        account::outcome(r) == finalize_genesis_outcome(
            *program_id,
            accounts@,
            data@,
            CoinAddresses::of(*program_id, accounts@[3].key),
        ),
{
    if data.len() != 0 {
        return Err(ProgramError::InvalidInstructionData);
    }
    if accounts.len() < 5 {
        return Err(ProgramError::NotEnoughAccountKeys);
    }
    let coin = CoinAddresses::derive(program_id, &accounts[3].key);
    finalize_genesis(program_id, accounts, data, &coin)
}

/// Accounts: payer, authority, pool, COIN mint, COIN configuration, destination, vault, market admin,
/// token program. Data: the amount. What may be drawn is what the vault holds beyond the outstanding
/// principal.
pub open spec fn draw_genesis_surplus_outcome(
    program_id: Pubkey,
    accounts: Seq<Account>,
    data: Seq<u8>,
    coin: CoinAddresses,
) -> Result<Seq<EffectView>, ProgramError> {
    let amount = bytes::u64_of(data.subrange(0, 8));
    let coin_mint = accounts[3].key;
    let coin_cfg = checks::genesis_governance(
        accounts[0],
        accounts[1],
        accounts[4],
        coin,
        program_id,
    );
    let cfg = checks::genesis_config_at(accounts[2], coin_mint, coin.genesis_cfg, program_id);
    let bump = checks::bump_at(accounts[7], coin.market_admin);
    let vault = checks::vault_at(accounts[6], cfg->Ok_0, accounts[7].key, coin.genesis_vault);
    let destination = checks::token_of_mint(accounts[5], cfg->Ok_0.base_mint);
    if accounts.len() < 9 {
        Err(ProgramError::NotEnoughAccountKeys)
    } else if data.len() != 8 || amount == 0 {
        Err(ProgramError::InvalidInstructionData)
    } else if accounts[8].key.bytes != TOKEN_PROGRAM {
        Err(ProgramError::IncorrectProgramId)
    } else if coin_cfg is Err {
        Err(coin_cfg->Err_0)
    } else if cfg is Err {
        Err(cfg->Err_0)
    } else if cfg->Ok_0.finalized != 1 {
        Err(ProgramError::InvalidInstructionData)
    } else if bump is Err {
        Err(bump->Err_0)
    } else if vault is Err {
        Err(vault->Err_0)
    } else if destination is Err {
        Err(destination->Err_0)
    } else if amount > ledger::surplus(cfg->Ok_0, vault->Ok_0.amount) {
        Err(ProgramError::InsufficientFunds)
    } else {
        Ok(
            seq![
                effects::transfer_of(
                    accounts,
                    6,
                    5,
                    7,
                    8,
                    amount,
                    withdrawal::admin_signer(coin_mint, bump->Ok_0),
                ),
            ],
        )
    }
}

pub fn draw_genesis_surplus(
    program_id: &Pubkey,
    accounts: &[Account],
    data: &[u8],
    coin: &CoinAddresses,
) -> (r: Result<Vec<Effect>, ProgramError>)
    ensures
        account::outcome(r) == draw_genesis_surplus_outcome(
            *program_id,
            accounts@,
            data@,
            *coin,
        ),
{
    if accounts.len() < 9 {
        return Err(ProgramError::NotEnoughAccountKeys);
    }
    let coin_mint = accounts[3].key;
    let market_admin = &accounts[7];
    if data.len() != 8 {
        return Err(ProgramError::InvalidInstructionData);
    }
    let amount: u64 = u64_at(data, 0);
    if amount == 0 {
        return Err(ProgramError::InvalidInstructionData);
    }
    verify_program(&accounts[8], &TOKEN_PROGRAM)?;
    require_genesis_governance(&accounts[0], &accounts[1], &accounts[4], coin, program_id)?;
    let cfg = verify_genesis_config_pda(&accounts[2], &coin_mint, &coin.genesis_cfg, program_id)?;
    if !cfg.is_finalized() {
        return Err(ProgramError::InvalidInstructionData);
    }
    let bump: u8 = verify_pda(market_admin, &coin.market_admin)?;
    let vault = verify_genesis_vault(&accounts[6], &cfg, &market_admin.key, &coin.genesis_vault)?;
    load_token_of_mint(&accounts[5], &cfg.base_mint)?;
    if amount > available_surplus(&cfg, vault.amount) {
        return Err(ProgramError::InsufficientFunds);
    }
    let signer = sign_as_admin(&coin_mint, bump);
    Ok(only(token_transfer(accounts, 6, 5, 7, 8, amount, signer)?))
}

pub fn process_draw_genesis_surplus(
    program_id: &Pubkey,
    accounts: &[Account],
    data: &[u8],
) -> (r: Result<Vec<Effect>, ProgramError>)
    ensures
        account::outcome(r) == draw_genesis_surplus_outcome(
            *program_id,
            accounts@,
            data@,
            CoinAddresses::of(*program_id, accounts@[3].key),
        ),
{
    if accounts.len() < 9 {
        return Err(ProgramError::NotEnoughAccountKeys);
    }
    let coin = CoinAddresses::derive(program_id, &accounts[3].key);
    draw_genesis_surplus(program_id, accounts, data, &coin)
}

/// Accounts: payer, authority, COIN mint, COIN configuration, market admin, create-key, Squads program,
/// Squads program configuration, Squads treasury, multisig, system program. No data.
pub open spec fn init_genesis_squads_outcome(
    program_id: Pubkey,
    accounts: Seq<Account>,
    data: Seq<u8>,
    coin: CoinAddresses,
) -> Result<Seq<EffectView>, ProgramError> {
    let coin_cfg = checks::governed_config(accounts[1], accounts[3], coin, program_id);
    if data.len() != 0 {
        Err(ProgramError::InvalidInstructionData)
    } else if accounts.len() < 11 {
        Err(ProgramError::NotEnoughAccountKeys)
    } else if !accounts[0].is_signer {
        Err(ProgramError::MissingRequiredSignature)
    } else if accounts[10].key.bytes != SYSTEM_PROGRAM || accounts[6].key.bytes != SQUADS_PROGRAM {
        Err(ProgramError::IncorrectProgramId)
    } else if coin_cfg is Err {
        Err(coin_cfg->Err_0)
    } else if !addresses::is_at(accounts[4].key, coin.market_admin) || !addresses::is_at(
        accounts[5].key,
        coin.create_key,
    ) || !addresses::is_at(accounts[9].key, coin.multisig) {
        Err(ProgramError::InvalidSeeds)
    } else {
        Ok(
            seq![
                effects::call(
                    Pubkey { bytes: SQUADS_PROGRAM },
                    seq![
                        account::readonly(accounts[7].key, false),
                        account::writable(accounts[8].key, false),
                        account::writable(accounts[9].key, false),
                        account::readonly(accounts[5].key, true),
                        account::writable(accounts[0].key, true),
                        account::readonly(accounts[10].key, false),
                    ],
                    squads::create_data(accounts[4].key),
                    seq![7usize, 8usize, 9usize, 5usize, 0usize, 10usize, 6usize],
                    addresses::signer_seeds(
                        squads::create_key_path(accounts[2].key),
                        coin.create_key->0.bump,
                    ),
                ),
            ],
        )
    }
}

pub fn init_genesis_squads(
    program_id: &Pubkey,
    accounts: &[Account],
    data: &[u8],
    coin: &CoinAddresses,
) -> (r: Result<Vec<Effect>, ProgramError>)
    ensures
        account::outcome(r) == init_genesis_squads_outcome(
            *program_id,
            accounts@,
            data@,
            *coin,
        ),
{
    if data.len() != 0 {
        return Err(ProgramError::InvalidInstructionData);
    }
    if accounts.len() < 11 {
        return Err(ProgramError::NotEnoughAccountKeys);
    }
    verify_signer(&accounts[0])?;
    verify_program(&accounts[10], &SYSTEM_PROGRAM)?;
    verify_program(&accounts[6], &SQUADS_PROGRAM)?;
    load_governed_config(&accounts[1], &accounts[3], coin, program_id)?;
    verify_pda(&accounts[4], &coin.market_admin)?;
    let bump: u8 = verify_pda(&accounts[5], &coin.create_key)?;
    verify_pda(&accounts[9], &coin.multisig)?;
    let metas: Vec<AccountMeta> = vec![
        AccountMeta::new_readonly(accounts[7].key, false),
        AccountMeta::new(accounts[8].key, false),
        AccountMeta::new(accounts[9].key, false),
        AccountMeta::new_readonly(accounts[5].key, true),
        AccountMeta::new(accounts[0].key, true),
        AccountMeta::new_readonly(accounts[10].key, false),
    ];
    let indices: Vec<usize> = vec![7, 8, 9, 5, 0, 10, 6];
    assert(metas@ =~= seq![
        account::readonly(accounts@[7].key, false),
        account::writable(accounts@[8].key, false),
        account::writable(accounts@[9].key, false),
        account::readonly(accounts@[5].key, true),
        account::writable(accounts@[0].key, true),
        account::readonly(accounts@[10].key, false),
    ]);
    assert(indices@ =~= seq![7usize, 8usize, 9usize, 5usize, 0usize, 10usize, 6usize]);
    Ok(
        only(
            invoke(
                Pubkey { bytes: SQUADS_PROGRAM },
                metas,
                create_ix_data(&accounts[4].key),
                indices,
                with_bump(create_key_seeds(&accounts[2].key), bump),
            ),
        ),
    )
}

pub fn process_init_genesis_squads(
    program_id: &Pubkey,
    accounts: &[Account],
    data: &[u8],
) -> (r: Result<Vec<Effect>, ProgramError>)
    ensures
        account::outcome(r) == init_genesis_squads_outcome(
            *program_id,
            accounts@,
            data@,
            CoinAddresses::of(*program_id, accounts@[2].key),
        ),
{
    if data.len() != 0 {
        return Err(ProgramError::InvalidInstructionData);
    }
    if accounts.len() < 11 {
        return Err(ProgramError::NotEnoughAccountKeys);
    }
    let coin = CoinAddresses::derive(program_id, &accounts[2].key);
    init_genesis_squads(program_id, accounts, data, &coin)
}

/// Accounts: payer, authority, COIN mint, COIN configuration, pool, market admin, Squads program,
/// multisig, new config authority. No data. The new authority is somebody, and somebody else.
pub open spec fn handover_genesis_squads_outcome(
    program_id: Pubkey,
    accounts: Seq<Account>,
    data: Seq<u8>,
    coin: CoinAddresses,
) -> Result<Seq<EffectView>, ProgramError> {
    let coin_cfg = checks::governed_config(accounts[1], accounts[3], coin, program_id);
    let cfg = checks::genesis_config_at(
        accounts[4],
        accounts[2].key,
        coin.genesis_cfg,
        program_id,
    );
    let bump = checks::bump_at(accounts[5], coin.market_admin);
    if data.len() != 0 {
        Err(ProgramError::InvalidInstructionData)
    } else if accounts.len() < 9 {
        Err(ProgramError::NotEnoughAccountKeys)
    } else if !accounts[0].is_signer {
        Err(ProgramError::MissingRequiredSignature)
    } else if accounts[6].key.bytes != SQUADS_PROGRAM {
        Err(ProgramError::IncorrectProgramId)
    } else if coin_cfg is Err {
        Err(coin_cfg->Err_0)
    } else if cfg is Err {
        Err(cfg->Err_0)
    } else if cfg->Ok_0.finalized != 1 {
        Err(ProgramError::InvalidInstructionData)
    } else if bump is Err {
        Err(bump->Err_0)
    } else if !addresses::is_at(accounts[7].key, coin.multisig) {
        Err(ProgramError::InvalidSeeds)
    } else if accounts[8].key.bytes == SYSTEM_PROGRAM || accounts[8].key == accounts[5].key {
        Err(ProgramError::InvalidArgument)
    } else {
        Ok(
            seq![
                effects::call(
                    Pubkey { bytes: SQUADS_PROGRAM },
                    seq![
                        account::writable(accounts[7].key, false),
                        account::readonly(accounts[5].key, true),
                        account::readonly(Pubkey { bytes: SQUADS_PROGRAM }, false),
                        account::readonly(Pubkey { bytes: SQUADS_PROGRAM }, false),
                    ],
                    squads::set_config_authority_data(accounts[8].key),
                    seq![7usize, 5usize, 6usize],
                    withdrawal::admin_signer(accounts[2].key, bump->Ok_0),
                ),
            ],
        )
    }
}

pub fn handover_genesis_squads(
    program_id: &Pubkey,
    accounts: &[Account],
    data: &[u8],
    coin: &CoinAddresses,
) -> (r: Result<Vec<Effect>, ProgramError>)
    ensures
        account::outcome(r) == handover_genesis_squads_outcome(
            *program_id,
            accounts@,
            data@,
            *coin,
        ),
{
    if data.len() != 0 {
        return Err(ProgramError::InvalidInstructionData);
    }
    if accounts.len() < 9 {
        return Err(ProgramError::NotEnoughAccountKeys);
    }
    let coin_mint = accounts[2].key;
    let (market_admin, new_authority) = (&accounts[5], &accounts[8]);
    verify_signer(&accounts[0])?;
    verify_program(&accounts[6], &SQUADS_PROGRAM)?;
    load_governed_config(&accounts[1], &accounts[3], coin, program_id)?;
    let cfg = verify_genesis_config_pda(&accounts[4], &coin_mint, &coin.genesis_cfg, program_id)?;
    if !cfg.is_finalized() {
        return Err(ProgramError::InvalidInstructionData);
    }
    let bump: u8 = verify_pda(market_admin, &coin.market_admin)?;
    verify_pda(&accounts[7], &coin.multisig)?;
    if new_authority.key.is_id(&SYSTEM_PROGRAM) || new_authority.key.same(&market_admin.key) {
        return Err(ProgramError::InvalidArgument);
    }
    let metas: Vec<AccountMeta> = vec![
        AccountMeta::new(accounts[7].key, false),
        AccountMeta::new_readonly(market_admin.key, true),
        AccountMeta::new_readonly(Pubkey { bytes: SQUADS_PROGRAM }, false),
        AccountMeta::new_readonly(Pubkey { bytes: SQUADS_PROGRAM }, false),
    ];
    let indices: Vec<usize> = vec![7, 5, 6];
    assert(metas@ =~= seq![
        account::writable(accounts@[7].key, false),
        account::readonly(accounts@[5].key, true),
        account::readonly(Pubkey { bytes: SQUADS_PROGRAM }, false),
        account::readonly(Pubkey { bytes: SQUADS_PROGRAM }, false),
    ]);
    assert(indices@ =~= seq![7usize, 5usize, 6usize]);
    Ok(
        only(
            invoke(
                Pubkey { bytes: SQUADS_PROGRAM },
                metas,
                set_config_authority_ix_data(&new_authority.key),
                indices,
                sign_as_admin(&coin_mint, bump),
            ),
        ),
    )
}

pub fn process_handover_genesis_squads(
    program_id: &Pubkey,
    accounts: &[Account],
    data: &[u8],
) -> (r: Result<Vec<Effect>, ProgramError>)
    ensures
        account::outcome(r) == handover_genesis_squads_outcome(
            *program_id,
            accounts@,
            data@,
            CoinAddresses::of(*program_id, accounts@[2].key),
        ),
{
    if data.len() != 0 {
        return Err(ProgramError::InvalidInstructionData);
    }
    if accounts.len() < 9 {
        return Err(ProgramError::NotEnoughAccountKeys);
    }
    let coin = CoinAddresses::derive(program_id, &accounts[2].key);
    handover_genesis_squads(program_id, accounts, data, &coin)
}

/// A builder program is an executable account that a BPF loader owns.
pub open spec fn builder_ok(program: Account) -> Result<(), ProgramError> {
    if !program.executable {
        Err(ProgramError::InvalidAccountData)
    } else if program.owner.bytes != BPF_LOADER && program.owner.bytes != BPF_LOADER_UPGRADEABLE {
        Err(ProgramError::IllegalOwner)
    } else {
        Ok(())
    }
}

fn check_builder(program: &Account) -> (r: Result<(), ProgramError>)
    ensures
        r == builder_ok(*program),
{
    if !program.executable {
        return Err(ProgramError::InvalidAccountData);
    }
    if !program.owner.is_id(&BPF_LOADER) && !program.owner.is_id(&BPF_LOADER_UPGRADEABLE) {
        return Err(ProgramError::IllegalOwner);
    }
    Ok(())
}

/// Where an approval exists already, it is the one for this builder and this code.
pub open spec fn approval_ok(
    account: Account,
    coin_mint: Pubkey,
    builder_program: Pubkey,
    code_hash: [u8; 32],
    address: Option<Address>,
    program_id: Pubkey,
) -> Result<(), ProgramError> {
    let existing = BuilderApproval::decoded(account.data@);
    if !addresses::is_at(account.key, address) {
        Err(ProgramError::InvalidSeeds)
    } else if deposits::is_absent(account) {
        Ok(())
    } else if account.owner != program_id {
        Err(ProgramError::IllegalOwner)
    } else if existing is Err {
        Err(existing->Err_0)
    } else if existing->Ok_0.coin_mint != coin_mint || existing->Ok_0.builder_program
        != builder_program || existing->Ok_0.code_hash != code_hash {
        Err(ProgramError::InvalidAccountData)
    } else {
        Ok(())
    }
}

fn check_approval(
    account: &Account,
    coin_mint: &Pubkey,
    builder_program: &Pubkey,
    code_hash: &[u8; 32],
    address: &Option<Address>,
    program_id: &Pubkey,
) -> (r: Result<(), ProgramError>)
    ensures
        r == approval_ok(
            *account,
            *coin_mint,
            *builder_program,
            *code_hash,
            *address,
            *program_id,
        ),
        r is Ok && !deposits::is_absent(*account) ==> account.data@.len()
            >= BUILDER_APPROVAL_SIZE,
{
    if !key_is_at(&account.key, address) {
        return Err(ProgramError::InvalidSeeds);
    }
    if account.data.len() == 0 || account.lamports == 0 {
        return Ok(());
    }
    if !account.owner.same(program_id) {
        return Err(ProgramError::IllegalOwner);
    }
    let existing = BuilderApproval::deserialize(&account.data)?;
    let expected = Pubkey { bytes: *code_hash };
    if !existing.coin_mint.same(coin_mint) || !existing.builder_program.same(builder_program)
        || !expected.is_id(&existing.code_hash) {
        return Err(ProgramError::InvalidAccountData);
    }
    Ok(())
}

/// Accounts: payer, authority, COIN mint, COIN configuration, builder program, approval (created if
/// missing), system program, clock. Data: the hash of the code, the hash of the terms, and whether the
/// approval is given or taken back.
pub open spec fn approve_builder_outcome(
    program_id: Pubkey,
    accounts: Seq<Account>,
    data: Seq<u8>,
    coin: CoinAddresses,
    approval_address: Option<Address>,
) -> Result<Seq<EffectView>, ProgramError> {
    let code_hash = pubkey::key_of(data.subrange(0, 32)).bytes;
    let terms_hash = pubkey::key_of(data.subrange(32, 64)).bytes;
    let enabled = data[64];
    let coin_mint = accounts[2].key;
    let builder = accounts[4].key;
    let coin_cfg = checks::genesis_governance(
        accounts[0],
        accounts[1],
        accounts[3],
        coin,
        program_id,
    );
    let builder_check = builder_ok(accounts[4]);
    let existing = approval_ok(
        accounts[5],
        coin_mint,
        builder,
        code_hash,
        approval_address,
        program_id,
    );
    let slot = system::slot_of(accounts[7]);
    let approval = BuilderApproval {
        coin_mint,
        builder_program: builder,
        code_hash,
        terms_hash,
        approved_slot: slot->Ok_0,
        enabled,
    };
    if accounts.len() < 8 {
        Err(ProgramError::NotEnoughAccountKeys)
    } else if data.len() != 65 || enabled > 1 {
        Err(ProgramError::InvalidInstructionData)
    } else if accounts[6].key.bytes != SYSTEM_PROGRAM {
        Err(ProgramError::IncorrectProgramId)
    } else if coin_cfg is Err {
        Err(coin_cfg->Err_0)
    } else if builder_check is Err {
        Err(builder_check->Err_0)
    } else if existing is Err {
        Err(existing->Err_0)
    } else if slot is Err {
        Err(slot->Err_0)
    } else if deposits::is_absent(accounts[5]) {
        Ok(
            seq![
                effects::creation_of(
                    0,
                    5,
                    6,
                    BUILDER_APPROVAL_SIZE as u64,
                    program_id,
                    addresses::signer_seeds(
                        addresses::builder_approval_path(coin_mint, builder, code_hash),
                        approval_address->0.bump,
                    ),
                ),
                effects::write_of(5, approval.encoded()),
            ],
        )
    } else {
        Ok(seq![effects::write_of(5, approval.written(accounts[5].data@))])
    }
}

pub fn approve_builder(
    program_id: &Pubkey,
    accounts: &[Account],
    data: &[u8],
    coin: &CoinAddresses,
    approval_address: &Option<Address>,
) -> (r: Result<Vec<Effect>, ProgramError>)
    ensures
        account::outcome(r) == approve_builder_outcome(
            *program_id,
            accounts@,
            data@,
            *coin,
            *approval_address,
        ),
{
    if accounts.len() < 8 {
        return Err(ProgramError::NotEnoughAccountKeys);
    }
    let coin_mint = accounts[2].key;
    let builder_program = &accounts[4];
    let approval_account = &accounts[5];
    if data.len() != 65 || data[64] > 1 {
        return Err(ProgramError::InvalidInstructionData);
    }
    let code_hash = Pubkey::at(data, 0).bytes;
    let terms_hash = Pubkey::at(data, 32).bytes;
    verify_program(&accounts[6], &SYSTEM_PROGRAM)?;
    require_genesis_governance(&accounts[0], &accounts[1], &accounts[3], coin, program_id)?;
    check_builder(builder_program)?;
    check_approval(
        approval_account,
        &coin_mint,
        &builder_program.key,
        &code_hash,
        approval_address,
        program_id,
    )?;
    let slot: u64 = clock_slot(&accounts[7])?;
    let approval = BuilderApproval {
        coin_mint,
        builder_program: builder_program.key,
        code_hash,
        terms_hash,
        approved_slot: slot,
        enabled: data[64],
    };
    let plan = if approval_account.data.len() == 0 || approval_account.lamports == 0 {
        let bump: u8 = verify_pda(approval_account, approval_address)?;
        let signer = with_bump(
            builder_approval_seeds(&coin_mint, &builder_program.key, &code_hash),
            bump,
        );
        and_then(
            only(create_pda_account(0, 5, 6, BUILDER_APPROVAL_SIZE as u64, *program_id, signer)),
            write_account(5, approval.to_bytes()),
        )
    } else {
        let mut approval_data = copied(&approval_account.data);
        approval.serialize(&mut approval_data);
        only(write_account(5, approval_data))
    };
    assert(account::effect_views(plan@) =~= approve_builder_outcome(
        *program_id,
        accounts@,
        data@,
        *coin,
        *approval_address,
    )->Ok_0);
    Ok(plan)
}

pub fn process_approve_builder(program_id: &Pubkey, accounts: &[Account], data: &[u8]) -> (r: Result<
    Vec<Effect>,
    ProgramError,
>)
    ensures
        account::outcome(r) == approve_builder_outcome(
            *program_id,
            accounts@,
            data@,
            CoinAddresses::of(*program_id, accounts@[2].key),
            addresses::address_of(
                addresses::builder_approval_path(
                    accounts@[2].key,
                    accounts@[4].key,
                    pubkey::key_of(data@.subrange(0, 32)).bytes,
                ),
                *program_id,
            ),
        ),
{
    if accounts.len() < 8 {
        return Err(ProgramError::NotEnoughAccountKeys);
    }
    if data.len() != 65 {
        return Err(ProgramError::InvalidInstructionData);
    }
    let coin = CoinAddresses::derive(program_id, &accounts[2].key);
    let approval_address = find_program_address(
        &builder_approval_seeds(&accounts[2].key, &accounts[4].key, &Pubkey::at(data, 0).bytes),
        program_id,
    );
    approve_builder(program_id, accounts, data, &coin, &approval_address)
}

} // verus!
