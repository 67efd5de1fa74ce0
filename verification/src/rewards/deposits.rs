//! The opening of a genesis pool, and deposits into it.
use crate::account;
use crate::account::{and_then, no_effects, only, Account, Effect, EffectView};
use crate::addresses;
use crate::addresses::{
    find_program_address, genesis_cfg_seeds, genesis_position_seeds, genesis_vault_seeds,
    key_is_at, market_admin_seeds, no_seeds, with_bump, Address, CoinAddresses,
};
use crate::bytes;
use crate::bytes::{copied, u64_at};
use crate::checks;
use crate::checks::{
    ensure_market_admin_account, load_coin_config, load_governed_config, load_mint,
    validate_token_account, verify_genesis_vault, verify_pda, verify_program, verify_signer,
};
use crate::coin::PHASE_LIVE;
use crate::effects;
use crate::effects::{create_pda_account, token_transfer, write_account};
use crate::error::ProgramError;
use crate::genesis::{GenesisConfig, GenesisPosition, GENESIS_CFG_SIZE, GENESIS_POSITION_SIZE};
use crate::ledger;
use crate::pubkey::{Pubkey, SYSTEM_PROGRAM, TOKEN_PROGRAM};
use crate::token;
use crate::token::{initialize_account, TokenAccount, TOKEN_ACCOUNT_LEN};
use vstd::prelude::*;

verus! {

/// A pool that nothing was deposited into yet.
pub open spec fn new_pool(
    coin_mint: Pubkey,
    base_mint: Pubkey,
    token_vault: Pubkey,
    reward_supply: u64,
) -> GenesisConfig {
    GenesisConfig {
        coin_mint,
        base_mint,
        token_vault,
        total_deposited: 0,
        total_withdrawn: 0,
        reward_supply,
        minted_supply: 0,
        finalized: 0,
        kicked: 0,
        total_cast_weight: 0,
        total_voted_principal: 0,
        genesis_market_slab: Pubkey { bytes: SYSTEM_PROGRAM },
    }
}

/// The creation of the market admin's account, where it does not exist yet.
pub open spec fn admin_creation(
    coin_mint: Pubkey,
    payer: usize,
    market_admin: usize,
    system_program: usize,
    admin: (u8, bool),
) -> Seq<EffectView> {
    if admin.1 {
        seq![
            effects::creation_of(
                payer,
                market_admin,
                system_program,
                0,
                Pubkey { bytes: SYSTEM_PROGRAM },
                addresses::signer_seeds(addresses::market_admin_path(coin_mint), admin.0),
            ),
        ]
    } else {
        Seq::empty()
    }
}

pub fn create_market_admin(
    coin_mint: &Pubkey,
    payer: usize,
    market_admin: usize,
    system_program: usize,
    admin: (u8, bool),
) -> (r: Vec<Effect>)
    ensures
        account::effect_views(r@) == admin_creation(
            *coin_mint,
            payer,
            market_admin,
            system_program,
            admin,
        ),
{
    if admin.1 {
        only(
            create_pda_account(
                payer,
                market_admin,
                system_program,
                0,
                Pubkey { bytes: SYSTEM_PROGRAM },
                with_bump(market_admin_seeds(coin_mint), admin.0),
            ),
        )
    } else {
        no_effects()
    }
}

/// The deposit window that the data asks for behind the supply, if it does.
pub open spec fn requested_window(data: Seq<u8>) -> Option<u64> {
    if data.len() == 16 {
        Some(bytes::u64_of(data.subrange(8, 16)))
    } else {
        None
    }
}

/// A window that is asked for is open for some slots, and closes no later than the bootstrap delay.
/// Deposits do not depend on it.
pub open spec fn window_ok(window: Option<u64>, slot: u64, live_after: u64) -> bool {
    match window {
        Some(slots) => 0 < slots && slot + slots <= live_after,
        None => true,
    }
}

fn check_window(data: &[u8], slot: u64, live_after: u64) -> (r: bool)
    requires
        slot < live_after,
    ensures
        r == window_ok(requested_window(data@), slot, live_after),
{
    if data.len() == 16 {
        let slots: u64 = u64_at(data, 8);
        0 < slots && slots <= live_after - slot
    } else {
        true
    }
}

/// Accounts: payer, authority, COIN mint, COIN configuration, base mint, pool (to create), vault (to
/// create), market admin, token program, rent sysvar, system program. Data: the COIN supply that the
/// vote decides on, and optionally a deposit window in slots. Open while the bootstrap delay runs.
pub open spec fn init_genesis_bootstrap_outcome(
    program_id: Pubkey,
    accounts: Seq<Account>,
    data: Seq<u8>,
    slot: u64,
    coin: CoinAddresses,
) -> Result<Seq<EffectView>, ProgramError> {
    let reward_supply = bytes::u64_of(data.subrange(0, 8));
    let coin_mint = accounts[2].key;
    let cfg = checks::governed_config(accounts[1], accounts[3], coin, program_id);
    let base_mint = checks::mint_at(accounts[4]);
    let admin = checks::market_admin_at(accounts[7], coin.market_admin);
    let cfg_bump = checks::bump_at(accounts[5], coin.genesis_cfg);
    let vault_bump = checks::bump_at(accounts[6], coin.genesis_vault);
    if accounts.len() < 11 {
        Err(ProgramError::NotEnoughAccountKeys)
    } else if (data.len() != 8 && data.len() != 16) || reward_supply == 0 {
        Err(ProgramError::InvalidInstructionData)
    } else if !accounts[0].is_signer {
        Err(ProgramError::MissingRequiredSignature)
    } else if accounts[8].key.bytes != TOKEN_PROGRAM || accounts[10].key.bytes != SYSTEM_PROGRAM {
        Err(ProgramError::IncorrectProgramId)
    } else if cfg is Err {
        Err(cfg->Err_0)
    } else if cfg->Ok_0.phase == PHASE_LIVE {
        Err(ProgramError::InvalidInstructionData)
    } else if cfg->Ok_0.live_after() is None {
        Err(ProgramError::InvalidAccountData)
    } else if slot >= cfg->Ok_0.live_after()->0 || !window_ok(
        requested_window(data),
        slot,
        cfg->Ok_0.live_after()->0,
    ) {
        Err(ProgramError::InvalidInstructionData)
    } else if base_mint is Err {
        Err(base_mint->Err_0)
    } else if admin is Err {
        Err(admin->Err_0)
    } else if cfg_bump is Err {
        Err(cfg_bump->Err_0)
    } else if vault_bump is Err {
        Err(vault_bump->Err_0)
    } else {
        Ok(
            admin_creation(coin_mint, 0, 7, 10, admin->Ok_0) + seq![
                effects::creation_of(
                    0,
                    5,
                    10,
                    GENESIS_CFG_SIZE as u64,
                    program_id,
                    addresses::signer_seeds(
                        addresses::genesis_cfg_path(coin_mint),
                        cfg_bump->Ok_0,
                    ),
                ),
                effects::creation_of(
                    0,
                    6,
                    10,
                    TOKEN_ACCOUNT_LEN,
                    Pubkey { bytes: TOKEN_PROGRAM },
                    addresses::signer_seeds(
                        addresses::genesis_vault_path(coin_mint),
                        vault_bump->Ok_0,
                    ),
                ),
                EffectView::Invoke {
                    instruction: token::initialize_account_call(
                        accounts[8].key,
                        accounts[6].key,
                        accounts[4].key,
                        accounts[7].key,
                    )->Ok_0,
                    accounts: seq![6usize, 4usize, 9usize, 8usize],
                    signer: Seq::empty(),
                },
                effects::write_of(
                    5,
                    new_pool(
                        coin_mint,
                        accounts[4].key,
                        accounts[6].key,
                        reward_supply,
                    ).encoded(),
                ),
            ],
        )
    }
}

pub fn init_genesis_bootstrap(
    program_id: &Pubkey,
    accounts: &[Account],
    data: &[u8],
    slot: u64,
    coin: &CoinAddresses,
) -> (r: Result<Vec<Effect>, ProgramError>)
    ensures
        account::outcome(r) == init_genesis_bootstrap_outcome(
            *program_id,
            accounts@,
            data@,
            slot,
            *coin,
        ),
{
    if accounts.len() < 11 {
        return Err(ProgramError::NotEnoughAccountKeys);
    }
    let coin_mint = accounts[2].key;
    let base_mint = &accounts[4];
    let (genesis_cfg, genesis_vault) = (&accounts[5], &accounts[6]);
    let market_admin = &accounts[7];
    if data.len() != 8 && data.len() != 16 {
        return Err(ProgramError::InvalidInstructionData);
    }
    let reward_supply: u64 = u64_at(data, 0);
    if reward_supply == 0 {
        return Err(ProgramError::InvalidInstructionData);
    }
    verify_signer(&accounts[0])?;
    verify_program(&accounts[8], &TOKEN_PROGRAM)?;
    verify_program(&accounts[10], &SYSTEM_PROGRAM)?;
    let cfg = load_governed_config(&accounts[1], &accounts[3], coin, program_id)?;
    if cfg.is_live() {
        return Err(ProgramError::InvalidInstructionData);
    }
    match cfg.bootstrap_start_slot.checked_add(cfg.bootstrap_delay_slots) {
        Some(live_after) => if slot >= live_after || !check_window(data, slot, live_after) {
            return Err(ProgramError::InvalidInstructionData);
        },
        None => return Err(ProgramError::InvalidAccountData),
    }
    load_mint(base_mint)?;
    let admin: (u8, bool) = ensure_market_admin_account(market_admin, &coin.market_admin)?;
    let cfg_bump: u8 = verify_pda(genesis_cfg, &coin.genesis_cfg)?;
    let vault_bump: u8 = verify_pda(genesis_vault, &coin.genesis_vault)?;
    let create_admin = create_market_admin(&coin_mint, 0, 7, 10, admin);
    let create_cfg = create_pda_account(
        0,
        5,
        10,
        GENESIS_CFG_SIZE as u64,
        *program_id,
        with_bump(genesis_cfg_seeds(&coin_mint), cfg_bump),
    );
    let create_vault = create_pda_account(
        0,
        6,
        10,
        TOKEN_ACCOUNT_LEN,
        Pubkey { bytes: TOKEN_PROGRAM },
        with_bump(genesis_vault_seeds(&coin_mint), vault_bump),
    );
    let instruction = initialize_account(
        &accounts[8].key,
        &genesis_vault.key,
        &base_mint.key,
        &market_admin.key,
    )?;
    let indices: Vec<usize> = vec![6, 4, 9, 8];
    assert(indices@ =~= seq![6usize, 4usize, 9usize, 8usize]);
    let init_vault = Effect::Invoke { instruction, accounts: indices, signer: no_seeds() };
    let pool = GenesisConfig {
        coin_mint,
        base_mint: base_mint.key,
        token_vault: genesis_vault.key,
        total_deposited: 0,
        total_withdrawn: 0,
        reward_supply,
        minted_supply: 0,
        finalized: 0,
        kicked: 0,
        total_cast_weight: 0,
        total_voted_principal: 0,
        genesis_market_slab: Pubkey { bytes: SYSTEM_PROGRAM },
    };
    let write_pool = write_account(5, pool.to_bytes());
    let plan = and_then(
        and_then(and_then(and_then(create_admin, create_cfg), create_vault), init_vault),
        write_pool,
    );
    assert(account::effect_views(plan@) =~= init_genesis_bootstrap_outcome(
        *program_id,
        accounts@,
        data@,
        slot,
        *coin,
    )->Ok_0);
    Ok(plan)
}

pub fn process_init_genesis_bootstrap(
    program_id: &Pubkey,
    accounts: &[Account],
    data: &[u8],
    slot: u64,
) -> (r: Result<Vec<Effect>, ProgramError>)
    ensures
        account::outcome(r) == init_genesis_bootstrap_outcome(
            *program_id,
            accounts@,
            data@,
            slot,
            CoinAddresses::of(*program_id, accounts@[2].key),
        ),
{
    if accounts.len() < 11 {
        return Err(ProgramError::NotEnoughAccountKeys);
    }
    let coin = CoinAddresses::derive(program_id, &accounts[2].key);
    init_genesis_bootstrap(program_id, accounts, data, slot, &coin)
}

/// A depositor's position before the first deposit.
pub open spec fn new_position(owner: Pubkey) -> GenesisPosition {
    GenesisPosition {
        owner,
        amount: 0,
        withdrawn: 0,
        start_slot: 0,
        voted_proposal: Pubkey { bytes: SYSTEM_PROGRAM },
        voted_weight: 0,
        voted_principal: 0,
    }
}

/// Whether an account has yet to be created.
pub open spec fn is_absent(account: Account) -> bool {
    account.data@.len() == 0 || account.lamports == 0
}

/// The position that a deposit goes to: a new one where the account has yet to be created.
pub open spec fn position_for(
    account: Account,
    user: Pubkey,
    address: Option<Address>,
    program_id: Pubkey,
) -> Result<GenesisPosition, ProgramError> {
    if addresses::is_at(account.key, address) && is_absent(account) {
        Ok(new_position(user))
    } else {
        checks::position_at(account, user, address, program_id)
    }
}

fn load_or_new_position(
    account: &Account,
    user: &Pubkey,
    address: &Option<Address>,
    program_id: &Pubkey,
) -> (r: Result<GenesisPosition, ProgramError>)
    ensures
        r == position_for(*account, *user, *address, *program_id),
        r is Ok && !is_absent(*account) ==> account.data@.len()
            >= GENESIS_POSITION_SIZE,
{
    if key_is_at(&account.key, address) && (account.data.len() == 0 || account.lamports == 0) {
        return Ok(
            GenesisPosition {
                owner: *user,
                amount: 0,
                withdrawn: 0,
                start_slot: 0,
                voted_proposal: Pubkey { bytes: SYSTEM_PROGRAM },
                voted_weight: 0,
                voted_principal: 0,
            },
        );
    }
    checks::load_position(account, user, address, program_id)
}

/// The pool that a deposit goes to. Deposits are open until the COIN goes live or the pool is
/// deployed.
pub open spec fn open_pool(account: Account, coin_mint: Pubkey, address: Option<Address>) -> Result<
    GenesisConfig,
    ProgramError,
> {
    let cfg = GenesisConfig::decoded(account.data@);
    if cfg is Err {
        cfg
    } else if cfg->Ok_0.coin_mint != coin_mint || !addresses::is_at(account.key, address) {
        Err(ProgramError::InvalidSeeds)
    } else if cfg->Ok_0.finalized == 1 || cfg->Ok_0.kicked == 1 {
        Err(ProgramError::InvalidInstructionData)
    } else {
        cfg
    }
}

fn load_open_pool(account: &Account, coin_mint: &Pubkey, address: &Option<Address>) -> (r: Result<
    GenesisConfig,
    ProgramError,
>)
    ensures
        r == open_pool(*account, *coin_mint, *address),
        r is Ok ==> account.data@.len() >= GENESIS_CFG_SIZE,
{
    let cfg = GenesisConfig::deserialize(&account.data)?;
    if !cfg.coin_mint.same(coin_mint) || !key_is_at(&account.key, address) {
        return Err(ProgramError::InvalidSeeds);
    }
    if cfg.is_finalized() || cfg.is_kicked() {
        return Err(ProgramError::InvalidInstructionData);
    }
    Ok(cfg)
}

/// The vault of the pool, which the COIN's market admin owns.
pub open spec fn coin_vault(vault: Account, cfg: GenesisConfig, coin: CoinAddresses) -> Result<
    TokenAccount,
    ProgramError,
> {
    match coin.market_admin {
        Some(admin) => checks::vault_at(vault, cfg, admin.key, coin.genesis_vault),
        None => Err(ProgramError::InvalidSeeds),
    }
}

fn load_coin_vault(vault: &Account, cfg: &GenesisConfig, coin: &CoinAddresses) -> (r: Result<
    TokenAccount,
    ProgramError,
>)
    ensures
        r == coin_vault(*vault, *cfg, *coin),
{
    match &coin.market_admin {
        Some(admin) => verify_genesis_vault(vault, cfg, &admin.key, &coin.genesis_vault),
        None => Err(ProgramError::InvalidSeeds),
    }
}

/// Accounts: depositor, COIN mint, COIN configuration, pool, position (created if missing),
/// depositor's token account, vault, token program, system program. Data: the amount.
pub open spec fn genesis_deposit_outcome(
    program_id: Pubkey,
    accounts: Seq<Account>,
    data: Seq<u8>,
    slot: u64,
    coin: CoinAddresses,
    position_address: Option<Address>,
) -> Result<Seq<EffectView>, ProgramError> {
    let amount = bytes::u64_of(data.subrange(0, 8));
    let user = accounts[0].key;
    let coin_mint = accounts[1].key;
    let coin_cfg = checks::coin_config_at(accounts[2], coin.coin_cfg, program_id);
    let cfg = open_pool(accounts[3], coin_mint, coin.genesis_cfg);
    let vault = coin_vault(accounts[6], cfg->Ok_0, coin);
    let source = checks::token_owned(accounts[5], cfg->Ok_0.base_mint, user);
    let position = position_for(accounts[4], user, position_address, program_id);
    let after = ledger::deposited(cfg->Ok_0, position->Ok_0, amount, slot);
    if accounts.len() < 9 {
        Err(ProgramError::NotEnoughAccountKeys)
    } else if data.len() != 8 || amount == 0 {
        Err(ProgramError::InvalidInstructionData)
    } else if !accounts[0].is_signer {
        Err(ProgramError::MissingRequiredSignature)
    } else if accounts[7].key.bytes != TOKEN_PROGRAM {
        Err(ProgramError::IncorrectProgramId)
    } else if coin_cfg is Err {
        Err(coin_cfg->Err_0)
    } else if coin_cfg->Ok_0.phase == PHASE_LIVE {
        Err(ProgramError::InvalidInstructionData)
    } else if cfg is Err {
        Err(cfg->Err_0)
    } else if vault is Err {
        Err(vault->Err_0)
    } else if source is Err {
        Err(source->Err_0)
    } else if position is Err {
        Err(position->Err_0)
    } else if after is Err {
        Err(after->Err_0)
    } else {
        let (cfg_after, position_after) = after->Ok_0;
        let creation = if is_absent(accounts[4]) {
            seq![
                effects::creation_of(
                    0,
                    4,
                    8,
                    GENESIS_POSITION_SIZE as u64,
                    program_id,
                    addresses::signer_seeds(
                        addresses::genesis_position_path(accounts[3].key, user),
                        position_address->0.bump,
                    ),
                ),
            ]
        } else {
            Seq::empty()
        };
        Ok(
            creation + seq![
                effects::transfer_of(accounts, 5, 6, 0, 7, amount, Seq::empty()),
                effects::write_of(3, cfg_after.written(accounts[3].data@)),
                effects::write_of(
                    4,
                    if is_absent(accounts[4]) {
                        position_after.encoded()
                    } else {
                        position_after.written(accounts[4].data@)
                    },
                ),
            ],
        )
    }
}

pub fn genesis_deposit(
    program_id: &Pubkey,
    accounts: &[Account],
    data: &[u8],
    slot: u64,
    coin: &CoinAddresses,
    position_address: &Option<Address>,
) -> (r: Result<Vec<Effect>, ProgramError>)
    ensures
        account::outcome(r) == genesis_deposit_outcome(
            *program_id,
            accounts@,
            data@,
            slot,
            *coin,
            *position_address,
        ),
{
    if accounts.len() < 9 {
        return Err(ProgramError::NotEnoughAccountKeys);
    }
    let user = &accounts[0];
    let (genesis_cfg_account, genesis_position) = (&accounts[3], &accounts[4]);
    if data.len() != 8 {
        return Err(ProgramError::InvalidInstructionData);
    }
    let amount: u64 = u64_at(data, 0);
    if amount == 0 {
        return Err(ProgramError::InvalidInstructionData);
    }
    verify_signer(user)?;
    verify_program(&accounts[7], &TOKEN_PROGRAM)?;
    let coin_cfg = load_coin_config(&accounts[2], &coin.coin_cfg, program_id)?;
    if coin_cfg.is_live() {
        return Err(ProgramError::InvalidInstructionData);
    }
    let cfg = load_open_pool(genesis_cfg_account, &accounts[1].key, &coin.genesis_cfg)?;
    load_coin_vault(&accounts[6], &cfg, coin)?;
    validate_token_account(&accounts[5], &cfg.base_mint, &user.key)?;
    let position = load_or_new_position(
        genesis_position,
        &user.key,
        position_address,
        program_id,
    )?;
    let absent: bool = genesis_position.data.len() == 0 || genesis_position.lamports == 0;
    let plan = if absent {
        let bump: u8 = verify_pda(genesis_position, position_address)?;
        only(
            create_pda_account(
                0,
                4,
                8,
                GENESIS_POSITION_SIZE as u64,
                *program_id,
                with_bump(genesis_position_seeds(&genesis_cfg_account.key, &user.key), bump),
            ),
        )
    } else {
        no_effects()
    };
    let transfer = token_transfer(accounts, 5, 6, 0, 7, amount, no_seeds())?;
    let (cfg_after, position_after) = ledger::deposit(&cfg, &position, amount, slot)?;
    let mut cfg_data = copied(&genesis_cfg_account.data);
    cfg_after.serialize(&mut cfg_data);
    let position_data = if absent {
        position_after.to_bytes()
    } else {
        let mut written = copied(&genesis_position.data);
        position_after.serialize(&mut written);
        written
    };
    let plan = and_then(
        and_then(and_then(plan, transfer), write_account(3, cfg_data)),
        write_account(4, position_data),
    );
    assert(account::effect_views(plan@) =~= genesis_deposit_outcome(
        *program_id,
        accounts@,
        data@,
        slot,
        *coin,
        *position_address,
    )->Ok_0);
    Ok(plan)
}

pub fn process_genesis_deposit(
    program_id: &Pubkey,
    accounts: &[Account],
    data: &[u8],
    slot: u64,
) -> (r: Result<Vec<Effect>, ProgramError>)
    ensures
        account::outcome(r) == genesis_deposit_outcome(
            *program_id,
            accounts@,
            data@,
            slot,
            CoinAddresses::of(*program_id, accounts@[1].key),
            addresses::address_of(
                addresses::genesis_position_path(accounts@[3].key, accounts@[0].key),
                *program_id,
            ),
        ),
{
    if accounts.len() < 9 {
        return Err(ProgramError::NotEnoughAccountKeys);
    }
    let coin = CoinAddresses::derive(program_id, &accounts[1].key);
    let position_address = find_program_address(
        &genesis_position_seeds(&accounts[3].key, &accounts[0].key),
        program_id,
    );
    genesis_deposit(program_id, accounts, data, slot, &coin, &position_address)
}

} // verus!
