//! A COIN's Percolator markets: their creation and governance, and the deployment of the genesis pool
//! into one of them.
use crate::account;
use crate::account::{
    account_meta_from_info, and_then, only, Account, AccountMeta, Effect, EffectView,
};
use crate::addresses;
use crate::addresses::{key_is_at, percolator_vault_address, Address, CoinAddresses};
use crate::bytes;
use crate::bytes::{copied, u64_at};
use crate::checks;
use crate::checks::{
    ensure_market_admin_account, load_coin_config, load_governed_config, load_mint,
    require_genesis_governance, require_live, validate_percolator_vault_accounts,
    verify_controlled_market, verify_genesis_config_pda, verify_genesis_vault, verify_pda,
    verify_program, verify_signer,
};
use crate::coin::PHASE_LIVE;
use crate::effects;
use crate::effects::{invoke, write_account};
use crate::error::ProgramError;
use crate::genesis::GenesisConfig;
use crate::percolator_abi;
use crate::percolator_abi::{
    backing_top_up_ix_data, genesis_recovery_ix_data, insurance_policy_ix_data,
    insurance_top_up_ix_data, is_locked_tag, percolator_admin_tag_allowed,
    GENESIS_RECOVER_BACKING_EARNINGS, PERC_IX_INIT_MARKET,
};
use crate::pubkey::{Pubkey, PERCOLATOR_PROGRAM, SYSTEM_PROGRAM, TOKEN_PROGRAM};
use crate::rewards::deposits;
use crate::rewards::deposits::create_market_admin;
use crate::rewards::withdrawal;
use crate::rewards::withdrawal::sign_as_admin;
use vstd::prelude::*;

verus! {

/// Accounts: payer, COIN mint, COIN configuration, market admin (created if missing), market,
/// collateral mint, Percolator program, system program. Data: Percolator's own `InitMarket` data. Open
/// to anyone; the market is born under the COIN's market admin.
pub open spec fn init_percolator_market_outcome(
    program_id: Pubkey,
    accounts: Seq<Account>,
    data: Seq<u8>,
    coin: CoinAddresses,
) -> Result<Seq<EffectView>, ProgramError> {
    let coin_mint = accounts[1].key;
    let coin_cfg = checks::coin_config_at(accounts[2], coin.coin_cfg, program_id);
    let admin = checks::market_admin_at(accounts[3], coin.market_admin);
    let collateral = checks::mint_at(accounts[5]);
    if data.len() == 0 || data[0] != PERC_IX_INIT_MARKET {
        Err(ProgramError::InvalidInstructionData)
    } else if accounts.len() < 8 {
        Err(ProgramError::NotEnoughAccountKeys)
    } else if !accounts[0].is_signer {
        Err(ProgramError::MissingRequiredSignature)
    } else if accounts[7].key.bytes != SYSTEM_PROGRAM || accounts[6].key.bytes
        != PERCOLATOR_PROGRAM {
        Err(ProgramError::IncorrectProgramId)
    } else if coin_cfg is Err {
        Err(coin_cfg->Err_0)
    } else if admin is Err {
        Err(admin->Err_0)
    } else if accounts[4].owner.bytes != PERCOLATOR_PROGRAM {
        Err(ProgramError::IllegalOwner)
    } else if collateral is Err {
        Err(collateral->Err_0)
    } else {
        Ok(
            deposits::admin_creation(coin_mint, 0, 3, 7, admin->Ok_0) + seq![
                effects::call(
                    accounts[6].key,
                    seq![
                        account::meta_of(accounts[3], true),
                        account::writable(accounts[4].key, false),
                        account::readonly(accounts[5].key, false),
                    ],
                    data,
                    seq![3usize, 4usize, 5usize, 6usize],
                    withdrawal::admin_signer(coin_mint, admin->Ok_0.0),
                ),
            ],
        )
    }
}

pub fn init_percolator_market(
    program_id: &Pubkey,
    accounts: &[Account],
    data: &[u8],
    coin: &CoinAddresses,
) -> (r: Result<Vec<Effect>, ProgramError>)
    ensures
        account::outcome(r) == init_percolator_market_outcome(
            *program_id,
            accounts@,
            data@,
            *coin,
        ),
{
    if data.len() == 0 || data[0] != PERC_IX_INIT_MARKET {
        return Err(ProgramError::InvalidInstructionData);
    }
    if accounts.len() < 8 {
        return Err(ProgramError::NotEnoughAccountKeys);
    }
    let coin_mint = accounts[1].key;
    let (market_admin, market_slab) = (&accounts[3], &accounts[4]);
    verify_signer(&accounts[0])?;
    verify_program(&accounts[7], &SYSTEM_PROGRAM)?;
    verify_program(&accounts[6], &PERCOLATOR_PROGRAM)?;
    load_coin_config(&accounts[2], &coin.coin_cfg, program_id)?;
    let admin: (u8, bool) = ensure_market_admin_account(market_admin, &coin.market_admin)?;
    if !market_slab.owner.is_id(&PERCOLATOR_PROGRAM) {
        return Err(ProgramError::IllegalOwner);
    }
    load_mint(&accounts[5])?;
    let metas: Vec<AccountMeta> = vec![
        account_meta_from_info(market_admin, true),
        AccountMeta::new(market_slab.key, false),
        AccountMeta::new_readonly(accounts[5].key, false),
    ];
    let indices: Vec<usize> = vec![3, 4, 5, 6];
    assert(metas@ =~= seq![
        account::meta_of(accounts@[3], true),
        account::writable(accounts@[4].key, false),
        account::readonly(accounts@[5].key, false),
    ]);
    assert(indices@ =~= seq![3usize, 4usize, 5usize, 6usize]);
    let init = invoke(
        accounts[6].key,
        metas,
        copied(data),
        indices,
        sign_as_admin(&coin_mint, admin.0),
    );
    let plan = and_then(create_market_admin(&coin_mint, 0, 3, 7, admin), init);
    assert(account::effect_views(plan@) =~= init_percolator_market_outcome(
        *program_id,
        accounts@,
        data@,
        *coin,
    )->Ok_0);
    Ok(plan)
}

pub fn process_init_percolator_market(
    program_id: &Pubkey,
    accounts: &[Account],
    data: &[u8],
) -> (r: Result<Vec<Effect>, ProgramError>)
    ensures
        account::outcome(r) == init_percolator_market_outcome(
            *program_id,
            accounts@,
            data@,
            CoinAddresses::of(*program_id, accounts@[1].key),
        ),
{
    if data.len() == 0 || data[0] != PERC_IX_INIT_MARKET {
        return Err(ProgramError::InvalidInstructionData);
    }
    if accounts.len() < 8 {
        return Err(ProgramError::NotEnoughAccountKeys);
    }
    let coin = CoinAddresses::derive(program_id, &accounts[1].key);
    init_percolator_market(program_id, accounts, data, &coin)
}

/// Some account from index `from` on has the given key.
pub open spec fn mentions(accounts: Seq<Account>, from: int, key: Pubkey) -> bool {
    exists|i: int| from <= i < accounts.len() && (#[trigger] accounts[i]).key == key
}

fn tail_mentions(accounts: &[Account], from: usize, key: &Pubkey) -> (r: bool)
    requires
        from <= accounts@.len(),
    ensures
        r == mentions(accounts@, from as int, *key),
{
    let mut i: usize = from;
    while i < accounts.len()
        invariant
            from <= i <= accounts@.len(),
            forall|j: int| from <= j < i ==> (#[trigger] accounts@[j]).key != *key,
        decreases accounts@.len() - i,
    {
        if accounts[i].key.same(key) {
            return true;
        }
        i = i + 1;
    }
    false
}

/// The genesis market is locked against an instruction that would take it away from under its
/// depositors, from the deployment of the pool until finalization. Where the COIN has no genesis,
/// nothing is locked.
pub open spec fn admin_lock(
    program_id: Pubkey,
    accounts: Seq<Account>,
    tag: u8,
    coin: CoinAddresses,
) -> Result<(), ProgramError> {
    let cfg = checks::genesis_config_at(
        accounts[6],
        accounts[2].key,
        coin.genesis_cfg,
        program_id,
    );
    if !addresses::is_at(accounts[6].key, coin.genesis_cfg) {
        Err(ProgramError::InvalidSeeds)
    } else if accounts[6].owner != program_id {
        Ok(())
    } else if cfg is Err {
        Err(cfg->Err_0)
    } else if percolator_abi::locking_tag(tag) && cfg->Ok_0.kicked == 1 && cfg->Ok_0.finalized != 1
        && mentions(accounts, 7, cfg->Ok_0.genesis_market_slab) {
        Err(ProgramError::InvalidInstructionData)
    } else {
        Ok(())
    }
}

fn check_admin_lock(
    program_id: &Pubkey,
    accounts: &[Account],
    tag: u8,
    coin: &CoinAddresses,
) -> (r: Result<(), ProgramError>)
    requires
        accounts@.len() >= 7,
    ensures
        r == admin_lock(*program_id, accounts@, tag, *coin),
{
    let genesis_cfg = &accounts[6];
    if !key_is_at(&genesis_cfg.key, &coin.genesis_cfg) {
        return Err(ProgramError::InvalidSeeds);
    }
    if !genesis_cfg.owner.same(program_id) {
        return Ok(());
    }
    let cfg = verify_genesis_config_pda(
        genesis_cfg,
        &accounts[2].key,
        &coin.genesis_cfg,
        program_id,
    )?;
    if is_locked_tag(tag) && cfg.is_kicked() && !cfg.is_finalized() && tail_mentions(
        accounts,
        7,
        &cfg.genesis_market_slab,
    ) {
        return Err(ProgramError::InvalidInstructionData);
    }
    Ok(())
}

/// The market admin, and then the accounts from index 7 on as they were handed over.
pub open spec fn admin_metas(accounts: Seq<Account>) -> Seq<AccountMeta> {
    seq![account::meta_of(accounts[4], true)] + Seq::new(
        (accounts.len() - 7) as nat,
        |i: int| account::meta_of(accounts[7 + i], accounts[7 + i].is_signer),
    )
}

/// Their indices, and last that of the Percolator program.
pub open spec fn admin_indices(len: nat) -> Seq<usize> {
    seq![4usize] + Seq::new((len - 7) as nat, |i: int| (7 + i) as usize) + seq![5usize]
}

fn list_admin_accounts(accounts: &[Account]) -> (r: (Vec<AccountMeta>, Vec<usize>))
    requires
        accounts@.len() >= 7,
    ensures
        r.0@ == admin_metas(accounts@),
        r.1@ == admin_indices(accounts@.len()),
{
    let mut metas: Vec<AccountMeta> = Vec::new();
    let mut indices: Vec<usize> = Vec::new();
    metas.push(account_meta_from_info(&accounts[4], true));
    indices.push(4);
    let mut i: usize = 7;
    while i < accounts.len()
        invariant
            7 <= i <= accounts@.len(),
            metas@ =~= seq![account::meta_of(accounts@[4], true)] + Seq::new(
                (i - 7) as nat,
                |j: int| account::meta_of(accounts@[7 + j], accounts@[7 + j].is_signer),
            ),
            indices@ =~= seq![4usize] + Seq::new((i - 7) as nat, |j: int| (7 + j) as usize),
        decreases accounts@.len() - i,
    {
        metas.push(account_meta_from_info(&accounts[i], accounts[i].is_signer));
        indices.push(i);
        i = i + 1;
    }
    indices.push(5);
    assert(indices@ =~= admin_indices(accounts@.len()));
    (metas, indices)
}

/// Accounts: payer, authority, COIN mint, COIN configuration, market admin, Percolator program,
/// genesis pool, and what the Percolator instruction names behind its admin. Data: that instruction's
/// own data.
pub open spec fn percolator_admin_outcome(
    program_id: Pubkey,
    accounts: Seq<Account>,
    data: Seq<u8>,
    coin: CoinAddresses,
) -> Result<Seq<EffectView>, ProgramError> {
    let cfg = checks::governed_config(accounts[1], accounts[3], coin, program_id);
    let bump = checks::bump_at(accounts[4], coin.market_admin);
    let lock = admin_lock(program_id, accounts, data[0], coin);
    if data.len() == 0 || !percolator_abi::admin_tag(data[0]) {
        Err(ProgramError::InvalidInstructionData)
    } else if accounts.len() < 7 {
        Err(ProgramError::NotEnoughAccountKeys)
    } else if !accounts[0].is_signer {
        Err(ProgramError::MissingRequiredSignature)
    } else if accounts[5].key.bytes != PERCOLATOR_PROGRAM {
        Err(ProgramError::IncorrectProgramId)
    } else if cfg is Err {
        Err(cfg->Err_0)
    } else if cfg->Ok_0.phase != PHASE_LIVE {
        Err(ProgramError::InvalidAccountData)
    } else if bump is Err {
        Err(bump->Err_0)
    } else if lock is Err {
        Err(lock->Err_0)
    } else {
        Ok(
            seq![
                effects::call(
                    accounts[5].key,
                    admin_metas(accounts),
                    data,
                    admin_indices(accounts.len()),
                    withdrawal::admin_signer(accounts[2].key, bump->Ok_0),
                ),
            ],
        )
    }
}

pub fn percolator_admin(
    program_id: &Pubkey,
    accounts: &[Account],
    data: &[u8],
    coin: &CoinAddresses,
) -> (r: Result<Vec<Effect>, ProgramError>)
    ensures
        account::outcome(r) == percolator_admin_outcome(*program_id, accounts@, data@, *coin),
{
    if data.len() == 0 || !percolator_admin_tag_allowed(data[0]) {
        return Err(ProgramError::InvalidInstructionData);
    }
    if accounts.len() < 7 {
        return Err(ProgramError::NotEnoughAccountKeys);
    }
    verify_signer(&accounts[0])?;
    verify_program(&accounts[5], &PERCOLATOR_PROGRAM)?;
    let cfg = load_governed_config(&accounts[1], &accounts[3], coin, program_id)?;
    require_live(&cfg)?;
    let bump: u8 = verify_pda(&accounts[4], &coin.market_admin)?;
    check_admin_lock(program_id, accounts, data[0], coin)?;
    let (metas, indices) = list_admin_accounts(accounts);
    let signer = sign_as_admin(&accounts[2].key, bump);
    Ok(only(invoke(accounts[5].key, metas, copied(data), indices, signer)))
}

pub fn process_percolator_admin(program_id: &Pubkey, accounts: &[Account], data: &[u8]) -> (r: Result<
    Vec<Effect>,
    ProgramError,
>)
    ensures
        account::outcome(r) == percolator_admin_outcome(
            *program_id,
            accounts@,
            data@,
            CoinAddresses::of(*program_id, accounts@[2].key),
        ),
{
    if data.len() == 0 || !percolator_admin_tag_allowed(data[0]) {
        return Err(ProgramError::InvalidInstructionData);
    }
    if accounts.len() < 7 {
        return Err(ProgramError::NotEnoughAccountKeys);
    }
    let coin = CoinAddresses::derive(program_id, &accounts[2].key);
    percolator_admin(program_id, accounts, data, &coin)
}

/// The half of the pool that goes into the market's insurance, rounded down.
pub open spec fn insurance_share(total: u64) -> u64 {
    total / 2
}

/// The rest, which backs the market.
pub open spec fn backing_share(total: u64) -> u64 {
    (total - total / 2) as u64
}

/// The market's withdrawal policy is set before the market is funded: only what is deposited under it
/// counts as withdrawable.
pub open spec fn policy_call(accounts: Seq<Account>, signer: Seq<Seq<u8>>) -> EffectView {
    effects::call(
        accounts[10].key,
        seq![
            account::readonly(accounts[5].key, true),
            account::writable(accounts[6].key, false),
        ],
        percolator_abi::policy_data(),
        seq![5usize, 6usize, 10usize],
        signer,
    )
}

/// A top-up of the market out of the vault.
pub open spec fn top_up_call(
    accounts: Seq<Account>,
    data: Seq<u8>,
    signer: Seq<Seq<u8>>,
) -> EffectView {
    effects::call(
        accounts[10].key,
        seq![
            account::readonly(accounts[5].key, true),
            account::writable(accounts[6].key, false),
            account::writable(accounts[7].key, false),
            account::writable(accounts[8].key, false),
            account::readonly(accounts[11].key, false),
        ],
        data,
        seq![5usize, 6usize, 7usize, 8usize, 11usize, 10usize],
        signer,
    )
}

fn set_policy(accounts: &[Account], signer: Vec<Vec<u8>>) -> (r: Effect)
    requires
        accounts@.len() >= 12,
    ensures
        r@ == policy_call(accounts@, account::seed_views(signer@)),
{
    let metas: Vec<AccountMeta> = vec![
        AccountMeta::new_readonly(accounts[5].key, true),
        AccountMeta::new(accounts[6].key, false),
    ];
    let indices: Vec<usize> = vec![5, 6, 10];
    assert(metas@ =~= seq![
        account::readonly(accounts@[5].key, true),
        account::writable(accounts@[6].key, false),
    ]);
    assert(indices@ =~= seq![5usize, 6usize, 10usize]);
    invoke(accounts[10].key, metas, insurance_policy_ix_data(), indices, signer)
}

fn top_up(accounts: &[Account], data: Vec<u8>, signer: Vec<Vec<u8>>) -> (r: Effect)
    requires
        accounts@.len() >= 12,
    ensures
        r@ == top_up_call(accounts@, data@, account::seed_views(signer@)),
{
    let metas: Vec<AccountMeta> = vec![
        AccountMeta::new_readonly(accounts[5].key, true),
        AccountMeta::new(accounts[6].key, false),
        AccountMeta::new(accounts[7].key, false),
        AccountMeta::new(accounts[8].key, false),
        AccountMeta::new_readonly(accounts[11].key, false),
    ];
    let indices: Vec<usize> = vec![5, 6, 7, 8, 11, 10];
    assert(metas@ =~= seq![
        account::readonly(accounts@[5].key, true),
        account::writable(accounts@[6].key, false),
        account::writable(accounts@[7].key, false),
        account::writable(accounts@[8].key, false),
        account::readonly(accounts@[11].key, false),
    ]);
    assert(indices@ =~= seq![5usize, 6usize, 7usize, 8usize, 11usize, 10usize]);
    invoke(accounts[10].key, metas, data, indices, signer)
}

/// The pool once it is deployed into the market at `market_slab`.
pub open spec fn deployed(cfg: GenesisConfig, market_slab: Pubkey) -> GenesisConfig {
    GenesisConfig { kicked: 1, genesis_market_slab: market_slab, ..cfg }
}

/// The deployment of the pool: the policy, the insurance, the backing, and the pool's own record.
pub open spec fn deployment(
    accounts: Seq<Account>,
    cfg: GenesisConfig,
    domain: u8,
    expiry_slot: u64,
    signer: Seq<Seq<u8>>,
) -> Seq<EffectView> {
    let insurance = insurance_share(cfg.total_deposited);
    let backing = backing_share(cfg.total_deposited);
    seq![policy_call(accounts, signer)] + (if insurance > 0 {
        seq![top_up_call(accounts, percolator_abi::insurance_top_up_data(insurance), signer)]
    } else {
        Seq::empty()
    }) + (if backing > 0 {
        seq![
            top_up_call(
                accounts,
                percolator_abi::backing_top_up_data(domain, backing, expiry_slot),
                signer,
            ),
        ]
    } else {
        Seq::empty()
    }) + seq![
        effects::write_of(4, deployed(cfg, accounts[6].key).written(accounts[4].data@)),
    ]
}

/// Accounts: payer, authority, COIN mint, COIN configuration, pool, market admin, market, vault,
/// market vault, its authority, Percolator program, token program. Data: the backing domain and the
/// slot at which the backing expires.
pub open spec fn kickstart_genesis_market_outcome(
    program_id: Pubkey,
    accounts: Seq<Account>,
    data: Seq<u8>,
    coin: CoinAddresses,
    percolator_vault: Option<Address>,
) -> Result<Seq<EffectView>, ProgramError> {
    let domain = data[0];
    let expiry_slot = bytes::u64_of(data.subrange(1, 9));
    let coin_mint = accounts[2].key;
    let admin_key = accounts[5].key;
    let coin_cfg = checks::governed_config(accounts[1], accounts[3], coin, program_id);
    let bump = checks::bump_at(accounts[5], coin.market_admin);
    let cfg = checks::genesis_config_at(accounts[4], coin_mint, coin.genesis_cfg, program_id);
    let vault = checks::vault_at(accounts[7], cfg->Ok_0, admin_key, coin.genesis_vault);
    let market = checks::controlled_market(accounts[6], cfg->Ok_0.base_mint, admin_key);
    let market_vault = checks::market_vault_ok(
        accounts[8],
        accounts[9],
        cfg->Ok_0.base_mint,
        percolator_vault,
    );
    if accounts.len() < 12 {
        Err(ProgramError::NotEnoughAccountKeys)
    } else if data.len() != 9 {
        Err(ProgramError::InvalidInstructionData)
    } else if !accounts[0].is_signer {
        Err(ProgramError::MissingRequiredSignature)
    } else if accounts[11].key.bytes != TOKEN_PROGRAM || accounts[10].key.bytes
        != PERCOLATOR_PROGRAM {
        Err(ProgramError::IncorrectProgramId)
    } else if coin_cfg is Err {
        Err(coin_cfg->Err_0)
    } else if bump is Err {
        Err(bump->Err_0)
    } else if cfg is Err {
        Err(cfg->Err_0)
    } else if cfg->Ok_0.finalized == 1 || cfg->Ok_0.kicked == 1 || cfg->Ok_0.total_deposited == 0 {
        Err(ProgramError::InvalidInstructionData)
    } else if vault is Err {
        Err(vault->Err_0)
    } else if market is Err {
        Err(market->Err_0)
    } else if market_vault is Err {
        Err(market_vault->Err_0)
    } else if vault->Ok_0.amount < cfg->Ok_0.total_deposited {
        Err(ProgramError::InsufficientFunds)
    } else {
        Ok(
            deployment(
                accounts,
                cfg->Ok_0,
                domain,
                expiry_slot,
                withdrawal::admin_signer(coin_mint, bump->Ok_0),
            ),
        )
    }
}

pub fn kickstart_genesis_market(
    program_id: &Pubkey,
    accounts: &[Account],
    data: &[u8],
    coin: &CoinAddresses,
    percolator_vault: &Option<Address>,
) -> (r: Result<Vec<Effect>, ProgramError>)
    ensures
        account::outcome(r) == kickstart_genesis_market_outcome(
            *program_id,
            accounts@,
            data@,
            *coin,
            *percolator_vault,
        ),
{
    if accounts.len() < 12 {
        return Err(ProgramError::NotEnoughAccountKeys);
    }
    let coin_mint = accounts[2].key;
    let (market_admin, market_slab) = (&accounts[5], &accounts[6]);
    if data.len() != 9 {
        return Err(ProgramError::InvalidInstructionData);
    }
    let domain: u8 = data[0];
    let expiry_slot: u64 = u64_at(data, 1);
    verify_signer(&accounts[0])?;
    verify_program(&accounts[11], &TOKEN_PROGRAM)?;
    verify_program(&accounts[10], &PERCOLATOR_PROGRAM)?;
    load_governed_config(&accounts[1], &accounts[3], coin, program_id)?;
    let bump: u8 = verify_pda(market_admin, &coin.market_admin)?;
    let cfg = verify_genesis_config_pda(&accounts[4], &coin_mint, &coin.genesis_cfg, program_id)?;
    if cfg.is_finalized() || cfg.is_kicked() || cfg.total_deposited == 0 {
        return Err(ProgramError::InvalidInstructionData);
    }
    let vault = verify_genesis_vault(&accounts[7], &cfg, &market_admin.key, &coin.genesis_vault)?;
    verify_controlled_market(market_slab, &cfg.base_mint, &market_admin.key)?;
    validate_percolator_vault_accounts(
        &accounts[8],
        &accounts[9],
        &cfg.base_mint,
        percolator_vault,
    )?;
    if vault.amount < cfg.total_deposited {
        return Err(ProgramError::InsufficientFunds);
    }
    let insurance: u64 = cfg.total_deposited / 2;
    let backing: u64 = cfg.total_deposited - insurance;
    let mut plan = only(set_policy(accounts, sign_as_admin(&coin_mint, bump)));
    if insurance > 0 {
        let insurance_data = insurance_top_up_ix_data(insurance);
        plan =
        and_then(plan, top_up(accounts, insurance_data, sign_as_admin(&coin_mint, bump)));
    }
    if backing > 0 {
        let backing_data = backing_top_up_ix_data(domain, backing, expiry_slot);
        plan = and_then(plan, top_up(accounts, backing_data, sign_as_admin(&coin_mint, bump)));
    }
    let mut cfg_data = copied(&accounts[4].data);
    let after = GenesisConfig { kicked: 1, genesis_market_slab: market_slab.key, ..cfg };
    after.serialize(&mut cfg_data);
    plan = and_then(plan, write_account(4, cfg_data));
    assert(account::effect_views(plan@) =~= deployment(
        accounts@,
        cfg,
        domain,
        expiry_slot,
        withdrawal::admin_signer(coin_mint, bump),
    ));
    Ok(plan)
}

pub fn process_kickstart_genesis_market(
    program_id: &Pubkey,
    accounts: &[Account],
    data: &[u8],
) -> (r: Result<Vec<Effect>, ProgramError>)
    ensures
        account::outcome(r) == kickstart_genesis_market_outcome(
            *program_id,
            accounts@,
            data@,
            CoinAddresses::of(*program_id, accounts@[2].key),
            addresses::percolator_vault_of(accounts@[6].key),
        ),
{
    if accounts.len() < 12 {
        return Err(ProgramError::NotEnoughAccountKeys);
    }
    let coin = CoinAddresses::derive(program_id, &accounts[2].key);
    let percolator_vault = percolator_vault_address(&accounts[6].key);
    kickstart_genesis_market(program_id, accounts, data, &coin, &percolator_vault)
}

/// The ledger account that a recovery names: one for backing earnings, and none for the rest.
pub open spec fn ledger_ok(accounts: Seq<Account>, kind: u8) -> Result<(), ProgramError> {
    if kind == GENESIS_RECOVER_BACKING_EARNINGS {
        if accounts.len() < 13 {
            Err(ProgramError::NotEnoughAccountKeys)
        } else if accounts.len() > 13 {
            Err(ProgramError::InvalidInstructionData)
        } else if accounts[12].owner.bytes != PERCOLATOR_PROGRAM {
            Err(ProgramError::IllegalOwner)
        } else {
            Ok(())
        }
    } else if accounts.len() > 12 {
        Err(ProgramError::InvalidInstructionData)
    } else {
        Ok(())
    }
}

fn check_ledger(accounts: &[Account], kind: u8) -> (r: Result<(), ProgramError>)
    ensures
        r == ledger_ok(accounts@, kind),
{
    if kind == GENESIS_RECOVER_BACKING_EARNINGS {
        if accounts.len() < 13 {
            return Err(ProgramError::NotEnoughAccountKeys);
        }
        if accounts.len() > 13 {
            return Err(ProgramError::InvalidInstructionData);
        }
        if !accounts[12].owner.is_id(&PERCOLATOR_PROGRAM) {
            return Err(ProgramError::IllegalOwner);
        }
    } else if accounts.len() > 12 {
        return Err(ProgramError::InvalidInstructionData);
    }
    Ok(())
}

/// A withdrawal from the market into the vault; the ledger, if there is one, stands behind the market.
pub open spec fn recovery_call(
    accounts: Seq<Account>,
    data: Seq<u8>,
    with_ledger: bool,
    signer: Seq<Seq<u8>>,
) -> EffectView {
    effects::call(
        accounts[10].key,
        seq![
            account::readonly(accounts[5].key, true),
            account::writable(accounts[6].key, false),
        ] + (if with_ledger {
            seq![account::writable(accounts[12].key, false)]
        } else {
            Seq::empty()
        }) + seq![
            account::writable(accounts[7].key, false),
            account::writable(accounts[8].key, false),
            account::readonly(accounts[9].key, false),
            account::readonly(accounts[11].key, false),
        ],
        data,
        seq![5usize, 6usize] + (if with_ledger {
            seq![12usize]
        } else {
            Seq::empty()
        }) + seq![7usize, 8usize, 9usize, 11usize, 10usize],
        signer,
    )
}

fn recover(accounts: &[Account], data: Vec<u8>, with_ledger: bool, signer: Vec<Vec<u8>>) -> (r: Effect)
    requires
        accounts@.len() >= 12,
        with_ledger ==> accounts@.len() >= 13,
    ensures
        r@ == recovery_call(accounts@, data@, with_ledger, account::seed_views(signer@)),
{
    let mut metas: Vec<AccountMeta> = Vec::new();
    let mut indices: Vec<usize> = Vec::new();
    metas.push(AccountMeta::new_readonly(accounts[5].key, true));
    metas.push(AccountMeta::new(accounts[6].key, false));
    indices.push(5);
    indices.push(6);
    if with_ledger {
        metas.push(AccountMeta::new(accounts[12].key, false));
        indices.push(12);
    }
    metas.push(AccountMeta::new(accounts[7].key, false));
    metas.push(AccountMeta::new(accounts[8].key, false));
    metas.push(AccountMeta::new_readonly(accounts[9].key, false));
    metas.push(AccountMeta::new_readonly(accounts[11].key, false));
    indices.push(7);
    indices.push(8);
    indices.push(9);
    indices.push(11);
    indices.push(10);
    let effect = invoke(accounts[10].key, metas, data, indices, signer);
    assert(effect@ =~= recovery_call(
        accounts@,
        data@,
        with_ledger,
        account::seed_views(signer@),
    ));
    effect
}

/// Accounts: payer, authority, COIN mint, COIN configuration, pool, market admin, market, vault,
/// market vault, its authority, Percolator program, token program; and, for backing earnings, a ledger.
/// Data: what to recover, the domain and the amount. Open from the deployment of the pool until
/// finalization.
pub open spec fn recover_genesis_market_outcome(
    program_id: Pubkey,
    accounts: Seq<Account>,
    data: Seq<u8>,
    coin: CoinAddresses,
    percolator_vault: Option<Address>,
) -> Result<Seq<EffectView>, ProgramError> {
    let (kind, domain) = (data[0], data[1]);
    let amount = bytes::u64_of(data.subrange(2, 10));
    let coin_mint = accounts[2].key;
    let admin_key = accounts[5].key;
    let coin_cfg = checks::genesis_governance(
        accounts[0],
        accounts[1],
        accounts[3],
        coin,
        program_id,
    );
    let bump = checks::bump_at(accounts[5], coin.market_admin);
    let cfg = checks::genesis_config_at(accounts[4], coin_mint, coin.genesis_cfg, program_id);
    let vault = checks::vault_at(accounts[7], cfg->Ok_0, admin_key, coin.genesis_vault);
    let market = checks::controlled_market(accounts[6], cfg->Ok_0.base_mint, admin_key);
    let market_vault = checks::market_vault_ok(
        accounts[8],
        accounts[9],
        cfg->Ok_0.base_mint,
        percolator_vault,
    );
    let recovery = percolator_abi::recovery_data(kind, domain, amount);
    let ledger = ledger_ok(accounts, kind);
    if accounts.len() < 12 {
        Err(ProgramError::NotEnoughAccountKeys)
    } else if data.len() != 10 {
        Err(ProgramError::InvalidInstructionData)
    } else if accounts[11].key.bytes != TOKEN_PROGRAM || accounts[10].key.bytes
        != PERCOLATOR_PROGRAM {
        Err(ProgramError::IncorrectProgramId)
    } else if coin_cfg is Err {
        Err(coin_cfg->Err_0)
    } else if bump is Err {
        Err(bump->Err_0)
    } else if cfg is Err {
        Err(cfg->Err_0)
    } else if cfg->Ok_0.kicked != 1 || cfg->Ok_0.finalized == 1 {
        Err(ProgramError::InvalidInstructionData)
    } else if vault is Err {
        Err(vault->Err_0)
    } else if market is Err {
        Err(market->Err_0)
    } else if market_vault is Err {
        Err(market_vault->Err_0)
    } else if recovery is Err {
        Err(recovery->Err_0)
    } else if ledger is Err {
        Err(ledger->Err_0)
    } else {
        Ok(
            seq![
                recovery_call(
                    accounts,
                    recovery->Ok_0,
                    kind == GENESIS_RECOVER_BACKING_EARNINGS,
                    withdrawal::admin_signer(coin_mint, bump->Ok_0),
                ),
            ],
        )
    }
}

pub fn recover_genesis_market(
    program_id: &Pubkey,
    accounts: &[Account],
    data: &[u8],
    coin: &CoinAddresses,
    percolator_vault: &Option<Address>,
) -> (r: Result<Vec<Effect>, ProgramError>)
    ensures
        account::outcome(r) == recover_genesis_market_outcome(
            *program_id,
            accounts@,
            data@,
            *coin,
            *percolator_vault,
        ),
{
    if accounts.len() < 12 {
        return Err(ProgramError::NotEnoughAccountKeys);
    }
    let coin_mint = accounts[2].key;
    let market_admin = &accounts[5];
    if data.len() != 10 {
        return Err(ProgramError::InvalidInstructionData);
    }
    let (kind, domain): (u8, u8) = (data[0], data[1]);
    let amount: u64 = u64_at(data, 2);
    verify_program(&accounts[11], &TOKEN_PROGRAM)?;
    verify_program(&accounts[10], &PERCOLATOR_PROGRAM)?;
    require_genesis_governance(&accounts[0], &accounts[1], &accounts[3], coin, program_id)?;
    let bump: u8 = verify_pda(market_admin, &coin.market_admin)?;
    let cfg = verify_genesis_config_pda(&accounts[4], &coin_mint, &coin.genesis_cfg, program_id)?;
    if !cfg.is_kicked() || cfg.is_finalized() {
        return Err(ProgramError::InvalidInstructionData);
    }
    verify_genesis_vault(&accounts[7], &cfg, &market_admin.key, &coin.genesis_vault)?;
    verify_controlled_market(&accounts[6], &cfg.base_mint, &market_admin.key)?;
    validate_percolator_vault_accounts(
        &accounts[8],
        &accounts[9],
        &cfg.base_mint,
        percolator_vault,
    )?;
    let recovery = genesis_recovery_ix_data(kind, domain, amount)?;
    check_ledger(accounts, kind)?;
    let signer = sign_as_admin(&coin_mint, bump);
    Ok(only(recover(accounts, recovery, kind == GENESIS_RECOVER_BACKING_EARNINGS, signer)))
}

pub fn process_recover_genesis_market(
    program_id: &Pubkey,
    accounts: &[Account],
    data: &[u8],
) -> (r: Result<Vec<Effect>, ProgramError>)
    ensures
        account::outcome(r) == recover_genesis_market_outcome(
            *program_id,
            accounts@,
            data@,
            CoinAddresses::of(*program_id, accounts@[2].key),
            addresses::percolator_vault_of(accounts@[6].key),
        ),
{
    if accounts.len() < 12 {
        return Err(ProgramError::NotEnoughAccountKeys);
    }
    let coin = CoinAddresses::derive(program_id, &accounts[2].key);
    let percolator_vault = percolator_vault_address(&accounts[6].key);
    recover_genesis_market(program_id, accounts, data, &coin, &percolator_vault)
}

} // verus!
