//! The instructions of the adapter. All but one are handed on to the rewards program, signed by the
//! authority of the COIN, if its controller asks for it.
use crate::account;
use crate::account::{
    account_meta_from_info, and_then, no_effects, only, Account, AccountMeta, Effect, EffectView,
};
use crate::addresses;
use crate::addresses::{with_bump, Address};
use crate::bytes::append;
use crate::checks;
use crate::checks::{load_mint, verify_pda, verify_program, verify_signer};
use crate::effects;
use crate::effects::{create_pda_account, invoke, write_account};
use crate::error::ProgramError;
use crate::governance;
use crate::governance::{authority_address, authority_seeds, AuthorityConfig, AUTHORITY_SIZE};
use crate::pubkey::{Pubkey, SYSTEM_PROGRAM};
use crate::rewards;
use vstd::prelude::*;
use vstd::slice::slice_subrange;

verus! {

/// The bump of a COIN's authority, on the word of its controller.
pub open spec fn controller_bump(
    program_id: Pubkey,
    payer: Account,
    authority: Account,
    address: Option<Address>,
) -> Result<u8, ProgramError> {
    let cfg = AuthorityConfig::decoded(authority.data@);
    if !payer.is_signer {
        Err(ProgramError::MissingRequiredSignature)
    } else if !addresses::is_at(authority.key, address) {
        Err(ProgramError::InvalidSeeds)
    } else if authority.owner != program_id {
        Err(ProgramError::IllegalOwner)
    } else if cfg is Err {
        Err(cfg->Err_0)
    } else if cfg->Ok_0.controller != payer.key {
        Err(ProgramError::MissingRequiredSignature)
    } else {
        Ok(address->0.bump)
    }
}

pub fn verify_authority_controller(
    program_id: &Pubkey,
    payer: &Account,
    authority: &Account,
    address: &Option<Address>,
) -> (r: Result<u8, ProgramError>)
    ensures
        r == controller_bump(*program_id, *payer, *authority, *address),
{
    verify_signer(payer)?;
    let bump: u8 = verify_pda(authority, address)?;
    if !authority.owner.same(program_id) {
        return Err(ProgramError::IllegalOwner);
    }
    let cfg = AuthorityConfig::deserialize(&authority.data)?;
    if !cfg.controller.same(&payer.key) {
        return Err(ProgramError::MissingRequiredSignature);
    }
    Ok(bump)
}

/// Accounts: payer, authority (to create), rewards program, COIN mint, system program. The authority is
/// created once, by whoever holds the mint, who becomes its controller.
pub open spec fn init_authority_outcome(
    program_id: Pubkey,
    accounts: Seq<Account>,
    address: Option<Address>,
) -> Result<Seq<EffectView>, ProgramError> {
    let (payer, authority) = (accounts[0], accounts[1]);
    let existing = AuthorityConfig::decoded(authority.data@);
    let mint = checks::mint_at(accounts[3]);
    if accounts.len() < 5 {
        Err(ProgramError::NotEnoughAccountKeys)
    } else if !payer.is_signer {
        Err(ProgramError::MissingRequiredSignature)
    } else if accounts[4].key.bytes != SYSTEM_PROGRAM {
        Err(ProgramError::IncorrectProgramId)
    } else if !addresses::is_at(authority.key, address) {
        Err(ProgramError::InvalidSeeds)
    } else if authority.lamports > 0 {
        if authority.owner != program_id {
            Err(ProgramError::IllegalOwner)
        } else if existing is Err {
            Err(existing->Err_0)
        } else if existing->Ok_0.controller != payer.key {
            Err(ProgramError::MissingRequiredSignature)
        } else {
            Ok(Seq::empty())
        }
    } else if mint is Err {
        Err(mint->Err_0)
    } else if mint->Ok_0.mint_authority != Some(payer.key) {
        Err(ProgramError::MissingRequiredSignature)
    } else {
        Ok(
            seq![
                effects::creation_of(
                    0,
                    1,
                    4,
                    AUTHORITY_SIZE as u64,
                    program_id,
                    addresses::signer_seeds(
                        governance::authority_path(accounts[2].key, accounts[3].key),
                        address->0.bump,
                    ),
                ),
                effects::write_of(1, AuthorityConfig { controller: payer.key }.encoded()),
            ],
        )
    }
}

pub fn init_authority(
    program_id: &Pubkey,
    accounts: &[Account],
    address: &Option<Address>,
) -> (r: Result<Vec<Effect>, ProgramError>)
    ensures
        account::outcome(r) == init_authority_outcome(*program_id, accounts@, *address),
{
    if accounts.len() < 5 {
        return Err(ProgramError::NotEnoughAccountKeys);
    }
    let (payer, authority) = (&accounts[0], &accounts[1]);
    verify_signer(payer)?;
    verify_program(&accounts[4], &SYSTEM_PROGRAM)?;
    let bump: u8 = verify_pda(authority, address)?;
    if authority.lamports > 0 {
        if !authority.owner.same(program_id) {
            return Err(ProgramError::IllegalOwner);
        }
        let existing = AuthorityConfig::deserialize(&authority.data)?;
        if !existing.controller.same(&payer.key) {
            return Err(ProgramError::MissingRequiredSignature);
        }
        return Ok(no_effects());
    }
    let mint = load_mint(&accounts[3])?;
    match mint.mint_authority {
        Some(key) => if !key.same(&payer.key) {
            return Err(ProgramError::MissingRequiredSignature);
        },
        None => return Err(ProgramError::MissingRequiredSignature),
    }
    let signer = with_bump(authority_seeds(&accounts[2].key, &accounts[3].key), bump);
    let create = create_pda_account(0, 1, 4, AUTHORITY_SIZE as u64, *program_id, signer);
    let cfg = AuthorityConfig { controller: payer.key };
    let plan = and_then(only(create), write_account(1, cfg.to_bytes()));
    assert(account::effect_views(plan@) =~= init_authority_outcome(
        *program_id,
        accounts@,
        *address,
    )->Ok_0);
    Ok(plan)
}

pub fn process_init_authority(program_id: &Pubkey, accounts: &[Account]) -> (r: Result<
    Vec<Effect>,
    ProgramError,
>)
    ensures
        account::outcome(r) == init_authority_outcome(
            *program_id,
            accounts@,
            governance::authority_of(accounts@[2].key, accounts@[3].key),
        ),
{
    if accounts.len() < 5 {
        return Err(ProgramError::NotEnoughAccountKeys);
    }
    let address = authority_address(&accounts[2].key, &accounts[3].key);
    init_authority(program_id, accounts, &address)
}

/// The accounts from index 3 on, none of them signing; `flags` says which are writable.
pub open spec fn flagged(accounts: Seq<Account>, flags: Seq<bool>) -> Seq<AccountMeta> {
    Seq::new(
        flags.len(),
        |i: int|
            AccountMeta { pubkey: accounts[3 + i].key, is_signer: false, is_writable: flags[i] },
    )
}

fn flag(accounts: &[Account], flags: &[bool]) -> (r: Vec<AccountMeta>)
    requires
        3 + flags@.len() <= accounts@.len(),
    ensures
        r@ == flagged(accounts@, flags@),
{
    let mut metas: Vec<AccountMeta> = Vec::new();
    let count: usize = accounts.len();
    let mut i: usize = 0;
    while i < flags.len()
        invariant
            i <= flags@.len(),
            3 + flags@.len() <= count == accounts@.len(),
            metas@ =~= flagged(accounts@, flags@).take(i as int),
        decreases flags@.len() - i,
    {
        metas.push(
            AccountMeta {
                pubkey: accounts[3 + i].key,
                is_signer: false,
                is_writable: flags[i],
            },
        );
        i = i + 1;
    }
    assert(flagged(accounts@, flags@).take(i as int) =~= flagged(accounts@, flags@));
    metas
}

/// The accounts that are handed on: the payer, the authority, `count` accounts from index 3 on, and the
/// rewards program itself.
pub open spec fn forwarded_indices(count: nat) -> Seq<usize> {
    seq![0usize, 1usize] + Seq::new(count, |i: int| (3 + i) as usize) + seq![2usize]
}

fn forward_indices(count: usize) -> (r: Vec<usize>)
    requires
        3 + count <= usize::MAX,
    ensures
        r@ == forwarded_indices(count as nat),
{
    let mut indices: Vec<usize> = vec![0, 1];
    let mut i: usize = 0;
    assert(indices@ =~= seq![0usize, 1usize] + Seq::new(0, |j: int| (3 + j) as usize));
    while i < count
        invariant
            i <= count,
            3 + count <= usize::MAX,
            indices@ =~= seq![0usize, 1usize] + Seq::new(i as nat, |j: int| (3 + j) as usize),
        decreases count - i,
    {
        indices.push(3 + i);
        i = i + 1;
    }
    indices.push(2);
    assert(indices@ =~= forwarded_indices(count as nat));
    indices
}

/// The rewards program is called with the payer, the authority, which signs, and `rest`.
pub open spec fn forwarded(
    program_id: Pubkey,
    accounts: Seq<Account>,
    coin_mint: Pubkey,
    rest: Seq<AccountMeta>,
    data: Seq<u8>,
    address: Option<Address>,
) -> Result<Seq<EffectView>, ProgramError> {
    match controller_bump(program_id, accounts[0], accounts[1], address) {
        Err(e) => Err(e),
        Ok(bump) => Ok(
            seq![
                effects::call(
                    accounts[2].key,
                    seq![
                        account::writable(accounts[0].key, true),
                        account::readonly(accounts[1].key, true),
                    ] + rest,
                    data,
                    forwarded_indices(rest.len()),
                    addresses::signer_seeds(
                        governance::authority_path(accounts[2].key, coin_mint),
                        bump,
                    ),
                ),
            ],
        ),
    }
}

fn forward(
    program_id: &Pubkey,
    accounts: &[Account],
    coin_mint: &Pubkey,
    rest: Vec<AccountMeta>,
    data: Vec<u8>,
    address: &Option<Address>,
) -> (r: Result<Vec<Effect>, ProgramError>)
    requires
        3 + rest@.len() <= accounts@.len(),
    ensures
        account::outcome(r) == forwarded(
            *program_id,
            accounts@,
            *coin_mint,
            rest@,
            data@,
            *address,
        ),
{
    let bump: u8 = verify_authority_controller(program_id, &accounts[0], &accounts[1], address)?;
    let indices = forward_indices(rest.len());
    let mut metas: Vec<AccountMeta> = vec![
        AccountMeta::new(accounts[0].key, true),
        AccountMeta::new_readonly(accounts[1].key, true),
    ];
    let ghost tail = rest@;
    let mut rest = rest;
    metas.append(&mut rest);
    assert(metas@ =~= seq![
        account::writable(accounts@[0].key, true),
        account::readonly(accounts@[1].key, true),
    ] + tail);
    let signer = with_bump(authority_seeds(&accounts[2].key, coin_mint), bump);
    Ok(only(invoke(accounts[2].key, metas, data, indices, signer)))
}

/// A tag of the rewards program, and the payload behind it.
fn tagged(tag: u8, payload: &[u8]) -> (r: Vec<u8>)
    ensures
        r@ == seq![tag] + payload@,
{
    let mut data: Vec<u8> = Vec::new();
    data.push(tag);
    append(&mut data, payload);
    data
}

/// A tag of the rewards program on its own.
fn bare(tag: u8) -> (r: Vec<u8>)
    ensures
        r@ == seq![tag],
{
    let mut data: Vec<u8> = Vec::new();
    data.push(tag);
    data
}

/// Accounts: payer, authority, rewards program, COIN mint, COIN configuration, system program. Data:
/// the bootstrap delay.
pub open spec fn init_coin_config_outcome(
    program_id: Pubkey,
    accounts: Seq<Account>,
    data: Seq<u8>,
    address: Option<Address>,
) -> Result<Seq<EffectView>, ProgramError> {
    let bump = controller_bump(program_id, accounts[0], accounts[1], address);
    if accounts.len() < 6 {
        Err(ProgramError::NotEnoughAccountKeys)
    } else if bump is Err {
        Err(bump->Err_0)
    } else if data.len() != 8 {
        Err(ProgramError::InvalidInstructionData)
    } else {
        forwarded(
            program_id,
            accounts,
            accounts[3].key,
            flagged(accounts, seq![false, true, false]),
            seq![rewards::IX_INIT_COIN_CONFIG] + data,
            address,
        )
    }
}

pub fn forward_init_coin_config(
    program_id: &Pubkey,
    accounts: &[Account],
    data: &[u8],
    address: &Option<Address>,
) -> (r: Result<Vec<Effect>, ProgramError>)
    ensures
        account::outcome(r) == init_coin_config_outcome(*program_id, accounts@, data@, *address),
{
    if accounts.len() < 6 {
        return Err(ProgramError::NotEnoughAccountKeys);
    }
    verify_authority_controller(program_id, &accounts[0], &accounts[1], address)?;
    if data.len() != 8 {
        return Err(ProgramError::InvalidInstructionData);
    }
    let rest = flag(accounts, &[false, true, false]);
    let data = tagged(rewards::IX_INIT_COIN_CONFIG, data);
    forward(program_id, accounts, &accounts[3].key, rest, data, address)
}

pub fn process_init_coin_config(
    program_id: &Pubkey,
    accounts: &[Account],
    data: &[u8],
) -> (r: Result<Vec<Effect>, ProgramError>)
    ensures
        account::outcome(r) == init_coin_config_outcome(
            *program_id,
            accounts@,
            data@,
            governance::authority_of(accounts@[2].key, accounts@[3].key),
        ),
{
    if accounts.len() < 6 {
        return Err(ProgramError::NotEnoughAccountKeys);
    }
    let address = authority_address(&accounts[2].key, &accounts[3].key);
    forward_init_coin_config(program_id, accounts, data, &address)
}

/// Accounts: payer, authority, rewards program, COIN mint, COIN configuration, clock. No data.
pub open spec fn activate_live_outcome(
    program_id: Pubkey,
    accounts: Seq<Account>,
    data: Seq<u8>,
    address: Option<Address>,
) -> Result<Seq<EffectView>, ProgramError> {
    if data.len() != 0 {
        Err(ProgramError::InvalidInstructionData)
    } else if accounts.len() < 6 {
        Err(ProgramError::NotEnoughAccountKeys)
    } else {
        forwarded(
            program_id,
            accounts,
            accounts[3].key,
            flagged(accounts, seq![false, true, false]),
            seq![rewards::IX_ACTIVATE_LIVE],
            address,
        )
    }
}

pub fn forward_activate_live(
    program_id: &Pubkey,
    accounts: &[Account],
    data: &[u8],
    address: &Option<Address>,
) -> (r: Result<Vec<Effect>, ProgramError>)
    ensures
        account::outcome(r) == activate_live_outcome(*program_id, accounts@, data@, *address),
{
    if data.len() != 0 {
        return Err(ProgramError::InvalidInstructionData);
    }
    if accounts.len() < 6 {
        return Err(ProgramError::NotEnoughAccountKeys);
    }
    let rest = flag(accounts, &[false, true, false]);
    let data = bare(rewards::IX_ACTIVATE_LIVE);
    forward(program_id, accounts, &accounts[3].key, rest, data, address)
}

pub fn process_activate_live(
    program_id: &Pubkey,
    accounts: &[Account],
    data: &[u8],
) -> (r: Result<Vec<Effect>, ProgramError>)
    ensures
        account::outcome(r) == activate_live_outcome(
            *program_id,
            accounts@,
            data@,
            governance::authority_of(accounts@[2].key, accounts@[3].key),
        ),
{
    if data.len() != 0 {
        return Err(ProgramError::InvalidInstructionData);
    }
    if accounts.len() < 6 {
        return Err(ProgramError::NotEnoughAccountKeys);
    }
    let address = authority_address(&accounts[2].key, &accounts[3].key);
    forward_activate_live(program_id, accounts, data, &address)
}

/// Accounts: payer, authority, rewards program, COIN mint, COIN configuration, destination,
/// mint authority, token program, genesis pool. Data: the amount; what follows it is not handed on.
pub open spec fn mint_reward_outcome(
    program_id: Pubkey,
    accounts: Seq<Account>,
    data: Seq<u8>,
    address: Option<Address>,
) -> Result<Seq<EffectView>, ProgramError> {
    if accounts.len() < 9 {
        Err(ProgramError::NotEnoughAccountKeys)
    } else if data.len() < 8 {
        Err(ProgramError::InvalidInstructionData)
    } else {
        forwarded(
            program_id,
            accounts,
            accounts[3].key,
            flagged(accounts, seq![true, false, true, false, false, false]),
            seq![rewards::IX_MINT_REWARD] + data.subrange(0, 8),
            address,
        )
    }
}

pub fn forward_mint_reward(
    program_id: &Pubkey,
    accounts: &[Account],
    data: &[u8],
    address: &Option<Address>,
) -> (r: Result<Vec<Effect>, ProgramError>)
    ensures
        account::outcome(r) == mint_reward_outcome(*program_id, accounts@, data@, *address),
{
    if accounts.len() < 9 {
        return Err(ProgramError::NotEnoughAccountKeys);
    }
    if data.len() < 8 {
        return Err(ProgramError::InvalidInstructionData);
    }
    let rest = flag(accounts, &[true, false, true, false, false, false]);
    let data = tagged(rewards::IX_MINT_REWARD, slice_subrange(data, 0, 8));
    forward(program_id, accounts, &accounts[3].key, rest, data, address)
}

pub fn process_mint_reward(
    program_id: &Pubkey,
    accounts: &[Account],
    data: &[u8],
) -> (r: Result<Vec<Effect>, ProgramError>)
    ensures
        account::outcome(r) == mint_reward_outcome(
            *program_id,
            accounts@,
            data@,
            governance::authority_of(accounts@[2].key, accounts@[3].key),
        ),
{
    if accounts.len() < 9 {
        return Err(ProgramError::NotEnoughAccountKeys);
    }
    let address = authority_address(&accounts[2].key, &accounts[3].key);
    forward_mint_reward(program_id, accounts, data, &address)
}

/// Accounts: payer, authority, rewards program, COIN mint, COIN configuration, mint authority,
/// new authority, token program. The data is not read.
pub open spec fn transfer_mint_authority_outcome(
    program_id: Pubkey,
    accounts: Seq<Account>,
    address: Option<Address>,
) -> Result<Seq<EffectView>, ProgramError> {
    if accounts.len() < 8 {
        Err(ProgramError::NotEnoughAccountKeys)
    } else {
        forwarded(
            program_id,
            accounts,
            accounts[3].key,
            flagged(accounts, seq![true, false, false, false, false]),
            seq![rewards::IX_TRANSFER_MINT_AUTHORITY],
            address,
        )
    }
}

pub fn forward_transfer_mint_authority(
    program_id: &Pubkey,
    accounts: &[Account],
    address: &Option<Address>,
) -> (r: Result<Vec<Effect>, ProgramError>)
    ensures
        account::outcome(r) == transfer_mint_authority_outcome(*program_id, accounts@, *address),
{
    if accounts.len() < 8 {
        return Err(ProgramError::NotEnoughAccountKeys);
    }
    let rest = flag(accounts, &[true, false, false, false, false]);
    let data = bare(rewards::IX_TRANSFER_MINT_AUTHORITY);
    forward(program_id, accounts, &accounts[3].key, rest, data, address)
}

pub fn process_transfer_mint_authority(
    program_id: &Pubkey,
    accounts: &[Account],
) -> (r: Result<Vec<Effect>, ProgramError>)
    ensures
        account::outcome(r) == transfer_mint_authority_outcome(
            *program_id,
            accounts@,
            governance::authority_of(accounts@[2].key, accounts@[3].key),
        ),
{
    if accounts.len() < 8 {
        return Err(ProgramError::NotEnoughAccountKeys);
    }
    let address = authority_address(&accounts[2].key, &accounts[3].key);
    forward_transfer_mint_authority(program_id, accounts, &address)
}

/// Accounts: payer, authority, rewards program, COIN mint, COIN configuration, base mint,
/// genesis pool, vault, market admin, token program, rent sysvar, system program. Data: the supply.
pub open spec fn init_genesis_bootstrap_outcome(
    program_id: Pubkey,
    accounts: Seq<Account>,
    data: Seq<u8>,
    address: Option<Address>,
) -> Result<Seq<EffectView>, ProgramError> {
    if accounts.len() < 12 {
        Err(ProgramError::NotEnoughAccountKeys)
    } else if data.len() != 8 {
        Err(ProgramError::InvalidInstructionData)
    } else {
        forwarded(
            program_id,
            accounts,
            accounts[3].key,
            flagged(accounts, seq![false, false, false, true, true, true, false, false, false]),
            seq![rewards::IX_INIT_GENESIS_BOOTSTRAP] + data,
            address,
        )
    }
}

pub fn forward_init_genesis_bootstrap(
    program_id: &Pubkey,
    accounts: &[Account],
    data: &[u8],
    address: &Option<Address>,
) -> (r: Result<Vec<Effect>, ProgramError>)
    ensures
        account::outcome(r) == init_genesis_bootstrap_outcome(
            *program_id,
            accounts@,
            data@,
            *address,
        ),
{
    if accounts.len() < 12 {
        return Err(ProgramError::NotEnoughAccountKeys);
    }
    if data.len() != 8 {
        return Err(ProgramError::InvalidInstructionData);
    }
    let rest = flag(accounts, &[false, false, false, true, true, true, false, false, false]);
    let data = tagged(rewards::IX_INIT_GENESIS_BOOTSTRAP, data);
    forward(program_id, accounts, &accounts[3].key, rest, data, address)
}

pub fn process_init_genesis_bootstrap(
    program_id: &Pubkey,
    accounts: &[Account],
    data: &[u8],
) -> (r: Result<Vec<Effect>, ProgramError>)
    ensures
        account::outcome(r) == init_genesis_bootstrap_outcome(
            *program_id,
            accounts@,
            data@,
            governance::authority_of(accounts@[2].key, accounts@[3].key),
        ),
{
    if accounts.len() < 12 {
        return Err(ProgramError::NotEnoughAccountKeys);
    }
    let address = authority_address(&accounts[2].key, &accounts[3].key);
    forward_init_genesis_bootstrap(program_id, accounts, data, &address)
}

/// Accounts: payer, authority, rewards program, genesis pool, COIN mint, COIN configuration.
/// No data.
pub open spec fn finalize_genesis_outcome(
    program_id: Pubkey,
    accounts: Seq<Account>,
    data: Seq<u8>,
    address: Option<Address>,
) -> Result<Seq<EffectView>, ProgramError> {
    if data.len() != 0 {
        Err(ProgramError::InvalidInstructionData)
    } else if accounts.len() < 6 {
        Err(ProgramError::NotEnoughAccountKeys)
    } else {
        forwarded(
            program_id,
            accounts,
            accounts[4].key,
            flagged(accounts, seq![true, false, false]),
            seq![rewards::IX_FINALIZE_GENESIS],
            address,
        )
    }
}

pub fn forward_finalize_genesis(
    program_id: &Pubkey,
    accounts: &[Account],
    data: &[u8],
    address: &Option<Address>,
) -> (r: Result<Vec<Effect>, ProgramError>)
    ensures
        account::outcome(r) == finalize_genesis_outcome(*program_id, accounts@, data@, *address),
{
    if data.len() != 0 {
        return Err(ProgramError::InvalidInstructionData);
    }
    if accounts.len() < 6 {
        return Err(ProgramError::NotEnoughAccountKeys);
    }
    let rest = flag(accounts, &[true, false, false]);
    let data = bare(rewards::IX_FINALIZE_GENESIS);
    forward(program_id, accounts, &accounts[4].key, rest, data, address)
}

pub fn process_finalize_genesis(
    program_id: &Pubkey,
    accounts: &[Account],
    data: &[u8],
) -> (r: Result<Vec<Effect>, ProgramError>)
    ensures
        account::outcome(r) == finalize_genesis_outcome(
            *program_id,
            accounts@,
            data@,
            governance::authority_of(accounts@[2].key, accounts@[4].key),
        ),
{
    if data.len() != 0 {
        return Err(ProgramError::InvalidInstructionData);
    }
    if accounts.len() < 6 {
        return Err(ProgramError::NotEnoughAccountKeys);
    }
    let address = authority_address(&accounts[2].key, &accounts[4].key);
    forward_finalize_genesis(program_id, accounts, data, &address)
}

/// Accounts: payer, authority, rewards program, genesis pool, COIN mint, COIN configuration,
/// destination, vault, market admin, token program. Data: the amount.
pub open spec fn draw_genesis_surplus_outcome(
    program_id: Pubkey,
    accounts: Seq<Account>,
    data: Seq<u8>,
    address: Option<Address>,
) -> Result<Seq<EffectView>, ProgramError> {
    if accounts.len() < 10 {
        Err(ProgramError::NotEnoughAccountKeys)
    } else if data.len() != 8 {
        Err(ProgramError::InvalidInstructionData)
    } else {
        forwarded(
            program_id,
            accounts,
            accounts[4].key,
            flagged(accounts, seq![false, false, false, true, true, false, false]),
            seq![rewards::IX_DRAW_GENESIS_SURPLUS] + data,
            address,
        )
    }
}

pub fn forward_draw_genesis_surplus(
    program_id: &Pubkey,
    accounts: &[Account],
    data: &[u8],
    address: &Option<Address>,
) -> (r: Result<Vec<Effect>, ProgramError>)
    ensures
        account::outcome(r) == draw_genesis_surplus_outcome(
            *program_id,
            accounts@,
            data@,
            *address,
        ),
{
    if accounts.len() < 10 {
        return Err(ProgramError::NotEnoughAccountKeys);
    }
    if data.len() != 8 {
        return Err(ProgramError::InvalidInstructionData);
    }
    let rest = flag(accounts, &[false, false, false, true, true, false, false]);
    let data = tagged(rewards::IX_DRAW_GENESIS_SURPLUS, data);
    forward(program_id, accounts, &accounts[4].key, rest, data, address)
}

pub fn process_draw_genesis_surplus(
    program_id: &Pubkey,
    accounts: &[Account],
    data: &[u8],
) -> (r: Result<Vec<Effect>, ProgramError>)
    ensures
        account::outcome(r) == draw_genesis_surplus_outcome(
            *program_id,
            accounts@,
            data@,
            governance::authority_of(accounts@[2].key, accounts@[4].key),
        ),
{
    if accounts.len() < 10 {
        return Err(ProgramError::NotEnoughAccountKeys);
    }
    let address = authority_address(&accounts[2].key, &accounts[4].key);
    forward_draw_genesis_surplus(program_id, accounts, data, &address)
}

/// Accounts: payer, authority, rewards program, COIN mint, COIN configuration, genesis pool,
/// market admin, market, vault, market vault, its authority, Percolator program, token program. Data:
/// the backing domain and the slot at which the backing expires.
pub open spec fn kickstart_genesis_market_outcome(
    program_id: Pubkey,
    accounts: Seq<Account>,
    data: Seq<u8>,
    address: Option<Address>,
) -> Result<Seq<EffectView>, ProgramError> {
    if accounts.len() < 13 {
        Err(ProgramError::NotEnoughAccountKeys)
    } else if data.len() != 9 {
        Err(ProgramError::InvalidInstructionData)
    } else {
        forwarded(
            program_id,
            accounts,
            accounts[3].key,
            flagged(accounts, seq![false, false, true, false, true, true, true, false, false, false]),
            seq![rewards::IX_KICKSTART_GENESIS_MARKET] + data,
            address,
        )
    }
}

pub fn forward_kickstart_genesis_market(
    program_id: &Pubkey,
    accounts: &[Account],
    data: &[u8],
    address: &Option<Address>,
) -> (r: Result<Vec<Effect>, ProgramError>)
    ensures
        account::outcome(r) == kickstart_genesis_market_outcome(
            *program_id,
            accounts@,
            data@,
            *address,
        ),
{
    if accounts.len() < 13 {
        return Err(ProgramError::NotEnoughAccountKeys);
    }
    if data.len() != 9 {
        return Err(ProgramError::InvalidInstructionData);
    }
    let rest = flag(accounts, &[false, false, true, false, true, true, true, false, false, false]);
    let data = tagged(rewards::IX_KICKSTART_GENESIS_MARKET, data);
    forward(program_id, accounts, &accounts[3].key, rest, data, address)
}

pub fn process_kickstart_genesis_market(
    program_id: &Pubkey,
    accounts: &[Account],
    data: &[u8],
) -> (r: Result<Vec<Effect>, ProgramError>)
    ensures
        account::outcome(r) == kickstart_genesis_market_outcome(
            *program_id,
            accounts@,
            data@,
            governance::authority_of(accounts@[2].key, accounts@[3].key),
        ),
{
    if accounts.len() < 13 {
        return Err(ProgramError::NotEnoughAccountKeys);
    }
    let address = authority_address(&accounts[2].key, &accounts[3].key);
    forward_kickstart_genesis_market(program_id, accounts, data, &address)
}

/// Accounts: payer, authority, rewards program, COIN mint, COIN configuration, builder
/// program, approval, system program, clock. Data: the hash of the code, the hash of the terms, and a
/// flag.
pub open spec fn approve_builder_outcome(
    program_id: Pubkey,
    accounts: Seq<Account>,
    data: Seq<u8>,
    address: Option<Address>,
) -> Result<Seq<EffectView>, ProgramError> {
    if accounts.len() < 9 {
        Err(ProgramError::NotEnoughAccountKeys)
    } else if data.len() != 65 || data[64] > 1 {
        Err(ProgramError::InvalidInstructionData)
    } else {
        forwarded(
            program_id,
            accounts,
            accounts[3].key,
            flagged(accounts, seq![false, false, false, true, false, false]),
            seq![rewards::IX_APPROVE_BUILDER] + data,
            address,
        )
    }
}

pub fn forward_approve_builder(
    program_id: &Pubkey,
    accounts: &[Account],
    data: &[u8],
    address: &Option<Address>,
) -> (r: Result<Vec<Effect>, ProgramError>)
    ensures
        account::outcome(r) == approve_builder_outcome(*program_id, accounts@, data@, *address),
{
    if accounts.len() < 9 {
        return Err(ProgramError::NotEnoughAccountKeys);
    }
    if data.len() != 65 || data[64] > 1 {
        return Err(ProgramError::InvalidInstructionData);
    }
    let rest = flag(accounts, &[false, false, false, true, false, false]);
    let data = tagged(rewards::IX_APPROVE_BUILDER, data);
    forward(program_id, accounts, &accounts[3].key, rest, data, address)
}

pub fn process_approve_builder(
    program_id: &Pubkey,
    accounts: &[Account],
    data: &[u8],
) -> (r: Result<Vec<Effect>, ProgramError>)
    ensures
        account::outcome(r) == approve_builder_outcome(
            *program_id,
            accounts@,
            data@,
            governance::authority_of(accounts@[2].key, accounts@[3].key),
        ),
{
    if accounts.len() < 9 {
        return Err(ProgramError::NotEnoughAccountKeys);
    }
    let address = authority_address(&accounts[2].key, &accounts[3].key);
    forward_approve_builder(program_id, accounts, data, &address)
}

/// Accounts: payer, authority, rewards program, COIN mint, COIN configuration, market admin,
/// create-key, Squads program, Squads program configuration, Squads treasury, multisig, system program.
/// No data.
pub open spec fn init_genesis_squads_outcome(
    program_id: Pubkey,
    accounts: Seq<Account>,
    data: Seq<u8>,
    address: Option<Address>,
) -> Result<Seq<EffectView>, ProgramError> {
    if data.len() != 0 {
        Err(ProgramError::InvalidInstructionData)
    } else if accounts.len() < 12 {
        Err(ProgramError::NotEnoughAccountKeys)
    } else {
        forwarded(
            program_id,
            accounts,
            accounts[3].key,
            flagged(accounts, seq![false, false, false, false, false, false, true, true, false]),
            seq![rewards::IX_INIT_GENESIS_SQUADS],
            address,
        )
    }
}

pub fn forward_init_genesis_squads(
    program_id: &Pubkey,
    accounts: &[Account],
    data: &[u8],
    address: &Option<Address>,
) -> (r: Result<Vec<Effect>, ProgramError>)
    ensures
        account::outcome(r) == init_genesis_squads_outcome(
            *program_id,
            accounts@,
            data@,
            *address,
        ),
{
    if data.len() != 0 {
        return Err(ProgramError::InvalidInstructionData);
    }
    if accounts.len() < 12 {
        return Err(ProgramError::NotEnoughAccountKeys);
    }
    let rest = flag(accounts, &[false, false, false, false, false, false, true, true, false]);
    let data = bare(rewards::IX_INIT_GENESIS_SQUADS);
    forward(program_id, accounts, &accounts[3].key, rest, data, address)
}

pub fn process_init_genesis_squads(
    program_id: &Pubkey,
    accounts: &[Account],
    data: &[u8],
) -> (r: Result<Vec<Effect>, ProgramError>)
    ensures
        account::outcome(r) == init_genesis_squads_outcome(
            *program_id,
            accounts@,
            data@,
            governance::authority_of(accounts@[2].key, accounts@[3].key),
        ),
{
    if data.len() != 0 {
        return Err(ProgramError::InvalidInstructionData);
    }
    if accounts.len() < 12 {
        return Err(ProgramError::NotEnoughAccountKeys);
    }
    let address = authority_address(&accounts[2].key, &accounts[3].key);
    forward_init_genesis_squads(program_id, accounts, data, &address)
}

/// Accounts: payer, authority, rewards program, COIN mint, COIN configuration, genesis pool,
/// market admin, Squads program, multisig, new config authority. No data.
pub open spec fn handover_genesis_squads_outcome(
    program_id: Pubkey,
    accounts: Seq<Account>,
    data: Seq<u8>,
    address: Option<Address>,
) -> Result<Seq<EffectView>, ProgramError> {
    if data.len() != 0 {
        Err(ProgramError::InvalidInstructionData)
    } else if accounts.len() < 10 {
        Err(ProgramError::NotEnoughAccountKeys)
    } else {
        forwarded(
            program_id,
            accounts,
            accounts[3].key,
            flagged(accounts, seq![false, false, false, false, false, true, false]),
            seq![rewards::IX_HANDOVER_GENESIS_SQUADS],
            address,
        )
    }
}

pub fn forward_handover_genesis_squads(
    program_id: &Pubkey,
    accounts: &[Account],
    data: &[u8],
    address: &Option<Address>,
) -> (r: Result<Vec<Effect>, ProgramError>)
    ensures
        account::outcome(r) == handover_genesis_squads_outcome(
            *program_id,
            accounts@,
            data@,
            *address,
        ),
{
    if data.len() != 0 {
        return Err(ProgramError::InvalidInstructionData);
    }
    if accounts.len() < 10 {
        return Err(ProgramError::NotEnoughAccountKeys);
    }
    let rest = flag(accounts, &[false, false, false, false, false, true, false]);
    let data = bare(rewards::IX_HANDOVER_GENESIS_SQUADS);
    forward(program_id, accounts, &accounts[3].key, rest, data, address)
}

pub fn process_handover_genesis_squads(
    program_id: &Pubkey,
    accounts: &[Account],
    data: &[u8],
) -> (r: Result<Vec<Effect>, ProgramError>)
    ensures
        account::outcome(r) == handover_genesis_squads_outcome(
            *program_id,
            accounts@,
            data@,
            governance::authority_of(accounts@[2].key, accounts@[3].key),
        ),
{
    if data.len() != 0 {
        return Err(ProgramError::InvalidInstructionData);
    }
    if accounts.len() < 10 {
        return Err(ProgramError::NotEnoughAccountKeys);
    }
    let address = authority_address(&accounts[2].key, &accounts[3].key);
    forward_handover_genesis_squads(program_id, accounts, data, &address)
}

/// The accounts of a recovery: the ten that it always names, and those behind them, writable.
pub open spec fn recovery_flags(len: nat) -> Seq<bool> {
    seq![false, false, false, false, true, true, true, false, false, false] + Seq::new(
        (len - 13) as nat,
        |i: int| true,
    )
}

/// Accounts: payer, authority, rewards program, COIN mint, COIN configuration, genesis pool, market
/// admin, market, vault, market vault, its authority, Percolator program, token program, and what the
/// recovery names behind them. Data: what to recover, the domain and the amount.
pub open spec fn recover_genesis_market_outcome(
    program_id: Pubkey,
    accounts: Seq<Account>,
    data: Seq<u8>,
    address: Option<Address>,
) -> Result<Seq<EffectView>, ProgramError> {
    if accounts.len() < 13 {
        Err(ProgramError::NotEnoughAccountKeys)
    } else if data.len() != 10 {
        Err(ProgramError::InvalidInstructionData)
    } else {
        forwarded(
            program_id,
            accounts,
            accounts[3].key,
            flagged(accounts, recovery_flags(accounts.len())),
            seq![rewards::IX_RECOVER_GENESIS_MARKET] + data,
            address,
        )
    }
}

pub fn forward_recover_genesis_market(
    program_id: &Pubkey,
    accounts: &[Account],
    data: &[u8],
    address: &Option<Address>,
) -> (r: Result<Vec<Effect>, ProgramError>)
    ensures
        account::outcome(r) == recover_genesis_market_outcome(
            *program_id,
            accounts@,
            data@,
            *address,
        ),
{
    if accounts.len() < 13 {
        return Err(ProgramError::NotEnoughAccountKeys);
    }
    if data.len() != 10 {
        return Err(ProgramError::InvalidInstructionData);
    }
    let mut flags: Vec<bool> = vec![
        false, false, false, false, true, true, true, false, false, false,
    ];
    assert(flags@ =~= recovery_flags(13));
    let mut i: usize = 13;
    while i < accounts.len()
        invariant
            13 <= i <= accounts@.len(),
            flags@ == recovery_flags(i as nat),
        decreases accounts@.len() - i,
    {
        flags.push(true);
        i = i + 1;
        assert(flags@ =~= recovery_flags(i as nat));
    }
    let rest = flag(accounts, &flags);
    let data = tagged(rewards::IX_RECOVER_GENESIS_MARKET, data);
    forward(program_id, accounts, &accounts[3].key, rest, data, address)
}

pub fn process_recover_genesis_market(
    program_id: &Pubkey,
    accounts: &[Account],
    data: &[u8],
) -> (r: Result<Vec<Effect>, ProgramError>)
    ensures
        account::outcome(r) == recover_genesis_market_outcome(
            *program_id,
            accounts@,
            data@,
            governance::authority_of(accounts@[2].key, accounts@[3].key),
        ),
{
    if accounts.len() < 13 {
        return Err(ProgramError::NotEnoughAccountKeys);
    }
    let address = authority_address(&accounts[2].key, &accounts[3].key);
    forward_recover_genesis_market(program_id, accounts, data, &address)
}

/// The accounts of a market instruction: the market admin as it was handed over, four more that are
/// read, and then what the Percolator instruction names, as it was handed over.
pub open spec fn admin_rest(accounts: Seq<Account>) -> Seq<AccountMeta> {
    seq![
        account::readonly(accounts[3].key, false),
        account::readonly(accounts[4].key, false),
        account::meta_of(accounts[5], false),
        account::readonly(accounts[6].key, false),
        account::readonly(accounts[7].key, false),
    ] + Seq::new(
        (accounts.len() - 8) as nat,
        |i: int| account::meta_of(accounts[8 + i], accounts[8 + i].is_signer),
    )
}

fn list_admin_rest(accounts: &[Account]) -> (r: Vec<AccountMeta>)
    requires
        accounts@.len() >= 8,
    ensures
        r@ == admin_rest(accounts@),
{
    let mut metas: Vec<AccountMeta> = vec![
        AccountMeta::new_readonly(accounts[3].key, false),
        AccountMeta::new_readonly(accounts[4].key, false),
        account_meta_from_info(&accounts[5], false),
        AccountMeta::new_readonly(accounts[6].key, false),
        AccountMeta::new_readonly(accounts[7].key, false),
    ];
    let mut i: usize = 8;
    assert(admin_rest(accounts@).take(5) =~= metas@);
    while i < accounts.len()
        invariant
            8 <= i <= accounts@.len(),
            metas@ =~= admin_rest(accounts@).take(i - 3),
        decreases accounts@.len() - i,
    {
        metas.push(account_meta_from_info(&accounts[i], accounts[i].is_signer));
        i = i + 1;
    }
    assert(admin_rest(accounts@).take(i - 3) =~= admin_rest(accounts@));
    metas
}

/// Accounts: payer, authority, rewards program, COIN mint, COIN configuration, market admin, Percolator
/// program, genesis pool, and what the Percolator instruction names. Data: that instruction's own.
pub open spec fn percolator_admin_outcome(
    program_id: Pubkey,
    accounts: Seq<Account>,
    data: Seq<u8>,
    address: Option<Address>,
) -> Result<Seq<EffectView>, ProgramError> {
    if data.len() == 0 {
        Err(ProgramError::InvalidInstructionData)
    } else if accounts.len() < 8 {
        Err(ProgramError::NotEnoughAccountKeys)
    } else {
        forwarded(
            program_id,
            accounts,
            accounts[3].key,
            admin_rest(accounts),
            seq![rewards::IX_PERCOLATOR_ADMIN] + data,
            address,
        )
    }
}

pub fn forward_percolator_admin(
    program_id: &Pubkey,
    accounts: &[Account],
    data: &[u8],
    address: &Option<Address>,
) -> (r: Result<Vec<Effect>, ProgramError>)
    ensures
        account::outcome(r) == percolator_admin_outcome(
            *program_id,
            accounts@,
            data@,
            *address,
        ),
{
    if data.len() == 0 {
        return Err(ProgramError::InvalidInstructionData);
    }
    if accounts.len() < 8 {
        return Err(ProgramError::NotEnoughAccountKeys);
    }
    let rest = list_admin_rest(accounts);
    let data = tagged(rewards::IX_PERCOLATOR_ADMIN, data);
    forward(program_id, accounts, &accounts[3].key, rest, data, address)
}

pub fn process_percolator_admin(program_id: &Pubkey, accounts: &[Account], data: &[u8]) -> (r: Result<
    Vec<Effect>,
    ProgramError,
>)
    ensures
        account::outcome(r) == percolator_admin_outcome(
            *program_id,
            accounts@,
            data@,
            governance::authority_of(accounts@[2].key, accounts@[3].key),
        ),
{
    if data.len() == 0 {
        return Err(ProgramError::InvalidInstructionData);
    }
    if accounts.len() < 8 {
        return Err(ProgramError::NotEnoughAccountKeys);
    }
    let address = authority_address(&accounts[2].key, &accounts[3].key);
    forward_percolator_admin(program_id, accounts, data, &address)
}

} // verus!
