//! What the handlers ask of the accounts that they are handed.
//!
//! Addresses that a program derives come in as arguments: an account stands at a derived address
//! exactly if its key is that address.
use crate::account::Account;
use crate::addresses;
use crate::addresses::{key_is_at, Address, CoinAddresses};
use crate::coin::{CoinConfig, PHASE_LIVE};
use crate::error::ProgramError;
use crate::genesis::{GenesisConfig, GenesisPosition, GENESIS_CFG_SIZE, GENESIS_POSITION_SIZE};
use crate::governance::GOVERNANCE_PROGRAM;
use crate::percolator_abi;
use crate::percolator_abi::{read_market_config, MarketConfig};
use crate::pubkey::{Pubkey, PERCOLATOR_PROGRAM, SYSTEM_PROGRAM, TOKEN_PROGRAM};
use crate::token;
use crate::token::{unpack_account, unpack_mint, MintState, TokenAccount};
use vstd::prelude::*;

verus! {

/// The account is the program with the given address.
pub open spec fn program_ok(program: Account, id: [u8; 32]) -> Result<(), ProgramError> {
    if program.key.bytes != id {
        Err(ProgramError::IncorrectProgramId)
    } else {
        Ok(())
    }
}

pub fn verify_program(program: &Account, id: &[u8; 32]) -> (r: Result<(), ProgramError>)
    ensures
        r == program_ok(*program, *id),
{
    if !program.key.is_id(id) {
        return Err(ProgramError::IncorrectProgramId);
    }
    Ok(())
}

/// The account signed the transaction.
pub open spec fn signer_ok(account: Account) -> Result<(), ProgramError> {
    if !account.is_signer {
        Err(ProgramError::MissingRequiredSignature)
    } else {
        Ok(())
    }
}

pub fn verify_signer(account: &Account) -> (r: Result<(), ProgramError>)
    ensures
        r == signer_ok(*account),
{
    if !account.is_signer {
        return Err(ProgramError::MissingRequiredSignature);
    }
    Ok(())
}

/// The account is the COIN's governance authority, and the adapter signed for it.
pub open spec fn governance_ok(authority: Account, address: Option<Address>) -> Result<
    (),
    ProgramError,
> {
    if !authority.is_signer {
        Err(ProgramError::MissingRequiredSignature)
    } else if authority.owner.bytes != GOVERNANCE_PROGRAM {
        Err(ProgramError::IllegalOwner)
    } else if !addresses::is_at(authority.key, address) {
        Err(ProgramError::InvalidSeeds)
    } else {
        Ok(())
    }
}

pub fn validate_governance_authority(authority: &Account, address: &Option<Address>) -> (r: Result<
    (),
    ProgramError,
>)
    ensures
        r == governance_ok(*authority, *address),
{
    if !authority.is_signer {
        return Err(ProgramError::MissingRequiredSignature);
    }
    if !authority.owner.is_id(&GOVERNANCE_PROGRAM) {
        return Err(ProgramError::IllegalOwner);
    }
    if !key_is_at(&authority.key, address) {
        return Err(ProgramError::InvalidSeeds);
    }
    Ok(())
}

/// The configuration of the COIN.
pub open spec fn coin_config_at(
    account: Account,
    address: Option<Address>,
    program_id: Pubkey,
) -> Result<CoinConfig, ProgramError> {
    if !addresses::is_at(account.key, address) {
        Err(ProgramError::InvalidSeeds)
    } else if account.owner != program_id {
        Err(ProgramError::IllegalOwner)
    } else {
        CoinConfig::decoded(account.data@)
    }
}

pub fn load_coin_config(
    account: &Account,
    address: &Option<Address>,
    program_id: &Pubkey,
) -> (r: Result<CoinConfig, ProgramError>)
    ensures
        r == coin_config_at(*account, *address, *program_id),
{
    if !key_is_at(&account.key, address) {
        return Err(ProgramError::InvalidSeeds);
    }
    if !account.owner.same(program_id) {
        return Err(ProgramError::IllegalOwner);
    }
    CoinConfig::deserialize(&account.data)
}

/// The configuration of the COIN, on the word of the authority that it names.
pub open spec fn governed_config(
    authority: Account,
    coin_cfg: Account,
    coin: CoinAddresses,
    program_id: Pubkey,
) -> Result<CoinConfig, ProgramError> {
    let governance = governance_ok(authority, coin.governance);
    let cfg = coin_config_at(coin_cfg, coin.coin_cfg, program_id);
    if governance is Err {
        Err(governance->Err_0)
    } else if cfg is Err {
        cfg
    } else if authority.key != cfg->Ok_0.authority {
        Err(ProgramError::MissingRequiredSignature)
    } else {
        cfg
    }
}

pub fn load_governed_config(
    authority: &Account,
    coin_cfg: &Account,
    coin: &CoinAddresses,
    program_id: &Pubkey,
) -> (r: Result<CoinConfig, ProgramError>)
    ensures
        r == governed_config(*authority, *coin_cfg, *coin, *program_id),
{
    validate_governance_authority(authority, &coin.governance)?;
    let cfg = load_coin_config(coin_cfg, &coin.coin_cfg, program_id)?;
    if !authority.key.same(&cfg.authority) {
        return Err(ProgramError::MissingRequiredSignature);
    }
    Ok(cfg)
}

/// The COIN is live.
pub open spec fn live_ok(cfg: CoinConfig) -> Result<(), ProgramError> {
    if cfg.phase != PHASE_LIVE {
        Err(ProgramError::InvalidAccountData)
    } else {
        Ok(())
    }
}

pub fn require_live(cfg: &CoinConfig) -> (r: Result<(), ProgramError>)
    ensures
        r == live_ok(*cfg),
{
    if !cfg.is_live() {
        return Err(ProgramError::InvalidAccountData);
    }
    Ok(())
}

/// The payer signed, and the authority of the COIN agrees; the COIN is live.
pub open spec fn genesis_governance(
    payer: Account,
    authority: Account,
    coin_cfg: Account,
    coin: CoinAddresses,
    program_id: Pubkey,
) -> Result<CoinConfig, ProgramError> {
    let cfg = governed_config(authority, coin_cfg, coin, program_id);
    if !payer.is_signer {
        Err(ProgramError::MissingRequiredSignature)
    } else if cfg is Err {
        cfg
    } else if live_ok(cfg->Ok_0) is Err {
        Err(live_ok(cfg->Ok_0)->Err_0)
    } else {
        cfg
    }
}

pub fn require_genesis_governance(
    payer: &Account,
    authority: &Account,
    coin_cfg: &Account,
    coin: &CoinAddresses,
    program_id: &Pubkey,
) -> (r: Result<CoinConfig, ProgramError>)
    ensures
        r == genesis_governance(*payer, *authority, *coin_cfg, *coin, *program_id),
{
    verify_signer(payer)?;
    let cfg = load_governed_config(authority, coin_cfg, coin, program_id)?;
    require_live(&cfg)?;
    Ok(cfg)
}

/// The pool of the COIN's genesis.
pub open spec fn genesis_config_at(
    account: Account,
    coin_mint: Pubkey,
    address: Option<Address>,
    program_id: Pubkey,
) -> Result<GenesisConfig, ProgramError> {
    let cfg = GenesisConfig::decoded(account.data@);
    if !addresses::is_at(account.key, address) {
        Err(ProgramError::InvalidSeeds)
    } else if account.owner != program_id {
        Err(ProgramError::IllegalOwner)
    } else if cfg is Err {
        cfg
    } else if cfg->Ok_0.coin_mint != coin_mint {
        Err(ProgramError::InvalidAccountData)
    } else {
        cfg
    }
}

pub fn verify_genesis_config_pda(
    account: &Account,
    coin_mint: &Pubkey,
    address: &Option<Address>,
    program_id: &Pubkey,
) -> (r: Result<GenesisConfig, ProgramError>)
    ensures
        r == genesis_config_at(*account, *coin_mint, *address, *program_id),
        r is Ok ==> account.data@.len() >= GENESIS_CFG_SIZE,
{
    if !key_is_at(&account.key, address) {
        return Err(ProgramError::InvalidSeeds);
    }
    if !account.owner.same(program_id) {
        return Err(ProgramError::IllegalOwner);
    }
    let cfg = GenesisConfig::deserialize(&account.data)?;
    if !cfg.coin_mint.same(coin_mint) {
        return Err(ProgramError::InvalidAccountData);
    }
    Ok(cfg)
}

/// A token account.
pub open spec fn token_account_at(account: Account) -> Result<TokenAccount, ProgramError> {
    if account.owner.bytes != TOKEN_PROGRAM {
        Err(ProgramError::IllegalOwner)
    } else if token::token_account_of(account.data@) is Err {
        Err(ProgramError::InvalidAccountData)
    } else {
        token::token_account_of(account.data@)
    }
}

pub fn load_token_account(account: &Account) -> (r: Result<TokenAccount, ProgramError>)
    ensures
        r == token_account_at(*account),
{
    if !account.owner.is_id(&TOKEN_PROGRAM) {
        return Err(ProgramError::IllegalOwner);
    }
    match unpack_account(&account.data) {
        Ok(token) => Ok(token),
        Err(_) => Err(ProgramError::InvalidAccountData),
    }
}

/// A token account of the given mint.
pub open spec fn token_of_mint(account: Account, mint: Pubkey) -> Result<TokenAccount, ProgramError> {
    let token = token_account_at(account);
    if token is Err {
        token
    } else if token->Ok_0.mint != mint {
        Err(ProgramError::InvalidAccountData)
    } else {
        token
    }
}

pub fn load_token_of_mint(account: &Account, mint: &Pubkey) -> (r: Result<TokenAccount, ProgramError>)
    ensures
        r == token_of_mint(*account, *mint),
{
    let token = load_token_account(account)?;
    if !token.mint.same(mint) {
        return Err(ProgramError::InvalidAccountData);
    }
    Ok(token)
}

/// A token account of the given mint that the given owner owns.
pub open spec fn token_owned(account: Account, mint: Pubkey, owner: Pubkey) -> Result<
    TokenAccount,
    ProgramError,
> {
    let token = token_account_at(account);
    if token is Err {
        token
    } else if token->Ok_0.mint != mint || token->Ok_0.owner != owner {
        Err(ProgramError::InvalidAccountData)
    } else {
        token
    }
}

pub fn validate_token_account(account: &Account, mint: &Pubkey, owner: &Pubkey) -> (r: Result<
    TokenAccount,
    ProgramError,
>)
    ensures
        r == token_owned(*account, *mint, *owner),
{
    let token = load_token_account(account)?;
    if !token.mint.same(mint) || !token.owner.same(owner) {
        return Err(ProgramError::InvalidAccountData);
    }
    Ok(token)
}

/// A mint.
pub open spec fn mint_at(account: Account) -> Result<MintState, ProgramError> {
    if account.owner.bytes != TOKEN_PROGRAM {
        Err(ProgramError::IllegalOwner)
    } else {
        token::mint_of(account.data@)
    }
}

pub fn load_mint(account: &Account) -> (r: Result<MintState, ProgramError>)
    ensures
        r == mint_at(*account),
{
    if !account.owner.is_id(&TOKEN_PROGRAM) {
        return Err(ProgramError::IllegalOwner);
    }
    unpack_mint(&account.data)
}

/// The vault of the pool: the token account at its derived address, which the market admin owns.
pub open spec fn vault_at(
    vault: Account,
    cfg: GenesisConfig,
    market_admin: Pubkey,
    address: Option<Address>,
) -> Result<TokenAccount, ProgramError> {
    if !addresses::is_at(vault.key, address) || !addresses::is_at(cfg.token_vault, address) {
        Err(ProgramError::InvalidSeeds)
    } else {
        token_owned(vault, cfg.base_mint, market_admin)
    }
}

pub fn verify_genesis_vault(
    vault: &Account,
    cfg: &GenesisConfig,
    market_admin: &Pubkey,
    address: &Option<Address>,
) -> (r: Result<TokenAccount, ProgramError>)
    ensures
        r == vault_at(*vault, *cfg, *market_admin, *address),
{
    if !key_is_at(&vault.key, address) || !key_is_at(&cfg.token_vault, address) {
        return Err(ProgramError::InvalidSeeds);
    }
    validate_token_account(vault, &cfg.base_mint, market_admin)
}

/// The bump of a derived address, on the account that stands there.
pub open spec fn bump_at(account: Account, address: Option<Address>) -> Result<u8, ProgramError> {
    if !addresses::is_at(account.key, address) {
        Err(ProgramError::InvalidSeeds)
    } else {
        Ok(address->0.bump)
    }
}

pub fn verify_pda(account: &Account, address: &Option<Address>) -> (r: Result<u8, ProgramError>)
    ensures
        r == bump_at(*account, *address),
{
    match address {
        Some(a) => if a.key.same(&account.key) {
            Ok(a.bump)
        } else {
            Err(ProgramError::InvalidSeeds)
        },
        None => Err(ProgramError::InvalidSeeds),
    }
}

/// The bump of the market admin, and whether its account has yet to be created. It is a system
/// account without data.
pub open spec fn market_admin_at(account: Account, address: Option<Address>) -> Result<
    (u8, bool),
    ProgramError,
> {
    if !addresses::is_at(account.key, address) {
        Err(ProgramError::InvalidSeeds)
    } else if account.lamports == 0 {
        Ok((address->0.bump, true))
    } else if account.owner.bytes != SYSTEM_PROGRAM || account.data@.len() != 0 {
        Err(ProgramError::IllegalOwner)
    } else {
        Ok((address->0.bump, false))
    }
}

pub fn ensure_market_admin_account(account: &Account, address: &Option<Address>) -> (r: Result<
    (u8, bool),
    ProgramError,
>)
    ensures
        r == market_admin_at(*account, *address),
{
    let bump: u8 = verify_pda(account, address)?;
    if account.lamports == 0 {
        return Ok((bump, true));
    }
    if !account.owner.is_id(&SYSTEM_PROGRAM) || account.data.len() != 0 {
        return Err(ProgramError::IllegalOwner);
    }
    Ok((bump, false))
}

/// A Percolator market with the given collateral.
pub open spec fn market_at(market_slab: Account, collateral_mint: Pubkey) -> Result<
    MarketConfig,
    ProgramError,
> {
    let config = percolator_abi::market_config_of(market_slab.data@);
    if market_slab.owner.bytes != PERCOLATOR_PROGRAM {
        Err(ProgramError::IllegalOwner)
    } else if config is Err {
        config
    } else if config->Ok_0.collateral_mint != collateral_mint.bytes {
        Err(ProgramError::InvalidAccountData)
    } else {
        config
    }
}

pub fn load_percolator_market_config(market_slab: &Account, collateral_mint: &Pubkey) -> (r: Result<
    MarketConfig,
    ProgramError,
>)
    ensures
        r == market_at(*market_slab, *collateral_mint),
{
    if !market_slab.owner.is_id(&PERCOLATOR_PROGRAM) {
        return Err(ProgramError::IllegalOwner);
    }
    let config = read_market_config(&market_slab.data)?;
    if !collateral_mint.is_id(&config.collateral_mint) {
        return Err(ProgramError::InvalidAccountData);
    }
    Ok(config)
}

/// A market with the given collateral that the market admin controls in every respect.
pub open spec fn controlled_market(
    market_slab: Account,
    collateral_mint: Pubkey,
    market_admin: Pubkey,
) -> Result<(), ProgramError> {
    let config = market_at(market_slab, collateral_mint);
    if config is Err {
        Err(config->Err_0)
    } else if config->Ok_0.admin != market_admin.bytes || config->Ok_0.insurance_authority
        != market_admin.bytes || config->Ok_0.insurance_operator != market_admin.bytes
        || config->Ok_0.backing_bucket_authority != market_admin.bytes {
        Err(ProgramError::InvalidAccountData)
    } else {
        Ok(())
    }
}

pub fn verify_controlled_market(
    market_slab: &Account,
    collateral_mint: &Pubkey,
    market_admin: &Pubkey,
) -> (r: Result<(), ProgramError>)
    ensures
        r == controlled_market(*market_slab, *collateral_mint, *market_admin),
{
    let config = load_percolator_market_config(market_slab, collateral_mint)?;
    if !market_admin.is_id(&config.admin) || !market_admin.is_id(&config.insurance_authority)
        || !market_admin.is_id(&config.insurance_operator) || !market_admin.is_id(
        &config.backing_bucket_authority,
    ) {
        return Err(ProgramError::InvalidAccountData);
    }
    Ok(())
}

/// The token vault of a market, and the authority over it that Percolator derives.
pub open spec fn market_vault_ok(
    percolator_vault: Account,
    percolator_vault_pda: Account,
    collateral_mint: Pubkey,
    address: Option<Address>,
) -> Result<(), ProgramError> {
    let token = token_owned(percolator_vault, collateral_mint, address->0.key);
    if !addresses::is_at(percolator_vault_pda.key, address) {
        Err(ProgramError::InvalidSeeds)
    } else if token is Err {
        Err(token->Err_0)
    } else {
        Ok(())
    }
}

pub fn validate_percolator_vault_accounts(
    percolator_vault: &Account,
    percolator_vault_pda: &Account,
    collateral_mint: &Pubkey,
    address: &Option<Address>,
) -> (r: Result<(), ProgramError>)
    ensures
        r == market_vault_ok(*percolator_vault, *percolator_vault_pda, *collateral_mint, *address),
{
    match address {
        Some(a) => {
            if !a.key.same(&percolator_vault_pda.key) {
                return Err(ProgramError::InvalidSeeds);
            }
            validate_token_account(percolator_vault, collateral_mint, &a.key)?;
            Ok(())
        },
        None => Err(ProgramError::InvalidSeeds),
    }
}

/// The position of a depositor.
pub open spec fn position_at(
    account: Account,
    owner: Pubkey,
    address: Option<Address>,
    program_id: Pubkey,
) -> Result<GenesisPosition, ProgramError> {
    let position = GenesisPosition::decoded(account.data@);
    if !addresses::is_at(account.key, address) {
        Err(ProgramError::InvalidSeeds)
    } else if account.owner != program_id {
        Err(ProgramError::IllegalOwner)
    } else if position is Err {
        position
    } else if position->Ok_0.owner != owner {
        Err(ProgramError::IllegalOwner)
    } else {
        position
    }
}

pub fn load_position(
    account: &Account,
    owner: &Pubkey,
    address: &Option<Address>,
    program_id: &Pubkey,
) -> (r: Result<GenesisPosition, ProgramError>)
    ensures
        r == position_at(*account, *owner, *address, *program_id),
        r is Ok ==> account.data@.len() >= GENESIS_POSITION_SIZE,
{
    if !key_is_at(&account.key, address) {
        return Err(ProgramError::InvalidSeeds);
    }
    if !account.owner.same(program_id) {
        return Err(ProgramError::IllegalOwner);
    }
    let position = GenesisPosition::deserialize(&account.data)?;
    if !position.owner.same(owner) {
        return Err(ProgramError::IllegalOwner);
    }
    Ok(position)
}

} // verus!
