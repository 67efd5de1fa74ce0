//! Why an account is refused: the first of its faults, in the order in which they are looked for.
use crate::account::Account;
use crate::addresses::{Address, CoinAddresses};
use crate::checks;
use crate::coin::CoinConfig;
use crate::error::ProgramError;
use crate::genesis::{GenesisConfig, GenesisDistribution, GenesisPosition};
use crate::governance::GOVERNANCE_PROGRAM;
use crate::laws::terms;
use crate::pubkey::{Pubkey, PERCOLATOR_PROGRAM, SYSTEM_PROGRAM, TOKEN_PROGRAM};
use crate::rewards::vote;
use crate::token;
use vstd::prelude::*;

verus! {

/// A fault that was found stays; else there is one unless the condition holds.
pub open spec fn unless(
    fault: Option<ProgramError>,
    holds: bool,
    why: ProgramError,
) -> Option<ProgramError> {
    if fault is Some {
        fault
    } else if holds {
        None
    } else {
        Some(why)
    }
}

/// A fault that was found stays; else the other one counts.
pub open spec fn or_else(fault: Option<ProgramError>, other: Option<ProgramError>) -> Option<
    ProgramError,
> {
    if fault is Some {
        fault
    } else {
        other
    }
}

/// The result is refused exactly where there is a fault, and for that fault.
pub open spec fn refused_for<T>(r: Result<T, ProgramError>, fault: Option<ProgramError>) -> bool {
    &&& r is Err <==> fault is Some
    &&& r is Err ==> r->Err_0 == fault->0
}

/// The account does not stand at the address.
pub open spec fn misplaced(account: Account, address: Option<Address>) -> Option<ProgramError> {
    unless(None, terms::stands(account, address), ProgramError::InvalidSeeds)
}

/// A record of the program: at its place, the program's own, and readable.
pub open spec fn record_fault(
    account: Account,
    address: Option<Address>,
    program_id: Pubkey,
    readable: bool,
) -> Option<ProgramError> {
    let f = misplaced(account, address);
    let f = unless(f, account.owner == program_id, ProgramError::IllegalOwner);
    unless(f, readable, ProgramError::InvalidAccountData)
}

pub open spec fn coin_fault(account: Account, coin: CoinAddresses, program_id: Pubkey) -> Option<
    ProgramError,
> {
    record_fault(
        account,
        coin.coin_cfg,
        program_id,
        CoinConfig::decoded(account.data@) is Ok,
    )
}

pub open spec fn authority_fault(account: Account, coin: CoinAddresses) -> Option<ProgramError> {
    let f = unless(None, account.is_signer, ProgramError::MissingRequiredSignature);
    let f = unless(f, account.owner.bytes == GOVERNANCE_PROGRAM, ProgramError::IllegalOwner);
    or_else(f, misplaced(account, coin.governance))
}

pub open spec fn governed_fault(
    authority: Account,
    coin_cfg: Account,
    coin: CoinAddresses,
    program_id: Pubkey,
) -> Option<ProgramError> {
    let f = or_else(authority_fault(authority, coin), coin_fault(coin_cfg, coin, program_id));
    unless(
        f,
        terms::coin_in(coin_cfg).authority == authority.key,
        ProgramError::MissingRequiredSignature,
    )
}

/// As above, of a live COIN, and with the payer's signature first.
pub open spec fn live_governed_fault(
    payer: Account,
    authority: Account,
    coin_cfg: Account,
    coin: CoinAddresses,
    program_id: Pubkey,
) -> Option<ProgramError> {
    let f = unless(None, payer.is_signer, ProgramError::MissingRequiredSignature);
    let f = or_else(f, governed_fault(authority, coin_cfg, coin, program_id));
    unless(f, terms::live(coin_cfg), ProgramError::InvalidAccountData)
}

pub open spec fn pool_fault(
    account: Account,
    coin_mint: Pubkey,
    coin: CoinAddresses,
    program_id: Pubkey,
) -> Option<ProgramError> {
    let f = record_fault(
        account,
        coin.genesis_cfg,
        program_id,
        GenesisConfig::decoded(account.data@) is Ok,
    );
    unless(
        f,
        terms::pool_in(account).coin_mint == coin_mint,
        ProgramError::InvalidAccountData,
    )
}

pub open spec fn token_fault(account: Account, right: bool) -> Option<ProgramError> {
    let f = unless(None, account.owner.bytes == TOKEN_PROGRAM, ProgramError::IllegalOwner);
    let f = unless(
        f,
        token::token_account_of(account.data@) is Ok,
        ProgramError::InvalidAccountData,
    );
    unless(f, right, ProgramError::InvalidAccountData)
}

pub open spec fn token_for_fault(account: Account, mint: Pubkey) -> Option<ProgramError> {
    token_fault(account, token::token_account_of(account.data@)->Ok_0.mint == mint)
}

pub open spec fn token_by_fault(account: Account, mint: Pubkey, owner: Pubkey) -> Option<
    ProgramError,
> {
    let token = token::token_account_of(account.data@)->Ok_0;
    token_fault(account, token.mint == mint && token.owner == owner)
}

pub open spec fn vault_fault(
    account: Account,
    cfg: GenesisConfig,
    admin: Pubkey,
    coin: CoinAddresses,
) -> Option<ProgramError> {
    let f = misplaced(account, coin.genesis_vault);
    let f = unless(f, cfg.token_vault == account.key, ProgramError::InvalidSeeds);
    or_else(f, token_by_fault(account, cfg.base_mint, admin))
}

/// A mint is refused for what reading it gives.
pub open spec fn mint_fault(account: Account) -> Option<ProgramError> {
    let f = unless(None, account.owner.bytes == TOKEN_PROGRAM, ProgramError::IllegalOwner);
    unless(
        f,
        token::mint_of(account.data@) is Ok,
        token::mint_of(account.data@)->Err_0,
    )
}

pub open spec fn market_fault(market: Account, base_mint: Pubkey, admin: Pubkey) -> Option<
    ProgramError,
> {
    let f = unless(None, market.owner.bytes == PERCOLATOR_PROGRAM, ProgramError::IllegalOwner);
    unless(f, terms::controlled(market, base_mint, admin), ProgramError::InvalidAccountData)
}

pub open spec fn market_vault_fault(
    vault_account: Account,
    vault_authority: Account,
    base_mint: Pubkey,
    address: Option<Address>,
) -> Option<ProgramError> {
    or_else(
        misplaced(vault_authority, address),
        token_by_fault(vault_account, base_mint, vault_authority.key),
    )
}

/// A position of somebody else's is refused as somebody else's account.
pub open spec fn position_fault(
    account: Account,
    owner: Pubkey,
    address: Option<Address>,
    program_id: Pubkey,
) -> Option<ProgramError> {
    let f = record_fault(
        account,
        address,
        program_id,
        GenesisPosition::decoded(account.data@) is Ok,
    );
    unless(f, terms::position_in(account).owner == owner, ProgramError::IllegalOwner)
}

/// The market admin's account: yet to be created, or a system account without data.
pub open spec fn admin_fault(account: Account, coin: CoinAddresses) -> Option<ProgramError> {
    unless(
        misplaced(account, coin.market_admin),
        account.lamports == 0 || (account.owner.bytes == SYSTEM_PROGRAM && account.data@.len()
            == 0),
        ProgramError::IllegalOwner,
    )
}

pub open spec fn candidate_fault(account: Account, pool: Pubkey, program_id: Pubkey) -> Option<
    ProgramError,
> {
    let candidate = GenesisDistribution::decoded(account.data@);
    let f = unless(None, account.owner == program_id, ProgramError::IllegalOwner);
    let f = unless(f, candidate is Ok, ProgramError::InvalidAccountData);
    unless(f, candidate->Ok_0.genesis_cfg == pool, ProgramError::InvalidAccountData)
}

/// Each of the checks that the instructions share refuses for these faults, and for no other reason.
#[verifier::spinoff_prover]
pub proof fn why_records_are_refused(
    account: Account,
    other: Account,
    key: Pubkey,
    address: Option<Address>,
    coin: CoinAddresses,
    program_id: Pubkey,
)
    ensures
        refused_for(
            checks::coin_config_at(account, coin.coin_cfg, program_id),
            coin_fault(account, coin, program_id),
        ),
        refused_for(
            checks::governance_ok(account, coin.governance),
            authority_fault(account, coin),
        ),
        refused_for(
            checks::governed_config(account, other, coin, program_id),
            governed_fault(account, other, coin, program_id),
        ),
        refused_for(
            checks::genesis_config_at(account, key, coin.genesis_cfg, program_id),
            pool_fault(account, key, coin, program_id),
        ),
        refused_for(
            checks::position_at(account, key, address, program_id),
            position_fault(account, key, address, program_id),
        ),
        refused_for(checks::bump_at(account, address), misplaced(account, address)),
        refused_for(
            checks::market_admin_at(account, coin.market_admin),
            admin_fault(account, coin),
        ),
        refused_for(
            vote::candidate_at(account, key, program_id),
            candidate_fault(account, key, program_id),
        ),
{
}

/// The same for the checks with the payer's signature.
pub proof fn why_governance_is_refused(
    payer: Account,
    authority: Account,
    coin_cfg: Account,
    coin: CoinAddresses,
    program_id: Pubkey,
)
    ensures
        refused_for(
            checks::genesis_governance(payer, authority, coin_cfg, coin, program_id),
            live_governed_fault(payer, authority, coin_cfg, coin, program_id),
        ),
{
    why_records_are_refused(authority, coin_cfg, authority.key, None, coin, program_id);
    terms::lemma_governed(authority, coin_cfg, coin, program_id);
}

/// Token accounts, mints and vaults are refused for these faults, and for no other reason.
pub proof fn why_tokens_are_refused(
    account: Account,
    cfg: GenesisConfig,
    mint: Pubkey,
    owner: Pubkey,
    coin: CoinAddresses,
)
    ensures
        refused_for(checks::token_account_at(account), token_fault(account, true)),
        refused_for(checks::token_of_mint(account, mint), token_for_fault(account, mint)),
        refused_for(
            checks::token_owned(account, mint, owner),
            token_by_fault(account, mint, owner),
        ),
        refused_for(checks::mint_at(account), mint_fault(account)),
        refused_for(
            checks::vault_at(account, cfg, owner, coin.genesis_vault),
            vault_fault(account, cfg, owner, coin),
        ),
{
}

/// Markets and their vaults are refused for these faults, and for no other reason.
pub proof fn why_markets_are_refused(
    market: Account,
    vault_account: Account,
    vault_authority: Account,
    base_mint: Pubkey,
    admin: Pubkey,
    address: Option<Address>,
)
    ensures
        refused_for(
            checks::controlled_market(market, base_mint, admin),
            market_fault(market, base_mint, admin),
        ),
        refused_for(
            checks::market_vault_ok(vault_account, vault_authority, base_mint, address),
            market_vault_fault(vault_account, vault_authority, base_mint, address),
        ),
{
    terms::lemma_market(market, vault_account, vault_authority, base_mint, admin, address);
}

} // verus!
