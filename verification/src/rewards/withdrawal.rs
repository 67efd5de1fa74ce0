//! Leaving a genesis pool.
//!
//! Principal can be taken out at any time, and taking it out forfeits the vote. Where it comes from
//! depends on how far the genesis is: out of the vault before the pool is deployed, back out of the
//! market while it is, and out of the vault again, pro rata if the market lost money, once the genesis
//! is finalized. Taking it out of the market takes two steps: the market is asked for the funds first,
//! and what arrived in the vault is paid out then.
use crate::account;
use crate::account::{and_then, no_effects, Account, AccountMeta, Effect, EffectView};
use crate::addresses;
use crate::addresses::{
    find_program_address, genesis_position_seeds, market_admin_seeds, percolator_vault_address,
    with_bump, Address, CoinAddresses,
};
use crate::bytes;
use crate::bytes::{copied, u64_at};
use crate::checks;
use crate::checks::{
    load_coin_config, load_position, load_token_account, validate_percolator_vault_accounts,
    validate_token_account, verify_controlled_market, verify_genesis_config_pda,
    verify_genesis_vault, verify_pda, verify_program, verify_signer,
};
use crate::effects;
use crate::effects::{invoke, token_transfer, write_account};
use crate::error::ProgramError;
use crate::genesis::{GenesisConfig, GenesisPosition, GENESIS_CFG_SIZE, GENESIS_POSITION_SIZE};
use crate::ledger;
use crate::ledger::{market_exit, refund, settle, Exit};
use crate::percolator_abi;
use crate::percolator_abi::{
    genesis_recovery_ix_data, GENESIS_RECOVER_BACKING, GENESIS_RECOVER_INSURANCE_LIMITED,
};
use crate::pubkey::{Pubkey, PERCOLATOR_PROGRAM, TOKEN_PROGRAM};
use vstd::prelude::*;

verus! {

/// An exit that waits for the market's funds: the records as they were, the vault's balance before the
/// funds came in, and the bump of the market admin that pays out.
#[derive(Clone, Copy, PartialEq, Eq, Debug)]
pub struct MarketExit {
    pub cfg: GenesisConfig,
    pub position: GenesisPosition,
    pub vault_before: u64,
    pub admin_bump: u8,
}

/// Effects, and the exit that is left to complete once they are carried out, if one is.
#[derive(Clone, PartialEq, Eq, Debug)]
pub struct Plan {
    pub effects: Vec<Effect>,
    pub exit: Option<MarketExit>,
}

#[verifier::ext_equal]
pub struct PlanView {
    pub effects: Seq<EffectView>,
    pub exit: Option<MarketExit>,
}

impl View for Plan {
    type V = PlanView;

    open spec fn view(&self) -> PlanView {
        PlanView { effects: account::effect_views(self.effects@), exit: self.exit }
    }
}

/// The contents of a plan, or why there is none.
pub open spec fn plan_view(r: Result<Plan, ProgramError>) -> Result<PlanView, ProgramError> {
    match r {
        Ok(plan) => Ok(plan@),
        Err(e) => Err(e),
    }
}

/// The seeds with which the market admin of a COIN signs.
pub open spec fn admin_signer(coin_mint: Pubkey, bump: u8) -> Seq<Seq<u8>> {
    addresses::signer_seeds(addresses::market_admin_path(coin_mint), bump)
}

pub fn sign_as_admin(coin_mint: &Pubkey, bump: u8) -> (r: Vec<Vec<u8>>)
    ensures
        account::seed_views(r@) == admin_signer(*coin_mint, bump),
{
    with_bump(market_admin_seeds(coin_mint), bump)
}

/// The payment of an exit out of the vault, where there is anything to pay.
pub open spec fn payment(accounts: Seq<Account>, amount: u64, bump: u8) -> Seq<EffectView> {
    if amount > 0 {
        seq![
            effects::transfer_of(
                accounts,
                6,
                5,
                7,
                8,
                amount,
                admin_signer(accounts[1].key, bump),
            ),
        ]
    } else {
        Seq::empty()
    }
}

/// The two records of an exit are written back.
pub open spec fn records(accounts: Seq<Account>, exit: Exit) -> Seq<EffectView> {
    seq![
        effects::write_of(3, exit.cfg.written(accounts[3].data@)),
        effects::write_of(4, exit.position.written(accounts[4].data@)),
    ]
}

fn pay(accounts: &[Account], plan: Vec<Effect>, amount: u64, bump: u8) -> (r: Result<
    Vec<Effect>,
    ProgramError,
>)
    requires
        accounts@.len() >= 9,
        accounts@[8].key.bytes == TOKEN_PROGRAM,
    ensures
        r is Ok,
        account::effect_views(r->Ok_0@) == account::effect_views(plan@) + payment(
            accounts@,
            amount,
            bump,
        ),
{
    if amount > 0 {
        let signer = sign_as_admin(&accounts[1].key, bump);
        let effect = token_transfer(accounts, 6, 5, 7, 8, amount, signer)?;
        let ghost before = account::effect_views(plan@);
        let plan = and_then(plan, effect);
        assert(account::effect_views(plan@) =~= before + payment(accounts@, amount, bump));
        Ok(plan)
    } else {
        assert(account::effect_views(plan@) + payment(accounts@, amount, bump)
            =~= account::effect_views(plan@));
        Ok(plan)
    }
}

fn record(accounts: &[Account], plan: Vec<Effect>, exit: &Exit) -> (r: Vec<Effect>)
    requires
        accounts@.len() >= 9,
        accounts@[3].data@.len() >= GENESIS_CFG_SIZE,
        accounts@[4].data@.len() >= GENESIS_POSITION_SIZE,
    ensures
        account::effect_views(r@) == account::effect_views(plan@) + records(accounts@, *exit),
{
    let mut cfg_data = copied(&accounts[3].data);
    exit.cfg.serialize(&mut cfg_data);
    let mut position_data = copied(&accounts[4].data);
    exit.position.serialize(&mut position_data);
    let ghost before = account::effect_views(plan@);
    let plan = and_then(
        and_then(plan, write_account(3, cfg_data)),
        write_account(4, position_data),
    );
    assert(account::effect_views(plan@) =~= before + records(accounts@, *exit));
    plan
}

/// One withdrawal from the market into the vault: the market admin signs.
pub open spec fn pull_of(
    accounts: Seq<Account>,
    kind: u8,
    domain: u8,
    amount: u64,
    bump: u8,
) -> EffectView {
    effects::call(
        accounts[12].key,
        seq![
            account::readonly(accounts[7].key, true),
            account::writable(accounts[9].key, false),
            account::writable(accounts[6].key, false),
            account::writable(accounts[10].key, false),
            account::readonly(accounts[11].key, false),
            account::readonly(accounts[8].key, false),
        ],
        percolator_abi::recovery_data(kind, domain, amount)->Ok_0,
        seq![7usize, 9usize, 6usize, 10usize, 11usize, 8usize, 12usize],
        admin_signer(accounts[1].key, bump),
    )
}

fn genesis_pull_from_market(
    accounts: &[Account],
    kind: u8,
    domain: u8,
    amount: u64,
    bump: u8,
) -> (r: Result<Effect, ProgramError>)
    requires
        accounts@.len() >= 13,
    ensures
        effects::effect_view(r) == (match percolator_abi::recovery_data(kind, domain, amount) {
            Ok(_) => Ok(pull_of(accounts@, kind, domain, amount, bump)),
            Err(e) => Err::<EffectView, ProgramError>(e),
        }),
{
    let data = genesis_recovery_ix_data(kind, domain, amount)?;
    let metas: Vec<AccountMeta> = vec![
        AccountMeta::new_readonly(accounts[7].key, true),
        AccountMeta::new(accounts[9].key, false),
        AccountMeta::new(accounts[6].key, false),
        AccountMeta::new(accounts[10].key, false),
        AccountMeta::new_readonly(accounts[11].key, false),
        AccountMeta::new_readonly(accounts[8].key, false),
    ];
    let indices: Vec<usize> = vec![7, 9, 6, 10, 11, 8, 12];
    assert(metas@ =~= seq![
        account::readonly(accounts@[7].key, true),
        account::writable(accounts@[9].key, false),
        account::writable(accounts@[6].key, false),
        account::writable(accounts@[10].key, false),
        account::readonly(accounts@[11].key, false),
        account::readonly(accounts@[8].key, false),
    ]);
    assert(indices@ =~= seq![7usize, 9usize, 6usize, 10usize, 11usize, 8usize, 12usize]);
    let signer = sign_as_admin(&accounts[1].key, bump);
    Ok(invoke(accounts[12].key, metas, data, indices, signer))
}

/// The funds that an exit asks the market for: insurance first, then backing.
pub open spec fn pulls(
    accounts: Seq<Account>,
    domain: u8,
    insurance: u64,
    backing: u64,
    bump: u8,
) -> Seq<EffectView> {
    (if insurance > 0 {
        seq![pull_of(accounts, GENESIS_RECOVER_INSURANCE_LIMITED, 0, insurance, bump)]
    } else {
        Seq::empty()
    }) + (if backing > 0 {
        seq![pull_of(accounts, GENESIS_RECOVER_BACKING, domain, backing, bump)]
    } else {
        Seq::empty()
    })
}

fn pull(accounts: &[Account], domain: u8, insurance: u64, backing: u64, bump: u8) -> (r: Result<
    Vec<Effect>,
    ProgramError,
>)
    requires
        accounts@.len() >= 13,
    ensures
        r is Ok,
        account::effect_views(r->Ok_0@) == pulls(accounts@, domain, insurance, backing, bump),
{
    let mut plan = no_effects();
    if insurance > 0 {
        plan =
        and_then(
            plan,
            genesis_pull_from_market(
                accounts,
                GENESIS_RECOVER_INSURANCE_LIMITED,
                0,
                insurance,
                bump,
            )?,
        );
    }
    if backing > 0 {
        plan =
        and_then(
            plan,
            genesis_pull_from_market(accounts, GENESIS_RECOVER_BACKING, domain, backing, bump)?,
        );
    }
    assert(account::effect_views(plan@) =~= pulls(accounts@, domain, insurance, backing, bump));
    Ok(plan)
}

/// An exit out of the vault, before the pool is deployed.
pub open spec fn refund_outcome(
    accounts: Seq<Account>,
    cfg: GenesisConfig,
    position: GenesisPosition,
    vault_balance: u64,
    bump: u8,
) -> PlanView {
    let exit = ledger::refunded(cfg, position, vault_balance);
    PlanView {
        effects: payment(accounts, exit.paid, bump) + records(accounts, exit),
        exit: None,
    }
}

/// An exit out of the vault, after finalization. A claim that is settled already is left alone.
pub open spec fn settle_outcome(
    accounts: Seq<Account>,
    cfg: GenesisConfig,
    position: GenesisPosition,
    vault_balance: u64,
    bump: u8,
) -> Result<PlanView, ProgramError> {
    if position.claim() == 0 {
        Ok(PlanView { effects: Seq::empty(), exit: None })
    } else {
        match ledger::settled(cfg, position, vault_balance) {
            Ok(exit) => Ok(
                PlanView {
                    effects: records(accounts, exit) + payment(accounts, exit.paid, bump),
                    exit: None,
                },
            ),
            Err(e) => Err(e),
        }
    }
}

/// The first step of an exit out of the market: how much of the claim to take, from a market that is
/// the COIN's own.
pub open spec fn pull_outcome(
    accounts: Seq<Account>,
    cfg: GenesisConfig,
    position: GenesisPosition,
    vault_balance: u64,
    bump: u8,
    domain: u8,
    insurance: u64,
    backing: u64,
    percolator_vault: Option<Address>,
) -> Result<PlanView, ProgramError> {
    let market = checks::controlled_market(accounts[9], cfg.base_mint, accounts[7].key);
    let market_vault = checks::market_vault_ok(
        accounts[10],
        accounts[11],
        cfg.base_mint,
        percolator_vault,
    );
    if insurance + backing > u64::MAX {
        Err(ProgramError::ArithmeticOverflow)
    } else if insurance + backing == 0 || insurance + backing > position.claim() {
        Err(ProgramError::InvalidInstructionData)
    } else if accounts.len() < 13 {
        Err(ProgramError::NotEnoughAccountKeys)
    } else if accounts.len() > 13 {
        Err(ProgramError::InvalidInstructionData)
    } else if accounts[12].key.bytes != PERCOLATOR_PROGRAM {
        Err(ProgramError::IncorrectProgramId)
    } else if market is Err {
        Err(market->Err_0)
    } else if market_vault is Err {
        Err(market_vault->Err_0)
    } else {
        Ok(
            PlanView {
                effects: pulls(accounts, domain, insurance, backing, bump),
                exit: Some(
                    MarketExit { cfg, position, vault_before: vault_balance, admin_bump: bump },
                ),
            },
        )
    }
}

fn plan_pull(
    accounts: &[Account],
    cfg: &GenesisConfig,
    position: &GenesisPosition,
    vault_balance: u64,
    bump: u8,
    domain: u8,
    insurance: u64,
    backing: u64,
    percolator_vault: &Option<Address>,
) -> (r: Result<Plan, ProgramError>)
    requires
        accounts@.len() >= 9,
    ensures
        plan_view(r) == pull_outcome(
            accounts@,
            *cfg,
            *position,
            vault_balance,
            bump,
            domain,
            insurance,
            backing,
            *percolator_vault,
        ),
{
    let total: u64 = match insurance.checked_add(backing) {
        Some(total) => total,
        None => return Err(ProgramError::ArithmeticOverflow),
    };
    if total == 0 || total > position.staked() {
        return Err(ProgramError::InvalidInstructionData);
    }
    if accounts.len() < 13 {
        return Err(ProgramError::NotEnoughAccountKeys);
    }
    if accounts.len() > 13 {
        return Err(ProgramError::InvalidInstructionData);
    }
    verify_program(&accounts[12], &PERCOLATOR_PROGRAM)?;
    verify_controlled_market(&accounts[9], &cfg.base_mint, &accounts[7].key)?;
    validate_percolator_vault_accounts(
        &accounts[10],
        &accounts[11],
        &cfg.base_mint,
        percolator_vault,
    )?;
    let effects = pull(accounts, domain, insurance, backing, bump)?;
    Ok(
        Plan {
            effects,
            exit: Some(
                MarketExit {
                    cfg: *cfg,
                    position: *position,
                    vault_before: vault_balance,
                    admin_bump: bump,
                },
            ),
        },
    )
}

/// Accounts: depositor, COIN mint, COIN configuration, pool, position, depositor's token account,
/// vault, market admin, token program; and, to take funds out of the market, market, market vault, its
/// authority, Percolator program. Data: the backing domain, and the amounts to take from the market's
/// insurance and backing.
///
/// A ballot that is cast has to be retracted first, until the genesis is finalized.
pub open spec fn genesis_withdraw_outcome(
    program_id: Pubkey,
    accounts: Seq<Account>,
    data: Seq<u8>,
    coin: CoinAddresses,
    position_address: Option<Address>,
    percolator_vault: Option<Address>,
) -> Result<PlanView, ProgramError> {
    let domain = data[0];
    let insurance = bytes::u64_of(data.subrange(1, 9));
    let backing = bytes::u64_of(data.subrange(9, 17));
    let user = accounts[0].key;
    let coin_mint = accounts[1].key;
    let bump = checks::bump_at(accounts[7], coin.market_admin);
    let coin_cfg = checks::coin_config_at(accounts[2], coin.coin_cfg, program_id);
    let cfg = checks::genesis_config_at(accounts[3], coin_mint, coin.genesis_cfg, program_id);
    let vault = checks::vault_at(accounts[6], cfg->Ok_0, accounts[7].key, coin.genesis_vault);
    let destination = checks::token_owned(accounts[5], cfg->Ok_0.base_mint, user);
    let position = checks::position_at(accounts[4], user, position_address, program_id);
    if accounts.len() < 9 {
        Err(ProgramError::NotEnoughAccountKeys)
    } else if data.len() != 17 {
        Err(ProgramError::InvalidInstructionData)
    } else if !accounts[0].is_signer {
        Err(ProgramError::MissingRequiredSignature)
    } else if accounts[8].key.bytes != TOKEN_PROGRAM {
        Err(ProgramError::IncorrectProgramId)
    } else if bump is Err {
        Err(bump->Err_0)
    } else if coin_cfg is Err {
        Err(coin_cfg->Err_0)
    } else if cfg is Err {
        Err(cfg->Err_0)
    } else if vault is Err {
        Err(vault->Err_0)
    } else if destination is Err {
        Err(destination->Err_0)
    } else if position is Err {
        Err(position->Err_0)
    } else if cfg->Ok_0.finalized != 1 && position->Ok_0.votes() {
        Err(ProgramError::InvalidInstructionData)
    } else if cfg->Ok_0.finalized != 1 && cfg->Ok_0.kicked == 1 {
        pull_outcome(
            accounts,
            cfg->Ok_0,
            position->Ok_0,
            vault->Ok_0.amount,
            bump->Ok_0,
            domain,
            insurance,
            backing,
            percolator_vault,
        )
    } else if insurance != 0 || backing != 0 || accounts.len() > 9 {
        Err(ProgramError::InvalidInstructionData)
    } else if cfg->Ok_0.finalized == 1 {
        settle_outcome(
            accounts,
            cfg->Ok_0,
            position->Ok_0,
            vault->Ok_0.amount,
            bump->Ok_0,
        )
    } else {
        Ok(
            refund_outcome(
                accounts,
                cfg->Ok_0,
                position->Ok_0,
                vault->Ok_0.amount,
                bump->Ok_0,
            ),
        )
    }
}

pub fn genesis_withdraw(
    program_id: &Pubkey,
    accounts: &[Account],
    data: &[u8],
    coin: &CoinAddresses,
    position_address: &Option<Address>,
    percolator_vault: &Option<Address>,
) -> (r: Result<Plan, ProgramError>)
    ensures
        plan_view(r) == genesis_withdraw_outcome(
            *program_id,
            accounts@,
            data@,
            *coin,
            *position_address,
            *percolator_vault,
        ),
{
    if accounts.len() < 9 {
        return Err(ProgramError::NotEnoughAccountKeys);
    }
    let user = &accounts[0];
    let market_admin = &accounts[7];
    if data.len() != 17 {
        return Err(ProgramError::InvalidInstructionData);
    }
    let domain: u8 = data[0];
    let insurance: u64 = u64_at(data, 1);
    let backing: u64 = u64_at(data, 9);
    verify_signer(user)?;
    verify_program(&accounts[8], &TOKEN_PROGRAM)?;
    let bump: u8 = verify_pda(market_admin, &coin.market_admin)?;
    load_coin_config(&accounts[2], &coin.coin_cfg, program_id)?;
    let cfg = verify_genesis_config_pda(
        &accounts[3],
        &accounts[1].key,
        &coin.genesis_cfg,
        program_id,
    )?;
    let vault = verify_genesis_vault(&accounts[6], &cfg, &market_admin.key, &coin.genesis_vault)?;
    validate_token_account(&accounts[5], &cfg.base_mint, &user.key)?;
    let position = load_position(&accounts[4], &user.key, position_address, program_id)?;
    if !cfg.is_finalized() && position.has_ballot() {
        return Err(ProgramError::InvalidInstructionData);
    }
    if !cfg.is_finalized() && cfg.is_kicked() {
        return plan_pull(
            accounts,
            &cfg,
            &position,
            vault.amount,
            bump,
            domain,
            insurance,
            backing,
            percolator_vault,
        );
    }
    if insurance != 0 || backing != 0 || accounts.len() > 9 {
        return Err(ProgramError::InvalidInstructionData);
    }
    if cfg.is_finalized() {
        if position.staked() == 0 {
            return Ok(Plan { effects: no_effects(), exit: None });
        }
        let exit = settle(&cfg, &position, vault.amount)?;
        let plan = record(accounts, no_effects(), &exit);
        assert(account::effect_views(plan@) =~= records(accounts@, exit));
        let effects = pay(accounts, plan, exit.paid, bump)?;
        Ok(Plan { effects, exit: None })
    } else {
        let exit = refund(&cfg, &position, vault.amount);
        let plan = pay(accounts, no_effects(), exit.paid, bump)?;
        assert(account::effect_views(plan@) =~= payment(accounts@, exit.paid, bump));
        let effects = record(accounts, plan, &exit);
        Ok(Plan { effects, exit: None })
    }
}

pub fn process_genesis_withdraw(program_id: &Pubkey, accounts: &[Account], data: &[u8]) -> (r: Result<
    Plan,
    ProgramError,
>)
    ensures
        plan_view(r) == genesis_withdraw_outcome(
            *program_id,
            accounts@,
            data@,
            CoinAddresses::of(*program_id, accounts@[1].key),
            addresses::address_of(
                addresses::genesis_position_path(accounts@[3].key, accounts@[0].key),
                *program_id,
            ),
            addresses::percolator_vault_of(accounts@[9].key),
        ),
{
    if accounts.len() < 9 {
        return Err(ProgramError::NotEnoughAccountKeys);
    }
    let coin = CoinAddresses::derive(program_id, &accounts[1].key);
    let position_address = find_program_address(
        &genesis_position_seeds(&accounts[3].key, &accounts[0].key),
        program_id,
    );
    let percolator_vault = if accounts.len() > 9 {
        percolator_vault_address(&accounts[9].key)
    } else {
        None
    };
    genesis_withdraw(
        program_id,
        accounts,
        data,
        &coin,
        &position_address,
        &percolator_vault,
    )
}

/// The second step of an exit out of the market. The accounts are those of the first step, read again:
/// what the vault gained is what the market gave back.
pub open spec fn market_exit_outcome(accounts: Seq<Account>, exit: MarketExit) -> Result<
    Seq<EffectView>,
    ProgramError,
> {
    let vault = checks::token_account_at(accounts[6]);
    let recovered = if vault->Ok_0.amount >= exit.vault_before {
        (vault->Ok_0.amount - exit.vault_before) as u64
    } else {
        0
    };
    let after = ledger::exited(exit.cfg, exit.position, recovered);
    if accounts.len() < 9 {
        Err(ProgramError::NotEnoughAccountKeys)
    } else if accounts[8].key.bytes != TOKEN_PROGRAM {
        Err(ProgramError::IncorrectProgramId)
    } else if vault is Err {
        Err(vault->Err_0)
    } else if accounts[3].data@.len() < GENESIS_CFG_SIZE || accounts[4].data@.len()
        < GENESIS_POSITION_SIZE {
        Err(ProgramError::InvalidAccountData)
    } else if after is Err {
        Err(after->Err_0)
    } else {
        Ok(
            payment(accounts, after->Ok_0.paid, exit.admin_bump) + records(
                accounts,
                after->Ok_0,
            ),
        )
    }
}

pub fn complete_market_exit(accounts: &[Account], exit: &MarketExit) -> (r: Result<
    Vec<Effect>,
    ProgramError,
>)
    ensures
        account::outcome(r) == market_exit_outcome(accounts@, *exit),
{
    if accounts.len() < 9 {
        return Err(ProgramError::NotEnoughAccountKeys);
    }
    verify_program(&accounts[8], &TOKEN_PROGRAM)?;
    let vault = load_token_account(&accounts[6])?;
    if accounts[3].data.len() < GENESIS_CFG_SIZE || accounts[4].data.len() < GENESIS_POSITION_SIZE {
        return Err(ProgramError::InvalidAccountData);
    }
    let recovered: u64 = vault.amount.saturating_sub(exit.vault_before);
    let after = market_exit(&exit.cfg, &exit.position, recovered)?;
    let plan = pay(accounts, no_effects(), after.paid, exit.admin_bump)?;
    assert(account::effect_views(plan@) =~= payment(accounts@, after.paid, exit.admin_bump));
    Ok(record(accounts, plan, &after))
}

} // verus!
