//! Who may do what, and when.
use crate::account::{Account, EffectView};
use crate::addresses;
use crate::addresses::{Address, CoinAddresses};
use crate::bytes;
use crate::checks;
use crate::coin::{CoinConfig, PHASE_LIVE};
use crate::effects;
use crate::error::ProgramError;
use crate::genesis::{
    GenesisConfig, GenesisDistribution, GenesisPosition, GENESIS_CFG_SIZE, GENESIS_POSITION_SIZE,
};
use crate::governance;
use crate::governance::AuthorityConfig;
use crate::ledger;
use crate::percolator_abi;
use crate::percolator_abi::{
    PERC_IX_INIT_MARKET, PERC_IX_TOP_UP_BACKING_BUCKET, PERC_IX_TOP_UP_INSURANCE,
    PERC_IX_UPDATE_AUTHORITY, PERC_IX_WITHDRAW_BACKING_BUCKET,
    PERC_IX_WITHDRAW_BACKING_BUCKET_EARNINGS, PERC_IX_WITHDRAW_INSURANCE,
    PERC_IX_WITHDRAW_INSURANCE_DOMAIN, PERC_IX_WITHDRAW_INSURANCE_LIMITED,
};
use crate::pubkey::{Pubkey, PERCOLATOR_PROGRAM, SYSTEM_PROGRAM, TOKEN_PROGRAM};
use crate::rewards;
use crate::rewards::coin_lifecycle;
use crate::rewards::deposits;
use crate::rewards::handover;
use crate::rewards::market;
use crate::rewards::vote;
use crate::rewards::withdrawal;
use crate::rewards::withdrawal::{MarketExit, PlanView};
use vstd::prelude::*;

verus! {

/// The tags of the retired staking and risk-vault instructions stay disabled, and so do all that were
/// never given out, whatever accounts come with them.
pub proof fn retired_tags_are_refused(
    program_id: Pubkey,
    accounts: Seq<Account>,
    data: Seq<u8>,
    slot: u64,
)
    requires
        data.len() > 0,
        data[0] <= 2 || 4 <= data[0] <= 7 || data[0] == 9 || 12 <= data[0] <= 18 || data[0] >= 34,
    ensures
        rewards::process_outcome(program_id, accounts, data, slot) == Err::<
            PlanView,
            ProgramError,
        >(ProgramError::InvalidInstructionData),
{
}

/// The adapter has no catch-all: a tag that is not its own is refused.
pub proof fn unknown_governance_tags_are_refused(
    program_id: Pubkey,
    accounts: Seq<Account>,
    data: Seq<u8>,
)
    requires
        data.len() > 0,
        2 <= data[0] <= 3 || data[0] == 5 || data[0] == 8 || data[0] == 11 || data[0] >= 19,
    ensures
        governance::process_outcome(program_id, accounts, data) == Err::<
            Seq<EffectView>,
            ProgramError,
        >(ProgramError::InvalidInstructionData),
{
}

/// The adapter hands nothing on unless the payer signed and is the controller that the COIN's authority
/// names; what it hands on goes to the rewards program that the authority belongs to.
pub proof fn only_the_controller_is_forwarded(
    program_id: Pubkey,
    accounts: Seq<Account>,
    data: Seq<u8>,
)
    requires
        data.len() > 0,
        data[0] != governance::IX_INIT_AUTHORITY,
        governance::process_outcome(program_id, accounts, data) is Ok,
    ensures
        accounts.len() >= 6,
        accounts[0].is_signer,
        AuthorityConfig::decoded(accounts[1].data@) == Ok::<AuthorityConfig, ProgramError>(
            AuthorityConfig { controller: accounts[0].key },
        ),
        accounts[1].owner == program_id,
        addresses::is_at(
            accounts[1].key,
            governance::authority_of(accounts[2].key, accounts[3].key),
        ) || addresses::is_at(
            accounts[1].key,
            governance::authority_of(accounts[2].key, accounts[4].key),
        ),
        governance::process_outcome(program_id, accounts, data)->Ok_0.len() == 1,
        governance::process_outcome(program_id, accounts, data)->Ok_0[0] is Invoke,
        governance::process_outcome(program_id, accounts, data)->Ok_0[0]->instruction.program_id
            == accounts[2].key,
{
}

/// The rewards-program instruction that each of the adapter's instructions is handed on as.
pub open spec fn forwarded_tag(tag: u8) -> u8 {
    if tag == governance::IX_INIT_COIN_CONFIG {
        rewards::IX_INIT_COIN_CONFIG
    } else if tag == governance::IX_MINT_REWARD {
        rewards::IX_MINT_REWARD
    } else if tag == governance::IX_TRANSFER_MINT_AUTHORITY {
        rewards::IX_TRANSFER_MINT_AUTHORITY
    } else if tag == governance::IX_ACTIVATE_LIVE {
        rewards::IX_ACTIVATE_LIVE
    } else if tag == governance::IX_PERCOLATOR_ADMIN {
        rewards::IX_PERCOLATOR_ADMIN
    } else if tag == governance::IX_INIT_GENESIS_BOOTSTRAP {
        rewards::IX_INIT_GENESIS_BOOTSTRAP
    } else if tag == governance::IX_FINALIZE_GENESIS {
        rewards::IX_FINALIZE_GENESIS
    } else if tag == governance::IX_DRAW_GENESIS_SURPLUS {
        rewards::IX_DRAW_GENESIS_SURPLUS
    } else if tag == governance::IX_KICKSTART_GENESIS_MARKET {
        rewards::IX_KICKSTART_GENESIS_MARKET
    } else if tag == governance::IX_RECOVER_GENESIS_MARKET {
        rewards::IX_RECOVER_GENESIS_MARKET
    } else if tag == governance::IX_APPROVE_BUILDER {
        rewards::IX_APPROVE_BUILDER
    } else if tag == governance::IX_INIT_GENESIS_SQUADS {
        rewards::IX_INIT_GENESIS_SQUADS
    } else {
        rewards::IX_HANDOVER_GENESIS_SQUADS
    }
}

/// Each of the adapter's instructions reaches the instruction of the rewards program that it is named
/// after. The vote, the deposits and the exits are not among them.
pub proof fn the_adapter_speaks_the_rewards_tags(
    program_id: Pubkey,
    accounts: Seq<Account>,
    data: Seq<u8>,
)
    requires
        data.len() > 0,
        data[0] != governance::IX_INIT_AUTHORITY,
        governance::process_outcome(program_id, accounts, data) is Ok,
    ensures
        governance::process_outcome(program_id, accounts, data)->Ok_0[0]->instruction.data.len()
            > 0,
        governance::process_outcome(program_id, accounts, data)->Ok_0[0]->instruction.data[0]
            == forwarded_tag(data[0]),
        forwarded_tag(data[0]) != rewards::IX_GENESIS_DEPOSIT,
        forwarded_tag(data[0]) != rewards::IX_GENESIS_WITHDRAW,
        forwarded_tag(data[0]) != rewards::IX_VOTE_GENESIS_DISTRIBUTION,
        forwarded_tag(data[0]) != rewards::IX_TRIGGER_GENESIS_DISTRIBUTION,
{
}

/// The governed mint is locked until the genesis is finalized.
pub proof fn the_governed_mint_waits_for_finalization(
    program_id: Pubkey,
    accounts: Seq<Account>,
    data: Seq<u8>,
    coin: CoinAddresses,
)
    requires
        coin_lifecycle::mint_reward_outcome(program_id, accounts, data, coin) is Ok,
    ensures
        GenesisConfig::decoded(accounts[7].data@) is Ok,
        GenesisConfig::decoded(accounts[7].data@)->Ok_0.finalized == 1,
        checks::governed_config(accounts[1], accounts[3], coin, program_id) is Ok,
{
}

/// The supply is minted only by a quorum and a majority, on a pool that is deployed, to the winner's
/// own destination, and whole.
pub proof fn only_the_vote_mints_the_supply(
    program_id: Pubkey,
    accounts: Seq<Account>,
    data: Seq<u8>,
    coin: CoinAddresses,
)
    requires
        vote::trigger_genesis_distribution_outcome(program_id, accounts, data, coin) is Ok,
    ensures
        ({
            let cfg = GenesisConfig::decoded(accounts[1].data@);
            let candidate = GenesisDistribution::decoded(accounts[6].data@);
            &&& cfg is Ok && candidate is Ok
            &&& cfg->Ok_0.kicked == 1 && cfg->Ok_0.minted_supply == 0
            &&& ledger::quorum(cfg->Ok_0)
            &&& ledger::majority(cfg->Ok_0, candidate->Ok_0)
            &&& candidate->Ok_0.destination == accounts[4].key
            &&& vote::trigger_genesis_distribution_outcome(
                program_id,
                accounts,
                data,
                coin,
            )->Ok_0.skip(2) == effects::minting(
                accounts,
                2,
                4,
                5,
                7,
                cfg->Ok_0.reward_supply,
                addresses::signer_seeds(
                    addresses::mint_authority_path(accounts[2].key),
                    coin.mint_authority->0.bump,
                ),
            )
        }),
{
}

/// A trigger records that the supply is minted.
pub proof fn a_trigger_records_the_mint(
    program_id: Pubkey,
    accounts: Seq<Account>,
    data: Seq<u8>,
    coin: CoinAddresses,
)
    requires
        vote::trigger_genesis_distribution_outcome(program_id, accounts, data, coin) is Ok,
    ensures
        ({
            let written = vote::trigger_genesis_distribution_outcome(
                program_id,
                accounts,
                data,
                coin,
            )->Ok_0[0];
            &&& written is Write
            &&& GenesisConfig::decoded(written->Write_data) == Ok::<GenesisConfig, ProgramError>(
                vote::minted(GenesisConfig::decoded(accounts[1].data@)->Ok_0),
            )
        }),
{
    vote::minted(GenesisConfig::decoded(accounts[1].data@)->Ok_0).round_trip(accounts[1].data@);
}

/// Where the supply is minted already, no candidate can be triggered any more.
pub proof fn a_minted_pool_cannot_be_triggered(
    program_id: Pubkey,
    accounts: Seq<Account>,
    data: Seq<u8>,
    coin: CoinAddresses,
)
    requires
        GenesisConfig::decoded(accounts[1].data@) is Ok,
        GenesisConfig::decoded(accounts[1].data@)->Ok_0.minted_supply != 0,
    ensures
        vote::trigger_genesis_distribution_outcome(program_id, accounts, data, coin) is Err,
{
}

/// The supply is minted once: on the pool that a trigger leaves behind, no candidate can be triggered.
pub proof fn the_supply_is_minted_once(
    program_id: Pubkey,
    accounts: Seq<Account>,
    data: Seq<u8>,
    coin: CoinAddresses,
    later_accounts: Seq<Account>,
    later_data: Seq<u8>,
)
    requires
        vote::trigger_genesis_distribution_outcome(program_id, accounts, data, coin) is Ok,
        GenesisConfig::decoded(accounts[1].data@)->Ok_0.reward_supply > 0,
        vote::trigger_genesis_distribution_outcome(
            program_id,
            accounts,
            data,
            coin,
        )->Ok_0[0]->Write_data == later_accounts[1].data@,
    ensures
        vote::trigger_genesis_distribution_outcome(
            program_id,
            later_accounts,
            later_data,
            coin,
        ) is Err,
{
    a_trigger_records_the_mint(program_id, accounts, data, coin);
    a_minted_pool_cannot_be_triggered(program_id, later_accounts, later_data, coin);
}

/// A genesis is finalized only once its pool was deployed and its whole supply is minted.
pub proof fn finalization_needs_deployment_and_the_whole_supply(
    program_id: Pubkey,
    accounts: Seq<Account>,
    data: Seq<u8>,
    coin: CoinAddresses,
)
    requires
        handover::finalize_genesis_outcome(program_id, accounts, data, coin) is Ok,
    ensures
        ({
            let cfg = GenesisConfig::decoded(accounts[2].data@);
            cfg is Ok && cfg->Ok_0.kicked == 1 && cfg->Ok_0.minted_supply
                == cfg->Ok_0.reward_supply
        }),
{
}

/// A deployment records that the pool is deployed, and into which market.
pub proof fn a_deployment_records_its_market(
    program_id: Pubkey,
    accounts: Seq<Account>,
    data: Seq<u8>,
    coin: CoinAddresses,
    percolator_vault: Option<Address>,
)
    requires
        market::kickstart_genesis_market_outcome(
            program_id,
            accounts,
            data,
            coin,
            percolator_vault,
        ) is Ok,
    ensures
        ({
            let written = market::kickstart_genesis_market_outcome(
                program_id,
                accounts,
                data,
                coin,
                percolator_vault,
            )->Ok_0.last();
            &&& written is Write
            &&& GenesisConfig::decoded(written->Write_data) == Ok::<GenesisConfig, ProgramError>(
                market::deployed(
                    GenesisConfig::decoded(accounts[4].data@)->Ok_0,
                    accounts[6].key,
                ),
            )
        }),
{
    let cfg = GenesisConfig::decoded(accounts[4].data@)->Ok_0;
    market::deployed(cfg, accounts[6].key).round_trip(accounts[4].data@);
}

/// A pool that is deployed is not deployed again, and takes no deposit.
pub proof fn a_deployed_pool_is_closed(
    program_id: Pubkey,
    accounts: Seq<Account>,
    data: Seq<u8>,
    slot: u64,
    coin: CoinAddresses,
    address: Option<Address>,
)
    ensures
        GenesisConfig::decoded(accounts[4].data@) is Ok && GenesisConfig::decoded(
            accounts[4].data@,
        )->Ok_0.kicked == 1 ==> market::kickstart_genesis_market_outcome(
            program_id,
            accounts,
            data,
            coin,
            address,
        ) is Err,
        GenesisConfig::decoded(accounts[3].data@) is Ok && GenesisConfig::decoded(
            accounts[3].data@,
        )->Ok_0.kicked == 1 ==> deposits::genesis_deposit_outcome(
            program_id,
            accounts,
            data,
            slot,
            coin,
            address,
        ) is Err,
{
}

/// Deposits are open until the COIN goes live or the pool is deployed.
pub proof fn deposits_close_when_the_coin_goes_live(
    program_id: Pubkey,
    accounts: Seq<Account>,
    data: Seq<u8>,
    slot: u64,
    coin: CoinAddresses,
    position: Option<Address>,
)
    requires
        deposits::genesis_deposit_outcome(program_id, accounts, data, slot, coin, position) is Ok,
    ensures
        CoinConfig::decoded(accounts[2].data@) is Ok,
        CoinConfig::decoded(accounts[2].data@)->Ok_0.phase != PHASE_LIVE,
        GenesisConfig::decoded(accounts[3].data@) is Ok,
        GenesisConfig::decoded(accounts[3].data@)->Ok_0.kicked != 1,
        GenesisConfig::decoded(accounts[3].data@)->Ok_0.finalized != 1,
{
}

/// A ballot never outlives its capital: whoever votes takes nothing out before the ballot is retracted
/// or the genesis is finalized. And what is paid goes to the depositor's own token account.
pub proof fn a_voter_retracts_before_leaving(
    program_id: Pubkey,
    accounts: Seq<Account>,
    data: Seq<u8>,
    coin: CoinAddresses,
    position: Option<Address>,
    percolator_vault: Option<Address>,
)
    requires
        withdrawal::genesis_withdraw_outcome(
            program_id,
            accounts,
            data,
            coin,
            position,
            percolator_vault,
        ) is Ok,
    ensures
        GenesisConfig::decoded(accounts[3].data@) is Ok,
        GenesisPosition::decoded(accounts[4].data@) is Ok,
        GenesisPosition::decoded(accounts[4].data@)->Ok_0.votes() ==> GenesisConfig::decoded(
            accounts[3].data@,
        )->Ok_0.finalized == 1,
        GenesisPosition::decoded(accounts[4].data@)->Ok_0.owner == accounts[0].key,
        accounts[0].is_signer,
        checks::token_owned(
            accounts[5],
            GenesisConfig::decoded(accounts[3].data@)->Ok_0.base_mint,
            accounts[0].key,
        ) is Ok,
{
}

/// The accounts that an exit out of the vault names are the right ones.
pub open spec fn exit_accounts_ok(
    program_id: Pubkey,
    accounts: Seq<Account>,
    coin: CoinAddresses,
    position: Option<Address>,
) -> bool {
    let cfg = checks::genesis_config_at(
        accounts[3],
        accounts[1].key,
        coin.genesis_cfg,
        program_id,
    );
    &&& accounts.len() == 9
    &&& accounts[0].is_signer
    &&& accounts[8].key.bytes == TOKEN_PROGRAM
    &&& addresses::is_at(accounts[7].key, coin.market_admin)
    &&& checks::coin_config_at(accounts[2], coin.coin_cfg, program_id) is Ok
    &&& cfg is Ok
    &&& checks::vault_at(accounts[6], cfg->Ok_0, accounts[7].key, coin.genesis_vault) is Ok
    &&& checks::token_owned(accounts[5], cfg->Ok_0.base_mint, accounts[0].key) is Ok
    &&& checks::position_at(accounts[4], accounts[0].key, position, program_id) is Ok
}

/// Nobody is locked in: before the pool is deployed, an exit of a depositor without a ballot is never
/// refused, whether the COIN is live or not; and once the genesis is finalized, no exit is refused on a
/// pool whose books balance. Whoever votes can retract first.
pub proof fn nobody_is_locked_in(
    program_id: Pubkey,
    accounts: Seq<Account>,
    data: Seq<u8>,
    coin: CoinAddresses,
    position: Option<Address>,
    percolator_vault: Option<Address>,
)
    requires
        exit_accounts_ok(program_id, accounts, coin, position),
        data.len() == 17,
        bytes::u64_of(data.subrange(1, 9)) == 0,
        bytes::u64_of(data.subrange(9, 17)) == 0,
        ({
            let cfg = GenesisConfig::decoded(accounts[3].data@)->Ok_0;
            let pos = GenesisPosition::decoded(accounts[4].data@)->Ok_0;
            ||| cfg.finalized != 1 && cfg.kicked != 1 && !pos.votes()
            ||| cfg.finalized == 1 && cfg.total_withdrawn + pos.claim() <= cfg.total_deposited
        }),
    ensures
        withdrawal::genesis_withdraw_outcome(
            program_id,
            accounts,
            data,
            coin,
            position,
            percolator_vault,
        ) is Ok,
{
}

/// The accounts that an exit out of the market names are the right ones, and its market is the COIN's
/// own.
pub open spec fn pull_accounts_ok(
    program_id: Pubkey,
    accounts: Seq<Account>,
    coin: CoinAddresses,
    position: Option<Address>,
    percolator_vault: Option<Address>,
) -> bool {
    let base_mint = GenesisConfig::decoded(accounts[3].data@)->Ok_0.base_mint;
    &&& accounts.len() == 13
    &&& exit_accounts_ok(program_id, accounts.take(9), coin, position)
    &&& accounts[12].key.bytes == PERCOLATOR_PROGRAM
    &&& checks::controlled_market(accounts[9], base_mint, accounts[7].key) is Ok
    &&& checks::market_vault_ok(accounts[10], accounts[11], base_mint, percolator_vault) is Ok
}

/// Nobody is locked in while the pool is deployed either: a depositor without a ballot may ask the
/// market for any part of the claim, in whatever mix of insurance and backing.
pub proof fn a_deployed_claim_can_be_pulled(
    program_id: Pubkey,
    accounts: Seq<Account>,
    data: Seq<u8>,
    coin: CoinAddresses,
    position: Option<Address>,
    percolator_vault: Option<Address>,
)
    requires
        pull_accounts_ok(program_id, accounts, coin, position, percolator_vault),
        data.len() == 17,
        ({
            let cfg = GenesisConfig::decoded(accounts[3].data@)->Ok_0;
            let pos = GenesisPosition::decoded(accounts[4].data@)->Ok_0;
            let pulled = bytes::u64_of(data.subrange(1, 9)) + bytes::u64_of(data.subrange(9, 17));
            &&& cfg.kicked == 1 && cfg.finalized != 1
            &&& !pos.votes()
            &&& 0 < pulled <= pos.claim()
        }),
    ensures
        ({
            let plan = withdrawal::genesis_withdraw_outcome(
                program_id,
                accounts,
                data,
                coin,
                position,
                percolator_vault,
            );
            &&& plan is Ok
            &&& plan->Ok_0.exit is Some
            &&& plan->Ok_0.exit->0.cfg == GenesisConfig::decoded(accounts[3].data@)->Ok_0
            &&& plan->Ok_0.exit->0.position == GenesisPosition::decoded(accounts[4].data@)->Ok_0
        }),
{
    let nine = accounts.take(9);
    assert forall|i: int| 0 <= i < 9 implies #[trigger] nine[i] == accounts[i] by {}
}

/// What the market gave back is always paid out, on a pool whose books balance.
pub proof fn a_pull_can_be_completed(accounts: Seq<Account>, exit: MarketExit)
    requires
        accounts.len() >= 9,
        accounts[8].key.bytes == TOKEN_PROGRAM,
        checks::token_account_at(accounts[6]) is Ok,
        accounts[3].data@.len() >= GENESIS_CFG_SIZE,
        accounts[4].data@.len() >= GENESIS_POSITION_SIZE,
        exit.cfg.total_withdrawn + exit.position.claim() <= exit.cfg.total_deposited,
    ensures
        withdrawal::market_exit_outcome(accounts, exit) is Ok,
{
}

/// Anyone may crank: who triggers the winning distribution, who registers a candidate and who creates
/// a market makes no difference to what happens.
pub proof fn anyone_may_crank(
    program_id: Pubkey,
    accounts: Seq<Account>,
    someone: Account,
    data: Seq<u8>,
    coin: CoinAddresses,
    address: Option<Address>,
)
    requires
        accounts.len() > 0,
        accounts[0].is_signer,
        someone.is_signer,
    ensures
        vote::trigger_genesis_distribution_outcome(
            program_id,
            accounts.update(0, someone),
            data,
            coin,
        ) == vote::trigger_genesis_distribution_outcome(program_id, accounts, data, coin),
        vote::init_genesis_distribution_outcome(
            program_id,
            accounts.update(0, someone),
            data,
            coin,
            address,
        ) == vote::init_genesis_distribution_outcome(program_id, accounts, data, coin, address),
        market::init_percolator_market_outcome(
            program_id,
            accounts.update(0, someone),
            data,
            coin,
        ) == market::init_percolator_market_outcome(program_id, accounts, data, coin),
{
    let other = accounts.update(0, someone);
    assert forall|i: int| 0 < i < accounts.len() implies #[trigger] other[i] == accounts[i] by {}
}

/// The market instructions that governance may hand on move no funds and no authority over funds.
pub proof fn governance_moves_no_market_funds(tag: u8)
    requires
        percolator_abi::admin_tag(tag),
    ensures
        tag != PERC_IX_INIT_MARKET,
        tag != PERC_IX_UPDATE_AUTHORITY,
        tag != PERC_IX_TOP_UP_INSURANCE,
        tag != PERC_IX_TOP_UP_BACKING_BUCKET,
        tag != PERC_IX_WITHDRAW_INSURANCE,
        tag != PERC_IX_WITHDRAW_INSURANCE_LIMITED,
        tag != PERC_IX_WITHDRAW_INSURANCE_DOMAIN,
        tag != PERC_IX_WITHDRAW_BACKING_BUCKET,
        tag != PERC_IX_WITHDRAW_BACKING_BUCKET_EARNINGS,
{
}

/// What governance hands on to a market is an instruction that it may hand on, unchanged.
pub proof fn governance_hands_on_admin_instructions_only(
    program_id: Pubkey,
    accounts: Seq<Account>,
    data: Seq<u8>,
    coin: CoinAddresses,
)
    requires
        market::percolator_admin_outcome(program_id, accounts, data, coin) is Ok,
    ensures
        data.len() > 0,
        percolator_abi::admin_tag(data[0]),
        market::percolator_admin_outcome(program_id, accounts, data, coin)->Ok_0.len() == 1,
        market::percolator_admin_outcome(program_id, accounts, data, coin)->Ok_0[0] is Invoke,
        market::percolator_admin_outcome(
            program_id,
            accounts,
            data,
            coin,
        )->Ok_0[0]->instruction.data == data,
{
}

/// From the deployment of the pool until finalization, the genesis market is locked against the
/// instructions that would take it away from under its depositors.
pub proof fn the_genesis_market_is_locked(
    program_id: Pubkey,
    accounts: Seq<Account>,
    data: Seq<u8>,
    coin: CoinAddresses,
)
    requires
        data.len() > 0,
        percolator_abi::locking_tag(data[0]),
        ({
            let cfg = checks::genesis_config_at(
                accounts[6],
                accounts[2].key,
                coin.genesis_cfg,
                program_id,
            );
            &&& cfg is Ok
            &&& cfg->Ok_0.kicked == 1
            &&& cfg->Ok_0.finalized != 1
            &&& market::mentions(accounts, 7, cfg->Ok_0.genesis_market_slab)
        }),
    ensures
        market::percolator_admin_outcome(program_id, accounts, data, coin) is Err,
{
}

/// After finalization nothing of it is locked.
pub proof fn finalization_unlocks_the_market(
    program_id: Pubkey,
    accounts: Seq<Account>,
    tag: u8,
    coin: CoinAddresses,
)
    requires
        checks::genesis_config_at(
            accounts[6],
            accounts[2].key,
            coin.genesis_cfg,
            program_id,
        ) is Ok,
        checks::genesis_config_at(
            accounts[6],
            accounts[2].key,
            coin.genesis_cfg,
            program_id,
        )->Ok_0.finalized == 1,
    ensures
        market::admin_lock(program_id, accounts, tag, coin) is Ok,
{
}

/// Control of the multisig passes on after finalization only, and to somebody who can use it.
pub proof fn the_handover_waits_for_finalization(
    program_id: Pubkey,
    accounts: Seq<Account>,
    data: Seq<u8>,
    coin: CoinAddresses,
)
    requires
        handover::handover_genesis_squads_outcome(program_id, accounts, data, coin) is Ok,
    ensures
        GenesisConfig::decoded(accounts[4].data@) is Ok,
        GenesisConfig::decoded(accounts[4].data@)->Ok_0.finalized == 1,
        accounts[8].key.bytes != SYSTEM_PROGRAM,
        accounts[8].key != accounts[5].key,
{
}

/// Funds are recovered from the market for the vault only while the pool is deployed and not finalized,
/// on the word of governance, and never for nothing.
pub proof fn recovery_ends_with_finalization(
    program_id: Pubkey,
    accounts: Seq<Account>,
    data: Seq<u8>,
    coin: CoinAddresses,
    percolator_vault: Option<Address>,
)
    requires
        market::recover_genesis_market_outcome(
            program_id,
            accounts,
            data,
            coin,
            percolator_vault,
        ) is Ok,
    ensures
        GenesisConfig::decoded(accounts[4].data@) is Ok,
        GenesisConfig::decoded(accounts[4].data@)->Ok_0.kicked == 1,
        GenesisConfig::decoded(accounts[4].data@)->Ok_0.finalized != 1,
        checks::genesis_governance(accounts[0], accounts[1], accounts[3], coin, program_id) is Ok,
        bytes::u64_of(data.subrange(2, 10)) > 0,
{
}

/// What is drawn as surplus is surplus, and is drawn after finalization only.
pub proof fn only_surplus_is_drawn(
    program_id: Pubkey,
    accounts: Seq<Account>,
    data: Seq<u8>,
    coin: CoinAddresses,
)
    requires
        handover::draw_genesis_surplus_outcome(program_id, accounts, data, coin) is Ok,
    ensures
        GenesisConfig::decoded(accounts[2].data@) is Ok,
        GenesisConfig::decoded(accounts[2].data@)->Ok_0.finalized == 1,
        checks::token_account_at(accounts[6]) is Ok,
        bytes::u64_of(data.subrange(0, 8)) + GenesisConfig::decoded(
            accounts[2].data@,
        )->Ok_0.outstanding() <= checks::token_account_at(accounts[6])->Ok_0.amount,
{
}

/// A COIN goes live once its delay is over, and stays live.
pub proof fn going_live_waits_for_the_delay_and_lasts(
    program_id: Pubkey,
    accounts: Seq<Account>,
    data: Seq<u8>,
    coin: CoinAddresses,
)
    requires
        coin_lifecycle::activate_live_outcome(program_id, accounts, data, coin) is Ok,
    ensures
        ({
            let cfg = CoinConfig::decoded(accounts[3].data@)->Ok_0;
            let written = coin_lifecycle::activate_live_outcome(
                program_id,
                accounts,
                data,
                coin,
            )->Ok_0;
            ||| cfg.phase == PHASE_LIVE && written.len() == 0
            ||| {
                &&& cfg.phase != PHASE_LIVE && written.len() == 1 && written[0] is Write
                &&& CoinConfig::decoded(written[0]->Write_data) is Ok
                &&& CoinConfig::decoded(written[0]->Write_data)->Ok_0.phase == PHASE_LIVE
                &&& cfg.bootstrap_start_slot + cfg.bootstrap_delay_slots <= CoinConfig::decoded(
                    written[0]->Write_data,
                )->Ok_0.live_slot
            }
        }),
{
    let cfg = CoinConfig::decoded(accounts[3].data@)->Ok_0;
    if cfg.phase != PHASE_LIVE {
        let slot = crate::system::slot_of(accounts[4])->Ok_0;
        coin_lifecycle::activated(cfg, slot).round_trip(accounts[3].data@);
    }
}

/// An instruction that does not read the slot does the same at every slot.
#[verifier::spinoff_prover]
pub proof fn the_slot_matters_to_few(
    program_id: Pubkey,
    accounts: Seq<Account>,
    instruction_data: Seq<u8>,
    slot: u64,
    other_slot: u64,
)
    requires
        !rewards::reads_slot(instruction_data),
    ensures
        rewards::process_outcome(program_id, accounts, instruction_data, slot)
            == rewards::process_outcome(program_id, accounts, instruction_data, other_slot),
{
}

/// Without a delay a COIN is live from the start; with one it is not.
pub proof fn no_delay_is_live_at_once(authority: Pubkey, delay: u64, slot: u64)
    ensures
        (coin_lifecycle::new_coin(authority, delay, slot).phase == PHASE_LIVE) == (delay == 0),
        coin_lifecycle::new_coin(authority, delay, slot).wf(),
{
}

} // verus!
