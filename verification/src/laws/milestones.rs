//! A genesis goes one way: what is minted, deployed, finalized or live stays so.
use crate::account::{Account, EffectView};
use crate::addresses;
use crate::addresses::{Address, CoinAddresses};
use crate::builder::{BuilderApproval, BUILDER_APPROVAL_DISC};
use crate::bytes;
use crate::coin::{CoinConfig, COIN_CFG_DISC, PHASE_LIVE};
use crate::error::ProgramError;
use crate::genesis::{
    GenesisConfig, GenesisDistribution, GenesisPosition, GENESIS_CFG_DISC, GENESIS_DISTRIBUTION_DISC,
    GENESIS_POSITION_DISC,
};
use crate::laws::access;
use crate::laws::records;
use crate::laws::supply;
use crate::ledger;
use crate::ledger::{Exit, Tally};
use crate::pubkey;
use crate::pubkey::Pubkey;
use crate::rewards;
use crate::rewards::coin_lifecycle;
use crate::rewards::deposits;
use crate::rewards::handover;
use crate::rewards::market;
use crate::rewards::vote;
use crate::rewards::withdrawal;
use crate::rewards::withdrawal::MarketExit;
use vstd::prelude::*;

verus! {

/// What may become of a pool: it keeps its mints, its vault and its supply; the supply is minted whole
/// or as before; and a pool that is deployed or finalized stays so, in the same market.
pub open spec fn follows(before: GenesisConfig, after: GenesisConfig) -> bool {
    &&& after.coin_mint == before.coin_mint
    &&& after.base_mint == before.base_mint
    &&& after.token_vault == before.token_vault
    &&& after.reward_supply == before.reward_supply
    &&& after.minted_supply == before.minted_supply || after.minted_supply == before.reward_supply
    &&& before.kicked == 1 ==> after.kicked == 1 && after.genesis_market_slab
        == before.genesis_market_slab
    &&& before.finalized == 1 ==> after.finalized == 1
}

/// What may become of a COIN: it keeps its authority and its delay, and once it is live nothing about
/// it changes.
pub open spec fn coin_follows(before: CoinConfig, after: CoinConfig) -> bool {
    &&& after.authority == before.authority
    &&& after.bootstrap_start_slot == before.bootstrap_start_slot
    &&& after.bootstrap_delay_slots == before.bootstrap_delay_slots
    &&& before.phase == PHASE_LIVE ==> after == before
}

/// Milestones are one-way in every step of the ledger.
pub proof fn milestones_are_one_way(
    tally: Tally,
    amount: u64,
    slot: u64,
    vault_balance: u64,
    recovered: u64,
    key: Pubkey,
    weight: u64,
    market_slab: Pubkey,
)
    ensures
        ledger::deposited(tally.cfg, tally.position, amount, slot) matches Ok(after) ==> follows(
            tally.cfg,
            after.0,
        ),
        follows(tally.cfg, ledger::refunded(tally.cfg, tally.position, vault_balance).cfg),
        ledger::exited(tally.cfg, tally.position, recovered) matches Ok(after) ==> follows(
            tally.cfg,
            after.cfg,
        ),
        ledger::settled(tally.cfg, tally.position, vault_balance) matches Ok(after) ==> follows(
            tally.cfg,
            after.cfg,
        ),
        tally.backed(key, weight) matches Ok(after) ==> follows(tally.cfg, after.cfg),
        tally.retracted(key) matches Ok(after) ==> follows(tally.cfg, after.cfg),
        tally.cfg.kicked != 1 ==> follows(tally.cfg, market::deployed(tally.cfg, market_slab)),
        follows(tally.cfg, vote::minted(tally.cfg)),
        follows(tally.cfg, handover::finalized(tally.cfg)),
{
}

/// One of the effects creates the account at index `account`.
pub open spec fn creates(effects: Seq<EffectView>, account: usize) -> bool {
    exists|j: int|
        0 <= j < effects.len() && (#[trigger] effects[j]) is Create && effects[j]->target == account
}

/// Effect `i`, where it writes to an account that holds a pool or a COIN and is not created by the same
/// effects, leaves there what may become of it.
#[verifier::opaque]
pub open spec fn keeps(accounts: Seq<Account>, effects: Seq<EffectView>, i: int) -> bool {
    effects[i] matches EffectView::Write { account, data } ==> creates(effects, account) || {
        let held = accounts[account as int].data@;
        &&& GenesisConfig::decoded(held) matches Ok(before) ==> GenesisConfig::decoded(data) is Ok
            && follows(before, GenesisConfig::decoded(data)->Ok_0)
        &&& CoinConfig::decoded(held) matches Ok(before) ==> CoinConfig::decoded(data) is Ok
            && coin_follows(before, CoinConfig::decoded(data)->Ok_0)
    }
}

#[verifier::opaque]
pub open spec fn all_keep(accounts: Seq<Account>, effects: Seq<EffectView>) -> bool {
    forall|i: int| 0 <= i < effects.len() ==> #[trigger] keeps(accounts, effects, i)
}

proof fn lemma_kinds_differ(data: Seq<u8>)
    ensures
        GenesisConfig::decoded(data) is Ok ==> CoinConfig::decoded(data) is Err,
        GenesisPosition::decoded(data) is Ok ==> GenesisConfig::decoded(data) is Err
            && CoinConfig::decoded(data) is Err,
        GenesisDistribution::decoded(data) is Ok ==> GenesisConfig::decoded(data) is Err
            && CoinConfig::decoded(data) is Err,
        BuilderApproval::decoded(data) is Ok ==> GenesisConfig::decoded(data) is Err
            && CoinConfig::decoded(data) is Err,
{
    assert(COIN_CFG_DISC@[0] == 67 && GENESIS_CFG_DISC@[0] == 71);
    assert(GENESIS_POSITION_DISC@[0] == 71 && GENESIS_POSITION_DISC@[3] == 80);
    assert(GENESIS_DISTRIBUTION_DISC@[0] == 71 && GENESIS_DISTRIBUTION_DISC@[3] == 68);
    assert(BUILDER_APPROVAL_DISC@[0] == 66 && GENESIS_CFG_DISC@[3] == 67);
}

proof fn lemma_pool_written(
    accounts: Seq<Account>,
    effects: Seq<EffectView>,
    i: int,
    account: usize,
    before: GenesisConfig,
    after: GenesisConfig,
)
    requires
        records::writes_pool(effects[i], account, after),
        GenesisConfig::decoded(accounts[account as int].data@) == Ok::<GenesisConfig, ProgramError>(
            before,
        ),
        follows(before, after),
    ensures
        keeps(accounts, effects, i),
{
    reveal(keeps);
    lemma_kinds_differ(accounts[account as int].data@);
}

proof fn lemma_other_written(
    accounts: Seq<Account>,
    effects: Seq<EffectView>,
    i: int,
    account: usize,
)
    requires
        effects[i] is Write && effects[i]->account == account,
        GenesisPosition::decoded(accounts[account as int].data@) is Ok
            || GenesisDistribution::decoded(accounts[account as int].data@) is Ok
            || BuilderApproval::decoded(accounts[account as int].data@) is Ok,
    ensures
        keeps(accounts, effects, i),
{
    reveal(keeps);
    lemma_kinds_differ(accounts[account as int].data@);
}

proof fn lemma_created(accounts: Seq<Account>, effects: Seq<EffectView>, i: int, j: int)
    requires
        effects[i] is Write,
        0 <= j < effects.len(),
        effects[j] is Create,
        effects[j]->target == effects[i]->account,
    ensures
        keeps(accounts, effects, i),
{
    reveal(keeps);
    assert(creates(effects, effects[i]->account));
}

proof fn lemma_no_write(accounts: Seq<Account>, effects: Seq<EffectView>)
    requires
        forall|i: int| 0 <= i < effects.len() ==> !((#[trigger] effects[i]) is Write),
    ensures
        all_keep(accounts, effects),
{
    reveal(all_keep);
    assert forall|i: int| 0 <= i < effects.len() implies #[trigger] keeps(accounts, effects, i) by {
        lemma_not_written(accounts, effects, i);
    }
}

proof fn lemma_not_written(accounts: Seq<Account>, effects: Seq<EffectView>, i: int)
    requires
        !(effects[i] is Write),
    ensures
        keeps(accounts, effects, i),
{
    reveal(keeps);
}

#[verifier::spinoff_prover]
proof fn lemma_new_coin(
    program_id: Pubkey,
    accounts: Seq<Account>,
    data: Seq<u8>,
    slot: u64,
    coin: CoinAddresses,
)
    ensures
        coin_lifecycle::init_coin_config_outcome(program_id, accounts, data, slot, coin) matches Ok(
            effects,
        ) ==> all_keep(accounts, effects),
{
    let outcome = coin_lifecycle::init_coin_config_outcome(
        program_id,
        accounts,
        data,
        slot,
        coin,
    );
    if outcome is Ok {
        let effects = outcome->Ok_0;
        lemma_not_written(accounts, effects, 0);
        lemma_created(accounts, effects, 1, 0);
        reveal(all_keep);
    }
}

#[verifier::spinoff_prover]
proof fn lemma_going_live(
    program_id: Pubkey,
    accounts: Seq<Account>,
    data: Seq<u8>,
    coin: CoinAddresses,
)
    ensures
        coin_lifecycle::activate_live_outcome(program_id, accounts, data, coin) matches Ok(effects)
            ==> all_keep(accounts, effects),
{
    let outcome = coin_lifecycle::activate_live_outcome(program_id, accounts, data, coin);
    if outcome is Ok {
        reveal(all_keep);
        reveal(keeps);
        let cfg = CoinConfig::decoded(accounts[3].data@)->Ok_0;
        lemma_kinds_differ(accounts[3].data@);
        if cfg.phase != PHASE_LIVE {
            let live = coin_lifecycle::activated(
                cfg,
                crate::system::slot_of(accounts[4])->Ok_0,
            );
            live.round_trip(accounts[3].data@);
        }
    }
}

#[verifier::spinoff_prover]
proof fn lemma_calls(
    program_id: Pubkey,
    accounts: Seq<Account>,
    data: Seq<u8>,
    coin: CoinAddresses,
    address: Option<Address>,
)
    ensures
        coin_lifecycle::mint_reward_outcome(program_id, accounts, data, coin) matches Ok(effects)
            ==> all_keep(accounts, effects),
        coin_lifecycle::transfer_mint_authority_outcome(program_id, accounts, coin) matches Ok(
            effects,
        ) ==> all_keep(accounts, effects),
        market::init_percolator_market_outcome(program_id, accounts, data, coin) matches Ok(effects)
            ==> all_keep(accounts, effects),
        market::percolator_admin_outcome(program_id, accounts, data, coin) matches Ok(effects)
            ==> all_keep(accounts, effects),
        market::recover_genesis_market_outcome(
            program_id,
            accounts,
            data,
            coin,
            address,
        ) matches Ok(effects) ==> all_keep(accounts, effects),
        handover::draw_genesis_surplus_outcome(program_id, accounts, data, coin) matches Ok(effects)
            ==> all_keep(accounts, effects),
        handover::init_genesis_squads_outcome(program_id, accounts, data, coin) matches Ok(effects)
            ==> all_keep(accounts, effects),
        handover::handover_genesis_squads_outcome(program_id, accounts, data, coin) matches Ok(
            effects,
        ) ==> all_keep(accounts, effects),
{
    if let Ok(effects) = coin_lifecycle::mint_reward_outcome(program_id, accounts, data, coin) {
        lemma_no_write(accounts, effects);
    }
    if let Ok(effects) = coin_lifecycle::transfer_mint_authority_outcome(
        program_id,
        accounts,
        coin,
    ) {
        lemma_no_write(accounts, effects);
    }
    if let Ok(effects) = market::init_percolator_market_outcome(program_id, accounts, data, coin) {
        lemma_no_write(accounts, effects);
    }
    if let Ok(effects) = market::percolator_admin_outcome(program_id, accounts, data, coin) {
        lemma_no_write(accounts, effects);
    }
    if let Ok(effects) = market::recover_genesis_market_outcome(
        program_id,
        accounts,
        data,
        coin,
        address,
    ) {
        lemma_no_write(accounts, effects);
    }
    if let Ok(effects) = handover::draw_genesis_surplus_outcome(program_id, accounts, data, coin) {
        lemma_no_write(accounts, effects);
    }
    if let Ok(effects) = handover::init_genesis_squads_outcome(program_id, accounts, data, coin) {
        lemma_no_write(accounts, effects);
    }
    if let Ok(effects) = handover::handover_genesis_squads_outcome(
        program_id,
        accounts,
        data,
        coin,
    ) {
        lemma_no_write(accounts, effects);
    }
}

#[verifier::spinoff_prover]
proof fn lemma_opening(
    program_id: Pubkey,
    accounts: Seq<Account>,
    data: Seq<u8>,
    slot: u64,
    coin: CoinAddresses,
)
    ensures
        deposits::init_genesis_bootstrap_outcome(
            program_id,
            accounts,
            data,
            slot,
            coin,
        ) matches Ok(effects) ==> all_keep(accounts, effects),
{
    let outcome = deposits::init_genesis_bootstrap_outcome(program_id, accounts, data, slot, coin);
    if outcome is Ok {
        let effects = outcome->Ok_0;
        let n = effects.len() as int;
        assert(n == 4 || n == 5);
        assert(effects[n - 4] is Create && effects[n - 4]->target == 5);
        lemma_created(accounts, effects, n - 1, n - 4);
        reveal(all_keep);
        assert forall|i: int| 0 <= i < n implies #[trigger] keeps(accounts, effects, i) by {
            if i < n - 1 {
                lemma_not_written(accounts, effects, i);
            }
        }
    }
}

#[verifier::spinoff_prover]
proof fn lemma_deposit(
    program_id: Pubkey,
    accounts: Seq<Account>,
    data: Seq<u8>,
    slot: u64,
    coin: CoinAddresses,
    address: Option<Address>,
)
    ensures
        deposits::genesis_deposit_outcome(
            program_id,
            accounts,
            data,
            slot,
            coin,
            address,
        ) matches Ok(effects) ==> all_keep(accounts, effects),
{
    let outcome = deposits::genesis_deposit_outcome(
        program_id,
        accounts,
        data,
        slot,
        coin,
        address,
    );
    if outcome is Ok {
        let effects = outcome->Ok_0;
        let n = effects.len() as int;
        let cfg = GenesisConfig::decoded(accounts[3].data@)->Ok_0;
        let after = ledger::deposited(
            cfg,
            deposits::position_for(accounts[4], accounts[0].key, address, program_id)->Ok_0,
            bytes::u64_of(data.subrange(0, 8)),
            slot,
        )->Ok_0;
        records::a_deposit_is_read_back(program_id, accounts, data, slot, coin, address);
        lemma_pool_written(accounts, effects, n - 2, 3, cfg, after.0);
        if deposits::is_absent(accounts[4]) {
            lemma_created(accounts, effects, n - 1, 0);
        } else {
            lemma_other_written(accounts, effects, n - 1, 4);
        }
        reveal(all_keep);
        assert forall|i: int| 0 <= i < n implies #[trigger] keeps(accounts, effects, i) by {
            if i < n - 2 {
                lemma_not_written(accounts, effects, i);
            }
        }
    }
}

proof fn lemma_exit(accounts: Seq<Account>, effects: Seq<EffectView>, exit: Exit, from: int)
    requires
        accounts[3].data@.len() >= crate::genesis::GENESIS_CFG_SIZE,
        GenesisConfig::decoded(accounts[3].data@) is Ok,
        GenesisPosition::decoded(accounts[4].data@) is Ok,
        exit.cfg.wf(),
        follows(GenesisConfig::decoded(accounts[3].data@)->Ok_0, exit.cfg),
        0 <= from,
        from + 2 <= effects.len(),
        effects[from] == withdrawal::records(accounts, exit)[0],
        effects[from + 1] == withdrawal::records(accounts, exit)[1],
        forall|i: int|
            0 <= i < effects.len() && i != from && i != from + 1 ==> !((#[trigger] effects[i]) is Write),
    ensures
        all_keep(accounts, effects),
{
    records::an_exit_is_read_back(accounts, exit);
    lemma_pool_written(
        accounts,
        effects,
        from,
        3,
        GenesisConfig::decoded(accounts[3].data@)->Ok_0,
        exit.cfg,
    );
    lemma_other_written(accounts, effects, from + 1, 4);
    reveal(all_keep);
    assert forall|i: int| 0 <= i < effects.len() implies #[trigger] keeps(accounts, effects, i) by {
        if i != from && i != from + 1 {
            lemma_not_written(accounts, effects, i);
        }
    }
}

#[verifier::spinoff_prover]
#[verifier::rlimit(40)]
proof fn lemma_withdrawal(
    program_id: Pubkey,
    accounts: Seq<Account>,
    data: Seq<u8>,
    coin: CoinAddresses,
    address: Option<Address>,
    percolator_vault: Option<Address>,
)
    ensures
        withdrawal::genesis_withdraw_outcome(
            program_id,
            accounts,
            data,
            coin,
            address,
            percolator_vault,
        ) matches Ok(plan) ==> all_keep(accounts, plan.effects),
{
    let outcome = withdrawal::genesis_withdraw_outcome(
        program_id,
        accounts,
        data,
        coin,
        address,
        percolator_vault,
    );
    if outcome is Ok {
        let effects = outcome->Ok_0.effects;
        let cfg = GenesisConfig::decoded(accounts[3].data@)->Ok_0;
        let position = GenesisPosition::decoded(accounts[4].data@)->Ok_0;
        let vault = crate::checks::token_account_at(accounts[6])->Ok_0.amount;
        if cfg.finalized == 1 {
            if position.claim() != 0 {
                let exit = ledger::settled(cfg, position, vault)->Ok_0;
                lemma_exit(accounts, effects, exit, 0);
            } else {
                lemma_no_write(accounts, effects);
            }
        } else if cfg.kicked != 1 {
            let exit = ledger::refunded(cfg, position, vault);
            lemma_exit(accounts, effects, exit, effects.len() - 2);
        } else {
            lemma_no_write(accounts, effects);
        }
    }
}

#[verifier::spinoff_prover]
proof fn lemma_vote(
    program_id: Pubkey,
    accounts: Seq<Account>,
    data: Seq<u8>,
    slot: u64,
    coin: CoinAddresses,
    address: Option<Address>,
)
    ensures
        vote::vote_genesis_distribution_outcome(
            program_id,
            accounts,
            data,
            slot,
            coin,
            address,
        ) matches Ok(effects) ==> all_keep(accounts, effects),
{
    let outcome = vote::vote_genesis_distribution_outcome(
        program_id,
        accounts,
        data,
        slot,
        coin,
        address,
    );
    if outcome is Ok {
        let effects = outcome->Ok_0;
        let tally = Tally {
            cfg: GenesisConfig::decoded(accounts[3].data@)->Ok_0,
            position: GenesisPosition::decoded(accounts[4].data@)->Ok_0,
            candidate: GenesisDistribution::decoded(accounts[5].data@)->Ok_0,
        };
        let after = vote::vote_result(tally, accounts[5].key, data[0], slot)->Ok_0;
        records::a_vote_is_read_back(program_id, accounts, data, slot, coin, address);
        lemma_pool_written(accounts, effects, 0, 3, tally.cfg, after.cfg);
        lemma_other_written(accounts, effects, 1, 4);
        lemma_other_written(accounts, effects, 2, 5);
        reveal(all_keep);
    }
}

#[verifier::spinoff_prover]
proof fn lemma_candidate(
    program_id: Pubkey,
    accounts: Seq<Account>,
    data: Seq<u8>,
    coin: CoinAddresses,
    address: Option<Address>,
)
    ensures
        vote::init_genesis_distribution_outcome(
            program_id,
            accounts,
            data,
            coin,
            address,
        ) matches Ok(effects) ==> all_keep(accounts, effects),
{
    let outcome = vote::init_genesis_distribution_outcome(
        program_id,
        accounts,
        data,
        coin,
        address,
    );
    if outcome is Ok {
        lemma_not_written(accounts, outcome->Ok_0, 0);
        lemma_created(accounts, outcome->Ok_0, 1, 0);
        reveal(all_keep);
    }
}

#[verifier::spinoff_prover]
proof fn lemma_trigger(
    program_id: Pubkey,
    accounts: Seq<Account>,
    data: Seq<u8>,
    coin: CoinAddresses,
)
    ensures
        vote::trigger_genesis_distribution_outcome(program_id, accounts, data, coin) matches Ok(
            effects,
        ) ==> all_keep(accounts, effects),
{
    let outcome = vote::trigger_genesis_distribution_outcome(program_id, accounts, data, coin);
    if outcome is Ok {
        let effects = outcome->Ok_0;
        let cfg = GenesisConfig::decoded(accounts[1].data@)->Ok_0;
        access::a_trigger_records_the_mint(program_id, accounts, data, coin);
        lemma_pool_written(accounts, effects, 0, 1, cfg, vote::minted(cfg));
        lemma_other_written(accounts, effects, 1, 6);
        reveal(all_keep);
        assert forall|i: int| 0 <= i < effects.len() implies #[trigger] keeps(
            accounts,
            effects,
            i,
        ) by {
            if i > 1 {
                lemma_not_written(accounts, effects, i);
            }
        }
    }
}

#[verifier::spinoff_prover]
proof fn lemma_finalization(
    program_id: Pubkey,
    accounts: Seq<Account>,
    data: Seq<u8>,
    coin: CoinAddresses,
)
    ensures
        handover::finalize_genesis_outcome(program_id, accounts, data, coin) matches Ok(effects)
            ==> all_keep(accounts, effects),
{
    let outcome = handover::finalize_genesis_outcome(program_id, accounts, data, coin);
    if outcome is Ok {
        let cfg = GenesisConfig::decoded(accounts[2].data@)->Ok_0;
        handover::finalized(cfg).round_trip(accounts[2].data@);
        lemma_pool_written(accounts, outcome->Ok_0, 0, 2, cfg, handover::finalized(cfg));
        reveal(all_keep);
    }
}

#[verifier::spinoff_prover]
proof fn lemma_deployment(
    program_id: Pubkey,
    accounts: Seq<Account>,
    data: Seq<u8>,
    coin: CoinAddresses,
    address: Option<Address>,
)
    ensures
        market::kickstart_genesis_market_outcome(
            program_id,
            accounts,
            data,
            coin,
            address,
        ) matches Ok(effects) ==> all_keep(accounts, effects),
{
    let outcome = market::kickstart_genesis_market_outcome(
        program_id,
        accounts,
        data,
        coin,
        address,
    );
    if outcome is Ok {
        let effects = outcome->Ok_0;
        let n = effects.len() as int;
        let cfg = GenesisConfig::decoded(accounts[4].data@)->Ok_0;
        access::a_deployment_records_its_market(program_id, accounts, data, coin, address);
        lemma_pool_written(
            accounts,
            effects,
            n - 1,
            4,
            cfg,
            market::deployed(cfg, accounts[6].key),
        );
        reveal(all_keep);
        assert forall|i: int| 0 <= i < n implies #[trigger] keeps(accounts, effects, i) by {
            if i < n - 1 {
                lemma_not_written(accounts, effects, i);
            }
        }
    }
}

#[verifier::spinoff_prover]
proof fn lemma_approval(
    program_id: Pubkey,
    accounts: Seq<Account>,
    data: Seq<u8>,
    coin: CoinAddresses,
    address: Option<Address>,
)
    ensures
        handover::approve_builder_outcome(
            program_id,
            accounts,
            data,
            coin,
            address,
        ) matches Ok(effects) ==> all_keep(accounts, effects),
{
    let outcome = handover::approve_builder_outcome(program_id, accounts, data, coin, address);
    if outcome is Ok {
        let effects = outcome->Ok_0;
        if deposits::is_absent(accounts[5]) {
            lemma_not_written(accounts, effects, 0);
            lemma_created(accounts, effects, 1, 0);
        } else {
            lemma_other_written(accounts, effects, 0, 5);
        }
        reveal(all_keep);
    }
}

/// Milestones are one-way in every instruction. Whatever instruction the rewards program is given: what
/// it writes over a pool or a COIN is what may become of it. An account that the same instruction creates
/// held neither, as only an account that does not exist can be created.
#[verifier::spinoff_prover]
#[verifier::rlimit(30)]
pub proof fn no_instruction_goes_back(
    program_id: Pubkey,
    accounts: Seq<Account>,
    instruction_data: Seq<u8>,
    slot: u64,
)
    ensures
        rewards::process_outcome(program_id, accounts, instruction_data, slot) matches Ok(plan)
            ==> all_keep(accounts, plan.effects),
{
    let tag = instruction_data[0];
    let data = instruction_data.subrange(1, instruction_data.len() as int);
    let first = CoinAddresses::of(program_id, accounts[1].key);
    let second = CoinAddresses::of(program_id, accounts[2].key);
    let third = CoinAddresses::of(program_id, accounts[3].key);
    let position = rewards::position_of(program_id, accounts[3].key, accounts[0].key);
    let market_vault = addresses::percolator_vault_of(accounts[6].key);
    if tag == rewards::IX_INIT_COIN_CONFIG {
        lemma_new_coin(program_id, accounts, data, slot, second);
    } else if tag == rewards::IX_ACTIVATE_LIVE {
        lemma_going_live(program_id, accounts, data, second);
    } else if tag == rewards::IX_INIT_GENESIS_BOOTSTRAP {
        lemma_opening(program_id, accounts, data, slot, second);
    } else if tag == rewards::IX_GENESIS_DEPOSIT {
        lemma_deposit(program_id, accounts, data, slot, first, position);
    } else if tag == rewards::IX_GENESIS_WITHDRAW {
        lemma_withdrawal(
            program_id,
            accounts,
            data,
            first,
            position,
            addresses::percolator_vault_of(accounts[9].key),
        );
    } else if tag == rewards::IX_TRIGGER_GENESIS_DISTRIBUTION {
        lemma_trigger(program_id, accounts, data, second);
    } else if tag == rewards::IX_FINALIZE_GENESIS {
        lemma_finalization(program_id, accounts, data, third);
    } else if tag == rewards::IX_KICKSTART_GENESIS_MARKET {
        lemma_deployment(program_id, accounts, data, second, market_vault);
    } else if tag == rewards::IX_INIT_GENESIS_DISTRIBUTION {
        lemma_candidate(
            program_id,
            accounts,
            data,
            first,
            addresses::address_of(
                addresses::genesis_distribution_path(
                    accounts[3].key,
                    bytes::u64_of(data.subrange(0, 8)),
                ),
                program_id,
            ),
        );
    } else if tag == rewards::IX_VOTE_GENESIS_DISTRIBUTION {
        lemma_vote(program_id, accounts, data, slot, first, position);
    } else if tag == rewards::IX_APPROVE_BUILDER {
        lemma_approval(
            program_id,
            accounts,
            data,
            second,
            addresses::address_of(
                addresses::builder_approval_path(
                    accounts[2].key,
                    accounts[4].key,
                    pubkey::key_of(data.subrange(0, 32)).bytes,
                ),
                program_id,
            ),
        );
    } else if tag == rewards::IX_INIT_PERCOLATOR_MARKET {
        lemma_calls(program_id, accounts, data, first, market_vault);
    } else if tag == rewards::IX_DRAW_GENESIS_SURPLUS {
        lemma_calls(program_id, accounts, data, third, market_vault);
    } else {
        lemma_calls(program_id, accounts, data, second, market_vault);
    }
}

/// The second step of an exit out of the market, on the records that the first step read.
pub open spec fn completes(accounts: Seq<Account>, exit: MarketExit) -> bool {
    &&& GenesisConfig::decoded(accounts[3].data@) == Ok::<GenesisConfig, ProgramError>(exit.cfg)
    &&& GenesisPosition::decoded(accounts[4].data@) == Ok::<GenesisPosition, ProgramError>(
        exit.position,
    )
}

/// Nor does the second step of an exit out of the market go back.
#[verifier::spinoff_prover]
pub proof fn no_market_exit_goes_back(accounts: Seq<Account>, exit: MarketExit)
    requires
        completes(accounts, exit),
    ensures
        withdrawal::market_exit_outcome(accounts, exit) matches Ok(effects) ==> all_keep(
            accounts,
            effects,
        ),
{
    let outcome = withdrawal::market_exit_outcome(accounts, exit);
    if outcome is Ok {
        let vault = crate::checks::token_account_at(accounts[6])->Ok_0.amount;
        let recovered = if vault >= exit.vault_before {
            (vault - exit.vault_before) as u64
        } else {
            0
        };
        lemma_exit(
            accounts,
            outcome->Ok_0,
            ledger::exited(exit.cfg, exit.position, recovered)->Ok_0,
            outcome->Ok_0.len() - 2,
        );
    }
}

/// Effect `i` writes `after` over an account that held `before`, and that the effects do not create.
pub open spec fn overwrites(
    accounts: Seq<Account>,
    effects: Seq<EffectView>,
    i: int,
    before: Seq<u8>,
    after: Seq<u8>,
) -> bool {
    &&& 0 <= i < effects.len()
    &&& effects[i] is Write
    &&& effects[i]->Write_data == after
    &&& accounts[effects[i]->account as int].data@ == before
    &&& !creates(effects, effects[i]->account)
}

/// An instruction of the rewards program turns the contents `before` of an account into `after`.
pub open spec fn written_by(
    program_id: Pubkey,
    accounts: Seq<Account>,
    instruction_data: Seq<u8>,
    slot: u64,
    i: int,
    before: Seq<u8>,
    after: Seq<u8>,
) -> bool {
    rewards::process_outcome(program_id, accounts, instruction_data, slot) matches Ok(plan)
        && overwrites(accounts, plan.effects, i, before, after)
}

/// The second step of an exit does.
pub open spec fn completed_by(
    accounts: Seq<Account>,
    exit: MarketExit,
    i: int,
    before: Seq<u8>,
    after: Seq<u8>,
) -> bool {
    completes(accounts, exit) && (withdrawal::market_exit_outcome(accounts, exit) matches Ok(effects)
        && overwrites(accounts, effects, i, before, after))
}

/// One step in the life of an account of the rewards program: nothing happens to it, or the program
/// writes to it. Nobody else can.
#[verifier::opaque]
pub open spec fn step(program_id: Pubkey, before: Seq<u8>, after: Seq<u8>) -> bool {
    ||| after == before
    ||| exists|accounts: Seq<Account>, instruction_data: Seq<u8>, slot: u64, i: int| #[trigger]
        written_by(program_id, accounts, instruction_data, slot, i, before, after)
    ||| exists|accounts: Seq<Account>, exit: MarketExit, i: int| #[trigger]
        completed_by(accounts, exit, i, before, after)
}

/// The contents of an account of the rewards program over time.
pub open spec fn history(program_id: Pubkey, contents: Seq<Seq<u8>>) -> bool {
    forall|k: int|
        0 <= k < contents.len() - 1 ==> step(program_id, #[trigger] contents[k], contents[k + 1])
}

#[verifier::spinoff_prover]
proof fn lemma_overwrites(
    accounts: Seq<Account>,
    effects: Seq<EffectView>,
    i: int,
    before: Seq<u8>,
    after: Seq<u8>,
)
    requires
        all_keep(accounts, effects),
        overwrites(accounts, effects, i, before, after),
    ensures
        GenesisConfig::decoded(before) matches Ok(cfg) ==> GenesisConfig::decoded(after) is Ok
            && follows(cfg, GenesisConfig::decoded(after)->Ok_0),
        CoinConfig::decoded(before) matches Ok(cfg) ==> CoinConfig::decoded(after) is Ok
            && coin_follows(cfg, CoinConfig::decoded(after)->Ok_0),
{
    reveal(all_keep);
    reveal(keeps);
    assert(keeps(accounts, effects, i));
}

/// A step leaves of a pool, and of a COIN, what may become of it.
#[verifier::spinoff_prover]
pub proof fn a_step_goes_one_way(program_id: Pubkey, before: Seq<u8>, after: Seq<u8>)
    requires
        step(program_id, before, after),
    ensures
        GenesisConfig::decoded(before) matches Ok(cfg) ==> GenesisConfig::decoded(after) is Ok
            && follows(cfg, GenesisConfig::decoded(after)->Ok_0),
        CoinConfig::decoded(before) matches Ok(cfg) ==> CoinConfig::decoded(after) is Ok
            && coin_follows(cfg, CoinConfig::decoded(after)->Ok_0),
{
    reveal(step);
    if after == before {
    } else if exists|accounts: Seq<Account>, instruction_data: Seq<u8>, slot: u64, i: int|
        #[trigger]
        written_by(program_id, accounts, instruction_data, slot, i, before, after) {
        let (accounts, instruction_data, slot, i) = choose|
            accounts: Seq<Account>,
            instruction_data: Seq<u8>,
            slot: u64,
            i: int,
        | #[trigger]
            written_by(program_id, accounts, instruction_data, slot, i, before, after);
        no_instruction_goes_back(program_id, accounts, instruction_data, slot);
        lemma_overwrites(
            accounts,
            rewards::process_outcome(program_id, accounts, instruction_data, slot)->Ok_0.effects,
            i,
            before,
            after,
        );
    } else {
        let (accounts, exit, i) = choose|accounts: Seq<Account>, exit: MarketExit, i: int|
            #[trigger]
            completed_by(accounts, exit, i, before, after);
        no_market_exit_goes_back(accounts, exit);
        lemma_overwrites(
            accounts,
            withdrawal::market_exit_outcome(accounts, exit)->Ok_0,
            i,
            before,
            after,
        );
    }
}

/// Over its whole life a pool keeps to what may become of it: whatever instructions come in between,
/// the supply stays what it was, what is minted of it stays or becomes the whole, and deployment and
/// finalization last.
#[verifier::spinoff_prover]
pub proof fn a_pool_goes_one_way(program_id: Pubkey, contents: Seq<Seq<u8>>, a: int, b: int)
    requires
        history(program_id, contents),
        0 <= a <= b < contents.len(),
        GenesisConfig::decoded(contents[a]) is Ok,
    ensures
        GenesisConfig::decoded(contents[b]) is Ok,
        follows(
            GenesisConfig::decoded(contents[a])->Ok_0,
            GenesisConfig::decoded(contents[b])->Ok_0,
        ),
    decreases b - a,
{
    if a < b {
        a_pool_goes_one_way(program_id, contents, a, b - 1);
        assert(step(program_id, contents[b - 1], contents[b - 1 + 1]));
        a_step_goes_one_way(program_id, contents[b - 1], contents[b]);
    }
}

/// Over its whole life a COIN that is live stays as it is: its phase never returns, and it keeps the
/// slot at which it went live.
#[verifier::spinoff_prover]
pub proof fn a_live_coin_stays_as_it_is(
    program_id: Pubkey,
    contents: Seq<Seq<u8>>,
    a: int,
    b: int,
)
    requires
        history(program_id, contents),
        0 <= a <= b < contents.len(),
        CoinConfig::decoded(contents[a]) is Ok,
        CoinConfig::decoded(contents[a])->Ok_0.phase == PHASE_LIVE,
    ensures
        CoinConfig::decoded(contents[b]) == CoinConfig::decoded(contents[a]),
    decreases b - a,
{
    if a < b {
        a_live_coin_stays_as_it_is(program_id, contents, a, b - 1);
        assert(step(program_id, contents[b - 1], contents[b - 1 + 1]));
        a_step_goes_one_way(program_id, contents[b - 1], contents[b]);
    }
}

/// In every state that a pool can reach from its opening, no more is minted than its supply, and what is
/// minted is nothing or all of it.
pub proof fn a_reachable_pool_is_within_its_supply(
    program_id: Pubkey,
    contents: Seq<Seq<u8>>,
    coin_mint: Pubkey,
    base_mint: Pubkey,
    token_vault: Pubkey,
    reward_supply: u64,
    k: int,
)
    requires
        history(program_id, contents),
        0 <= k < contents.len(),
        contents[0] == deposits::new_pool(
            coin_mint,
            base_mint,
            token_vault,
            reward_supply,
        ).encoded(),
    ensures
        GenesisConfig::decoded(contents[k]) is Ok,
        supply::within_supply(GenesisConfig::decoded(contents[k])->Ok_0),
        GenesisConfig::decoded(contents[k])->Ok_0.reward_supply == reward_supply,
        GenesisConfig::decoded(contents[k])->Ok_0.minted_supply == 0 || GenesisConfig::decoded(
            contents[k],
        )->Ok_0.minted_supply == reward_supply,
    decreases k,
{
    if k == 0 {
        deposits::new_pool(coin_mint, base_mint, token_vault, reward_supply).reads_back();
    } else {
        a_reachable_pool_is_within_its_supply(
            program_id,
            contents,
            coin_mint,
            base_mint,
            token_vault,
            reward_supply,
            k - 1,
        );
        a_pool_goes_one_way(program_id, contents, k - 1, k);
    }
}

/// The winner takes all, once. After a trigger, whatever instructions come in between, no candidate of
/// the pool can be triggered any more.
pub proof fn the_supply_is_minted_once_for_all(
    program_id: Pubkey,
    coin: CoinAddresses,
    contents: Seq<Seq<u8>>,
    a: int,
    b: int,
    accounts: Seq<Account>,
    data: Seq<u8>,
    later_accounts: Seq<Account>,
    later_data: Seq<u8>,
)
    requires
        history(program_id, contents),
        0 <= a < b < contents.len(),
        accounts[1].data@ == contents[a],
        vote::trigger_genesis_distribution_outcome(program_id, accounts, data, coin) is Ok,
        vote::trigger_genesis_distribution_outcome(
            program_id,
            accounts,
            data,
            coin,
        )->Ok_0[0]->Write_data == contents[a + 1],
        GenesisConfig::decoded(contents[a])->Ok_0.reward_supply > 0,
        later_accounts[1].data@ == contents[b],
    ensures
        vote::trigger_genesis_distribution_outcome(
            program_id,
            later_accounts,
            later_data,
            coin,
        ) is Err,
{
    access::a_trigger_records_the_mint(program_id, accounts, data, coin);
    a_pool_goes_one_way(program_id, contents, a + 1, b);
    access::a_minted_pool_cannot_be_triggered(program_id, later_accounts, later_data, coin);
}

/// What a deployment asks of everything but the pool and its vault.
pub open spec fn deployment_is_in_order(
    program_id: Pubkey,
    accounts: Seq<Account>,
    data: Seq<u8>,
    coin: CoinAddresses,
) -> bool {
    &&& accounts.len() >= 12
    &&& data.len() == 9
    &&& accounts[0].is_signer
    &&& accounts[11].key.bytes == pubkey::TOKEN_PROGRAM
    &&& accounts[10].key.bytes == pubkey::PERCOLATOR_PROGRAM
    &&& crate::checks::governed_config(accounts[1], accounts[3], coin, program_id) is Ok
    &&& crate::checks::bump_at(accounts[5], coin.market_admin) is Ok
    &&& crate::checks::genesis_config_at(
        accounts[4],
        accounts[2].key,
        coin.genesis_cfg,
        program_id,
    ) is Ok
}

/// A pool that is empty, deployed already or finalized is not deployed, and neither is one whose vault
/// holds less than was deposited: nothing is called and nothing is written.
pub proof fn a_deployment_is_refused_for_its_reason(
    program_id: Pubkey,
    accounts: Seq<Account>,
    data: Seq<u8>,
    coin: CoinAddresses,
    percolator_vault: Option<Address>,
)
    requires
        deployment_is_in_order(program_id, accounts, data, coin),
    ensures
        ({
            let cfg = GenesisConfig::decoded(accounts[4].data@)->Ok_0;
            let vault = crate::checks::vault_at(
                accounts[7],
                cfg,
                accounts[5].key,
                coin.genesis_vault,
            );
            let outcome = market::kickstart_genesis_market_outcome(
                program_id,
                accounts,
                data,
                coin,
                percolator_vault,
            );
            &&& cfg.finalized == 1 || cfg.kicked == 1 || cfg.total_deposited == 0 ==> outcome
                == Err::<Seq<EffectView>, ProgramError>(ProgramError::InvalidInstructionData)
            &&& cfg.finalized != 1 && cfg.kicked != 1 && cfg.total_deposited > 0 && vault is Ok
                && vault->Ok_0.amount < cfg.total_deposited && crate::checks::controlled_market(
                accounts[6],
                cfg.base_mint,
                accounts[5].key,
            ) is Ok && crate::checks::market_vault_ok(
                accounts[8],
                accounts[9],
                cfg.base_mint,
                percolator_vault,
            ) is Ok ==> outcome == Err::<Seq<EffectView>, ProgramError>(
                ProgramError::InsufficientFunds,
            )
        }),
{
}

/// The pool is deployed once. After a deployment, whatever instructions come in between, the pool cannot
/// be deployed again.
pub proof fn the_pool_is_deployed_once_for_all(
    program_id: Pubkey,
    coin: CoinAddresses,
    contents: Seq<Seq<u8>>,
    a: int,
    b: int,
    accounts: Seq<Account>,
    data: Seq<u8>,
    percolator_vault: Option<Address>,
    later_accounts: Seq<Account>,
    later_data: Seq<u8>,
    later_vault: Option<Address>,
)
    requires
        history(program_id, contents),
        0 <= a < b < contents.len(),
        market::kickstart_genesis_market_outcome(
            program_id,
            accounts,
            data,
            coin,
            percolator_vault,
        ) is Ok,
        accounts[4].data@ == contents[a],
        market::kickstart_genesis_market_outcome(
            program_id,
            accounts,
            data,
            coin,
            percolator_vault,
        )->Ok_0.last()->Write_data == contents[a + 1],
        later_accounts[4].data@ == contents[b],
    ensures
        market::kickstart_genesis_market_outcome(
            program_id,
            later_accounts,
            later_data,
            coin,
            later_vault,
        ) is Err,
{
    access::a_deployment_records_its_market(program_id, accounts, data, coin, percolator_vault);
    a_pool_goes_one_way(program_id, contents, a + 1, b);
}

/// Activating a live COIN again succeeds and changes nothing, whatever the clock says.
pub proof fn activating_again_changes_nothing(
    program_id: Pubkey,
    accounts: Seq<Account>,
    coin: CoinAddresses,
)
    requires
        accounts.len() >= 5,
        accounts[0].is_signer,
        crate::checks::governed_config(accounts[1], accounts[3], coin, program_id) is Ok,
        CoinConfig::decoded(accounts[3].data@)->Ok_0.phase == PHASE_LIVE,
    ensures
        coin_lifecycle::activate_live_outcome(program_id, accounts, Seq::empty(), coin) == Ok::<
            Seq<EffectView>,
            ProgramError,
        >(Seq::empty()),
{
}

} // verus!
