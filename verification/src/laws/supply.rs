//! The supply that a vote decides on is never exceeded.
use crate::account::{Account, EffectView};
use crate::addresses;
use crate::addresses::{Address, CoinAddresses};
use crate::builder::{BuilderApproval, BUILDER_APPROVAL_DISC};
use crate::bytes;
use crate::coin::{CoinConfig, COIN_CFG_DISC};
use crate::genesis::{
    GenesisConfig, GenesisDistribution, GenesisPosition, GENESIS_CFG_DISC, GENESIS_DISTRIBUTION_DISC,
    GENESIS_POSITION_DISC,
};
use crate::laws::access;
use crate::laws::records;
use crate::ledger;
use crate::ledger::{Exit, Tally};
use crate::pubkey;
use crate::pubkey::Pubkey;
use crate::rewards;
use crate::rewards::coin_lifecycle;
use crate::rewards::deposits;
use crate::rewards::handover;
use crate::rewards::market;
use crate::rewards::vote;
use crate::rewards::withdrawal;
use vstd::prelude::*;

verus! {

/// No more is minted than the supply.
pub open spec fn within_supply(cfg: GenesisConfig) -> bool {
    cfg.minted_supply <= cfg.reward_supply
}

/// A pool that was just opened has minted nothing of its supply.
pub proof fn a_new_pool_is_within_its_supply(
    coin_mint: Pubkey,
    base_mint: Pubkey,
    token_vault: Pubkey,
    reward_supply: u64,
)
    ensures
        deposits::new_pool(coin_mint, base_mint, token_vault, reward_supply).minted_supply == 0,
        within_supply(deposits::new_pool(coin_mint, base_mint, token_vault, reward_supply)),
{
}

/// Whatever happens to a pool, it keeps within its supply, and its supply stays what it was.
pub proof fn a_pool_stays_within_its_supply(
    tally: Tally,
    amount: u64,
    slot: u64,
    vault_balance: u64,
    recovered: u64,
    key: Pubkey,
    weight: u64,
    market_slab: Pubkey,
)
    requires
        within_supply(tally.cfg),
    ensures
        ledger::deposited(tally.cfg, tally.position, amount, slot) matches Ok(after)
            ==> within_supply(after.0) && after.0.reward_supply == tally.cfg.reward_supply,
        ({
            let after = ledger::refunded(tally.cfg, tally.position, vault_balance).cfg;
            within_supply(after) && after.reward_supply == tally.cfg.reward_supply
        }),
        ledger::exited(tally.cfg, tally.position, recovered) matches Ok(after) ==> within_supply(
            after.cfg,
        ) && after.cfg.reward_supply == tally.cfg.reward_supply,
        ledger::settled(tally.cfg, tally.position, vault_balance) matches Ok(after)
            ==> within_supply(after.cfg) && after.cfg.reward_supply == tally.cfg.reward_supply,
        tally.backed(key, weight) matches Ok(after) ==> within_supply(after.cfg)
            && after.cfg.reward_supply == tally.cfg.reward_supply,
        tally.retracted(key) matches Ok(after) ==> within_supply(after.cfg)
            && after.cfg.reward_supply == tally.cfg.reward_supply,
        ({
            let after = market::deployed(tally.cfg, market_slab);
            within_supply(after) && after.reward_supply == tally.cfg.reward_supply
        }),
        ({
            let after = vote::minted(tally.cfg);
            within_supply(after) && after.reward_supply == tally.cfg.reward_supply
        }),
        ({
            let after = handover::finalized(tally.cfg);
            within_supply(after) && after.reward_supply == tally.cfg.reward_supply
        }),
{
}

/// What an effect writes is within its supply, if it is a pool at all.
#[verifier::opaque]
pub open spec fn writes_within(effect: EffectView) -> bool {
    effect is Write && GenesisConfig::decoded(effect->Write_data) is Ok ==> within_supply(
        GenesisConfig::decoded(effect->Write_data)->Ok_0,
    )
}

#[verifier::opaque]
pub open spec fn all_write_within(effects: Seq<EffectView>) -> bool {
    forall|i: int| 0 <= i < effects.len() ==> writes_within(#[trigger] effects[i])
}

/// Every pool among the accounts is within its supply.
#[verifier::opaque]
pub open spec fn pools_within(accounts: Seq<Account>) -> bool {
    forall|i: int|
        0 <= i < accounts.len() && GenesisConfig::decoded((#[trigger] accounts[i]).data@) is Ok
            ==> within_supply(GenesisConfig::decoded(accounts[i].data@)->Ok_0)
}

proof fn lemma_kinds_differ()
    ensures
        COIN_CFG_DISC@ != GENESIS_CFG_DISC@,
        GENESIS_POSITION_DISC@ != GENESIS_CFG_DISC@,
        GENESIS_DISTRIBUTION_DISC@ != GENESIS_CFG_DISC@,
        BUILDER_APPROVAL_DISC@ != GENESIS_CFG_DISC@,
{
    assert(COIN_CFG_DISC@[0] != GENESIS_CFG_DISC@[0]);
    assert(GENESIS_POSITION_DISC@[3] != GENESIS_CFG_DISC@[3]);
    assert(GENESIS_DISTRIBUTION_DISC@[3] != GENESIS_CFG_DISC@[3]);
    assert(BUILDER_APPROVAL_DISC@[0] != GENESIS_CFG_DISC@[0]);
}

proof fn lemma_other_records(data: Seq<u8>)
    ensures
        CoinConfig::decoded(data) is Ok ==> GenesisConfig::decoded(data) is Err,
        GenesisPosition::decoded(data) is Ok ==> GenesisConfig::decoded(data) is Err,
        GenesisDistribution::decoded(data) is Ok ==> GenesisConfig::decoded(data) is Err,
        BuilderApproval::decoded(data) is Ok ==> GenesisConfig::decoded(data) is Err,
{
    lemma_kinds_differ();
}

proof fn lemma_pool_write(effect: EffectView, account: usize, cfg: GenesisConfig)
    requires
        records::writes_pool(effect, account, cfg),
        within_supply(cfg),
    ensures
        writes_within(effect),
{
    reveal(writes_within);
}

proof fn lemma_position_write(effect: EffectView, account: usize, position: GenesisPosition)
    requires
        records::writes_position(effect, account, position),
    ensures
        writes_within(effect),
{
    reveal(writes_within);
    lemma_other_records(effect->Write_data);
}

proof fn lemma_candidate_write(effect: EffectView, account: usize, candidate: GenesisDistribution)
    requires
        records::writes_candidate(effect, account, candidate),
    ensures
        writes_within(effect),
{
    reveal(writes_within);
    lemma_other_records(effect->Write_data);
}

proof fn lemma_pool_read(accounts: Seq<Account>, i: int)
    requires
        pools_within(accounts),
        0 <= i < accounts.len(),
    ensures
        GenesisConfig::decoded(accounts[i].data@) matches Ok(cfg) ==> within_supply(cfg),
{
    reveal(pools_within);
}

proof fn lemma_joined(first: Seq<EffectView>, second: Seq<EffectView>)
    requires
        all_write_within(first),
        all_write_within(second),
    ensures
        all_write_within(first + second),
{
    reveal(all_write_within);
    let effects = first + second;
    assert forall|i: int| 0 <= i < effects.len() implies writes_within(#[trigger] effects[i]) by {
        if i < first.len() {
            assert(effects[i] == first[i]);
        } else {
            assert(effects[i] == second[i - first.len()]);
        }
    }
}

proof fn lemma_no_write(effects: Seq<EffectView>)
    requires
        forall|i: int| 0 <= i < effects.len() ==> !((#[trigger] effects[i]) is Write),
    ensures
        all_write_within(effects),
{
    reveal(writes_within);
    reveal(all_write_within);
}

proof fn lemma_two_writes(first: EffectView, second: EffectView)
    requires
        writes_within(first),
        writes_within(second),
    ensures
        all_write_within(seq![first, second]),
{
    reveal(all_write_within);
}

#[verifier::spinoff_prover]
proof fn lemma_new_coin(
    program_id: Pubkey,
    accounts: Seq<Account>,
    data: Seq<u8>,
    slot: u64,
    coin: CoinAddresses,
)
    ensures
        coin_lifecycle::init_coin_config_outcome(program_id, accounts, data, slot, coin) matches Ok(
            effects,
        ) ==> all_write_within(effects),
{
    reveal(writes_within);
    reveal(all_write_within);
    let outcome = coin_lifecycle::init_coin_config_outcome(
        program_id,
        accounts,
        data,
        slot,
        coin,
    );
    if outcome is Ok {
        records::a_new_coin_is_read_back(program_id, accounts, data, slot, coin);
        lemma_other_records(outcome->Ok_0[1]->Write_data);
    }
}

#[verifier::spinoff_prover]
proof fn lemma_going_live(
    program_id: Pubkey,
    accounts: Seq<Account>,
    data: Seq<u8>,
    coin: CoinAddresses,
)
    ensures
        coin_lifecycle::activate_live_outcome(program_id, accounts, data, coin) matches Ok(effects)
            ==> all_write_within(effects),
{
    reveal(writes_within);
    reveal(all_write_within);
    let outcome = coin_lifecycle::activate_live_outcome(program_id, accounts, data, coin);
    if outcome is Ok {
        access::going_live_waits_for_the_delay_and_lasts(program_id, accounts, data, coin);
        if outcome->Ok_0.len() == 1 {
            lemma_other_records(outcome->Ok_0[0]->Write_data);
        }
    }
}

#[verifier::spinoff_prover]
proof fn lemma_calls_write_nothing(
    program_id: Pubkey,
    accounts: Seq<Account>,
    data: Seq<u8>,
    coin: CoinAddresses,
    address: Option<Address>,
)
    ensures
        coin_lifecycle::mint_reward_outcome(program_id, accounts, data, coin) matches Ok(effects)
            ==> all_write_within(effects),
        coin_lifecycle::transfer_mint_authority_outcome(program_id, accounts, coin) matches Ok(
            effects,
        ) ==> all_write_within(effects),
        market::init_percolator_market_outcome(program_id, accounts, data, coin) matches Ok(effects)
            ==> all_write_within(effects),
        market::percolator_admin_outcome(program_id, accounts, data, coin) matches Ok(effects)
            ==> all_write_within(effects),
        market::recover_genesis_market_outcome(
            program_id,
            accounts,
            data,
            coin,
            address,
        ) matches Ok(effects) ==> all_write_within(effects),
        handover::draw_genesis_surplus_outcome(program_id, accounts, data, coin) matches Ok(effects)
            ==> all_write_within(effects),
        handover::init_genesis_squads_outcome(program_id, accounts, data, coin) matches Ok(effects)
            ==> all_write_within(effects),
        handover::handover_genesis_squads_outcome(program_id, accounts, data, coin) matches Ok(
            effects,
        ) ==> all_write_within(effects),
{
    reveal(writes_within);
    reveal(all_write_within);
}

#[verifier::spinoff_prover]
proof fn lemma_opening(
    program_id: Pubkey,
    accounts: Seq<Account>,
    data: Seq<u8>,
    slot: u64,
    coin: CoinAddresses,
)
    ensures
        deposits::init_genesis_bootstrap_outcome(
            program_id,
            accounts,
            data,
            slot,
            coin,
        ) matches Ok(effects) ==> all_write_within(effects),
{
    reveal(writes_within);
    reveal(all_write_within);
    deposits::new_pool(
        accounts[2].key,
        accounts[4].key,
        accounts[6].key,
        bytes::u64_of(data.subrange(0, 8)),
    ).reads_back();
}

#[verifier::spinoff_prover]
proof fn lemma_deposit(
    program_id: Pubkey,
    accounts: Seq<Account>,
    data: Seq<u8>,
    slot: u64,
    coin: CoinAddresses,
    address: Option<Address>,
)
    requires
        accounts.len() > 3 ==> (GenesisConfig::decoded(accounts[3].data@) matches Ok(cfg)
            ==> within_supply(cfg)),
    ensures
        deposits::genesis_deposit_outcome(
            program_id,
            accounts,
            data,
            slot,
            coin,
            address,
        ) matches Ok(effects) ==> all_write_within(effects),
{
    let outcome = deposits::genesis_deposit_outcome(
        program_id,
        accounts,
        data,
        slot,
        coin,
        address,
    );
    if outcome is Ok {
        let effects = outcome->Ok_0;
        let n = effects.len() as int;
        let after = ledger::deposited(
            GenesisConfig::decoded(accounts[3].data@)->Ok_0,
            deposits::position_for(accounts[4], accounts[0].key, address, program_id)->Ok_0,
            bytes::u64_of(data.subrange(0, 8)),
            slot,
        )->Ok_0;
        records::a_deposit_is_read_back(program_id, accounts, data, slot, coin, address);
        lemma_pool_write(effects[n - 2], 3, after.0);
        lemma_position_write(effects[n - 1], 4, after.1);
        lemma_two_writes(effects[n - 2], effects[n - 1]);
        lemma_no_write(effects.take(n - 2));
        lemma_joined(effects.take(n - 2), seq![effects[n - 2], effects[n - 1]]);
        assert(effects =~= effects.take(n - 2) + seq![effects[n - 2], effects[n - 1]]);
    }
}

proof fn lemma_exit_records(accounts: Seq<Account>, exit: Exit)
    requires
        exit.cfg.wf(),
        within_supply(exit.cfg),
        accounts[3].data@.len() >= crate::genesis::GENESIS_CFG_SIZE,
        accounts[4].data@.len() >= crate::genesis::GENESIS_POSITION_SIZE,
    ensures
        all_write_within(withdrawal::records(accounts, exit)),
{
    reveal(writes_within);
    reveal(all_write_within);
    exit.cfg.round_trip(accounts[3].data@);
    exit.position.round_trip(accounts[4].data@);
    lemma_other_records(exit.position.written(accounts[4].data@));
}

#[verifier::spinoff_prover]
#[verifier::rlimit(40)]
proof fn lemma_withdrawal(
    program_id: Pubkey,
    accounts: Seq<Account>,
    data: Seq<u8>,
    coin: CoinAddresses,
    address: Option<Address>,
    percolator_vault: Option<Address>,
)
    requires
        accounts.len() > 3 ==> (GenesisConfig::decoded(accounts[3].data@) matches Ok(cfg)
            ==> within_supply(cfg)),
    ensures
        withdrawal::genesis_withdraw_outcome(
            program_id,
            accounts,
            data,
            coin,
            address,
            percolator_vault,
        ) matches Ok(plan) ==> all_write_within(plan.effects),
{
    let outcome = withdrawal::genesis_withdraw_outcome(
        program_id,
        accounts,
        data,
        coin,
        address,
        percolator_vault,
    );
    if outcome is Ok {
        let cfg = GenesisConfig::decoded(accounts[3].data@)->Ok_0;
        let position = GenesisPosition::decoded(accounts[4].data@)->Ok_0;
        let vault = crate::checks::token_account_at(accounts[6])->Ok_0.amount;
        let bump = coin.market_admin->0.bump;
        if cfg.finalized == 1 {
            if position.claim() != 0 {
                let exit = ledger::settled(cfg, position, vault)->Ok_0;
                lemma_exit_records(accounts, exit);
                lemma_no_write(withdrawal::payment(accounts, exit.paid, bump));
                lemma_joined(
                    withdrawal::records(accounts, exit),
                    withdrawal::payment(accounts, exit.paid, bump),
                );
            } else {
                lemma_no_write(outcome->Ok_0.effects);
            }
        } else if cfg.kicked != 1 {
            let exit = ledger::refunded(cfg, position, vault);
            lemma_exit_records(accounts, exit);
            lemma_no_write(withdrawal::payment(accounts, exit.paid, bump));
            lemma_joined(
                withdrawal::payment(accounts, exit.paid, bump),
                withdrawal::records(accounts, exit),
            );
        } else {
            lemma_no_write(outcome->Ok_0.effects);
        }
    }
}

#[verifier::spinoff_prover]
proof fn lemma_vote(
    program_id: Pubkey,
    accounts: Seq<Account>,
    data: Seq<u8>,
    slot: u64,
    coin: CoinAddresses,
    address: Option<Address>,
)
    requires
        accounts.len() > 3 ==> (GenesisConfig::decoded(accounts[3].data@) matches Ok(cfg)
            ==> within_supply(cfg)),
    ensures
        vote::vote_genesis_distribution_outcome(
            program_id,
            accounts,
            data,
            slot,
            coin,
            address,
        ) matches Ok(effects) ==> all_write_within(effects),
{
    let outcome = vote::vote_genesis_distribution_outcome(
        program_id,
        accounts,
        data,
        slot,
        coin,
        address,
    );
    if outcome is Ok {
        let tally = Tally {
            cfg: GenesisConfig::decoded(accounts[3].data@)->Ok_0,
            position: GenesisPosition::decoded(accounts[4].data@)->Ok_0,
            candidate: GenesisDistribution::decoded(accounts[5].data@)->Ok_0,
        };
        let after = vote::vote_result(tally, accounts[5].key, data[0], slot)->Ok_0;
        records::a_vote_is_read_back(program_id, accounts, data, slot, coin, address);
        lemma_pool_write(outcome->Ok_0[0], 3, after.cfg);
        lemma_position_write(outcome->Ok_0[1], 4, after.position);
        lemma_candidate_write(outcome->Ok_0[2], 5, after.candidate);
        reveal(all_write_within);
    }
}

#[verifier::spinoff_prover]
proof fn lemma_candidate(
    program_id: Pubkey,
    accounts: Seq<Account>,
    data: Seq<u8>,
    coin: CoinAddresses,
    address: Option<Address>,
)
    ensures
        vote::init_genesis_distribution_outcome(
            program_id,
            accounts,
            data,
            coin,
            address,
        ) matches Ok(effects) ==> all_write_within(effects),
{
    reveal(writes_within);
    reveal(all_write_within);
    let candidate = vote::new_candidate(
        accounts[3].key,
        accounts[5].key,
        bytes::u64_of(data.subrange(0, 8)),
    );
    candidate.reads_back();
    lemma_other_records(candidate.encoded());
}

#[verifier::spinoff_prover]
proof fn lemma_trigger(
    program_id: Pubkey,
    accounts: Seq<Account>,
    data: Seq<u8>,
    coin: CoinAddresses,
)
    ensures
        vote::trigger_genesis_distribution_outcome(program_id, accounts, data, coin) matches Ok(
            effects,
        ) ==> all_write_within(effects),
{
    reveal(writes_within);
    reveal(all_write_within);
    let outcome = vote::trigger_genesis_distribution_outcome(program_id, accounts, data, coin);
    if outcome is Ok {
        let cfg = vote::minted(GenesisConfig::decoded(accounts[1].data@)->Ok_0);
        let candidate = vote::executed(GenesisDistribution::decoded(accounts[6].data@)->Ok_0);
        cfg.round_trip(accounts[1].data@);
        candidate.round_trip(accounts[6].data@);
        lemma_other_records(candidate.written(accounts[6].data@));
    }
}

#[verifier::spinoff_prover]
proof fn lemma_milestones(
    program_id: Pubkey,
    accounts: Seq<Account>,
    data: Seq<u8>,
    coin: CoinAddresses,
    address: Option<Address>,
)
    requires
        pools_within(accounts),
    ensures
        handover::finalize_genesis_outcome(program_id, accounts, data, coin) matches Ok(effects)
            ==> all_write_within(effects),
        market::kickstart_genesis_market_outcome(
            program_id,
            accounts,
            data,
            coin,
            address,
        ) matches Ok(effects) ==> all_write_within(effects),
{
    reveal(writes_within);
    reveal(all_write_within);
    if handover::finalize_genesis_outcome(program_id, accounts, data, coin) is Ok {
        lemma_pool_read(accounts, 2);
        handover::finalized(GenesisConfig::decoded(accounts[2].data@)->Ok_0).round_trip(
            accounts[2].data@,
        );
    }
    if market::kickstart_genesis_market_outcome(
        program_id,
        accounts,
        data,
        coin,
        address,
    ) is Ok {
        lemma_pool_read(accounts, 4);
        market::deployed(
            GenesisConfig::decoded(accounts[4].data@)->Ok_0,
            accounts[6].key,
        ).round_trip(accounts[4].data@);
    }
}

#[verifier::spinoff_prover]
proof fn lemma_approval(
    program_id: Pubkey,
    accounts: Seq<Account>,
    data: Seq<u8>,
    coin: CoinAddresses,
    address: Option<Address>,
)
    ensures
        handover::approve_builder_outcome(
            program_id,
            accounts,
            data,
            coin,
            address,
        ) matches Ok(effects) ==> all_write_within(effects),
{
    reveal(writes_within);
    reveal(all_write_within);
    if handover::approve_builder_outcome(program_id, accounts, data, coin, address) is Ok {
        let approval = BuilderApproval {
            coin_mint: accounts[2].key,
            builder_program: accounts[4].key,
            code_hash: pubkey::key_of(data.subrange(0, 32)).bytes,
            terms_hash: pubkey::key_of(data.subrange(32, 64)).bytes,
            approved_slot: crate::system::slot_of(accounts[7])->Ok_0,
            enabled: data[64],
        };
        approval.reads_back();
        lemma_other_records(approval.encoded());
        if !deposits::is_absent(accounts[5]) {
            approval.round_trip(accounts[5].data@);
            lemma_other_records(approval.written(accounts[5].data@));
        }
    }
}

/// No instruction mints beyond the supply. Whatever instruction the rewards program is given: where
/// every pool that it reads is within its supply, so is every pool that it writes.
#[verifier::spinoff_prover]
#[verifier::rlimit(30)]
pub proof fn no_instruction_mints_beyond_the_supply(
    program_id: Pubkey,
    accounts: Seq<Account>,
    instruction_data: Seq<u8>,
    slot: u64,
)
    requires
        pools_within(accounts),
    ensures
        rewards::process_outcome(program_id, accounts, instruction_data, slot) matches Ok(plan)
            ==> all_write_within(plan.effects),
{
    let tag = instruction_data[0];
    let data = instruction_data.subrange(1, instruction_data.len() as int);
    let first = CoinAddresses::of(program_id, accounts[1].key);
    let second = CoinAddresses::of(program_id, accounts[2].key);
    let third = CoinAddresses::of(program_id, accounts[3].key);
    let position = rewards::position_of(program_id, accounts[3].key, accounts[0].key);
    let market_vault = addresses::percolator_vault_of(accounts[6].key);
    if tag == rewards::IX_INIT_COIN_CONFIG {
        lemma_new_coin(program_id, accounts, data, slot, second);
    } else if tag == rewards::IX_ACTIVATE_LIVE {
        lemma_going_live(program_id, accounts, data, second);
    } else if tag == rewards::IX_INIT_GENESIS_BOOTSTRAP {
        lemma_opening(program_id, accounts, data, slot, second);
    } else if tag == rewards::IX_GENESIS_DEPOSIT {
        if accounts.len() > 3 {
            lemma_pool_read(accounts, 3);
        }
        lemma_deposit(program_id, accounts, data, slot, first, position);
    } else if tag == rewards::IX_GENESIS_WITHDRAW {
        if accounts.len() > 3 {
            lemma_pool_read(accounts, 3);
        }
        lemma_withdrawal(
            program_id,
            accounts,
            data,
            first,
            position,
            addresses::percolator_vault_of(accounts[9].key),
        );
    } else if tag == rewards::IX_TRIGGER_GENESIS_DISTRIBUTION {
        lemma_trigger(program_id, accounts, data, second);
    } else if tag == rewards::IX_FINALIZE_GENESIS {
        lemma_milestones(program_id, accounts, data, third, market_vault);
    } else if tag == rewards::IX_KICKSTART_GENESIS_MARKET {
        lemma_milestones(program_id, accounts, data, second, market_vault);
    } else if tag == rewards::IX_INIT_GENESIS_DISTRIBUTION {
        lemma_candidate(
            program_id,
            accounts,
            data,
            first,
            addresses::address_of(
                addresses::genesis_distribution_path(
                    accounts[3].key,
                    bytes::u64_of(data.subrange(0, 8)),
                ),
                program_id,
            ),
        );
    } else if tag == rewards::IX_VOTE_GENESIS_DISTRIBUTION {
        if accounts.len() > 3 {
            lemma_pool_read(accounts, 3);
        }
        lemma_vote(program_id, accounts, data, slot, first, position);
    } else if tag == rewards::IX_APPROVE_BUILDER {
        lemma_approval(
            program_id,
            accounts,
            data,
            second,
            addresses::address_of(
                addresses::builder_approval_path(
                    accounts[2].key,
                    accounts[4].key,
                    pubkey::key_of(data.subrange(0, 32)).bytes,
                ),
                program_id,
            ),
        );
    } else if tag == rewards::IX_INIT_PERCOLATOR_MARKET {
        lemma_calls_write_nothing(program_id, accounts, data, first, market_vault);
    } else if tag == rewards::IX_DRAW_GENESIS_SURPLUS {
        lemma_calls_write_nothing(program_id, accounts, data, third, market_vault);
    } else {
        lemma_calls_write_nothing(program_id, accounts, data, second, market_vault);
    }
}

/// Nor does the second step of an exit out of the market.
#[verifier::spinoff_prover]
pub proof fn a_market_exit_stays_within_the_supply(
    accounts: Seq<Account>,
    exit: withdrawal::MarketExit,
)
    requires
        exit.cfg.wf(),
        within_supply(exit.cfg),
    ensures
        withdrawal::market_exit_outcome(accounts, exit) matches Ok(effects) ==> all_write_within(
            effects,
        ),
{
    let outcome = withdrawal::market_exit_outcome(accounts, exit);
    if outcome is Ok {
        let vault = crate::checks::token_account_at(accounts[6])->Ok_0.amount;
        let recovered = if vault >= exit.vault_before {
            (vault - exit.vault_before) as u64
        } else {
            0
        };
        let after = ledger::exited(exit.cfg, exit.position, recovered)->Ok_0;
        lemma_exit_records(accounts, after);
        lemma_no_write(withdrawal::payment(accounts, after.paid, exit.admin_bump));
        lemma_joined(
            withdrawal::payment(accounts, after.paid, exit.admin_bump),
            withdrawal::records(accounts, after),
        );
    }
}

} // verus!
