//! The vote: proposing a candidate, ballots, and the mint that the vote decides on.
use crate::account::Account;
use crate::addresses;
use crate::addresses::{Address, CoinAddresses};
use crate::bytes;
use crate::genesis::{GenesisConfig, GenesisDistribution, GenesisPosition};
use crate::laws::changes;
use crate::laws::sums;
use crate::laws::terms;
use crate::ledger;
use crate::ledger::Tally;
use crate::pubkey::{Pubkey, SYSTEM_PROGRAM, TOKEN_PROGRAM};
use crate::rewards::vote;
use vstd::arithmetic::power::*;
use vstd::prelude::*;

verus! {

/// A candidate of the pool at `pool`.
pub open spec fn candidate_record(account: Account, pool: Pubkey, program_id: Pubkey) -> bool {
    &&& account.owner == program_id
    &&& GenesisDistribution::decoded(account.data@) is Ok
    &&& candidate_in(account).genesis_cfg == pool
}

pub open spec fn candidate_in(account: Account) -> GenesisDistribution {
    GenesisDistribution::decoded(account.data@)->Ok_0
}

/// What the mint of the supply asks for: a live COIN, a pool that is deployed, not finalized and not
/// minted, a candidate that was not executed, its own destination, more than half of the outstanding
/// principal voting, and more than half of the cast weight behind the candidate.
pub open spec fn may_trigger(
    program_id: Pubkey,
    accounts: Seq<Account>,
    data: Seq<u8>,
    coin: CoinAddresses,
) -> bool {
    let cfg = terms::pool_in(accounts[1]);
    let candidate = candidate_in(accounts[6]);
    &&& data.len() == 0
    &&& accounts.len() >= 8
    &&& accounts[0].is_signer
    &&& accounts[7].key.bytes == TOKEN_PROGRAM
    &&& terms::coin_record(accounts[3], coin, program_id)
    &&& terms::live(accounts[3])
    &&& terms::token_for(accounts[4], accounts[2].key)
    &&& terms::pool_record(accounts[1], accounts[2], coin, program_id)
    &&& cfg.finalized == 0
    &&& cfg.kicked == 1
    &&& cfg.minted_supply == 0
    &&& candidate_record(accounts[6], accounts[1].key, program_id)
    &&& candidate.destination == accounts[4].key
    &&& candidate.executed == 0
    &&& 2 * cfg.total_voted_principal > terms::outstanding(cfg)
    &&& 2 * candidate.support_weight > cfg.total_cast_weight
    &&& terms::stands(accounts[5], coin.mint_authority)
}

/// The supply is minted exactly where its conditions hold: a quorum and a majority suffice, and are
/// needed.
#[verifier::spinoff_prover]
#[verifier::rlimit(60)]
pub proof fn when_the_supply_is_minted(
    program_id: Pubkey,
    accounts: Seq<Account>,
    data: Seq<u8>,
    coin: CoinAddresses,
)
    ensures
        vote::trigger_genesis_distribution_outcome(program_id, accounts, data, coin) is Ok
            <==> may_trigger(program_id, accounts, data, coin),
{
    terms::lemma_governed(accounts[0], accounts[3], coin, program_id);
    terms::lemma_tokens(accounts[4], accounts[2].key, accounts[0].key);
    terms::lemma_pool(accounts[1], accounts[2], accounts[4], accounts[0].key, coin, program_id);
    changes::lemma_read(accounts[1].data@);
    changes::lemma_read(accounts[6].data@);
    sums::more_than_half_decides(terms::pool_in(accounts[1]), candidate_in(accounts[6]));
}

/// The mint gives the candidate's destination the whole supply, in one call that the COIN's mint
/// authority signs; the pool records that it is minted, and the candidate that it was executed. A supply
/// of zero needs no call.
#[verifier::spinoff_prover]
#[verifier::rlimit(60)]
pub proof fn what_the_mint_of_the_supply_does(
    program_id: Pubkey,
    accounts: Seq<Account>,
    data: Seq<u8>,
    coin: CoinAddresses,
)
    requires
        may_trigger(program_id, accounts, data, coin),
    ensures
        ({
            let effects = vote::trigger_genesis_distribution_outcome(
                program_id,
                accounts,
                data,
                coin,
            )->Ok_0;
            let cfg = terms::pool_in(accounts[1]);
            let candidate = candidate_in(accounts[6]);
            &&& effects.len() == if cfg.reward_supply > 0 {
                3int
            } else {
                2int
            }
            &&& changes::replaces(effects[0], 1, accounts[1].data@, 192)
            &&& changes::holds_pool(
                effects[0],
                GenesisConfig { minted_supply: cfg.reward_supply, ..cfg },
            )
            &&& changes::replaces(effects[1], 6, accounts[6].data@, 104)
            &&& changes::holds_candidate(
                effects[1],
                GenesisDistribution { executed: 1, ..candidate },
            )
            &&& cfg.reward_supply > 0 ==> terms::mints(
                effects[2],
                accounts,
                2,
                4,
                5,
                7,
                cfg.reward_supply as int,
                terms::minter_seeds(accounts[2].key, coin),
            )
        }),
{
    when_the_supply_is_minted(program_id, accounts, data, coin);
    let effects = vote::trigger_genesis_distribution_outcome(
        program_id,
        accounts,
        data,
        coin,
    )->Ok_0;
    let cfg = terms::pool_in(accounts[1]);
    let candidate = candidate_in(accounts[6]);
    terms::lemma_pool(accounts[1], accounts[2], accounts[4], accounts[0].key, coin, program_id);
    changes::lemma_read(accounts[1].data@);
    changes::lemma_read(accounts[6].data@);
    terms::lemma_tag_and_amount(7, cfg.reward_supply);
    terms::lemma_seeds(
        addresses::MINT_AUTHORITY_LABEL@,
        accounts[2].key,
        coin.mint_authority->0.bump,
    );
    changes::lemma_pool_written(
        effects[0],
        1,
        accounts[1].data@,
        GenesisConfig { minted_supply: cfg.reward_supply, ..cfg },
    );
    changes::lemma_candidate_written(
        effects[1],
        6,
        accounts[6].data@,
        GenesisDistribution { executed: 1, ..candidate },
    );
}

/// What a proposal asks for: a live COIN and a pool that is not finalized, a token account of the COIN
/// as destination, and the candidate's own address.
pub open spec fn may_propose(
    program_id: Pubkey,
    accounts: Seq<Account>,
    data: Seq<u8>,
    coin: CoinAddresses,
    candidate_address: Option<Address>,
) -> bool {
    &&& accounts.len() >= 7
    &&& data.len() == 8
    &&& accounts[0].is_signer
    &&& accounts[6].key.bytes == SYSTEM_PROGRAM
    &&& terms::coin_record(accounts[2], coin, program_id)
    &&& terms::live(accounts[2])
    &&& terms::pool_record(accounts[3], accounts[1], coin, program_id)
    &&& terms::pool_in(accounts[3]).finalized == 0
    &&& terms::token_for(accounts[5], accounts[1].key)
    &&& terms::stands(accounts[4], candidate_address)
}

/// A proposal is taken exactly where its conditions hold; it creates a candidate with the number that was
/// asked for and without any support.
#[verifier::spinoff_prover]
#[verifier::rlimit(60)]
pub proof fn what_a_proposal_does(
    program_id: Pubkey,
    accounts: Seq<Account>,
    data: Seq<u8>,
    coin: CoinAddresses,
    candidate_address: Option<Address>,
)
    ensures
        ({
            let r = vote::init_genesis_distribution_outcome(
                program_id,
                accounts,
                data,
                coin,
                candidate_address,
            );
            &&& r is Ok <==> may_propose(program_id, accounts, data, coin, candidate_address)
            &&& r matches Ok(effects) ==> {
                let candidate = GenesisDistribution::decoded(effects[1]->Write_data)->Ok_0;
                &&& effects.len() == 2
                &&& terms::makes(
                    effects[0],
                    0,
                    4,
                    6,
                    104,
                    program_id,
                    seq![
                        addresses::GENESIS_DISTRIBUTION_LABEL@,
                        accounts[3].key.bytes@,
                        data,
                        seq![candidate_address->0.bump],
                    ],
                )
                &&& changes::fills(effects[1], 4, 104)
                &&& changes::holds_candidate(effects[1], candidate)
                &&& candidate.genesis_cfg == accounts[3].key
                &&& candidate.destination == accounts[5].key
                &&& candidate.proposal_id == terms::word(data, 0)
                &&& candidate.support_weight == 0
                &&& candidate.support_principal == 0
                &&& candidate.executed == 0
            }
        }),
{
    let r = vote::init_genesis_distribution_outcome(
        program_id,
        accounts,
        data,
        coin,
        candidate_address,
    );
    terms::lemma_governed(accounts[0], accounts[2], coin, program_id);
    terms::lemma_tokens(accounts[5], accounts[1].key, accounts[0].key);
    terms::lemma_pool(accounts[3], accounts[1], accounts[4], accounts[0].key, coin, program_id);
    changes::lemma_read(accounts[3].data@);
    assert(r is Ok <==> may_propose(program_id, accounts, data, coin, candidate_address));
    if r is Ok {
        let effects = r->Ok_0;
        let id = bytes::u64_of(data.subrange(0, 8));
        terms::lemma_word(data, 0);
        terms::lemma_bytes_of_word(data.subrange(0, 8));
        assert(data.subrange(0, 8) =~= data);
        assert(effects[0]->Create_signer =~= seq![
            addresses::GENESIS_DISTRIBUTION_LABEL@,
            accounts[3].key.bytes@,
            data,
            seq![candidate_address->0.bump],
        ]);
        vote::new_candidate(accounts[3].key, accounts[5].key, id).reads_back();
    }
}

/// What a ballot of the position weighs at a slot: nothing without a deposit in an earlier slot, and else
/// `w` times the claim, as far as 64 bits go, where the slots since the deposit lie between the `w`th
/// power of two and the next.
pub open spec fn weighs(position: GenesisPosition, slot: u64, weight: u64) -> bool {
    &&& position.start_slot == 0 || slot <= position.start_slot ==> weight == 0
    &&& forall|w: nat|
        position.start_slot > 0 && slot > position.start_slot && #[trigger] pow(2, w) <= slot
            - position.start_slot < pow(2, w + 1) ==> weight == sums::least(
            w * terms::claim(position),
            u64::MAX as int,
        )
}

/// What every vote asks for: a signature, a live COIN, a pool that is not finalized, the voter's own
/// position, and a candidate of the pool.
pub open spec fn may_speak(
    program_id: Pubkey,
    accounts: Seq<Account>,
    data: Seq<u8>,
    coin: CoinAddresses,
    position_address: Option<Address>,
) -> bool {
    &&& accounts.len() >= 6
    &&& data.len() == 1
    &&& accounts[0].is_signer
    &&& terms::coin_record(accounts[2], coin, program_id)
    &&& terms::live(accounts[2])
    &&& terms::pool_record(accounts[3], accounts[1], coin, program_id)
    &&& terms::pool_in(accounts[3]).finalized == 0
    &&& terms::position_record(accounts[4], accounts[0].key, position_address, program_id)
    &&& candidate_record(accounts[5], accounts[3].key, program_id)
}

/// The position's ballot is in the four totals that count it.
pub open spec fn ballot_is_counted(
    cfg: GenesisConfig,
    position: GenesisPosition,
    candidate: GenesisDistribution,
) -> bool {
    &&& position.voted_weight <= candidate.support_weight
    &&& position.voted_weight <= cfg.total_cast_weight
    &&& position.voted_principal <= candidate.support_principal
    &&& position.voted_principal <= cfg.total_voted_principal
}

/// A vote is taken exactly where its conditions hold. To back a candidate (action 1) takes weight, a
/// candidate that was not executed, and no ballot for another one; to retract (action 2) takes a ballot
/// for this candidate. Any other action is refused.
#[verifier::spinoff_prover]
#[verifier::rlimit(80)]
pub proof fn when_a_vote_is_taken(
    program_id: Pubkey,
    accounts: Seq<Account>,
    data: Seq<u8>,
    slot: u64,
    coin: CoinAddresses,
    position_address: Option<Address>,
)
    ensures
        ({
            let r = vote::vote_genesis_distribution_outcome(
                program_id,
                accounts,
                data,
                slot,
                coin,
                position_address,
            );
            let (cfg, p, c) = (
                terms::pool_in(accounts[3]),
                terms::position_in(accounts[4]),
                candidate_in(accounts[5]),
            );
            let weight = ledger::ballot_weight(p, slot);
            let speaks = may_speak(program_id, accounts, data, coin, position_address);
            &&& weighs(p, slot, weight)
            &&& r is Ok && speaks ==> data[0] == 1 || data[0] == 2
            &&& r is Ok ==> speaks
            &&& speaks && data[0] == 1 ==> (r is Ok <==> {
                &&& weight > 0
                &&& c.executed == 0
                &&& p.voted_weight == 0 || p.voted_proposal == accounts[5].key
                &&& ballot_is_counted(cfg, p, c)
                &&& c.support_weight - p.voted_weight + weight <= u64::MAX
                &&& cfg.total_cast_weight - p.voted_weight + weight <= u64::MAX
                &&& c.support_principal - p.voted_principal + terms::claim(p) <= u64::MAX
                &&& cfg.total_voted_principal - p.voted_principal + terms::claim(p) <= u64::MAX
            })
            &&& speaks && data[0] == 2 ==> (r is Ok <==> {
                &&& p.voted_weight > 0
                &&& p.voted_proposal == accounts[5].key
                &&& ballot_is_counted(cfg, p, c)
            })
        }),
{
    let (cfg, p, c) = (
        terms::pool_in(accounts[3]),
        terms::position_in(accounts[4]),
        candidate_in(accounts[5]),
    );
    terms::lemma_governed(accounts[0], accounts[2], coin, program_id);
    terms::lemma_pool(accounts[3], accounts[1], accounts[4], accounts[0].key, coin, program_id);
    changes::lemma_read(accounts[3].data@);
    changes::lemma_read(accounts[5].data@);
    let weight = ledger::ballot_weight(p, slot);
    let tally = Tally { cfg, position: p, candidate: c };
    sums::a_ballot_is_counted(tally, accounts[5].key, weight);
    sums::a_retraction_is_counted(tally, accounts[5].key);
    lemma_weighs(p, slot);
}

proof fn lemma_weighs(position: GenesisPosition, slot: u64)
    ensures
        weighs(position, slot, ledger::ballot_weight(position, slot)),
{
    sums::a_ballot_weighs_stake_and_time(position, slot, 0);
    assert forall|w: nat|
        position.start_slot > 0 && slot > position.start_slot && #[trigger] pow(2, w) <= slot
            - position.start_slot < pow(2, w + 1) implies ledger::ballot_weight(position, slot)
        == sums::least(w * terms::claim(position), u64::MAX as int) by {
        sums::a_ballot_weighs_stake_and_time(position, slot, w);
    }
}

/// A vote writes the pool, the position and the candidate, and nothing else. A ballot is entered with its
/// weight and the whole claim, in the place of the ballot before it; a retraction takes the ballot out.
#[verifier::spinoff_prover]
#[verifier::rlimit(80)]
pub proof fn what_a_vote_does(
    program_id: Pubkey,
    accounts: Seq<Account>,
    data: Seq<u8>,
    slot: u64,
    coin: CoinAddresses,
    position_address: Option<Address>,
)
    requires
        vote::vote_genesis_distribution_outcome(
            program_id,
            accounts,
            data,
            slot,
            coin,
            position_address,
        ) is Ok,
    ensures
        ({
            let effects = vote::vote_genesis_distribution_outcome(
                program_id,
                accounts,
                data,
                slot,
                coin,
                position_address,
            )->Ok_0;
            let (cfg, p, c) = (
                terms::pool_in(accounts[3]),
                terms::position_in(accounts[4]),
                candidate_in(accounts[5]),
            );
            let after = Tally {
                cfg: GenesisConfig::decoded(effects[0]->Write_data)->Ok_0,
                position: GenesisPosition::decoded(effects[1]->Write_data)->Ok_0,
                candidate: GenesisDistribution::decoded(effects[2]->Write_data)->Ok_0,
            };
            let weight = if data[0] == 1 {
                ledger::ballot_weight(p, slot) as int
            } else {
                0
            };
            let principal = if data[0] == 1 {
                terms::claim(p)
            } else {
                0
            };
            &&& effects.len() == 3
            &&& changes::replaces(effects[0], 3, accounts[3].data@, 192)
            &&& changes::holds_pool(effects[0], after.cfg)
            &&& changes::replaces(effects[1], 4, accounts[4].data@, 112)
            &&& changes::holds_position(effects[1], after.position)
            &&& changes::replaces(effects[2], 5, accounts[5].data@, 104)
            &&& changes::holds_candidate(effects[2], after.candidate)
            &&& sums::only_the_ballot_changes(
                Tally { cfg, position: p, candidate: c },
                after,
            )
            &&& after.position.voted_weight == weight
            &&& after.position.voted_principal == principal
            &&& after.position.voted_proposal.bytes == if data[0] == 1 {
                accounts[5].key.bytes
            } else {
                SYSTEM_PROGRAM
            }
            &&& after.candidate.support_weight == c.support_weight - p.voted_weight + weight
            &&& after.candidate.support_principal == c.support_principal - p.voted_principal
                + principal
            &&& after.cfg.total_cast_weight == cfg.total_cast_weight - p.voted_weight + weight
            &&& after.cfg.total_voted_principal == cfg.total_voted_principal - p.voted_principal
                + principal
        }),
{
    when_a_vote_is_taken(program_id, accounts, data, slot, coin, position_address);
    let effects = vote::vote_genesis_distribution_outcome(
        program_id,
        accounts,
        data,
        slot,
        coin,
        position_address,
    )->Ok_0;
    let (cfg, p, c) = (
        terms::pool_in(accounts[3]),
        terms::position_in(accounts[4]),
        candidate_in(accounts[5]),
    );
    terms::lemma_pool(accounts[3], accounts[1], accounts[4], accounts[0].key, coin, program_id);
    changes::lemma_read(accounts[3].data@);
    changes::lemma_read(accounts[4].data@);
    changes::lemma_read(accounts[5].data@);
    let tally = Tally { cfg, position: p, candidate: c };
    sums::a_ballot_is_counted(tally, accounts[5].key, ledger::ballot_weight(p, slot));
    sums::a_retraction_is_counted(tally, accounts[5].key);
    let after = vote::vote_result(tally, accounts[5].key, data[0], slot)->Ok_0;
    changes::lemma_pool_written(effects[0], 3, accounts[3].data@, after.cfg);
    changes::lemma_position_written(effects[1], 4, accounts[4].data@, after.position);
    changes::lemma_candidate_written(effects[2], 5, accounts[5].data@, after.candidate);
}

} // verus!
