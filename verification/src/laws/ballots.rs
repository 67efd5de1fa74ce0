//! What a retraction does to the records that a vote left behind.
use crate::account::{Account, EffectView};
use crate::addresses::{Address, CoinAddresses};
use crate::checks;
use crate::coin::PHASE_LIVE;
use crate::error::ProgramError;
use crate::genesis::{GenesisConfig, GenesisDistribution, GenesisPosition};
use crate::laws::book;
use crate::laws::records;
use crate::ledger;
use crate::ledger::Tally;
use crate::pubkey::Pubkey;
use crate::rewards::vote;
use vstd::prelude::*;

verus! {

/// The records that a vote reads.
pub open spec fn tally_in(accounts: Seq<Account>) -> Tally {
    Tally {
        cfg: GenesisConfig::decoded(accounts[3].data@)->Ok_0,
        position: GenesisPosition::decoded(accounts[4].data@)->Ok_0,
        candidate: GenesisDistribution::decoded(accounts[5].data@)->Ok_0,
    }
}

/// The accounts hold the records of `tally`, for the voter and the candidate that they name, and the
/// vote is open.
pub open spec fn open_vote(
    program_id: Pubkey,
    accounts: Seq<Account>,
    coin: CoinAddresses,
    position_address: Option<Address>,
    tally: Tally,
) -> bool {
    let coin_cfg = checks::coin_config_at(accounts[2], coin.coin_cfg, program_id);
    &&& accounts.len() >= 6
    &&& accounts[0].is_signer
    &&& coin_cfg is Ok && coin_cfg->Ok_0.phase == PHASE_LIVE
    &&& checks::genesis_config_at(accounts[3], accounts[1].key, coin.genesis_cfg, program_id) == Ok::<
        GenesisConfig,
        ProgramError,
    >(tally.cfg)
    &&& tally.cfg.finalized != 1
    &&& vote::voter_position(
        accounts[4],
        accounts[0].key,
        position_address,
        program_id,
    ) == Ok::<GenesisPosition, ProgramError>(tally.position)
    &&& vote::candidate_at(accounts[5], accounts[3].key, program_id) == Ok::<
        GenesisDistribution,
        ProgramError,
    >(tally.candidate)
}

/// The effects write the records of `tally`, and nothing else.
pub open spec fn writes_tally(effects: Seq<EffectView>, tally: Tally) -> bool {
    &&& effects.len() == 3
    &&& records::writes_pool(effects[0], 3, tally.cfg)
    &&& records::writes_position(effects[1], 4, tally.position)
    &&& records::writes_candidate(effects[2], 5, tally.candidate)
}

/// A vote that succeeds was open, and writes what the tally has of it.
#[verifier::spinoff_prover]
pub proof fn a_vote_writes_its_tally(
    program_id: Pubkey,
    accounts: Seq<Account>,
    data: Seq<u8>,
    slot: u64,
    coin: CoinAddresses,
    position_address: Option<Address>,
)
    requires
        vote::vote_genesis_distribution_outcome(
            program_id,
            accounts,
            data,
            slot,
            coin,
            position_address,
        ) is Ok,
    ensures
        open_vote(program_id, accounts, coin, position_address, tally_in(accounts)),
        vote::vote_result(tally_in(accounts), accounts[5].key, data[0], slot) is Ok,
        writes_tally(
            vote::vote_genesis_distribution_outcome(
                program_id,
                accounts,
                data,
                slot,
                coin,
                position_address,
            )->Ok_0,
            vote::vote_result(tally_in(accounts), accounts[5].key, data[0], slot)->Ok_0,
        ),
{
    records::a_vote_is_read_back(program_id, accounts, data, slot, coin, position_address);
}

/// A retraction takes the ballot out exactly. Where the totals hold the voter's ballot for the
/// candidate, the retraction succeeds at any slot: the candidate's totals and the pool's fall by the
/// weight and the principal that the ballot was counted with, the position has no ballot then, and
/// nothing else changes.
#[verifier::spinoff_prover]
pub proof fn a_retraction_takes_the_ballot_out(
    program_id: Pubkey,
    accounts: Seq<Account>,
    slot: u64,
    coin: CoinAddresses,
    position_address: Option<Address>,
    tally: Tally,
)
    requires
        open_vote(program_id, accounts, coin, position_address, tally),
        tally.position.votes(),
        tally.position.voted_proposal == accounts[5].key,
        tally.holds_ballot(),
    ensures
        ({
            let outcome = vote::vote_genesis_distribution_outcome(
                program_id,
                accounts,
                seq![vote::VOTE_RETRACT],
                slot,
                coin,
                position_address,
            );
            let (w, p) = (tally.position.voted_weight, tally.position.voted_principal);
            let after = tally.without_ballot();
            &&& outcome is Ok
            &&& writes_tally(outcome->Ok_0, after)
            &&& after.candidate.support_weight == tally.candidate.support_weight - w
            &&& after.candidate.support_principal == tally.candidate.support_principal - p
            &&& after.cfg.total_cast_weight == tally.cfg.total_cast_weight - w
            &&& after.cfg.total_voted_principal == tally.cfg.total_voted_principal - p
            &&& after.position.voted_weight == 0
            &&& after.position.voted_principal == 0
            &&& after.position.claim() == tally.position.claim()
        }),
{
    let data = seq![vote::VOTE_RETRACT];
    assert(data[0] == vote::VOTE_RETRACT);
    assert(tally_in(accounts) == tally);
    assert(vote::vote_genesis_distribution_outcome(
        program_id,
        accounts,
        data,
        slot,
        coin,
        position_address,
    ) is Ok);
    a_vote_writes_its_tally(program_id, accounts, data, slot, coin, position_address);
}

/// A retraction without a ballot for the candidate is refused.
#[verifier::spinoff_prover]
pub proof fn nothing_is_retracted_twice(
    program_id: Pubkey,
    accounts: Seq<Account>,
    slot: u64,
    coin: CoinAddresses,
    position_address: Option<Address>,
    tally: Tally,
)
    requires
        open_vote(program_id, accounts, coin, position_address, tally),
        !tally.position.votes() || tally.position.voted_proposal != accounts[5].key,
    ensures
        vote::vote_genesis_distribution_outcome(
            program_id,
            accounts,
            seq![vote::VOTE_RETRACT],
            slot,
            coin,
            position_address,
        ) == Err::<Seq<EffectView>, ProgramError>(ProgramError::InvalidInstructionData),
{
    assert(seq![vote::VOTE_RETRACT][0] == vote::VOTE_RETRACT);
    assert(tally_in(accounts) == tally);
}

/// A voter can always retract. In books that balance, whatever happened since the vote, a retraction of
/// the ballot that a position has succeeds, takes out exactly what the ballot was counted with, and
/// leaves books that balance.
#[verifier::spinoff_prover]
pub proof fn a_voter_can_always_retract(
    program_id: Pubkey,
    accounts: Seq<Account>,
    slot: u64,
    coin: CoinAddresses,
    position_address: Option<Address>,
    books: book::Book,
    i: int,
)
    requires
        books.balances(),
        0 <= i < books.positions.len(),
        books.positions[i].votes(),
        books.positions[i].voted_proposal == accounts[5].key,
        open_vote(
            program_id,
            accounts,
            coin,
            position_address,
            books.tally(i, accounts[5].key),
        ),
    ensures
        ({
            let outcome = vote::vote_genesis_distribution_outcome(
                program_id,
                accounts,
                seq![vote::VOTE_RETRACT],
                slot,
                coin,
                position_address,
            );
            let before = books.tally(i, accounts[5].key);
            let after = before.without_ballot();
            &&& outcome is Ok
            &&& writes_tally(outcome->Ok_0, after)
            &&& after.candidate.support_weight == before.candidate.support_weight
                - before.position.voted_weight
            &&& after.candidate.support_principal == before.candidate.support_principal
                - before.position.voted_principal
            &&& after.position.voted_weight == 0
            &&& books.with_tally(i, accounts[5].key, after).balances()
        }),
{
    book::a_ballot_can_be_retracted(books, i);
    book::retracting_keeps_the_books(books, i, accounts[5].key);
    a_retraction_takes_the_ballot_out(
        program_id,
        accounts,
        slot,
        coin,
        position_address,
        books.tally(i, accounts[5].key),
    );
}

/// While a ballot backs one candidate, a vote for another is refused, and nothing is written.
#[verifier::spinoff_prover]
pub proof fn a_second_candidate_is_refused(
    program_id: Pubkey,
    accounts: Seq<Account>,
    slot: u64,
    coin: CoinAddresses,
    position_address: Option<Address>,
    tally: Tally,
)
    requires
        open_vote(program_id, accounts, coin, position_address, tally),
        tally.position.votes(),
        tally.position.voted_proposal != accounts[5].key,
    ensures
        ({
            let outcome = vote::vote_genesis_distribution_outcome(
                program_id,
                accounts,
                seq![vote::VOTE_BACK],
                slot,
                coin,
                position_address,
            );
            &&& outcome is Err
            &&& ledger::ballot_weight(tally.position, slot) > 0 && tally.candidate.executed != 1
                ==> outcome == Err::<Seq<EffectView>, ProgramError>(
                ProgramError::InvalidInstructionData,
            )
        }),
{
    assert(seq![vote::VOTE_BACK][0] == vote::VOTE_BACK);
    assert(tally_in(accounts) == tally);
}

/// No vote without capital held for a while: a position that stakes nothing, that left, or that is
/// younger than two slots is refused.
#[verifier::spinoff_prover]
pub proof fn no_vote_without_capital_at_risk(
    program_id: Pubkey,
    accounts: Seq<Account>,
    slot: u64,
    coin: CoinAddresses,
    position_address: Option<Address>,
    tally: Tally,
)
    requires
        open_vote(program_id, accounts, coin, position_address, tally),
        tally.position.claim() == 0 || tally.position.start_slot == 0 || slot
            < tally.position.start_slot + 2,
    ensures
        vote::vote_genesis_distribution_outcome(
            program_id,
            accounts,
            seq![vote::VOTE_BACK],
            slot,
            coin,
            position_address,
        ) == Err::<Seq<EffectView>, ProgramError>(ProgramError::InvalidAccountData),
{
    assert(seq![vote::VOTE_BACK][0] == vote::VOTE_BACK);
    assert(tally_in(accounts) == tally);
}

/// A depositor's stake counts for one candidate at most: in books that balance, what a position adds to
/// one candidate it adds to no other, and it adds no more than its stake.
pub proof fn a_stake_counts_once(books: book::Book, i: int, a: Pubkey, b: Pubkey)
    requires
        books.balances(),
        0 <= i < books.positions.len(),
        a != b,
    ensures
        book::weight_for(a)(books.positions[i]) == 0 || book::weight_for(b)(books.positions[i]) == 0,
        book::principal_for(a)(books.positions[i]) == 0 || book::principal_for(b)(
            books.positions[i],
        ) == 0,
        book::principal_for(a)(books.positions[i]) <= books.positions[i].claim(),
        book::principal_for(b)(books.positions[i]) <= books.positions[i].claim(),
{
    assert(book::sound_position(books.positions[i]));
}

/// The accounts of a later call of the same voter on the same candidate, with the three records as
/// `effects` wrote them and the COIN's configuration as it was.
pub open spec fn carried_out(
    accounts: Seq<Account>,
    effects: Seq<EffectView>,
    later: Seq<Account>,
) -> bool {
    &&& later.len() == accounts.len()
    &&& later[0].is_signer && later[0].key == accounts[0].key
    &&& later[1].key == accounts[1].key
    &&& later[2].key == accounts[2].key && later[2].owner == accounts[2].owner
    &&& later[2].data@ == accounts[2].data@
    &&& later[3].key == accounts[3].key && later[3].owner == accounts[3].owner
    &&& later[3].data@ == effects[0]->Write_data
    &&& later[4].key == accounts[4].key && later[4].owner == accounts[4].owner
    &&& later[4].data@ == effects[1]->Write_data
    &&& later[5].key == accounts[5].key && later[5].owner == accounts[5].owner
    &&& later[5].data@ == effects[2]->Write_data
}

#[verifier::spinoff_prover]
proof fn lemma_carried_out(
    program_id: Pubkey,
    accounts: Seq<Account>,
    coin: CoinAddresses,
    position_address: Option<Address>,
    tally: Tally,
    after: Tally,
    effects: Seq<EffectView>,
    later: Seq<Account>,
)
    requires
        open_vote(program_id, accounts, coin, position_address, tally),
        writes_tally(effects, after),
        after.cfg.coin_mint == tally.cfg.coin_mint,
        after.cfg.finalized == tally.cfg.finalized,
        after.position.owner == tally.position.owner,
        after.candidate.genesis_cfg == tally.candidate.genesis_cfg,
        carried_out(accounts, effects, later),
    ensures
        open_vote(program_id, later, coin, position_address, after),
{
}

/// Retracting undoes voting. A voter without a ballot backs a candidate, and retracts at any later
/// slot: the retraction succeeds and writes back the records as they were before the vote. Another
/// retraction is refused.
#[verifier::spinoff_prover]
pub proof fn a_retraction_undoes_a_vote(
    program_id: Pubkey,
    accounts: Seq<Account>,
    slot: u64,
    coin: CoinAddresses,
    position_address: Option<Address>,
    later: Seq<Account>,
    later_slot: u64,
    last: Seq<Account>,
    last_slot: u64,
)
    requires
        vote::vote_genesis_distribution_outcome(
            program_id,
            accounts,
            seq![vote::VOTE_BACK],
            slot,
            coin,
            position_address,
        ) is Ok,
        !tally_in(accounts).position.votes(),
        book::sound_position(tally_in(accounts).position),
        carried_out(
            accounts,
            vote::vote_genesis_distribution_outcome(
                program_id,
                accounts,
                seq![vote::VOTE_BACK],
                slot,
                coin,
                position_address,
            )->Ok_0,
            later,
        ),
        carried_out(
            later,
            vote::vote_genesis_distribution_outcome(
                program_id,
                later,
                seq![vote::VOTE_RETRACT],
                later_slot,
                coin,
                position_address,
            )->Ok_0,
            last,
        ),
    ensures
        ({
            let retraction = vote::vote_genesis_distribution_outcome(
                program_id,
                later,
                seq![vote::VOTE_RETRACT],
                later_slot,
                coin,
                position_address,
            );
            retraction is Ok && writes_tally(retraction->Ok_0, tally_in(accounts))
        }),
        vote::vote_genesis_distribution_outcome(
            program_id,
            last,
            seq![vote::VOTE_RETRACT],
            last_slot,
            coin,
            position_address,
        ) == Err::<Seq<EffectView>, ProgramError>(ProgramError::InvalidInstructionData),
{
    let before = tally_in(accounts);
    let key = accounts[5].key;
    let weight = ledger::ballot_weight(before.position, slot);
    let back = seq![vote::VOTE_BACK];
    let retract = seq![vote::VOTE_RETRACT];
    assert(back[0] == vote::VOTE_BACK);
    let vote_effects = vote::vote_genesis_distribution_outcome(
        program_id,
        accounts,
        back,
        slot,
        coin,
        position_address,
    )->Ok_0;
    a_vote_writes_its_tally(program_id, accounts, back, slot, coin, position_address);
    lemma_a_ballot_has_weight(program_id, accounts, slot, coin, position_address);
    let during = before.backed(key, weight)->Ok_0;
    lemma_carried_out(
        program_id,
        accounts,
        coin,
        position_address,
        before,
        during,
        vote_effects,
        later,
    );
    book::retracting_undoes_backing(before, key, weight);
    a_retraction_takes_the_ballot_out(
        program_id,
        later,
        later_slot,
        coin,
        position_address,
        during,
    );
    let retract_effects = vote::vote_genesis_distribution_outcome(
        program_id,
        later,
        retract,
        later_slot,
        coin,
        position_address,
    )->Ok_0;
    lemma_carried_out(
        program_id,
        later,
        coin,
        position_address,
        during,
        before,
        retract_effects,
        last,
    );
    nothing_is_retracted_twice(program_id, last, last_slot, coin, position_address, before);
}

#[verifier::spinoff_prover]
proof fn lemma_a_ballot_has_weight(
    program_id: Pubkey,
    accounts: Seq<Account>,
    slot: u64,
    coin: CoinAddresses,
    position_address: Option<Address>,
)
    requires
        vote::vote_genesis_distribution_outcome(
            program_id,
            accounts,
            seq![vote::VOTE_BACK],
            slot,
            coin,
            position_address,
        ) is Ok,
    ensures
        ledger::ballot_weight(tally_in(accounts).position, slot) > 0,
        tally_in(accounts).backed(
            accounts[5].key,
            ledger::ballot_weight(tally_in(accounts).position, slot),
        ) is Ok,
        vote::vote_result(tally_in(accounts), accounts[5].key, vote::VOTE_BACK, slot)
            == tally_in(accounts).backed(
            accounts[5].key,
            ledger::ballot_weight(tally_in(accounts).position, slot),
        ),
{
    assert(seq![vote::VOTE_BACK][0] == vote::VOTE_BACK);
}

} // verus!
