//! The books of a genesis: the pool, all its positions and all its candidates, taken together.
use crate::error::ProgramError;
use crate::genesis::{GenesisConfig, GenesisDistribution, GenesisPosition};
use crate::ledger;
use crate::ledger::{Exit, Tally};
use crate::pubkey::{Pubkey, SYSTEM_PROGRAM};
use crate::rewards::deposits;
use crate::rewards::vote;
use vstd::prelude::*;

verus! {

/// The pool, its positions, and its candidates by their addresses.
pub struct Book {
    pub cfg: GenesisConfig,
    pub positions: Seq<GenesisPosition>,
    pub candidates: Map<Pubkey, GenesisDistribution>,
}

/// The sum of a quantity over all positions.
pub open spec fn total(
    positions: Seq<GenesisPosition>,
    quantity: spec_fn(GenesisPosition) -> int,
) -> int
    decreases positions.len(),
{
    if positions.len() == 0 {
        0
    } else {
        total(positions.drop_last(), quantity) + quantity(positions.last())
    }
}

pub open spec fn claim() -> spec_fn(GenesisPosition) -> int {
    |p: GenesisPosition| p.claim() as int
}

pub open spec fn weight() -> spec_fn(GenesisPosition) -> int {
    |p: GenesisPosition| p.voted_weight as int
}

pub open spec fn principal() -> spec_fn(GenesisPosition) -> int {
    |p: GenesisPosition| p.voted_principal as int
}

/// The weight that a position's ballot adds to the candidate at `key`.
pub open spec fn weight_for(key: Pubkey) -> spec_fn(GenesisPosition) -> int {
    |p: GenesisPosition|
        if p.votes() && p.voted_proposal == key {
            p.voted_weight as int
        } else {
            0
        }
}

/// The principal that a position's ballot adds to the candidate at `key`.
pub open spec fn principal_for(key: Pubkey) -> spec_fn(GenesisPosition) -> int {
    |p: GenesisPosition|
        if p.votes() && p.voted_proposal == key {
            p.voted_principal as int
        } else {
            0
        }
}

/// A position never takes out more than it put in; without a ballot it has counted nothing, and a
/// ballot never counts more principal than is still at stake.
pub open spec fn sound_position(p: GenesisPosition) -> bool {
    &&& p.withdrawn <= p.amount
    &&& p.voted_principal <= p.claim()
    &&& !p.votes() ==> p.voted_principal == 0 && p.voted_proposal.bytes == SYSTEM_PROGRAM
}

impl Book {
    /// The outstanding principal is what the positions have a claim to.
    pub open spec fn principal_balances(self) -> bool {
        &&& self.cfg.total_withdrawn <= self.cfg.total_deposited
        &&& total(self.positions, claim()) == self.cfg.total_deposited - self.cfg.total_withdrawn
        &&& forall|i: int|
            0 <= i < self.positions.len() ==> sound_position(#[trigger] self.positions[i])
    }

    /// The totals of the vote, and of each candidate, are the sums over the ballots that are cast, and
    /// every ballot backs a candidate.
    pub open spec fn votes_balance(self) -> bool {
        &&& total(self.positions, weight()) == self.cfg.total_cast_weight
        &&& total(self.positions, principal()) == self.cfg.total_voted_principal
        &&& forall|key: Pubkey| #[trigger]
            self.candidates.contains_key(key) ==> total(self.positions, weight_for(key))
                == self.candidates[key].support_weight && total(
                self.positions,
                principal_for(key),
            ) == self.candidates[key].support_principal
        &&& forall|i: int|
            0 <= i < self.positions.len() && (#[trigger] self.positions[i]).votes()
                ==> self.candidates.contains_key(self.positions[i].voted_proposal)
    }

    pub open spec fn balances(self) -> bool {
        self.principal_balances() && self.votes_balance()
    }

    /// What the ballot of position `i` on the candidate at `key` is counted in.
    pub open spec fn tally(self, i: int, key: Pubkey) -> Tally {
        Tally { cfg: self.cfg, position: self.positions[i], candidate: self.candidates[key] }
    }

    /// The book with a tally written back.
    pub open spec fn with_tally(self, i: int, key: Pubkey, tally: Tally) -> Book {
        Book {
            cfg: tally.cfg,
            positions: self.positions.update(i, tally.position),
            candidates: self.candidates.insert(key, tally.candidate),
        }
    }

    /// The book with the records of an exit written back.
    pub open spec fn with_exit(self, i: int, exit: Exit) -> Book {
        Book { cfg: exit.cfg, positions: self.positions.update(i, exit.position), ..self }
    }

    /// The book with the records of a deposit written back.
    pub open spec fn with_deposit(
        self,
        i: int,
        after: (GenesisConfig, GenesisPosition),
    ) -> Book {
        Book { cfg: after.0, positions: self.positions.update(i, after.1), ..self }
    }
}

proof fn lemma_total_update(
    positions: Seq<GenesisPosition>,
    i: int,
    p: GenesisPosition,
    quantity: spec_fn(GenesisPosition) -> int,
)
    requires
        0 <= i < positions.len(),
    ensures
        total(positions.update(i, p), quantity) == total(positions, quantity) - quantity(
            positions[i],
        ) + quantity(p),
    decreases positions.len(),
{
    let updated = positions.update(i, p);
    if i == positions.len() - 1 {
        assert(updated.drop_last() =~= positions.drop_last());
    } else {
        assert(updated.drop_last() =~= positions.drop_last().update(i, p));
        lemma_total_update(positions.drop_last(), i, p, quantity);
    }
}

proof fn lemma_total_covers(
    positions: Seq<GenesisPosition>,
    i: int,
    quantity: spec_fn(GenesisPosition) -> int,
)
    requires
        0 <= i < positions.len(),
        forall|p: GenesisPosition| #[trigger] quantity(p) >= 0,
    ensures
        0 <= quantity(positions[i]) <= total(positions, quantity),
    decreases positions.len(),
{
    lemma_total_not_negative(positions.drop_last(), quantity);
    if i < positions.len() - 1 {
        lemma_total_covers(positions.drop_last(), i, quantity);
    }
    assert(quantity(positions.last()) >= 0);
}

proof fn lemma_total_not_negative(
    positions: Seq<GenesisPosition>,
    quantity: spec_fn(GenesisPosition) -> int,
)
    requires
        forall|p: GenesisPosition| #[trigger] quantity(p) >= 0,
    ensures
        total(positions, quantity) >= 0,
    decreases positions.len(),
{
    if positions.len() > 0 {
        lemma_total_not_negative(positions.drop_last(), quantity);
        assert(quantity(positions.last()) >= 0);
    }
}

/// The books of a pool that was just opened are balanced.
pub proof fn a_new_pool_is_balanced(
    coin_mint: Pubkey,
    base_mint: Pubkey,
    token_vault: Pubkey,
    reward_supply: u64,
)
    ensures
        (Book {
            cfg: deposits::new_pool(coin_mint, base_mint, token_vault, reward_supply),
            positions: Seq::empty(),
            candidates: Map::empty(),
        }).balances(),
{
}

proof fn lemma_no_ballots_for(positions: Seq<GenesisPosition>, key: Pubkey)
    requires
        forall|i: int|
            0 <= i < positions.len() && (#[trigger] positions[i]).votes()
                ==> positions[i].voted_proposal != key,
    ensures
        total(positions, weight_for(key)) == 0,
        total(positions, principal_for(key)) == 0,
    decreases positions.len(),
{
    if positions.len() > 0 {
        assert forall|i: int|
            0 <= i < positions.drop_last().len() && (
            #[trigger] positions.drop_last()[i]).votes() implies positions.drop_last()[i].voted_proposal
            != key by {
            assert(positions[i].votes());
        }
        lemma_no_ballots_for(positions.drop_last(), key);
        assert(positions[positions.len() - 1].votes() ==> positions.last().voted_proposal != key);
    }
}

/// A candidate that is registered has no ballots, and keeps the books balanced.
pub proof fn a_new_candidate_keeps_the_books(
    book: Book,
    key: Pubkey,
    genesis_cfg: Pubkey,
    destination: Pubkey,
    proposal_id: u64,
)
    requires
        book.balances(),
        !book.candidates.contains_key(key),
    ensures
        (Book {
            candidates: book.candidates.insert(
                key,
                vote::new_candidate(genesis_cfg, destination, proposal_id),
            ),
            ..book
        }).balances(),
{
    lemma_no_ballots_for(book.positions, key);
    let candidates = book.candidates.insert(
        key,
        vote::new_candidate(genesis_cfg, destination, proposal_id),
    );
    assert forall|k: Pubkey| #[trigger] candidates.contains_key(k) implies total(
        book.positions,
        weight_for(k),
    ) == candidates[k].support_weight && total(book.positions, principal_for(k))
        == candidates[k].support_principal by {
        if k != key {
            assert(book.candidates.contains_key(k));
        }
    }
}

/// A new depositor's position adds nothing to the books until something is deposited.
pub proof fn a_new_position_keeps_the_books(book: Book, position: GenesisPosition)
    requires
        book.balances(),
        position.amount == 0,
        position.withdrawn == 0,
        !position.votes(),
        position.voted_principal == 0,
        position.voted_proposal.bytes == SYSTEM_PROGRAM,
    ensures
        (Book { positions: book.positions.push(position), ..book }).balances(),
{
    let positions = book.positions.push(position);
    assert(positions.drop_last() =~= book.positions);
    assert(total(positions, claim()) == total(book.positions, claim()));
    assert(total(positions, weight()) == total(book.positions, weight()));
    assert(total(positions, principal()) == total(book.positions, principal()));
    assert forall|key: Pubkey| total(positions, weight_for(key)) == total(
        book.positions,
        weight_for(key),
    ) && total(positions, principal_for(key)) == total(book.positions, principal_for(key)) by {}
}

/// A deposit keeps the books balanced.
pub proof fn a_deposit_keeps_the_books(book: Book, i: int, amount: u64, slot: u64)
    requires
        book.balances(),
        0 <= i < book.positions.len(),
        ledger::deposited(book.cfg, book.positions[i], amount, slot) is Ok,
    ensures
        book.with_deposit(
            i,
            ledger::deposited(book.cfg, book.positions[i], amount, slot)->Ok_0,
        ).balances(),
{
    let p = ledger::deposited(book.cfg, book.positions[i], amount, slot)->Ok_0.1;
    lemma_total_update(book.positions, i, p, claim());
    lemma_total_update(book.positions, i, p, weight());
    lemma_total_update(book.positions, i, p, principal());
    assert forall|key: Pubkey|
        total(book.positions.update(i, p), weight_for(key)) == total(
            book.positions,
            weight_for(key),
        ) && total(book.positions.update(i, p), principal_for(key)) == total(
            book.positions,
            principal_for(key),
        ) by {
        lemma_total_update(book.positions, i, p, weight_for(key));
        lemma_total_update(book.positions, i, p, principal_for(key));
    }
}

proof fn lemma_ballot_is_held(book: Book, i: int, key: Pubkey)
    requires
        book.balances(),
        0 <= i < book.positions.len(),
        book.candidates.contains_key(key),
        book.positions[i].votes() ==> book.positions[i].voted_proposal == key,
    ensures
        book.tally(i, key).holds_ballot(),
{
    lemma_total_covers(book.positions, i, weight());
    lemma_total_covers(book.positions, i, principal());
    lemma_total_covers(book.positions, i, weight_for(key));
    lemma_total_covers(book.positions, i, principal_for(key));
}

proof fn lemma_removal_balances(book: Book, i: int, key: Pubkey)
    requires
        book.balances(),
        0 <= i < book.positions.len(),
        book.candidates.contains_key(key),
        book.positions[i].votes() ==> book.positions[i].voted_proposal == key,
    ensures
        book.tally(i, key).holds_ballot(),
        book.with_tally(i, key, book.tally(i, key).without_ballot()).balances(),
{
    lemma_ballot_is_held(book, i, key);
    let p = ledger::unballoted(book.positions[i]);
    let after = book.with_tally(i, key, book.tally(i, key).without_ballot());
    lemma_total_update(book.positions, i, p, claim());
    lemma_total_update(book.positions, i, p, weight());
    lemma_total_update(book.positions, i, p, principal());
    assert forall|k: Pubkey| #[trigger] after.candidates.contains_key(k) implies total(
        after.positions,
        weight_for(k),
    ) == after.candidates[k].support_weight && total(after.positions, principal_for(k))
        == after.candidates[k].support_principal by {
        lemma_total_update(book.positions, i, p, weight_for(k));
        lemma_total_update(book.positions, i, p, principal_for(k));
        assert(book.candidates.contains_key(k));
    }
    assert forall|j: int|
        0 <= j < after.positions.len() && (#[trigger] after.positions[j]).votes() implies
        after.candidates.contains_key(after.positions[j].voted_proposal) by {
        assert(book.positions[j].votes());
    }
}

proof fn lemma_addition_balances(book: Book, i: int, key: Pubkey, w: u64)
    requires
        book.balances(),
        0 <= i < book.positions.len(),
        book.candidates.contains_key(key),
        !book.positions[i].votes(),
        w > 0,
        book.tally(i, key).has_room(w),
    ensures
        book.with_tally(i, key, book.tally(i, key).with_ballot(key, w)).balances(),
{
    let t = book.tally(i, key).with_ballot(key, w);
    let after = book.with_tally(i, key, t);
    lemma_total_update(book.positions, i, t.position, claim());
    lemma_total_update(book.positions, i, t.position, weight());
    lemma_total_update(book.positions, i, t.position, principal());
    assert forall|k: Pubkey| #[trigger] after.candidates.contains_key(k) implies total(
        after.positions,
        weight_for(k),
    ) == after.candidates[k].support_weight && total(after.positions, principal_for(k))
        == after.candidates[k].support_principal by {
        lemma_total_update(book.positions, i, t.position, weight_for(k));
        lemma_total_update(book.positions, i, t.position, principal_for(k));
        assert(book.candidates.contains_key(k));
    }
    assert forall|j: int|
        0 <= j < after.positions.len() && (#[trigger] after.positions[j]).votes() implies
        after.candidates.contains_key(after.positions[j].voted_proposal) by {
        if j != i {
            assert(book.positions[j].votes());
        }
    }
}

/// A ballot, cast or cast anew, keeps the books balanced.
pub proof fn backing_keeps_the_books(book: Book, i: int, key: Pubkey, w: u64)
    requires
        book.balances(),
        0 <= i < book.positions.len(),
        book.candidates.contains_key(key),
        w > 0,
        book.tally(i, key).backed(key, w) is Ok,
    ensures
        book.with_tally(i, key, book.tally(i, key).backed(key, w)->Ok_0).balances(),
{
    lemma_removal_balances(book, i, key);
    let without = book.tally(i, key).without_ballot();
    let cleared = book.with_tally(i, key, without);
    assert(cleared.tally(i, key) == without);
    lemma_addition_balances(cleared, i, key, w);
    let after = without.with_ballot(key, w);
    assert(cleared.with_tally(i, key, after).positions =~= book.with_tally(
        i,
        key,
        after,
    ).positions);
    assert(cleared.with_tally(i, key, after).candidates =~= book.with_tally(
        i,
        key,
        after,
    ).candidates);
}

/// Giving a ballot up keeps the books balanced.
pub proof fn retracting_keeps_the_books(book: Book, i: int, key: Pubkey)
    requires
        book.balances(),
        0 <= i < book.positions.len(),
        book.candidates.contains_key(key),
        book.tally(i, key).retracted(key) is Ok,
    ensures
        book.with_tally(i, key, book.tally(i, key).retracted(key)->Ok_0).balances(),
{
    lemma_removal_balances(book, i, key);
}

/// A ballot that is cast can be given up: the totals always hold it.
pub proof fn a_ballot_can_be_retracted(book: Book, i: int)
    requires
        book.balances(),
        0 <= i < book.positions.len(),
        book.positions[i].votes(),
    ensures
        book.candidates.contains_key(book.positions[i].voted_proposal),
        book.tally(i, book.positions[i].voted_proposal).retracted(
            book.positions[i].voted_proposal,
        ) is Ok,
{
    lemma_ballot_is_held(book, i, book.positions[i].voted_proposal);
}

/// Giving up a ballot that was just cast leaves everything as it was.
pub proof fn retracting_undoes_backing(tally: Tally, key: Pubkey, w: u64)
    requires
        !tally.position.votes(),
        sound_position(tally.position),
        w > 0,
        tally.backed(key, w) is Ok,
    ensures
        tally.backed(key, w)->Ok_0.retracted(key) == Ok::<Tally, ProgramError>(tally),
{
    let after = tally.backed(key, w)->Ok_0.retracted(key)->Ok_0;
    assert(tally.position.voted_proposal.bytes == SYSTEM_PROGRAM);
    assert(after.position == tally.position);
    assert(after.cfg == tally.cfg);
    assert(after.candidate == tally.candidate);
}

/// A position has one ballot: while it backs one candidate, it cannot back another.
pub proof fn one_ballot_per_position(tally: Tally, key: Pubkey, w: u64)
    requires
        tally.position.votes(),
        tally.position.voted_proposal != key,
    ensures
        tally.backed(key, w) == Err::<Tally, ProgramError>(ProgramError::InvalidInstructionData),
{
}

/// An exit before the pool is deployed keeps the books balanced. The position does not vote.
pub proof fn a_refund_keeps_the_books(book: Book, i: int, vault_balance: u64)
    requires
        book.balances(),
        0 <= i < book.positions.len(),
        !book.positions[i].votes(),
    ensures
        book.with_exit(i, ledger::refunded(book.cfg, book.positions[i], vault_balance)).balances(),
{
    let exit = ledger::refunded(book.cfg, book.positions[i], vault_balance);
    lemma_total_covers(book.positions, i, claim());
    lemma_departure_balances(book, i, exit.position);
}

/// An exit out of the market keeps the books balanced. The position does not vote.
pub proof fn a_market_exit_keeps_the_books(book: Book, i: int, recovered: u64)
    requires
        book.balances(),
        0 <= i < book.positions.len(),
        !book.positions[i].votes(),
    ensures
        ledger::exited(book.cfg, book.positions[i], recovered) is Ok,
        book.with_exit(
            i,
            ledger::exited(book.cfg, book.positions[i], recovered)->Ok_0,
        ).balances(),
{
    lemma_total_covers(book.positions, i, claim());
    let exit = ledger::exited(book.cfg, book.positions[i], recovered)->Ok_0;
    lemma_departure_balances(book, i, exit.position);
}

/// The quorum follows whoever stays. An exit before finalization takes what is paid out of the
/// outstanding principal and leaves the ballots as they are, so a quorum that stands still stands.
pub proof fn the_quorum_follows_whoever_stays(
    book: Book,
    i: int,
    vault_balance: u64,
    recovered: u64,
)
    requires
        book.balances(),
        0 <= i < book.positions.len(),
        !book.positions[i].votes(),
    ensures
        ({
            let exit = ledger::refunded(book.cfg, book.positions[i], vault_balance);
            &&& exit.cfg.outstanding() == book.cfg.outstanding() - exit.paid
            &&& exit.cfg.total_voted_principal == book.cfg.total_voted_principal
            &&& ledger::quorum(book.cfg) ==> ledger::quorum(exit.cfg)
        }),
        ({
            let exit = ledger::exited(book.cfg, book.positions[i], recovered)->Ok_0;
            &&& exit.cfg.outstanding() == book.cfg.outstanding() - exit.paid
            &&& exit.cfg.total_voted_principal == book.cfg.total_voted_principal
            &&& ledger::quorum(book.cfg) ==> ledger::quorum(exit.cfg)
        }),
{
    lemma_total_covers(book.positions, i, claim());
}

proof fn lemma_departure_balances(book: Book, i: int, p: GenesisPosition)
    requires
        book.balances(),
        0 <= i < book.positions.len(),
        !book.positions[i].votes(),
        !p.votes(),
        p.voted_principal == 0,
    ensures
        total(book.positions.update(i, p), claim()) == total(book.positions, claim())
            - book.positions[i].claim() + p.claim(),
        total(book.positions.update(i, p), weight()) == total(book.positions, weight()),
        total(book.positions.update(i, p), principal()) == total(book.positions, principal()),
        forall|key: Pubkey|
            total(book.positions.update(i, p), #[trigger] weight_for(key)) == total(
                book.positions,
                weight_for(key),
            ),
        forall|key: Pubkey|
            total(book.positions.update(i, p), #[trigger] principal_for(key)) == total(
                book.positions,
                principal_for(key),
            ),
        forall|j: int|
            0 <= j < book.positions.len() && (#[trigger] book.positions.update(i, p)[j]).votes()
                ==> book.candidates.contains_key(book.positions.update(i, p)[j].voted_proposal),
{
    lemma_total_update(book.positions, i, p, claim());
    lemma_total_update(book.positions, i, p, weight());
    lemma_total_update(book.positions, i, p, principal());
    assert forall|key: Pubkey|
        total(book.positions.update(i, p), #[trigger] weight_for(key)) == total(
            book.positions,
            weight_for(key),
        ) by {
        lemma_total_update(book.positions, i, p, weight_for(key));
    }
    assert forall|key: Pubkey|
        total(book.positions.update(i, p), #[trigger] principal_for(key)) == total(
            book.positions,
            principal_for(key),
        ) by {
        lemma_total_update(book.positions, i, p, principal_for(key));
    }
    assert forall|j: int|
        0 <= j < book.positions.len() && (#[trigger] book.positions.update(i, p)[j]).votes() implies
        book.candidates.contains_key(book.positions.update(i, p)[j].voted_proposal) by {
        assert(book.positions[j].votes());
    }
}

/// The settlement of a claim keeps the outstanding principal equal to what is still claimed, and it
/// succeeds whatever the vault holds.
pub proof fn a_settlement_keeps_the_principal(book: Book, i: int, vault_balance: u64)
    requires
        book.principal_balances(),
        0 <= i < book.positions.len(),
    ensures
        ledger::settled(book.cfg, book.positions[i], vault_balance) is Ok,
        book.with_exit(
            i,
            ledger::settled(book.cfg, book.positions[i], vault_balance)->Ok_0,
        ).principal_balances(),
{
    lemma_total_covers(book.positions, i, claim());
    let exit = ledger::settled(book.cfg, book.positions[i], vault_balance)->Ok_0;
    lemma_total_update(book.positions, i, exit.position, claim());
}

proof fn lemma_two_candidates(positions: Seq<GenesisPosition>, a: Pubkey, b: Pubkey)
    requires
        a != b,
    ensures
        total(positions, weight_for(a)) + total(positions, weight_for(b)) <= total(
            positions,
            weight(),
        ),
    decreases positions.len(),
{
    if positions.len() > 0 {
        lemma_two_candidates(positions.drop_last(), a, b);
    }
}

/// At most one candidate has a majority of the weight that is cast.
pub proof fn at_most_one_majority(book: Book, a: Pubkey, b: Pubkey)
    requires
        book.votes_balance(),
        book.candidates.contains_key(a),
        book.candidates.contains_key(b),
        ledger::majority(book.cfg, book.candidates[a]),
        ledger::majority(book.cfg, book.candidates[b]),
    ensures
        a == b,
{
    if a != b {
        lemma_two_candidates(book.positions, a, b);
    }
}

/// The principal behind the ballots that are cast is outstanding: nobody votes with principal that was
/// taken out.
pub proof fn voted_principal_is_outstanding(book: Book)
    requires
        book.balances(),
    ensures
        book.cfg.total_voted_principal <= book.cfg.outstanding(),
{
    lemma_ballots_within_claims(book.positions);
}

proof fn lemma_ballots_within_claims(positions: Seq<GenesisPosition>)
    requires
        forall|i: int| 0 <= i < positions.len() ==> sound_position(#[trigger] positions[i]),
    ensures
        total(positions, principal()) <= total(positions, claim()),
    decreases positions.len(),
{
    if positions.len() > 0 {
        assert forall|i: int| 0 <= i < positions.drop_last().len() implies sound_position(
            #[trigger] positions.drop_last()[i],
        ) by {
            assert(sound_position(positions[i]));
        }
        lemma_ballots_within_claims(positions.drop_last());
        assert(sound_position(positions[positions.len() - 1]));
    }
}

} // verus!
