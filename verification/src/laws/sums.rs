//! What each entry in the books amounts to: by how much every number changes, and what stays.
use crate::error::ProgramError;
use crate::genesis::{GenesisConfig, GenesisDistribution, GenesisPosition};
use crate::laws::terms;
use crate::laws::weight;
use crate::ledger;
use crate::ledger::{Exit, Tally};
use crate::pubkey::{Pubkey, SYSTEM_PROGRAM};
use vstd::arithmetic::div_mod::*;
use vstd::arithmetic::logarithm::*;
use vstd::arithmetic::power::*;
use vstd::prelude::*;

verus! {

/// The smaller of two numbers.
pub open spec fn least(a: int, b: int) -> int {
    if a <= b {
        a
    } else {
        b
    }
}

proof fn lemma_log_is(age: int, w: nat)
    requires
        age >= 1,
        pow(2, w) <= age < pow(2, w + 1),
    ensures
        log(2, age) == w,
{
    weight::lemma_log_brackets(age);
    let l = log(2, age) as nat;
    if l > w {
        lemma_pow_increases(2, w + 1, l);
    }
    if l < w {
        lemma_pow_increases(2, l + 1, w);
    }
}

/// A stake that was held for between the `w`th power of two and the next, in slots, weighs `w` times
/// the stake, as far as 64 bits go.
pub proof fn a_vote_weighs_its_doublings(staked: u64, age: u64, w: nat)
    requires
        age >= 1,
        pow(2, w) <= age < pow(2, w + 1),
    ensures
        ledger::vote_weight(staked, age) == least(w * staked, u64::MAX as int),
{
    lemma_log_is(age as int, w);
    if age == 1 {
        reveal(log);
    }
    assert(w * staked >= 0) by (nonlinear_arith)
        requires
            w >= 0,
            staked >= 0,
    ;
    if staked == 0 || w == 0 {
        assert(w * staked == 0) by (nonlinear_arith)
            requires
                staked == 0 || w == 0,
        ;
    }
}

/// A ballot weighs what its position staked and for how long: `w` times the claim, where the slots since
/// the latest deposit lie between the `w`th power of two and the next. Without a deposit since the last
/// exit, and in the slot of the deposit, it weighs nothing.
pub proof fn a_ballot_weighs_stake_and_time(position: GenesisPosition, slot: u64, w: nat)
    ensures
        position.start_slot > 0 && slot > position.start_slot && pow(2, w) <= slot
            - position.start_slot < pow(2, w + 1) ==> ledger::ballot_weight(position, slot) == least(
            w * terms::claim(position),
            u64::MAX as int,
        ),
        position.start_slot == 0 || slot <= position.start_slot ==> ledger::ballot_weight(
            position,
            slot,
        ) == 0,
{
    if position.start_slot > 0 && slot > position.start_slot && pow(2, w) <= slot
        - position.start_slot < pow(2, w + 1) {
        a_vote_weighs_its_doublings(position.claim(), (slot - position.start_slot) as u64, w);
    }
}

/// A deposit is credited in full: what was deposited, what the depositor put in and what the depositor
/// may take out grow by the amount, the clock starts anew, and nothing else changes. It fails only where
/// a total would not fit in 64 bits.
pub proof fn a_deposit_is_credited_in_full(
    cfg: GenesisConfig,
    position: GenesisPosition,
    amount: u64,
    slot: u64,
)
    ensures
        ledger::deposited(cfg, position, amount, slot) is Ok <==> cfg.total_deposited + amount
            <= u64::MAX && position.amount + amount <= u64::MAX,
        ledger::deposited(cfg, position, amount, slot) matches Err(e) ==> e
            == ProgramError::ArithmeticOverflow,
        ledger::deposited(cfg, position, amount, slot) matches Ok(after) ==> {
            &&& after.0.total_deposited == cfg.total_deposited + amount
            &&& after.0 == (GenesisConfig { total_deposited: after.0.total_deposited, ..cfg })
            &&& after.1.amount == position.amount + amount
            &&& after.1.start_slot == slot
            &&& after.1 == (GenesisPosition {
                amount: after.1.amount,
                start_slot: slot,
                ..position
            })
            &&& position.withdrawn <= position.amount ==> terms::claim(after.1) == terms::claim(
                position,
            ) + amount
        },
{
}

/// A ballot is counted with its weight and the whole claim, in the place of the ballot that the position
/// had. A position that backs another candidate is refused.
pub proof fn a_ballot_is_counted(tally: Tally, key: Pubkey, w: u64)
    ensures
        ({
            let (cfg, p, c) = (tally.cfg, tally.position, tally.candidate);
            let claim = terms::claim(p);
            &&& tally.backed(key, w) is Ok <==> {
                &&& p.voted_weight == 0 || p.voted_proposal == key
                &&& p.voted_weight <= c.support_weight && p.voted_weight <= cfg.total_cast_weight
                &&& p.voted_principal <= c.support_principal && p.voted_principal
                    <= cfg.total_voted_principal
                &&& c.support_weight - p.voted_weight + w <= u64::MAX
                &&& cfg.total_cast_weight - p.voted_weight + w <= u64::MAX
                &&& c.support_principal - p.voted_principal + claim <= u64::MAX
                &&& cfg.total_voted_principal - p.voted_principal + claim <= u64::MAX
            }
            &&& tally.backed(key, w) matches Err(e) ==> {
                let elsewhere = p.voted_weight != 0 && p.voted_proposal != key;
                let unheld = p.voted_weight > c.support_weight || p.voted_weight
                    > cfg.total_cast_weight || p.voted_principal > c.support_principal
                    || p.voted_principal > cfg.total_voted_principal;
                &&& elsewhere ==> e == ProgramError::InvalidInstructionData
                &&& !elsewhere && unheld ==> e == ProgramError::InvalidAccountData
                &&& !elsewhere && !unheld ==> e == ProgramError::ArithmeticOverflow
            }
            &&& tally.backed(key, w) matches Ok(after) ==> {
                &&& after.position.voted_proposal == key
                &&& after.position.voted_weight == w
                &&& after.position.voted_principal == claim
                &&& after.candidate.support_weight == c.support_weight - p.voted_weight + w
                &&& after.candidate.support_principal == c.support_principal - p.voted_principal
                    + claim
                &&& after.cfg.total_cast_weight == cfg.total_cast_weight - p.voted_weight + w
                &&& after.cfg.total_voted_principal == cfg.total_voted_principal
                    - p.voted_principal + claim
                &&& only_the_ballot_changes(tally, after)
            }
        }),
{
}

/// Nothing but the ballot and the four totals differs.
pub open spec fn only_the_ballot_changes(before: Tally, after: Tally) -> bool {
    &&& after.cfg == (GenesisConfig {
        total_cast_weight: after.cfg.total_cast_weight,
        total_voted_principal: after.cfg.total_voted_principal,
        ..before.cfg
    })
    &&& after.position == (GenesisPosition {
        voted_proposal: after.position.voted_proposal,
        voted_weight: after.position.voted_weight,
        voted_principal: after.position.voted_principal,
        ..before.position
    })
    &&& after.candidate == (GenesisDistribution {
        support_weight: after.candidate.support_weight,
        support_principal: after.candidate.support_principal,
        ..before.candidate
    })
}

/// A retraction takes out what the ballot was counted with.
pub proof fn a_retraction_is_counted(tally: Tally, key: Pubkey)
    ensures
        ({
            let (cfg, p, c) = (tally.cfg, tally.position, tally.candidate);
            &&& tally.retracted(key) is Ok <==> {
                &&& p.voted_weight != 0 && p.voted_proposal == key
                &&& p.voted_weight <= c.support_weight && p.voted_weight <= cfg.total_cast_weight
                &&& p.voted_principal <= c.support_principal && p.voted_principal
                    <= cfg.total_voted_principal
            }
            &&& tally.retracted(key) matches Err(e) ==> e == if p.voted_weight == 0
                || p.voted_proposal != key {
                ProgramError::InvalidInstructionData
            } else {
                ProgramError::InvalidAccountData
            }
            &&& tally.retracted(key) matches Ok(after) ==> {
                &&& after.position.voted_proposal.bytes == SYSTEM_PROGRAM
                &&& after.position.voted_weight == 0
                &&& after.position.voted_principal == 0
                &&& after.candidate.support_weight == c.support_weight - p.voted_weight
                &&& after.candidate.support_principal == c.support_principal - p.voted_principal
                &&& after.cfg.total_cast_weight == cfg.total_cast_weight - p.voted_weight
                &&& after.cfg.total_voted_principal == cfg.total_voted_principal
                    - p.voted_principal
                &&& only_the_ballot_changes(tally, after)
            }
        }),
{
}

/// A quorum is more than half of the outstanding principal, and a majority more than half of the weight
/// that is cast: neither more nor less is asked for.
pub proof fn more_than_half_decides(cfg: GenesisConfig, candidate: GenesisDistribution)
    ensures
        ledger::quorum(cfg) <==> 2 * cfg.total_voted_principal > terms::outstanding(cfg),
        ledger::majority(cfg, candidate) <==> 2 * candidate.support_weight > cfg.total_cast_weight,
{
}

/// What is paid for a claim after finalization is the claim, where the vault covers what is outstanding,
/// and else the greatest whole number that does not exceed the claim's share of the vault.
pub proof fn a_share_is_the_greatest_that_is_fair(claim: u64, vault: u64, outstanding: u64)
    ensures
        ledger::recoverable(claim, vault, outstanding) is Ok <==> claim == 0 || outstanding > 0,
        ledger::recoverable(claim, vault, outstanding) matches Err(e) ==> e
            == ProgramError::InvalidAccountData,
        ledger::recoverable(claim, vault, outstanding) matches Ok(paid) ==> {
            &&& claim == 0 ==> paid == 0
            &&& vault >= outstanding ==> paid == claim
            &&& vault < outstanding ==> paid * outstanding <= claim * vault < (paid + 1)
                * outstanding
        },
{
    let (c, v, o) = (claim as int, vault as int, outstanding as int);
    if claim == 0 {
        assert(0 * o == 0 && c * v == 0) by (nonlinear_arith)
            requires
                c == 0,
        ;
    } else if 0 < outstanding && vault < outstanding {
        let q = c * v / o;
        ledger::lemma_share_bound(c, v, o);
        lemma_fundamental_div_mod(c * v, o);
        lemma_mod_bound(c * v, o);
        assert(q * o <= c * v < (q + 1) * o) by (nonlinear_arith)
            requires
                c * v == o * q + (c * v) % o,
                0 <= (c * v) % o < o,
        ;
    }
}

/// Who leaves has no ballot and no clock.
pub open spec fn has_left(position: GenesisPosition) -> bool {
    &&& position.start_slot == 0
    &&& position.voted_proposal.bytes == SYSTEM_PROGRAM
    &&& position.voted_weight == 0
    &&& position.voted_principal == 0
}

/// A refund pays the whole claim, as far as the vault holds it; the pool and the position shrink by what
/// was paid, and nothing else about the pool changes.
pub proof fn a_refund_pays_the_claim(cfg: GenesisConfig, position: GenesisPosition, vault: u64)
    ensures
        ({
            let exit = ledger::refunded(cfg, position, vault);
            &&& exit.paid == least(terms::claim(position), vault as int)
            &&& exit.cfg.total_deposited == cfg.total_deposited - least(
                exit.paid as int,
                cfg.total_deposited as int,
            )
            &&& exit.cfg == (GenesisConfig {
                total_deposited: exit.cfg.total_deposited,
                ..cfg
            })
            &&& exit.position.amount == position.amount - exit.paid
            &&& exit.position.withdrawn == position.withdrawn
            &&& exit.position.owner == position.owner
            &&& has_left(exit.position)
        }),
{
}

/// An exit out of the market pays all that the market gave back, up to the claim, and no less; what is
/// paid is booked as withdrawn, and the rest of the claim stands.
pub proof fn a_market_exit_pays_all_that_came_back(
    cfg: GenesisConfig,
    position: GenesisPosition,
    recovered: u64,
)
    ensures
        ({
            let due = least(recovered as int, terms::claim(position));
            let exit = ledger::exited(cfg, position, recovered);
            &&& exit is Ok <==> cfg.total_withdrawn + due <= u64::MAX
            &&& exit matches Err(e) ==> e == ProgramError::ArithmeticOverflow
            &&& exit matches Ok(after) ==> {
                &&& after.paid == due
                &&& booked(cfg, position, after, due)
            }
        }),
{
}

/// `settled` of the claim is booked as withdrawn, on the pool and on the position, which has left; nothing
/// else changes.
pub open spec fn booked(
    cfg: GenesisConfig,
    position: GenesisPosition,
    after: Exit,
    settled: int,
) -> bool {
    &&& after.cfg.total_withdrawn == cfg.total_withdrawn + settled
    &&& after.cfg == (GenesisConfig { total_withdrawn: after.cfg.total_withdrawn, ..cfg })
    &&& after.position.withdrawn == position.withdrawn + settled
    &&& after.position.amount == position.amount
    &&& after.position.owner == position.owner
    &&& has_left(after.position)
}

/// A settlement books the whole claim as withdrawn, and pays its share of the vault: all of it, where the
/// vault covers what is outstanding, and else the greatest whole number within the share.
pub proof fn a_settlement_books_the_whole_claim(
    cfg: GenesisConfig,
    position: GenesisPosition,
    vault: u64,
)
    ensures
        ({
            let (c, o) = (terms::claim(position), terms::outstanding(cfg));
            let exit = ledger::settled(cfg, position, vault);
            &&& exit is Ok <==> (c == 0 || o > 0) && cfg.total_withdrawn + c <= u64::MAX
            &&& exit matches Err(e) ==> e == if c > 0 && o == 0 {
                ProgramError::InvalidAccountData
            } else {
                ProgramError::ArithmeticOverflow
            }
            &&& exit matches Ok(after) ==> {
                &&& booked(cfg, position, after, c)
                &&& c == 0 ==> after.paid == 0
                &&& vault >= o ==> after.paid == c
                &&& vault < o ==> after.paid * o <= c * vault < (after.paid + 1) * o
            }
        }),
{
    a_share_is_the_greatest_that_is_fair(position.claim(), vault, cfg.outstanding());
}

/// The surplus is what the vault holds beyond the outstanding principal, all of it.
pub proof fn the_surplus_is_all_that_exceeds_the_principal(cfg: GenesisConfig, vault: u64)
    ensures
        ledger::surplus(cfg, vault) == vault - least(vault as int, terms::outstanding(cfg)),
{
}

} // verus!
