//! The weight of a vote.
use crate::genesis::{GenesisConfig, GenesisDistribution, GenesisPosition};
use crate::ledger;
use vstd::arithmetic::logarithm::*;
use vstd::arithmetic::mul::*;
use vstd::arithmetic::power::*;
use vstd::prelude::*;

verus! {

/// A number lies between the power of two of its logarithm and the next.
pub proof fn lemma_log_brackets(n: int)
    requires
        n > 0,
    ensures
        log(2, n) >= 0,
        pow(2, log(2, n) as nat) <= n < pow(2, (log(2, n) + 1) as nat),
    decreases n,
{
    reveal(log);
    reveal(pow);
    lemma_log_nonnegative(2, n);
    if n >= 2 {
        lemma_log_brackets(n / 2);
    } else {
        assert(pow(2, 0) == 1);
        assert(pow(2, 1) == 2 * pow(2, 0));
    }
}

/// A unit of principal weighs `w` exactly when its age in slots lies between the `w`th power of two and
/// the next.
pub proof fn weight_counts_the_doublings_of_age(age: u64)
    requires
        age >= 1,
    ensures
        pow(2, ledger::vote_weight(1, age) as nat) <= age < pow(
            2,
            (ledger::vote_weight(1, age) + 1) as nat,
        ),
{
    lemma_log_brackets(age as int);
    lemma_log_small(age);
    if age == 1 {
        reveal(log);
        assert(pow(2, 0) == 1) by {
            reveal(pow);
        }
        assert(pow(2, 1) == 2) by {
            reveal(pow);
            assert(pow(2, 0) == 1);
        }
    }
}

proof fn lemma_log_small(age: u64)
    ensures
        0 <= log(2, age as int) <= 63,
{
    reveal(log);
    lemma_log_nonnegative(2, age as int);
    if age > 0 && log(2, age as int) > 63 {
        lemma_log_brackets(age as int);
        lemma_pow_increases(2, 64, log(2, age as int) as nat);
        assert(pow(2, 64) == 0x1_0000_0000_0000_0000) by {
            vstd::arithmetic::power2::lemma2_to64();
            vstd::arithmetic::power2::lemma_pow2(64);
        }
    }
}

/// Who has held longer weighs no less, and who has staked more weighs no less.
pub proof fn weight_grows_with_age_and_stake(staked: u64, more: u64, age: u64, older: u64)
    requires
        staked <= more,
        age <= older,
    ensures
        ledger::vote_weight(staked, age) <= ledger::vote_weight(more, older),
{
    if staked > 0 && age >= 2 {
        lemma_log_is_ordered(2, age as int, older as int);
        lemma_log_small(age);
        lemma_log_small(older);
        let (a, b) = (log(2, age as int), log(2, older as int));
        assert(a * staked <= b * more) by (nonlinear_arith)
            requires
                0 <= a <= b,
                0 <= staked <= more,
        ;
    }
}

/// Holding twice as long adds one vote to every unit of principal.
pub proof fn doubling_the_age_adds_a_vote_per_unit(staked: u64, age: u64)
    requires
        staked > 0,
        1 <= age <= u64::MAX / 2,
        ledger::vote_weight(staked, age) + staked <= u64::MAX,
    ensures
        ledger::vote_weight(staked, (2 * age) as u64) == ledger::vote_weight(staked, age) + staked,
{
    let twice = (2 * age) as u64;
    let l = log(2, age as int);
    let m = log(2, twice as int);
    lemma_log_small(age);
    assert(m == 1 + l) by {
        reveal(log);
        assert((2 * age) / 2 == age as int);
    }
    assert(m * staked == staked + l * staked) by (nonlinear_arith)
        requires
            m == 1 + l,
    ;
    if age == 1 {
        assert(l == 0) by {
            reveal(log);
        }
        assert(l * staked == 0) by (nonlinear_arith)
            requires
                l == 0,
        ;
    }
}

/// A deposit starts the clock anew: at its slot, and at the next, the position has no vote.
pub proof fn a_deposit_resets_the_clock(
    cfg: GenesisConfig,
    position: GenesisPosition,
    amount: u64,
    slot: u64,
    vote_slot: u64,
)
    requires
        ledger::deposited(cfg, position, amount, slot) is Ok,
        vote_slot <= slot + 1,
    ensures
        ledger::ballot_weight(
            ledger::deposited(cfg, position, amount, slot)->Ok_0.1,
            vote_slot,
        ) == 0,
{
}

/// Whoever leaves has no ballot and no vote, at any slot.
pub proof fn leaving_forfeits_the_vote(position: GenesisPosition, slot: u64)
    ensures
        !ledger::departed(position).votes(),
        ledger::ballot_weight(ledger::departed(position), slot) == 0,
{
}

/// Exactly half of the outstanding principal is no quorum.
pub proof fn half_is_no_quorum(cfg: GenesisConfig)
    requires
        2 * cfg.total_voted_principal == cfg.outstanding(),
    ensures
        !ledger::quorum(cfg),
{
}

/// Exactly half of the weight that is cast is no majority.
pub proof fn half_is_no_majority(cfg: GenesisConfig, candidate: GenesisDistribution)
    requires
        2 * candidate.support_weight == cfg.total_cast_weight,
    ensures
        !ledger::majority(cfg, candidate),
{
}

} // verus!
