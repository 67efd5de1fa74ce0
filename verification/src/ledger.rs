//! The bookkeeping of a genesis: what a deposit, a ballot and an exit do to the records.
use crate::error::ProgramError;
use crate::genesis::{GenesisConfig, GenesisDistribution, GenesisPosition};
use crate::pubkey::{Pubkey, SYSTEM_PROGRAM};
use vstd::arithmetic::div_mod::*;
use vstd::arithmetic::logarithm::*;
use vstd::arithmetic::mul::*;
use vstd::arithmetic::power::*;
use vstd::arithmetic::power2::*;
use vstd::prelude::*;

verus! {

/// The number of a position's votes: the binary logarithm of its age in slots, rounded down, times the
/// principal that it stakes. A position younger than two slots has none.
pub open spec fn vote_weight(staked: u64, age: u64) -> u64 {
    if staked == 0 || age < 2 {
        0
    } else {
        let weight = log(2, age as int) * staked;
        if weight <= u64::MAX {
            weight as u64
        } else {
            u64::MAX
        }
    }
}

/// The binary logarithm of a slot count, rounded down.
fn floor_log2(n: u64) -> (r: u64)
    ensures
        r == log(2, n as int),
        r <= 63,
{
    let mut rest: u64 = n;
    let mut r: u64 = 0;
    let ghost mut bound: int = 64;
    proof {
        reveal(log);
        assert(n < pow(2, 64)) by {
            lemma2_to64();
            lemma_pow2(64);
        }
    }
    while rest >= 2
        invariant
            r + log(2, rest as int) == log(2, n as int),
            r + bound == 64,
            bound >= 1,
            rest < pow(2, bound as nat),
        decreases rest,
    {
        proof {
            reveal(log);
            reveal(pow);
            if bound == 1 {
                assert(pow(2, 0) == 1);
                assert(false);
            }
            bound = bound - 1;
        }
        rest = rest / 2;
        r = r + 1;
    }
    proof {
        reveal(log);
    }
    r
}

pub fn genesis_vote_weight(staked: u64, age: u64) -> (r: u64)
    ensures
        r == vote_weight(staked, age),
{
    if staked == 0 || age < 2 {
        return 0;
    }
    match floor_log2(age).checked_mul(staked) {
        Some(weight) => weight,
        None => u64::MAX,
    }
}

/// A position's votes at a slot: none without a deposit since the last exit.
pub open spec fn ballot_weight(position: GenesisPosition, slot: u64) -> u64 {
    if position.start_slot == 0 {
        0
    } else {
        vote_weight(
            position.claim(),
            if slot >= position.start_slot {
                (slot - position.start_slot) as u64
            } else {
                0
            },
        )
    }
}

pub fn position_weight(position: &GenesisPosition, slot: u64) -> (r: u64)
    ensures
        r == ballot_weight(*position, slot),
{
    if position.start_slot == 0 {
        0
    } else {
        genesis_vote_weight(position.staked(), slot.saturating_sub(position.start_slot))
    }
}

/// The pool and the position after a deposit: both grow, and the position's clock starts anew.
pub open spec fn deposited(
    cfg: GenesisConfig,
    position: GenesisPosition,
    amount: u64,
    slot: u64,
) -> Result<(GenesisConfig, GenesisPosition), ProgramError> {
    if cfg.total_deposited + amount > u64::MAX || position.amount + amount > u64::MAX {
        Err(ProgramError::ArithmeticOverflow)
    } else {
        Ok(
            (
                GenesisConfig { total_deposited: (cfg.total_deposited + amount) as u64, ..cfg },
                GenesisPosition {
                    amount: (position.amount + amount) as u64,
                    start_slot: slot,
                    ..position
                },
            ),
        )
    }
}

pub fn deposit(cfg: &GenesisConfig, position: &GenesisPosition, amount: u64, slot: u64) -> (r: Result<
    (GenesisConfig, GenesisPosition),
    ProgramError,
>)
    ensures
        r == deposited(*cfg, *position, amount, slot),
{
    let total_deposited: u64 = match cfg.total_deposited.checked_add(amount) {
        Some(total) => total,
        None => return Err(ProgramError::ArithmeticOverflow),
    };
    let held: u64 = match position.amount.checked_add(amount) {
        Some(held) => held,
        None => return Err(ProgramError::ArithmeticOverflow),
    };
    Ok(
        (
            GenesisConfig { total_deposited, ..*cfg },
            GenesisPosition { amount: held, start_slot: slot, ..*position },
        ),
    )
}

/// A position without a ballot.
pub open spec fn unballoted(position: GenesisPosition) -> GenesisPosition {
    GenesisPosition {
        voted_proposal: Pubkey { bytes: SYSTEM_PROGRAM },
        voted_weight: 0,
        voted_principal: 0,
        ..position
    }
}

/// A position that has left: it keeps what is still owed to it, and has no vote.
pub open spec fn departed(position: GenesisPosition) -> GenesisPosition {
    GenesisPosition { start_slot: 0, ..unballoted(position) }
}

pub fn depart(position: &GenesisPosition) -> (r: GenesisPosition)
    ensures
        r == departed(*position),
{
    GenesisPosition {
        start_slot: 0,
        voted_proposal: Pubkey { bytes: SYSTEM_PROGRAM },
        voted_weight: 0,
        voted_principal: 0,
        ..*position
    }
}

/// The records that a ballot moves votes between.
#[derive(Clone, Copy, PartialEq, Eq, Debug)]
pub struct Tally {
    pub cfg: GenesisConfig,
    pub position: GenesisPosition,
    pub candidate: GenesisDistribution,
}

impl Tally {
    /// The four totals hold the position's ballot.
    pub open spec fn holds_ballot(self) -> bool {
        &&& self.position.voted_weight <= self.candidate.support_weight
        &&& self.position.voted_principal <= self.candidate.support_principal
        &&& self.position.voted_weight <= self.cfg.total_cast_weight
        &&& self.position.voted_principal <= self.cfg.total_voted_principal
    }

    /// The position's ballot is taken out of the candidate's totals and out of the pool's.
    pub open spec fn without_ballot(self) -> Tally {
        Tally {
            cfg: GenesisConfig {
                total_cast_weight: (self.cfg.total_cast_weight
                    - self.position.voted_weight) as u64,
                total_voted_principal: (self.cfg.total_voted_principal
                    - self.position.voted_principal) as u64,
                ..self.cfg
            },
            position: unballoted(self.position),
            candidate: GenesisDistribution {
                support_weight: (self.candidate.support_weight
                    - self.position.voted_weight) as u64,
                support_principal: (self.candidate.support_principal
                    - self.position.voted_principal) as u64,
                ..self.candidate
            },
        }
    }

    /// There is room for a ballot of `weight` in the four totals.
    pub open spec fn has_room(self, weight: u64) -> bool {
        let principal = self.position.claim();
        &&& self.candidate.support_weight + weight <= u64::MAX
        &&& self.candidate.support_principal + principal <= u64::MAX
        &&& self.cfg.total_cast_weight + weight <= u64::MAX
        &&& self.cfg.total_voted_principal + principal <= u64::MAX
    }

    /// A ballot of `weight` and of the whole claim is counted for the candidate at `key`.
    pub open spec fn with_ballot(self, key: Pubkey, weight: u64) -> Tally {
        let principal = self.position.claim();
        Tally {
            cfg: GenesisConfig {
                total_cast_weight: (self.cfg.total_cast_weight + weight) as u64,
                total_voted_principal: (self.cfg.total_voted_principal + principal) as u64,
                ..self.cfg
            },
            position: GenesisPosition {
                voted_proposal: key,
                voted_weight: weight,
                voted_principal: principal,
                ..self.position
            },
            candidate: GenesisDistribution {
                support_weight: (self.candidate.support_weight + weight) as u64,
                support_principal: (self.candidate.support_principal + principal) as u64,
                ..self.candidate
            },
        }
    }

    /// What backing the candidate at `key` with `weight` does. A position has one ballot: one that
    /// backs another candidate has to be retracted first, one that backs this candidate is counted
    /// anew.
    pub open spec fn backed(self, key: Pubkey, weight: u64) -> Result<Tally, ProgramError> {
        if self.position.votes() && self.position.voted_proposal != key {
            Err(ProgramError::InvalidInstructionData)
        } else if !self.holds_ballot() {
            Err(ProgramError::InvalidAccountData)
        } else if !self.without_ballot().has_room(weight) {
            Err(ProgramError::ArithmeticOverflow)
        } else {
            Ok(self.without_ballot().with_ballot(key, weight))
        }
    }

    /// What giving up the ballot for the candidate at `key` does.
    pub open spec fn retracted(self, key: Pubkey) -> Result<Tally, ProgramError> {
        if !self.position.votes() || self.position.voted_proposal != key {
            Err(ProgramError::InvalidInstructionData)
        } else if !self.holds_ballot() {
            Err(ProgramError::InvalidAccountData)
        } else {
            Ok(self.without_ballot())
        }
    }

    fn remove_ballot(&self) -> (r: Result<Tally, ProgramError>)
        ensures
            r == (if self.holds_ballot() {
                Ok(self.without_ballot())
            } else {
                Err::<Tally, ProgramError>(ProgramError::InvalidAccountData)
            }),
    {
        let weight: u64 = self.position.voted_weight;
        let principal: u64 = self.position.voted_principal;
        if weight > self.candidate.support_weight || principal > self.candidate.support_principal
            || weight > self.cfg.total_cast_weight || principal > self.cfg.total_voted_principal {
            return Err(ProgramError::InvalidAccountData);
        }
        Ok(
            Tally {
                cfg: GenesisConfig {
                    total_cast_weight: self.cfg.total_cast_weight - weight,
                    total_voted_principal: self.cfg.total_voted_principal - principal,
                    ..self.cfg
                },
                position: GenesisPosition {
                    voted_proposal: Pubkey { bytes: SYSTEM_PROGRAM },
                    voted_weight: 0,
                    voted_principal: 0,
                    ..self.position
                },
                candidate: GenesisDistribution {
                    support_weight: self.candidate.support_weight - weight,
                    support_principal: self.candidate.support_principal - principal,
                    ..self.candidate
                },
            },
        )
    }

    fn add_ballot(&self, key: &Pubkey, weight: u64) -> (r: Result<Tally, ProgramError>)
        ensures
            r == (if self.has_room(weight) {
                Ok(self.with_ballot(*key, weight))
            } else {
                Err::<Tally, ProgramError>(ProgramError::ArithmeticOverflow)
            }),
    {
        let principal: u64 = self.position.staked();
        match (
            self.candidate.support_weight.checked_add(weight),
            self.candidate.support_principal.checked_add(principal),
            self.cfg.total_cast_weight.checked_add(weight),
            self.cfg.total_voted_principal.checked_add(principal),
        ) {
            (
                Some(support_weight),
                Some(support_principal),
                Some(total_cast_weight),
                Some(total_voted_principal),
            ) => Ok(
                Tally {
                    cfg: GenesisConfig { total_cast_weight, total_voted_principal, ..self.cfg },
                    position: GenesisPosition {
                        voted_proposal: *key,
                        voted_weight: weight,
                        voted_principal: principal,
                        ..self.position
                    },
                    candidate: GenesisDistribution {
                        support_weight,
                        support_principal,
                        ..self.candidate
                    },
                },
            ),
            _ => Err(ProgramError::ArithmeticOverflow),
        }
    }

    pub fn back(&self, key: &Pubkey, weight: u64) -> (r: Result<Tally, ProgramError>)
        ensures
            r == self.backed(*key, weight),
    {
        if self.position.has_ballot() && !self.position.voted_proposal.same(key) {
            return Err(ProgramError::InvalidInstructionData);
        }
        let cleared = self.remove_ballot()?;
        cleared.add_ballot(key, weight)
    }

    pub fn retract(&self, key: &Pubkey) -> (r: Result<Tally, ProgramError>)
        ensures
            r == self.retracted(*key),
    {
        if !self.position.has_ballot() || !self.position.voted_proposal.same(key) {
            return Err(ProgramError::InvalidInstructionData);
        }
        self.remove_ballot()
    }
}

/// More than half of the outstanding principal stands behind the ballots that are cast.
pub open spec fn quorum(cfg: GenesisConfig) -> bool {
    2 * cfg.total_voted_principal > cfg.outstanding()
}

/// More than half of the weight that is cast backs the candidate.
pub open spec fn majority(cfg: GenesisConfig, candidate: GenesisDistribution) -> bool {
    2 * candidate.support_weight > cfg.total_cast_weight
}

pub fn has_quorum(cfg: &GenesisConfig) -> (r: bool)
    ensures
        r == quorum(*cfg),
{
    2 * cfg.total_voted_principal as u128 > cfg.outstanding_principal() as u128
}

pub fn has_majority(cfg: &GenesisConfig, candidate: &GenesisDistribution) -> (r: bool)
    ensures
        r == majority(*cfg, *candidate),
{
    2 * candidate.support_weight as u128 > cfg.total_cast_weight as u128
}

/// What is paid for a claim once the pool is closed: the whole claim if the vault covers all that is
/// outstanding, else the vault's share of it, rounded down.
pub open spec fn recoverable(claim: u64, vault_balance: u64, outstanding: u64) -> Result<
    u64,
    ProgramError,
> {
    if claim == 0 {
        Ok(0)
    } else if outstanding == 0 {
        Err(ProgramError::InvalidAccountData)
    } else if vault_balance >= outstanding {
        Ok(claim)
    } else {
        Ok((claim * vault_balance / (outstanding as int)) as u64)
    }
}

/// A share that the vault pays of a claim is no more than the claim.
pub proof fn lemma_share_bound(claim: int, vault_balance: int, outstanding: int)
    requires
        0 <= claim,
        0 <= vault_balance < outstanding,
    ensures
        0 <= claim * vault_balance / outstanding <= claim,
{
    assert(0 <= claim * vault_balance <= claim * outstanding) by (nonlinear_arith)
        requires
            0 <= claim,
            0 <= vault_balance < outstanding,
    ;
    lemma_div_is_ordered(claim * vault_balance, claim * outstanding, outstanding);
    lemma_div_multiples_vanish(claim, outstanding);
    lemma_mul_is_commutative(claim, outstanding);
    lemma_div_pos_is_pos(claim * vault_balance, outstanding);
}

pub fn genesis_recoverable_principal(
    remaining_principal: u64,
    vault_balance: u64,
    outstanding_principal: u64,
) -> (r: Result<u64, ProgramError>)
    ensures
        r == recoverable(remaining_principal, vault_balance, outstanding_principal),
        r matches Ok(paid) ==> paid <= remaining_principal,
{
    if remaining_principal == 0 {
        return Ok(0);
    }
    if outstanding_principal == 0 {
        return Err(ProgramError::InvalidAccountData);
    }
    if vault_balance >= outstanding_principal {
        return Ok(remaining_principal);
    }
    proof {
        lemma_share_bound(
            remaining_principal as int,
            vault_balance as int,
            outstanding_principal as int,
        );
        assert(remaining_principal * vault_balance <= u128::MAX) by (nonlinear_arith)
            requires
                0 <= remaining_principal <= u64::MAX,
                0 <= vault_balance <= u64::MAX,
        ;
    }
    let product: u128 = remaining_principal as u128 * vault_balance as u128;
    Ok((product / outstanding_principal as u128) as u64)
}

/// The records after an exit, and what is paid for it.
#[derive(Clone, Copy, PartialEq, Eq, Debug)]
pub struct Exit {
    pub cfg: GenesisConfig,
    pub position: GenesisPosition,
    pub paid: u64,
}

/// An exit before the pool is deployed: the claim is paid out of the vault, and the pool and the
/// position shrink by what was paid.
pub open spec fn refunded(cfg: GenesisConfig, position: GenesisPosition, vault_balance: u64) -> Exit {
    let claim = position.claim();
    let paid = if claim <= vault_balance {
        claim
    } else {
        vault_balance
    };
    Exit {
        cfg: GenesisConfig {
            total_deposited: if cfg.total_deposited >= paid {
                (cfg.total_deposited - paid) as u64
            } else {
                0
            },
            ..cfg
        },
        position: departed(
            GenesisPosition { amount: (position.amount - paid) as u64, ..position },
        ),
        paid,
    }
}

pub fn refund(cfg: &GenesisConfig, position: &GenesisPosition, vault_balance: u64) -> (r: Exit)
    ensures
        r == refunded(*cfg, *position, vault_balance),
{
    let claim: u64 = position.staked();
    let paid: u64 = if claim <= vault_balance {
        claim
    } else {
        vault_balance
    };
    Exit {
        cfg: GenesisConfig {
            total_deposited: cfg.total_deposited.saturating_sub(paid),
            ..*cfg
        },
        position: depart(&GenesisPosition { amount: position.amount - paid, ..*position }),
        paid,
    }
}

/// An exit while the pool is deployed: what the market gave back is paid, up to the claim, and the
/// rest of the claim stands.
pub open spec fn exited(cfg: GenesisConfig, position: GenesisPosition, recovered: u64) -> Result<
    Exit,
    ProgramError,
> {
    let claim = position.claim();
    let paid = if recovered <= claim {
        recovered
    } else {
        claim
    };
    if cfg.total_withdrawn + paid > u64::MAX {
        Err(ProgramError::ArithmeticOverflow)
    } else {
        Ok(
            Exit {
                cfg: GenesisConfig {
                    total_withdrawn: (cfg.total_withdrawn + paid) as u64,
                    ..cfg
                },
                position: departed(
                    GenesisPosition { withdrawn: (position.withdrawn + paid) as u64, ..position },
                ),
                paid,
            },
        )
    }
}

pub fn market_exit(cfg: &GenesisConfig, position: &GenesisPosition, recovered: u64) -> (r: Result<
    Exit,
    ProgramError,
>)
    ensures
        r == exited(*cfg, *position, recovered),
{
    let claim: u64 = position.staked();
    let paid: u64 = if recovered <= claim {
        recovered
    } else {
        claim
    };
    match cfg.total_withdrawn.checked_add(paid) {
        Some(total_withdrawn) => Ok(
            Exit {
                cfg: GenesisConfig { total_withdrawn, ..*cfg },
                position: depart(
                    &GenesisPosition { withdrawn: position.withdrawn + paid, ..*position },
                ),
                paid,
            },
        ),
        None => Err(ProgramError::ArithmeticOverflow),
    }
}

/// An exit after finalization: the whole claim is settled, and paid as far as the vault covers what
/// is outstanding. What is not paid is the depositor's share of the loss.
pub open spec fn settled(cfg: GenesisConfig, position: GenesisPosition, vault_balance: u64) -> Result<
    Exit,
    ProgramError,
> {
    let claim = position.claim();
    match recoverable(claim, vault_balance, cfg.outstanding()) {
        Err(e) => Err(e),
        Ok(paid) => if cfg.total_withdrawn + claim > u64::MAX {
            Err(ProgramError::ArithmeticOverflow)
        } else {
            Ok(
                Exit {
                    cfg: GenesisConfig {
                        total_withdrawn: (cfg.total_withdrawn + claim) as u64,
                        ..cfg
                    },
                    position: departed(
                        GenesisPosition {
                            withdrawn: (position.withdrawn + claim) as u64,
                            ..position
                        },
                    ),
                    paid,
                },
            )
        },
    }
}

pub fn settle(cfg: &GenesisConfig, position: &GenesisPosition, vault_balance: u64) -> (r: Result<
    Exit,
    ProgramError,
>)
    ensures
        r == settled(*cfg, *position, vault_balance),
{
    let claim: u64 = position.staked();
    let paid: u64 = genesis_recoverable_principal(
        claim,
        vault_balance,
        cfg.outstanding_principal(),
    )?;
    match cfg.total_withdrawn.checked_add(claim) {
        Some(total_withdrawn) => Ok(
            Exit {
                cfg: GenesisConfig { total_withdrawn, ..*cfg },
                position: depart(
                    &GenesisPosition { withdrawn: position.withdrawn + claim, ..*position },
                ),
                paid,
            },
        ),
        None => Err(ProgramError::ArithmeticOverflow),
    }
}

/// What the vault holds beyond the outstanding principal.
pub open spec fn surplus(cfg: GenesisConfig, vault_balance: u64) -> u64 {
    if vault_balance >= cfg.outstanding() {
        (vault_balance - cfg.outstanding()) as u64
    } else {
        0
    }
}

pub fn available_surplus(cfg: &GenesisConfig, vault_balance: u64) -> (r: u64)
    ensures
        r == surplus(*cfg, vault_balance),
{
    vault_balance.saturating_sub(cfg.outstanding_principal())
}

} // verus!
