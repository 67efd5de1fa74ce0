//! What a finalized genesis pays: principal, shared fairly if the market lost some of it, and never
//! more than that.
use crate::account::Account;
use crate::addresses::{Address, CoinAddresses};
use crate::checks;
use crate::error::ProgramError;
use crate::genesis::{GenesisConfig, GenesisPosition};
use crate::laws::custody;
use crate::laws::records;
use crate::ledger;
use crate::pubkey::Pubkey;
use crate::rewards::market;
use crate::rewards::withdrawal;
use vstd::arithmetic::div_mod::*;
use vstd::prelude::*;

verus! {

proof fn lemma_share(claim: int, vault: int, outstanding: int)
    requires
        0 <= claim <= outstanding,
        0 <= vault < outstanding,
    ensures
        0 <= claim * vault / outstanding <= claim,
        claim * vault / outstanding <= vault,
        claim * vault / outstanding * outstanding <= claim * vault,
{
    let q = claim * vault / outstanding;
    assert(claim * vault >= 0) by (nonlinear_arith)
        requires
            0 <= claim,
            0 <= vault,
    ;
    lemma_fundamental_div_mod(claim * vault, outstanding);
    lemma_mod_bound(claim * vault, outstanding);
    lemma_div_pos_is_pos(claim * vault, outstanding);
    assert(q * outstanding <= claim * vault) by (nonlinear_arith)
        requires
            claim * vault == outstanding * q + (claim * vault) % outstanding,
            (claim * vault) % outstanding >= 0,
    ;
    assert(q <= vault) by (nonlinear_arith)
        requires
            q * outstanding <= claim * vault,
            claim <= outstanding,
            outstanding > 0,
            vault >= 0,
    ;
    assert(q <= claim) by (nonlinear_arith)
        requires
            q * outstanding <= claim * vault,
            vault <= outstanding,
            outstanding > 0,
            claim >= 0,
    ;
}

/// A claim is never paid more than its principal, nor more than the vault holds.
pub proof fn pays_no_more_than_principal_or_vault(claim: u64, vault: u64, outstanding: u64)
    requires
        claim <= outstanding,
        ledger::recoverable(claim, vault, outstanding) is Ok,
    ensures
        ledger::recoverable(claim, vault, outstanding)->Ok_0 <= claim,
        ledger::recoverable(claim, vault, outstanding)->Ok_0 <= vault,
{
    if claim != 0 && vault < outstanding {
        lemma_share(claim as int, vault as int, outstanding as int);
    }
}

/// A vault that covers the outstanding principal pays every claim in full, and still covers what is
/// outstanding then.
pub proof fn a_funded_vault_pays_in_full(
    cfg: GenesisConfig,
    position: GenesisPosition,
    vault: u64,
)
    requires
        position.claim() <= cfg.outstanding() <= vault,
        cfg.total_withdrawn <= cfg.total_deposited,
    ensures
        ledger::settled(cfg, position, vault) is Ok,
        ledger::settled(cfg, position, vault)->Ok_0.paid == position.claim(),
        ledger::settled(cfg, position, vault)->Ok_0.cfg.outstanding() == cfg.outstanding()
            - position.claim(),
        ledger::settled(cfg, position, vault)->Ok_0.cfg.outstanding() <= vault - position.claim(),
{
}

/// Going second never costs anything: once one claim is settled, what is paid for another is at least
/// what would have been paid for it before.
pub proof fn the_order_of_exits_costs_nobody(
    first: u64,
    second: u64,
    vault: u64,
    outstanding: u64,
)
    requires
        first + second <= outstanding,
        second > 0,
    ensures
        ledger::recoverable(first, vault, outstanding) is Ok,
        ledger::recoverable(first, vault, outstanding)->Ok_0 <= vault,
        ledger::recoverable(second, vault, outstanding) is Ok,
        ledger::recoverable(
            second,
            (vault - ledger::recoverable(first, vault, outstanding)->Ok_0) as u64,
            (outstanding - first) as u64,
        ) is Ok,
        ledger::recoverable(second, vault, outstanding)->Ok_0 <= ledger::recoverable(
            second,
            (vault - ledger::recoverable(first, vault, outstanding)->Ok_0) as u64,
            (outstanding - first) as u64,
        )->Ok_0,
{
    let (c, d, v, o) = (first as int, second as int, vault as int, outstanding as int);
    if vault < outstanding {
        lemma_share(c, v, o);
        lemma_share(d, v, o);
        let paid = c * v / o;
        let q = d * v / o;
        let (w, p) = (v - paid, o - c);
        assert(w * o >= v * p) by (nonlinear_arith)
            requires
                paid * o <= c * v,
                w == v - paid,
                p == o - c,
        ;
        if w < p {
            lemma_share(d, w, p);
            assert(q * p <= d * w) by (nonlinear_arith)
                requires
                    q * o <= d * v,
                    w * o >= v * p,
                    o > 0,
                    p > 0,
                    d >= 0,
            ;
            assert(q <= d * w / p) by {
                lemma_div_is_ordered(q * p, d * w, p);
                lemma_div_by_multiple(q, p);
            }
        }
        if first == 0 {
            assert(paid == 0) by (nonlinear_arith)
                requires
                    c == 0,
                    paid == c * v / o,
                    o > 0,
            ;
        }
    }
}

/// The order of exits moves a payment by one unit at most: once one claim is settled, another is paid
/// what would have been paid for it before, or one more out of the rounding. Where the vault covers
/// what is outstanding, or the first share is a whole number, it is paid exactly what would have been
/// paid for it before.
pub proof fn the_order_of_exits_moves_one_unit_at_most(
    first: u64,
    second: u64,
    vault: u64,
    outstanding: u64,
)
    requires
        first + second <= outstanding,
        second > 0,
    ensures
        ({
            let paid = ledger::recoverable(first, vault, outstanding)->Ok_0;
            let before = ledger::recoverable(second, vault, outstanding)->Ok_0;
            let after = ledger::recoverable(
                second,
                (vault - paid) as u64,
                (outstanding - first) as u64,
            )->Ok_0;
            &&& before <= after <= before + 1
            &&& vault >= outstanding || (first * vault) % (outstanding as int) == 0 ==> after
                == before
        }),
{
    the_order_of_exits_costs_nobody(first, second, vault, outstanding);
    let (c, d, v, o) = (first as int, second as int, vault as int, outstanding as int);
    if vault < outstanding {
        lemma_share(c, v, o);
        lemma_share(d, v, o);
        let paid = c * v / o;
        let q = d * v / o;
        let r = (c * v) % o;
        let s = (d * v) % o;
        let (w, p) = (v - paid, o - c);
        lemma_fundamental_div_mod(c * v, o);
        lemma_fundamental_div_mod(d * v, o);
        lemma_mod_bound(c * v, o);
        lemma_mod_bound(d * v, o);
        if first == 0 {
            assert(paid == 0 && r == 0) by (nonlinear_arith)
                requires
                    c == 0,
                    paid == c * v / o,
                    r == (c * v) % o,
                    o > 0,
            ;
        }
        // What is left in the vault, in units of the outstanding principal before the first exit.
        assert(w * o == v * p + r) by (nonlinear_arith)
            requires
                c * v == o * paid + r,
                w == v - paid,
                p == o - c,
        ;
        if w < p {
            lemma_share(d, w, p);
            let t = d * w / p;
            lemma_fundamental_div_mod(d * w, p);
            lemma_mod_bound(d * w, p);
            assert(t * p <= d * w) by (nonlinear_arith)
                requires
                    d * w == p * t + (d * w) % p,
                    (d * w) % p >= 0,
            ;
            // `d * w * o == d * v * p + d * r`, and `d <= p`.
            assert(t * p * o <= (o * q + s) * p + d * r) by (nonlinear_arith)
                requires
                    t * p <= d * w,
                    w * o == v * p + r,
                    d * v == o * q + s,
                    o > 0,
            ;
            assert(t <= q + 1) by (nonlinear_arith)
                requires
                    t * p * o <= (o * q + s) * p + d * r,
                    0 <= s < o,
                    0 <= r < o,
                    0 < d <= p,
                    o > 0,
            ;
            if r == 0 {
                assert(t <= q) by (nonlinear_arith)
                    requires
                        t * p * o <= (o * q + s) * p + d * r,
                        r == 0,
                        0 <= s < o,
                        p > 0,
                        o > 0,
                ;
            }
        } else {
            // Only the rounding of the first payment can make the vault cover the rest.
            assert(q + 1 >= d && (r == 0 ==> false)) by (nonlinear_arith)
                requires
                    w >= p,
                    w * o == v * p + r,
                    0 <= r < o,
                    0 <= v < o,
                    d * v == o * q + s,
                    0 <= s < o,
                    0 < d <= p,
            ;
        }
    }
}

/// A claim is settled once: asking again pays nothing and changes nothing.
pub proof fn a_settled_claim_pays_nothing_more(
    accounts: Seq<Account>,
    cfg: GenesisConfig,
    position: GenesisPosition,
    vault: u64,
    later_cfg: GenesisConfig,
    later_vault: u64,
    bump: u8,
)
    requires
        ledger::settled(cfg, position, vault) is Ok,
    ensures
        ledger::settled(cfg, position, vault)->Ok_0.position.claim() == 0,
        withdrawal::settle_outcome(
            accounts,
            later_cfg,
            ledger::settled(cfg, position, vault)->Ok_0.position,
            later_vault,
            bump,
        ) == Ok::<withdrawal::PlanView, ProgramError>(
            withdrawal::PlanView { effects: Seq::empty(), exit: None },
        ),
{
}

/// What a withdrawal after finalization pays: the amount of its transfer, or nothing.
pub open spec fn paid_by(plan: withdrawal::PlanView) -> u64 {
    if plan.effects.len() == 3 {
        custody::amount_of(plan.effects[2])
    } else {
        0
    }
}

/// The pool and the position that a withdrawal reads, and the balance of the vault.
pub open spec fn pool_in(accounts: Seq<Account>) -> GenesisConfig {
    GenesisConfig::decoded(accounts[3].data@)->Ok_0
}

pub open spec fn position_in(accounts: Seq<Account>) -> GenesisPosition {
    GenesisPosition::decoded(accounts[4].data@)->Ok_0
}

pub open spec fn vault_in(accounts: Seq<Account>) -> u64 {
    checks::token_account_at(accounts[6])->Ok_0.amount
}

/// A withdrawal after finalization pays the claim's share, settles the whole claim, and writes both
/// records; without a claim it does nothing.
#[verifier::spinoff_prover]
#[verifier::rlimit(30)]
pub proof fn a_finalized_withdrawal_settles_the_claim(
    program_id: Pubkey,
    accounts: Seq<Account>,
    data: Seq<u8>,
    coin: CoinAddresses,
    address: Option<Address>,
    percolator_vault: Option<Address>,
)
    requires
        withdrawal::genesis_withdraw_outcome(
            program_id,
            accounts,
            data,
            coin,
            address,
            percolator_vault,
        ) is Ok,
        pool_in(accounts).finalized == 1,
    ensures
        ({
            let plan = withdrawal::genesis_withdraw_outcome(
                program_id,
                accounts,
                data,
                coin,
                address,
                percolator_vault,
            )->Ok_0;
            let (cfg, position) = (pool_in(accounts), position_in(accounts));
            let share = ledger::recoverable(position.claim(), vault_in(accounts), cfg.outstanding());
            let exit = ledger::settled(cfg, position, vault_in(accounts));
            &&& plan.exit is None
            &&& share is Ok && paid_by(plan) == share->Ok_0
            &&& position.claim() == 0 ==> plan.effects.len() == 0
            &&& position.claim() > 0 ==> {
                &&& exit is Ok && exit->Ok_0.paid == share->Ok_0
                &&& plan.effects.len() >= 2
                &&& records::writes_pool(plan.effects[0], 3, exit->Ok_0.cfg)
                &&& records::writes_position(plan.effects[1], 4, exit->Ok_0.position)
            }
        }),
{
    let (cfg, position) = (pool_in(accounts), position_in(accounts));
    if position.claim() > 0 {
        let exit = ledger::settled(cfg, position, vault_in(accounts))->Ok_0;
        records::an_exit_is_read_back(accounts, exit);
        if exit.paid > 0 {
            let effect = withdrawal::payment(accounts, exit.paid, coin.market_admin->0.bump)[0];
            custody::lemma_amount(3, exit.paid, effect->instruction.data);
        }
    }
}

/// Asking again pays nothing: a withdrawal on the position that a withdrawal after finalization left
/// behind does nothing.
#[verifier::spinoff_prover]
pub proof fn a_repeated_withdrawal_pays_nothing(
    program_id: Pubkey,
    accounts: Seq<Account>,
    data: Seq<u8>,
    coin: CoinAddresses,
    address: Option<Address>,
    percolator_vault: Option<Address>,
    later: Seq<Account>,
    later_data: Seq<u8>,
)
    requires
        withdrawal::genesis_withdraw_outcome(
            program_id,
            accounts,
            data,
            coin,
            address,
            percolator_vault,
        ) is Ok,
        pool_in(accounts).finalized == 1,
        position_in(accounts).claim() > 0,
        withdrawal::genesis_withdraw_outcome(
            program_id,
            later,
            later_data,
            coin,
            address,
            percolator_vault,
        ) is Ok,
        pool_in(later).finalized == 1,
        later[4].data@ == withdrawal::genesis_withdraw_outcome(
            program_id,
            accounts,
            data,
            coin,
            address,
            percolator_vault,
        )->Ok_0.effects[1]->Write_data,
    ensures
        ({
            let plan = withdrawal::genesis_withdraw_outcome(
                program_id,
                later,
                later_data,
                coin,
                address,
                percolator_vault,
            )->Ok_0;
            plan.effects.len() == 0 && plan.exit is None && paid_by(plan) == 0
        }),
{
    a_finalized_withdrawal_settles_the_claim(
        program_id,
        accounts,
        data,
        coin,
        address,
        percolator_vault,
    );
    a_finalized_withdrawal_settles_the_claim(
        program_id,
        later,
        later_data,
        coin,
        address,
        percolator_vault,
    );
}

/// Two depositors are paid alike in either order. `second` is the second depositor's withdrawal on the
/// records as they are, and `after` the same withdrawal once the first depositor's is carried out: it
/// pays the same where the vault covers what is outstanding or the first share is a whole number, and
/// else the same or one unit more out of the rounding.
#[verifier::spinoff_prover]
#[verifier::rlimit(30)]
pub proof fn depositors_are_paid_alike_in_either_order(
    program_id: Pubkey,
    coin: CoinAddresses,
    first: Seq<Account>,
    first_data: Seq<u8>,
    first_address: Option<Address>,
    second: Seq<Account>,
    after: Seq<Account>,
    second_data: Seq<u8>,
    second_address: Option<Address>,
    percolator_vault: Option<Address>,
)
    requires
        withdrawal::genesis_withdraw_outcome(
            program_id,
            first,
            first_data,
            coin,
            first_address,
            percolator_vault,
        ) is Ok,
        withdrawal::genesis_withdraw_outcome(
            program_id,
            second,
            second_data,
            coin,
            second_address,
            percolator_vault,
        ) is Ok,
        withdrawal::genesis_withdraw_outcome(
            program_id,
            after,
            second_data,
            coin,
            second_address,
            percolator_vault,
        ) is Ok,
        pool_in(first).finalized == 1,
        pool_in(first).total_withdrawn <= pool_in(first).total_deposited,
        position_in(first).claim() > 0,
        position_in(first).claim() + position_in(second).claim() <= pool_in(first).outstanding(),
        second[3].data@ == first[3].data@,
        vault_in(second) == vault_in(first),
        after[3].data@ == withdrawal::genesis_withdraw_outcome(
            program_id,
            first,
            first_data,
            coin,
            first_address,
            percolator_vault,
        )->Ok_0.effects[0]->Write_data,
        after[4].data@ == second[4].data@,
        vault_in(after) == vault_in(first) - paid_by(
            withdrawal::genesis_withdraw_outcome(
                program_id,
                first,
                first_data,
                coin,
                first_address,
                percolator_vault,
            )->Ok_0,
        ),
    ensures
        ({
            let before = paid_by(
                withdrawal::genesis_withdraw_outcome(
                    program_id,
                    second,
                    second_data,
                    coin,
                    second_address,
                    percolator_vault,
                )->Ok_0,
            );
            let later = paid_by(
                withdrawal::genesis_withdraw_outcome(
                    program_id,
                    after,
                    second_data,
                    coin,
                    second_address,
                    percolator_vault,
                )->Ok_0,
            );
            let outstanding = pool_in(first).outstanding();
            &&& before <= later <= before + 1
            &&& vault_in(first) >= outstanding || (position_in(first).claim() * vault_in(first)) % (
            outstanding as int) == 0 ==> later == before
        }),
{
    a_finalized_withdrawal_settles_the_claim(
        program_id,
        first,
        first_data,
        coin,
        first_address,
        percolator_vault,
    );
    a_finalized_withdrawal_settles_the_claim(
        program_id,
        second,
        second_data,
        coin,
        second_address,
        percolator_vault,
    );
    a_finalized_withdrawal_settles_the_claim(
        program_id,
        after,
        second_data,
        coin,
        second_address,
        percolator_vault,
    );
    let (claim, other) = (position_in(first).claim(), position_in(second).claim());
    if other > 0 {
        the_order_of_exits_moves_one_unit_at_most(
            claim,
            other,
            vault_in(first),
            pool_in(first).outstanding(),
        );
    }
}

/// A draw of the surplus leaves the outstanding principal covered.
pub proof fn a_surplus_draw_leaves_the_principal(cfg: GenesisConfig, vault: u64, amount: u64)
    requires
        0 < amount <= ledger::surplus(cfg, vault),
    ensures
        amount <= vault,
        cfg.outstanding() <= vault - amount,
{
}

/// An exit is paid no more than what the market gave back for it, and no more than the claim; the claim
/// shrinks by what was paid, and so does the outstanding principal.
pub proof fn a_market_exit_pays_what_it_recovered(
    cfg: GenesisConfig,
    position: GenesisPosition,
    recovered: u64,
)
    requires
        ledger::exited(cfg, position, recovered) is Ok,
    ensures
        ledger::exited(cfg, position, recovered)->Ok_0.paid <= recovered,
        ledger::exited(cfg, position, recovered)->Ok_0.paid <= position.claim(),
        ledger::exited(cfg, position, recovered)->Ok_0.position.claim() == position.claim()
            - ledger::exited(cfg, position, recovered)->Ok_0.paid,
        cfg.total_withdrawn + position.claim() <= cfg.total_deposited ==> ledger::exited(
            cfg,
            position,
            recovered,
        )->Ok_0.cfg.outstanding() == cfg.outstanding() - ledger::exited(
            cfg,
            position,
            recovered,
        )->Ok_0.paid,
{
}

/// A refund out of a vault that holds the claim pays it whole, and leaves none of it.
pub proof fn a_refund_is_full(cfg: GenesisConfig, position: GenesisPosition, vault: u64)
    requires
        position.claim() <= vault,
        position.withdrawn <= position.amount,
    ensures
        ledger::refunded(cfg, position, vault).paid == position.claim(),
        ledger::refunded(cfg, position, vault).position.claim() == 0,
{
}

/// The pool is deployed whole, and in halves: the two shares add up to it, and differ by one at most.
pub proof fn the_split_is_even(total: u64)
    ensures
        market::insurance_share(total) + market::backing_share(total) == total,
        market::insurance_share(total) <= market::backing_share(total)
            <= market::insurance_share(total) + 1,
{
}

} // verus!
