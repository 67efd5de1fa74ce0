//! Leaving the pool: when principal is paid out, how much of it, and from where.
use crate::account::{Account, EffectView};
use crate::addresses;
use crate::addresses::{Address, CoinAddresses};
use crate::genesis::{GenesisConfig, GenesisPosition};
use crate::laws::changes;
use crate::laws::sums;
use crate::laws::terms;
use crate::ledger;
use crate::ledger::Exit;
use crate::pubkey::{Pubkey, PERCOLATOR_PROGRAM, TOKEN_PROGRAM};
use crate::rewards::withdrawal;
use crate::rewards::withdrawal::MarketExit;
use vstd::prelude::*;

verus! {

/// What every exit asks for: a signature, the pool and its vault, the depositor's own position and token
/// account.
pub open spec fn may_leave(
    program_id: Pubkey,
    accounts: Seq<Account>,
    data: Seq<u8>,
    coin: CoinAddresses,
    position_address: Option<Address>,
) -> bool {
    let cfg = terms::pool_in(accounts[3]);
    &&& accounts.len() >= 9
    &&& data.len() == 17
    &&& accounts[0].is_signer
    &&& accounts[8].key.bytes == TOKEN_PROGRAM
    &&& terms::stands(accounts[7], coin.market_admin)
    &&& terms::coin_record(accounts[2], coin, program_id)
    &&& terms::pool_record(accounts[3], accounts[1], coin, program_id)
    &&& terms::vault(accounts[6], cfg, accounts[7].key, coin)
    &&& terms::token_by(accounts[5], cfg.base_mint, accounts[0].key)
    &&& terms::position_record(accounts[4], accounts[0].key, position_address, program_id)
}

/// What an exit out of the market asks for besides: at least one unit and at most the claim, out of the
/// COIN's own market.
pub open spec fn may_pull(
    accounts: Seq<Account>,
    data: Seq<u8>,
    percolator_vault: Option<Address>,
) -> bool {
    let cfg = terms::pool_in(accounts[3]);
    let asked = terms::word(data, 1) + terms::word(data, 9);
    &&& 1 <= asked <= terms::claim(terms::position_in(accounts[4]))
    &&& accounts.len() == 13
    &&& accounts[12].key.bytes == PERCOLATOR_PROGRAM
    &&& terms::controlled(accounts[9], cfg.base_mint, accounts[7].key)
    &&& terms::market_vault(accounts[10], accounts[11], cfg.base_mint, percolator_vault)
}

/// An exit is taken exactly where its conditions hold. Until finalization it takes that no ballot is
/// cast. While the pool is deployed it takes a market to pull from; else nothing may be asked of a
/// market.
#[verifier::spinoff_prover]
#[verifier::rlimit(80)]
pub proof fn when_an_exit_is_taken(
    program_id: Pubkey,
    accounts: Seq<Account>,
    data: Seq<u8>,
    coin: CoinAddresses,
    position_address: Option<Address>,
    percolator_vault: Option<Address>,
)
    ensures
        ({
            let r = withdrawal::genesis_withdraw_outcome(
                program_id,
                accounts,
                data,
                coin,
                position_address,
                percolator_vault,
            );
            let cfg = terms::pool_in(accounts[3]);
            let p = terms::position_in(accounts[4]);
            let leaves = may_leave(program_id, accounts, data, coin, position_address);
            let nothing_asked = terms::word(data, 1) == 0 && terms::word(data, 9) == 0
                && accounts.len() == 9;
            &&& r is Ok ==> leaves
            &&& leaves && cfg.finalized == 0 && cfg.kicked == 0 ==> (r is Ok <==> p.voted_weight
                == 0 && nothing_asked)
            &&& leaves && cfg.finalized == 0 && cfg.kicked == 1 ==> (r is Ok <==> p.voted_weight
                == 0 && may_pull(accounts, data, percolator_vault))
            &&& leaves && cfg.finalized == 1 ==> (r is Ok <==> nothing_asked && (terms::claim(p)
                > 0 ==> terms::outstanding(cfg) > 0 && cfg.total_withdrawn + terms::claim(p)
                <= u64::MAX))
        }),
{
    let cfg = terms::pool_in(accounts[3]);
    let p = terms::position_in(accounts[4]);
    if data.len() == 17 {
        terms::lemma_word(data, 1);
        terms::lemma_word(data, 9);
    }
    terms::lemma_governed(accounts[0], accounts[2], coin, program_id);
    terms::lemma_pool(accounts[3], accounts[1], accounts[6], accounts[7].key, coin, program_id);
    terms::lemma_tokens(accounts[5], cfg.base_mint, accounts[0].key);
    terms::lemma_position(accounts[4], accounts[0].key, position_address, program_id);
    terms::lemma_market(
        accounts[9],
        accounts[10],
        accounts[11],
        cfg.base_mint,
        accounts[7].key,
        percolator_vault,
    );
    changes::lemma_read(accounts[3].data@);
    sums::a_settlement_books_the_whole_claim(cfg, p, terms::balance(accounts[6]) as u64);
}

/// The vault pays `amount` to the depositor; the market admin signs.
pub open spec fn pays(
    effect: EffectView,
    accounts: Seq<Account>,
    amount: int,
    bump: u8,
) -> bool {
    terms::moves(
        effect,
        accounts,
        6,
        5,
        7,
        8,
        amount,
        seq![addresses::MARKET_ADMIN_LABEL@, accounts[1].key.bytes@, seq![bump]],
    )
}

/// The two records of an exit, from index `from` on.
pub open spec fn records(
    effects: Seq<EffectView>,
    from: int,
    accounts: Seq<Account>,
    cfg: GenesisConfig,
    position: GenesisPosition,
) -> bool {
    &&& changes::replaces(effects[from], 3, accounts[3].data@, 192)
    &&& changes::holds_pool(effects[from], cfg)
    &&& changes::replaces(effects[from + 1], 4, accounts[4].data@, 112)
    &&& changes::holds_position(effects[from + 1], position)
}

proof fn lemma_records(effects: Seq<EffectView>, from: int, accounts: Seq<Account>, exit: Exit)
    requires
        exit.cfg.finalized <= 1 && exit.cfg.kicked <= 1,
        accounts[3].data@.len() >= 192,
        accounts[4].data@.len() >= 112,
        0 <= from,
        effects.len() >= from + 2,
        effects[from] == withdrawal::records(accounts, exit)[0],
        effects[from + 1] == withdrawal::records(accounts, exit)[1],
    ensures
        records(effects, from, accounts, exit.cfg, exit.position),
{
    changes::lemma_pool_written(effects[from], 3, accounts[3].data@, exit.cfg);
    changes::lemma_position_written(effects[from + 1], 4, accounts[4].data@, exit.position);
}

proof fn lemma_payment(accounts: Seq<Account>, amount: u64, bump: u8)
    requires
        accounts[8].key.bytes == TOKEN_PROGRAM,
    ensures
        amount > 0 ==> withdrawal::payment(accounts, amount, bump).len() == 1 && pays(
            withdrawal::payment(accounts, amount, bump)[0],
            accounts,
            amount as int,
            bump,
        ),
        amount == 0 ==> withdrawal::payment(accounts, amount, bump).len() == 0,
{
    terms::lemma_tag_and_amount(3, amount);
    terms::lemma_seeds(addresses::MARKET_ADMIN_LABEL@, accounts[1].key, bump);
}

/// Before the pool is deployed, an exit pays the whole claim, as far as the vault holds it: the pool's
/// total and the position's amount shrink by what was paid, and the position has left.
#[verifier::spinoff_prover]
#[verifier::rlimit(80)]
pub proof fn what_a_refund_does(
    program_id: Pubkey,
    accounts: Seq<Account>,
    data: Seq<u8>,
    coin: CoinAddresses,
    position_address: Option<Address>,
    percolator_vault: Option<Address>,
)
    requires
        withdrawal::genesis_withdraw_outcome(
            program_id,
            accounts,
            data,
            coin,
            position_address,
            percolator_vault,
        ) is Ok,
        terms::pool_in(accounts[3]).finalized == 0 && terms::pool_in(accounts[3]).kicked == 0,
    ensures
        ({
            let plan = withdrawal::genesis_withdraw_outcome(
                program_id,
                accounts,
                data,
                coin,
                position_address,
                percolator_vault,
            )->Ok_0;
            let cfg = terms::pool_in(accounts[3]);
            let p = terms::position_in(accounts[4]);
            let paid = sums::least(terms::claim(p), terms::balance(accounts[6]));
            let from = if paid > 0 {
                1int
            } else {
                0int
            };
            let cfg_after = GenesisConfig::decoded(plan.effects[from]->Write_data)->Ok_0;
            let after = GenesisPosition::decoded(plan.effects[from + 1]->Write_data)->Ok_0;
            &&& plan.exit is None
            &&& plan.effects.len() == from + 2
            &&& paid > 0 ==> pays(
                plan.effects[0],
                accounts,
                paid,
                coin.market_admin->0.bump,
            )
            &&& records(plan.effects, from, accounts, cfg_after, after)
            &&& cfg_after.total_deposited == cfg.total_deposited - sums::least(
                paid,
                cfg.total_deposited as int,
            )
            &&& cfg_after == (GenesisConfig { total_deposited: cfg_after.total_deposited, ..cfg })
            &&& after.amount == p.amount - paid
            &&& after.withdrawn == p.withdrawn
            &&& after.owner == p.owner
            &&& sums::has_left(after)
        }),
{
    when_an_exit_is_taken(
        program_id,
        accounts,
        data,
        coin,
        position_address,
        percolator_vault,
    );
    let plan = withdrawal::genesis_withdraw_outcome(
        program_id,
        accounts,
        data,
        coin,
        position_address,
        percolator_vault,
    )->Ok_0;
    let cfg = terms::pool_in(accounts[3]);
    let p = terms::position_in(accounts[4]);
    let vault = terms::balance(accounts[6]) as u64;
    terms::lemma_word(data, 1);
    terms::lemma_word(data, 9);
    terms::lemma_pool(accounts[3], accounts[1], accounts[6], accounts[7].key, coin, program_id);
    terms::lemma_position(accounts[4], accounts[0].key, position_address, program_id);
    changes::lemma_read(accounts[3].data@);
    changes::lemma_read(accounts[4].data@);
    sums::a_refund_pays_the_claim(cfg, p, vault);
    let exit = ledger::refunded(cfg, p, vault);
    lemma_payment(accounts, exit.paid, coin.market_admin->0.bump);
    assert(plan.effects == withdrawal::payment(accounts, exit.paid, coin.market_admin->0.bump)
        + withdrawal::records(accounts, exit));
    lemma_records(
        plan.effects,
        if exit.paid > 0 {
            1
        } else {
            0
        },
        accounts,
        exit,
    );
}

/// After finalization, an exit books the whole claim as withdrawn and pays its share of the vault: the
/// claim, where the vault covers the outstanding principal, and else the greatest whole number within
/// the share. A claim of zero changes nothing.
#[verifier::spinoff_prover]
#[verifier::rlimit(80)]
pub proof fn what_a_settlement_does(
    program_id: Pubkey,
    accounts: Seq<Account>,
    data: Seq<u8>,
    coin: CoinAddresses,
    position_address: Option<Address>,
    percolator_vault: Option<Address>,
)
    requires
        withdrawal::genesis_withdraw_outcome(
            program_id,
            accounts,
            data,
            coin,
            position_address,
            percolator_vault,
        ) is Ok,
        terms::pool_in(accounts[3]).finalized == 1,
    ensures
        ({
            let plan = withdrawal::genesis_withdraw_outcome(
                program_id,
                accounts,
                data,
                coin,
                position_address,
                percolator_vault,
            )->Ok_0;
            let cfg = terms::pool_in(accounts[3]);
            let p = terms::position_in(accounts[4]);
            let (claim, vault, owed) = (
                terms::claim(p),
                terms::balance(accounts[6]),
                terms::outstanding(cfg),
            );
            let cfg_after = GenesisConfig::decoded(plan.effects[0]->Write_data)->Ok_0;
            let after = GenesisPosition::decoded(plan.effects[1]->Write_data)->Ok_0;
            &&& plan.exit is None
            &&& claim == 0 ==> plan.effects.len() == 0
            &&& claim > 0 ==> {
                &&& records(plan.effects, 0, accounts, cfg_after, after)
                &&& cfg_after.total_withdrawn == cfg.total_withdrawn + claim
                &&& cfg_after == (GenesisConfig {
                    total_withdrawn: cfg_after.total_withdrawn,
                    ..cfg
                })
                &&& after.withdrawn == p.withdrawn + claim
                &&& after.amount == p.amount
                &&& after.owner == p.owner
                &&& sums::has_left(after)
                &&& exists|paid: int|
                    {
                        &&& #[trigger] paid_out(
                            plan.effects,
                            2,
                            accounts,
                            paid,
                            coin.market_admin->0.bump,
                        )
                        &&& vault >= owed ==> paid == claim
                        &&& vault < owed ==> paid * owed <= claim * vault < (paid + 1) * owed
                    }
            }
        }),
{
    when_an_exit_is_taken(
        program_id,
        accounts,
        data,
        coin,
        position_address,
        percolator_vault,
    );
    let plan = withdrawal::genesis_withdraw_outcome(
        program_id,
        accounts,
        data,
        coin,
        position_address,
        percolator_vault,
    )->Ok_0;
    let cfg = terms::pool_in(accounts[3]);
    let p = terms::position_in(accounts[4]);
    let vault = terms::balance(accounts[6]) as u64;
    terms::lemma_word(data, 1);
    terms::lemma_word(data, 9);
    terms::lemma_pool(accounts[3], accounts[1], accounts[6], accounts[7].key, coin, program_id);
    terms::lemma_position(accounts[4], accounts[0].key, position_address, program_id);
    changes::lemma_read(accounts[3].data@);
    changes::lemma_read(accounts[4].data@);
    sums::a_settlement_books_the_whole_claim(cfg, p, vault);
    if terms::claim(p) > 0 {
        let exit = ledger::settled(cfg, p, vault)->Ok_0;
        let bump = coin.market_admin->0.bump;
        lemma_payment(accounts, exit.paid, bump);
        assert(plan.effects == withdrawal::records(accounts, exit) + withdrawal::payment(
            accounts,
            exit.paid,
            bump,
        ));
        lemma_records(plan.effects, 0, accounts, exit);
        assert(paid_out(plan.effects, 2, accounts, exit.paid as int, bump));
    }
}

/// The effects from index `from` on pay `paid`: one transfer, or none where nothing is paid.
pub open spec fn paid_out(
    effects: Seq<EffectView>,
    from: int,
    accounts: Seq<Account>,
    paid: int,
    bump: u8,
) -> bool {
    &&& paid > 0 ==> effects.len() == from + 1 && pays(effects[from], accounts, paid, bump)
    &&& paid <= 0 ==> paid == 0 && effects.len() == from
}

/// The market is asked for funds: the market admin signs, and the funds go to the vault.
pub open spec fn asks_market(
    effect: EffectView,
    accounts: Seq<Account>,
    coin: CoinAddresses,
) -> bool {
    terms::calls(
        effect,
        accounts[12].key,
        seq![
            terms::signing(accounts[7].key),
            terms::changed(accounts[9].key),
            terms::changed(accounts[6].key),
            terms::changed(accounts[10].key),
            terms::read(accounts[11].key),
            terms::read(accounts[8].key),
        ],
        seq![7usize, 9usize, 6usize, 10usize, 11usize, 8usize, 12usize],
        terms::admin_seeds(accounts[1].key, coin),
    )
}

/// While the pool is deployed, an exit asks the market for exactly the two amounts that it was given, each
/// unless it is zero: out of the insurance (tag 23), and then out of the backing of the domain (tag 50).
/// It leaves the records and the vault's balance as they are for the second step, and writes nothing.
#[verifier::spinoff_prover]
#[verifier::rlimit(80)]
pub proof fn what_a_pull_does(
    program_id: Pubkey,
    accounts: Seq<Account>,
    data: Seq<u8>,
    coin: CoinAddresses,
    position_address: Option<Address>,
    percolator_vault: Option<Address>,
)
    requires
        withdrawal::genesis_withdraw_outcome(
            program_id,
            accounts,
            data,
            coin,
            position_address,
            percolator_vault,
        ) is Ok,
        terms::pool_in(accounts[3]).finalized == 0 && terms::pool_in(accounts[3]).kicked == 1,
    ensures
        ({
            let plan = withdrawal::genesis_withdraw_outcome(
                program_id,
                accounts,
                data,
                coin,
                position_address,
                percolator_vault,
            )->Ok_0;
            let (insurance, backing) = (terms::word(data, 1), terms::word(data, 9));
            let first = if insurance > 0 {
                1int
            } else {
                0int
            };
            &&& plan.effects.len() == first + (if backing > 0 {
                1int
            } else {
                0int
            })
            &&& insurance > 0 ==> asks_market(plan.effects[0], accounts, coin)
                && terms::tag_and_wide_amount(plan.effects[0]->instruction.data, 23, insurance)
            &&& backing > 0 ==> asks_market(plan.effects[first], accounts, coin)
                && terms::tag_domain_and_amount(
                plan.effects[first]->instruction.data,
                50,
                data[0],
                backing,
            )
            &&& plan.exit is Some
            &&& plan.exit->0.cfg == terms::pool_in(accounts[3])
            &&& plan.exit->0.position == terms::position_in(accounts[4])
            &&& plan.exit->0.vault_before == terms::balance(accounts[6])
            &&& plan.exit->0.admin_bump == coin.market_admin->0.bump
        }),
{
    when_an_exit_is_taken(
        program_id,
        accounts,
        data,
        coin,
        position_address,
        percolator_vault,
    );
    let plan = withdrawal::genesis_withdraw_outcome(
        program_id,
        accounts,
        data,
        coin,
        position_address,
        percolator_vault,
    )->Ok_0;
    terms::lemma_word(data, 1);
    terms::lemma_word(data, 9);
    terms::lemma_pool(accounts[3], accounts[1], accounts[6], accounts[7].key, coin, program_id);
    terms::lemma_position(accounts[4], accounts[0].key, position_address, program_id);
    changes::lemma_read(accounts[3].data@);
    let (insurance, backing) = (terms::word(data, 1) as u64, terms::word(data, 9) as u64);
    let bump = coin.market_admin->0.bump;
    terms::lemma_wide_amounts(23, 0, insurance);
    terms::lemma_wide_amounts(50, data[0], backing);
    terms::lemma_seeds(addresses::MARKET_ADMIN_LABEL@, accounts[1].key, bump);
    assert(plan.effects == withdrawal::pulls(accounts, data[0], insurance, backing, bump));
}

/// The second step of an exit out of the market pays exactly the smaller of what the vault gained and the
/// claim, and books as much as withdrawn; the rest of the claim stands.
#[verifier::spinoff_prover]
#[verifier::rlimit(80)]
pub proof fn what_the_second_step_pays(accounts: Seq<Account>, exit: MarketExit)
    requires
        exit.cfg.finalized <= 1 && exit.cfg.kicked <= 1,
    ensures
        ({
            let r = withdrawal::market_exit_outcome(accounts, exit);
            let gain = if terms::balance(accounts[6]) >= exit.vault_before {
                terms::balance(accounts[6]) - exit.vault_before
            } else {
                0
            };
            let paid = sums::least(gain, terms::claim(exit.position));
            &&& r is Ok <==> {
                &&& accounts.len() >= 9
                &&& accounts[8].key.bytes == TOKEN_PROGRAM
                &&& terms::token_account(accounts[6])
                &&& accounts[3].data@.len() >= 192
                &&& accounts[4].data@.len() >= 112
                &&& exit.cfg.total_withdrawn + paid <= u64::MAX
            }
            &&& r matches Ok(effects) ==> {
                let from = if paid > 0 {
                    1int
                } else {
                    0int
                };
                let cfg = GenesisConfig::decoded(effects[from]->Write_data)->Ok_0;
                let position = GenesisPosition::decoded(effects[from + 1]->Write_data)->Ok_0;
                &&& effects.len() == from + 2
                &&& paid > 0 ==> pays(effects[0], accounts, paid, exit.admin_bump)
                &&& records(effects, from, accounts, cfg, position)
                &&& cfg.total_withdrawn == exit.cfg.total_withdrawn + paid
                &&& cfg == (GenesisConfig { total_withdrawn: cfg.total_withdrawn, ..exit.cfg })
                &&& position.withdrawn == exit.position.withdrawn + paid
                &&& position.amount == exit.position.amount
                &&& position.owner == exit.position.owner
                &&& terms::claim(position) == terms::claim(exit.position) - paid
                &&& sums::has_left(position)
            }
        }),
{
    let r = withdrawal::market_exit_outcome(accounts, exit);
    terms::lemma_tokens(accounts[6], accounts[0].key, accounts[0].key);
    let vault = terms::balance(accounts[6]) as u64;
    let recovered = if vault >= exit.vault_before {
        (vault - exit.vault_before) as u64
    } else {
        0
    };
    sums::a_market_exit_pays_all_that_came_back(exit.cfg, exit.position, recovered);
    if r is Ok {
        let effects = r->Ok_0;
        let after = ledger::exited(exit.cfg, exit.position, recovered)->Ok_0;
        lemma_payment(accounts, after.paid, exit.admin_bump);
        assert(effects == withdrawal::payment(accounts, after.paid, exit.admin_bump)
            + withdrawal::records(accounts, after));
        lemma_records(
            effects,
            if after.paid > 0 {
                1
            } else {
                0
            },
            accounts,
            after,
        );
    }
}

} // verus!
