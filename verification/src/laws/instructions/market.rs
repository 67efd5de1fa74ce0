//! A COIN's markets: their creation, what governance may ask of them, the deployment of the pool into one
//! and the recovery of its funds.
use crate::account;
use crate::account::{Account, AccountMeta, EffectView};
use crate::addresses;
use crate::addresses::{Address, CoinAddresses};
use crate::bytes;
use crate::genesis::GenesisConfig;
use crate::laws::changes;
use crate::laws::terms;
use crate::percolator_abi;
use crate::pubkey::{Pubkey, PERCOLATOR_PROGRAM, SYSTEM_PROGRAM, TOKEN_PROGRAM};
use crate::rewards::market;
use vstd::prelude::*;

verus! {

/// What the deployment of the pool asks for: the COIN's authority, a pool with deposits that is neither
/// deployed nor finalized, a vault that holds what was deposited, and a market of the COIN's own.
pub open spec fn may_deploy(
    program_id: Pubkey,
    accounts: Seq<Account>,
    data: Seq<u8>,
    coin: CoinAddresses,
    percolator_vault: Option<Address>,
) -> bool {
    let cfg = terms::pool_in(accounts[4]);
    &&& accounts.len() >= 12
    &&& data.len() == 9
    &&& accounts[0].is_signer
    &&& accounts[11].key.bytes == TOKEN_PROGRAM
    &&& accounts[10].key.bytes == PERCOLATOR_PROGRAM
    &&& terms::governed(accounts[1], accounts[3], coin, program_id)
    &&& terms::stands(accounts[5], coin.market_admin)
    &&& terms::pool_record(accounts[4], accounts[2], coin, program_id)
    &&& cfg.finalized == 0
    &&& cfg.kicked == 0
    &&& cfg.total_deposited > 0
    &&& terms::vault(accounts[7], cfg, accounts[5].key, coin)
    &&& terms::balance(accounts[7]) >= cfg.total_deposited
    &&& terms::controlled(accounts[6], cfg.base_mint, accounts[5].key)
    &&& terms::market_vault(accounts[8], accounts[9], cfg.base_mint, percolator_vault)
}

/// The pool is deployed exactly where the conditions hold.
#[verifier::spinoff_prover]
#[verifier::rlimit(80)]
pub proof fn when_the_pool_is_deployed(
    program_id: Pubkey,
    accounts: Seq<Account>,
    data: Seq<u8>,
    coin: CoinAddresses,
    percolator_vault: Option<Address>,
)
    ensures
        market::kickstart_genesis_market_outcome(
            program_id,
            accounts,
            data,
            coin,
            percolator_vault,
        ) is Ok <==> may_deploy(program_id, accounts, data, coin, percolator_vault),
{
    let cfg = terms::pool_in(accounts[4]);
    terms::lemma_governed(accounts[1], accounts[3], coin, program_id);
    terms::lemma_pool(accounts[4], accounts[2], accounts[7], accounts[5].key, coin, program_id);
    terms::lemma_market(
        accounts[6],
        accounts[8],
        accounts[9],
        cfg.base_mint,
        accounts[5].key,
        percolator_vault,
    );
    changes::lemma_read(accounts[4].data@);
}

/// The market is topped up out of the vault: the market admin signs.
pub open spec fn tops_up(effect: EffectView, accounts: Seq<Account>, coin: CoinAddresses) -> bool {
    terms::calls(
        effect,
        accounts[10].key,
        seq![
            terms::signing(accounts[5].key),
            terms::changed(accounts[6].key),
            terms::changed(accounts[7].key),
            terms::changed(accounts[8].key),
            terms::read(accounts[11].key),
        ],
        seq![5usize, 6usize, 7usize, 8usize, 11usize, 10usize],
        terms::admin_seeds(accounts[2].key, coin),
    )
}

/// A policy under which all of the deposited insurance, 10,000 basis points of it, and nothing beyond
/// the deposits, may be withdrawn, without a cooldown.
pub open spec fn open_policy(data: Seq<u8>) -> bool {
    &&& data.len() == 12
    &&& data[0] == 33
    &&& data[1] + 256 * data[2] == 10_000
    &&& data[3] == 1
    &&& terms::blank(data, 4)
}

/// Backing for a domain: tag 24, the domain, the amount in sixteen bytes, and the slot of its expiry.
pub open spec fn backing_until(data: Seq<u8>, domain: u8, amount: int, expiry: int) -> bool {
    &&& data.len() == 26
    &&& data[0] == 24
    &&& data[1] == domain
    &&& terms::word(data, 2) == amount
    &&& terms::blank(data, 10)
    &&& terms::word(data, 18) == expiry
}

proof fn lemma_policy()
    ensures
        open_policy(percolator_abi::policy_data()),
{
    let data = percolator_abi::policy_data();
    let bps = bytes::le_bytes(10_000, 2);
    let none = bytes::u64_bytes(0);
    bytes::lemma_le_bytes_len(10_000, 2);
    bytes::lemma_u64_round_trip(0);
    assert(bps =~= seq![0x10u8, 0x27u8]) by {
        reveal_with_fuel(bytes::le_bytes, 3);
    }
    assert(data == seq![33u8] + bps + seq![1u8] + none);
    assert(none =~= Seq::new(8, |i: int| 0u8)) by {
        reveal_with_fuel(bytes::le_bytes, 9);
    }
}

proof fn lemma_backing(domain: u8, amount: u64, expiry: u64)
    ensures
        backing_until(
            percolator_abi::backing_top_up_data(domain, amount, expiry),
            domain,
            amount as int,
            expiry as int,
        ),
{
    let data = percolator_abi::backing_top_up_data(domain, amount, expiry);
    let wide = percolator_abi::amount_bytes(amount);
    bytes::lemma_le_bytes_len(amount as nat, 16);
    bytes::lemma_u64_round_trip(expiry);
    assert(data.subrange(2, 18) =~= wide);
    assert(data.subrange(18, 26) =~= bytes::u64_bytes(expiry));
    terms::lemma_amount_of(amount, data, 2);
    terms::lemma_word_of(expiry, data, 18);
}

/// The deployment sets the market's withdrawal policy, tops its insurance up with the half of what was
/// deposited, rounded down, and its backing with the rest, for the domain and until the slot that the
/// data names; and it marks the pool as deployed into this market. In this order, and nothing else.
#[verifier::spinoff_prover]
#[verifier::rlimit(80)]
pub proof fn what_the_deployment_does(
    program_id: Pubkey,
    accounts: Seq<Account>,
    data: Seq<u8>,
    coin: CoinAddresses,
    percolator_vault: Option<Address>,
)
    requires
        may_deploy(program_id, accounts, data, coin, percolator_vault),
    ensures
        ({
            let effects = market::kickstart_genesis_market_outcome(
                program_id,
                accounts,
                data,
                coin,
                percolator_vault,
            )->Ok_0;
            let cfg = terms::pool_in(accounts[4]);
            let insurance = cfg.total_deposited as int / 2;
            let rest = cfg.total_deposited - insurance;
            let n = if insurance > 0 {
                2int
            } else {
                1int
            };
            &&& effects.len() == n + 2
            &&& terms::calls(
                effects[0],
                accounts[10].key,
                seq![terms::signing(accounts[5].key), terms::changed(accounts[6].key)],
                seq![5usize, 6usize, 10usize],
                terms::admin_seeds(accounts[2].key, coin),
            )
            &&& open_policy(effects[0]->instruction.data)
            &&& insurance > 0 ==> tops_up(effects[1], accounts, coin)
                && terms::tag_and_wide_amount(effects[1]->instruction.data, 9, insurance)
            &&& tops_up(effects[n], accounts, coin)
            &&& backing_until(
                effects[n]->instruction.data,
                data[0],
                rest,
                terms::word(data, 1),
            )
            &&& changes::replaces(effects[n + 1], 4, accounts[4].data@, 192)
            &&& changes::holds_pool(
                effects[n + 1],
                GenesisConfig { kicked: 1, genesis_market_slab: accounts[6].key, ..cfg },
            )
        }),
{
    when_the_pool_is_deployed(program_id, accounts, data, coin, percolator_vault);
    let effects = market::kickstart_genesis_market_outcome(
        program_id,
        accounts,
        data,
        coin,
        percolator_vault,
    )->Ok_0;
    let cfg = terms::pool_in(accounts[4]);
    let insurance = (cfg.total_deposited / 2) as u64;
    let rest = (cfg.total_deposited - cfg.total_deposited / 2) as u64;
    terms::lemma_word(data, 1);
    terms::lemma_pool(accounts[4], accounts[2], accounts[7], accounts[5].key, coin, program_id);
    changes::lemma_read(accounts[4].data@);
    terms::lemma_seeds(
        addresses::MARKET_ADMIN_LABEL@,
        accounts[2].key,
        coin.market_admin->0.bump,
    );
    lemma_policy();
    terms::lemma_wide_amounts(9, 0, insurance);
    lemma_backing(data[0], rest, terms::word(data, 1) as u64);
    let n = if insurance > 0 {
        2int
    } else {
        1int
    };
    assert(effects.len() == n + 2);
    changes::lemma_pool_written(
        effects[n + 1],
        4,
        accounts[4].data@,
        GenesisConfig { kicked: 1, genesis_market_slab: accounts[6].key, ..cfg },
    );
}

/// What a recovery asks for: the COIN's authority over a live COIN, a pool that is deployed and not
/// finalized, a market of the COIN's own, an amount, and one of five kinds. Earnings (kind 2) name a
/// Percolator ledger; the others name no account more.
pub open spec fn may_recover(
    program_id: Pubkey,
    accounts: Seq<Account>,
    data: Seq<u8>,
    coin: CoinAddresses,
    percolator_vault: Option<Address>,
) -> bool {
    let cfg = terms::pool_in(accounts[4]);
    &&& accounts.len() >= 12
    &&& data.len() == 10
    &&& accounts[0].is_signer
    &&& accounts[11].key.bytes == TOKEN_PROGRAM
    &&& accounts[10].key.bytes == PERCOLATOR_PROGRAM
    &&& terms::governed(accounts[1], accounts[3], coin, program_id)
    &&& terms::live(accounts[3])
    &&& terms::stands(accounts[5], coin.market_admin)
    &&& terms::pool_record(accounts[4], accounts[2], coin, program_id)
    &&& cfg.kicked == 1
    &&& cfg.finalized == 0
    &&& terms::vault(accounts[7], cfg, accounts[5].key, coin)
    &&& terms::controlled(accounts[6], cfg.base_mint, accounts[5].key)
    &&& terms::market_vault(accounts[8], accounts[9], cfg.base_mint, percolator_vault)
    &&& terms::word(data, 2) > 0
    &&& data[0] <= 4
    &&& data[0] != 2 ==> accounts.len() == 12
    &&& data[0] == 2 ==> accounts.len() == 13 && accounts[12].owner.bytes == PERCOLATOR_PROGRAM
}

/// The accounts of a recovery, with or without a ledger behind the market.
pub open spec fn recovery_metas(accounts: Seq<Account>, with_ledger: bool) -> Seq<AccountMeta> {
    let admin = terms::signing(accounts[5].key);
    let slab = terms::changed(accounts[6].key);
    let vault = terms::changed(accounts[7].key);
    let market_vault = terms::changed(accounts[8].key);
    let (vault_authority, token_program) = (
        terms::read(accounts[9].key),
        terms::read(accounts[11].key),
    );
    if with_ledger {
        seq![
            admin,
            slab,
            terms::changed(accounts[12].key),
            vault,
            market_vault,
            vault_authority,
            token_program,
        ]
    } else {
        seq![admin, slab, vault, market_vault, vault_authority, token_program]
    }
}

pub open spec fn recovery_infos(with_ledger: bool) -> Seq<usize> {
    if with_ledger {
        seq![5usize, 6usize, 12usize, 7usize, 8usize, 9usize, 11usize, 10usize]
    } else {
        seq![5usize, 6usize, 7usize, 8usize, 9usize, 11usize, 10usize]
    }
}

/// A recovery is taken exactly where its conditions hold; it asks the market for the amount, by the
/// instruction of its kind: limited insurance (0) by tag 23, backing (1) by tag 50, backing earnings (2)
/// by tag 52, all insurance (3) by tag 41, insurance of a domain (4) by tag 57. It writes nothing.
#[verifier::spinoff_prover]
#[verifier::rlimit(80)]
pub proof fn what_a_recovery_does(
    program_id: Pubkey,
    accounts: Seq<Account>,
    data: Seq<u8>,
    coin: CoinAddresses,
    percolator_vault: Option<Address>,
)
    ensures
        ({
            let r = market::recover_genesis_market_outcome(
                program_id,
                accounts,
                data,
                coin,
                percolator_vault,
            );
            let amount = terms::word(data, 2);
            &&& r is Ok <==> may_recover(program_id, accounts, data, coin, percolator_vault)
            &&& r matches Ok(effects) ==> {
                let asked = effects[0]->instruction.data;
                &&& effects.len() == 1
                &&& terms::calls(
                    effects[0],
                    accounts[10].key,
                    recovery_metas(accounts, data[0] == 2),
                    recovery_infos(data[0] == 2),
                    terms::admin_seeds(accounts[2].key, coin),
                )
                &&& data[0] == 0 ==> terms::tag_and_wide_amount(asked, 23, amount)
                &&& data[0] == 1 ==> terms::tag_domain_and_amount(asked, 50, data[1], amount)
                &&& data[0] == 2 ==> terms::tag_domain_and_amount(asked, 52, data[1], amount)
                &&& data[0] == 3 ==> terms::tag_and_wide_amount(asked, 41, amount)
                &&& data[0] == 4 ==> terms::tag_domain_and_amount(asked, 57, data[1], amount)
            }
        }),
{
    let r = market::recover_genesis_market_outcome(
        program_id,
        accounts,
        data,
        coin,
        percolator_vault,
    );
    let cfg = terms::pool_in(accounts[4]);
    terms::lemma_governed(accounts[1], accounts[3], coin, program_id);
    terms::lemma_pool(accounts[4], accounts[2], accounts[7], accounts[5].key, coin, program_id);
    terms::lemma_market(
        accounts[6],
        accounts[8],
        accounts[9],
        cfg.base_mint,
        accounts[5].key,
        percolator_vault,
    );
    changes::lemma_read(accounts[3].data@);
    changes::lemma_read(accounts[4].data@);
    if data.len() == 10 {
        terms::lemma_word(data, 2);
    }
    assert(r is Ok <==> may_recover(program_id, accounts, data, coin, percolator_vault));
    if r is Ok {
        let amount = terms::word(data, 2) as u64;
        let effect = r->Ok_0[0];
        terms::lemma_seeds(
            addresses::MARKET_ADMIN_LABEL@,
            accounts[2].key,
            coin.market_admin->0.bump,
        );
        terms::lemma_wide_amounts(23, data[1], amount);
        terms::lemma_wide_amounts(50, data[1], amount);
        terms::lemma_wide_amounts(52, data[1], amount);
        terms::lemma_wide_amounts(41, data[1], amount);
        terms::lemma_wide_amounts(57, data[1], amount);
        assert(effect->instruction.accounts =~= recovery_metas(accounts, data[0] == 2));
        assert(effect->accounts =~= recovery_infos(data[0] == 2));
    }
}

/// The Percolator instructions that governance may hand on.
pub open spec fn may_be_handed_on(tag: u8) -> bool {
    tag == 13 || tag == 19 || 33 <= tag <= 35 || tag == 37 || tag == 38 || tag == 40 || tag == 49
        || tag == 51 || tag == 55 || 58 <= tag <= 60 || tag == 62
}

/// The market of the genesis is among the accounts that are handed on, and the pool is deployed into it
/// and not finalized.
pub open spec fn touches_genesis(accounts: Seq<Account>) -> bool {
    let cfg = terms::pool_in(accounts[6]);
    &&& cfg.kicked == 1
    &&& cfg.finalized == 0
    &&& exists|i: int|
        7 <= i < accounts.len() && (#[trigger] accounts[i]).key == cfg.genesis_market_slab
}

/// What governance of a market asks for: the COIN's authority over a live COIN, an instruction that may
/// be handed on, the place of the COIN's pool and, where there is a pool, that closing (13), resolving
/// (19) and the insurance policy (33) leave the market of a running genesis alone.
pub open spec fn may_administer(
    program_id: Pubkey,
    accounts: Seq<Account>,
    data: Seq<u8>,
    coin: CoinAddresses,
) -> bool {
    &&& data.len() > 0
    &&& may_be_handed_on(data[0])
    &&& accounts.len() >= 7
    &&& accounts[0].is_signer
    &&& accounts[5].key.bytes == PERCOLATOR_PROGRAM
    &&& terms::governed(accounts[1], accounts[3], coin, program_id)
    &&& terms::live(accounts[3])
    &&& terms::stands(accounts[4], coin.market_admin)
    &&& terms::stands(accounts[6], coin.genesis_cfg)
    &&& accounts[6].owner == program_id ==> {
        &&& terms::pool_record(accounts[6], accounts[2], coin, program_id)
        &&& data[0] == 13 || data[0] == 19 || data[0] == 33 ==> !touches_genesis(accounts)
    }
}

/// Governance is handed on exactly where its conditions hold: to Percolator, with the data as it is, the
/// market admin in front and signing, and then the other accounts as they were handed over.
#[verifier::spinoff_prover]
#[verifier::rlimit(80)]
pub proof fn what_governance_of_a_market_does(
    program_id: Pubkey,
    accounts: Seq<Account>,
    data: Seq<u8>,
    coin: CoinAddresses,
)
    ensures
        ({
            let r = market::percolator_admin_outcome(program_id, accounts, data, coin);
            &&& r is Ok <==> may_administer(program_id, accounts, data, coin)
            &&& r matches Ok(effects) ==> {
                let metas = effects[0]->instruction.accounts;
                let infos = effects[0]->accounts;
                &&& effects.len() == 1
                &&& effects[0] is Invoke
                &&& effects[0]->instruction.program_id == accounts[5].key
                &&& effects[0]->instruction.data == data
                &&& effects[0]->Invoke_signer == terms::admin_seeds(accounts[2].key, coin)
                &&& metas.len() == accounts.len() - 6
                &&& metas[0].pubkey == accounts[4].key
                &&& metas[0].is_signer
                &&& metas[0].is_writable == accounts[4].is_writable
                &&& forall|i: int|
                    7 <= i < accounts.len() ==> {
                        &&& metas[i - 6].pubkey == (#[trigger] accounts[i]).key
                        &&& metas[i - 6].is_signer == accounts[i].is_signer
                        &&& metas[i - 6].is_writable == accounts[i].is_writable
                    }
                &&& infos.len() == accounts.len() - 5
                &&& infos[0] == 4
                &&& infos[accounts.len() - 6] == 5
                &&& accounts.len() <= usize::MAX ==> forall|i: int|
                    7 <= i < accounts.len() ==> #[trigger] infos[i - 6] == i
            }
        }),
{
    let r = market::percolator_admin_outcome(program_id, accounts, data, coin);
    terms::lemma_governed(accounts[1], accounts[3], coin, program_id);
    terms::lemma_pool(accounts[6], accounts[2], accounts[4], accounts[0].key, coin, program_id);
    changes::lemma_read(accounts[3].data@);
    changes::lemma_read(accounts[6].data@);
    assert(percolator_abi::admin_tag(data[0]) <==> may_be_handed_on(data[0]));
    assert(market::mentions(accounts, 7, terms::pool_in(accounts[6]).genesis_market_slab) <==> exists|
        i: int,
    |
        7 <= i < accounts.len() && (#[trigger] accounts[i]).key == terms::pool_in(
            accounts[6],
        ).genesis_market_slab);
    assert(r is Ok <==> may_administer(program_id, accounts, data, coin));
    if r is Ok {
        terms::lemma_seeds(
            addresses::MARKET_ADMIN_LABEL@,
            accounts[2].key,
            coin.market_admin->0.bump,
        );
        let effects = r->Ok_0;
        let metas = effects[0]->instruction.accounts;
        let infos = effects[0]->accounts;
        assert(metas == market::admin_metas(accounts));
        assert(infos == market::admin_indices(accounts.len()));
        assert forall|i: int| 7 <= i < accounts.len() implies {
            &&& metas[i - 6].pubkey == (#[trigger] accounts[i]).key
            &&& metas[i - 6].is_signer == accounts[i].is_signer
            &&& metas[i - 6].is_writable == accounts[i].is_writable
        } by {
            assert(metas[i - 6] == account::meta_of(
                accounts[7 + (i - 7)],
                accounts[7 + (i - 7)].is_signer,
            ));
        }
        if accounts.len() <= usize::MAX {
            assert forall|i: int| 7 <= i < accounts.len() implies #[trigger] infos[i - 6] == i by {
                assert(infos[i - 6] == (7 + (i - 7)) as usize);
            }
        }
    }
}

/// What a new market asks for: anyone's signature, Percolator's own `InitMarket` (tag 0), the COIN's
/// configuration and market admin, an account that Percolator owns, and a mint as collateral.
pub open spec fn may_open_a_market(
    program_id: Pubkey,
    accounts: Seq<Account>,
    data: Seq<u8>,
    coin: CoinAddresses,
) -> bool {
    &&& data.len() > 0
    &&& data[0] == 0
    &&& accounts.len() >= 8
    &&& accounts[0].is_signer
    &&& accounts[7].key.bytes == SYSTEM_PROGRAM
    &&& accounts[6].key.bytes == PERCOLATOR_PROGRAM
    &&& terms::coin_record(accounts[2], coin, program_id)
    &&& admin_account(accounts[3], coin)
    &&& accounts[4].owner.bytes == PERCOLATOR_PROGRAM
    &&& terms::a_mint(accounts[5])
}

/// The market admin's account: yet to be created, or a system account without data.
pub open spec fn admin_account(account: Account, coin: CoinAddresses) -> bool {
    &&& terms::stands(account, coin.market_admin)
    &&& account.lamports == 0 || (account.owner.bytes == SYSTEM_PROGRAM && account.data@.len() == 0)
}

/// A market is opened exactly where the conditions hold. The market admin's account is created first,
/// where it is missing, and Percolator is handed the data as it is.
#[verifier::spinoff_prover]
#[verifier::rlimit(80)]
pub proof fn what_a_new_market_does(
    program_id: Pubkey,
    accounts: Seq<Account>,
    data: Seq<u8>,
    coin: CoinAddresses,
)
    ensures
        ({
            let r = market::init_percolator_market_outcome(program_id, accounts, data, coin);
            &&& r is Ok <==> may_open_a_market(program_id, accounts, data, coin)
            &&& r matches Ok(effects) ==> {
                let n = if accounts[3].lamports == 0 {
                    1int
                } else {
                    0int
                };
                &&& effects.len() == n + 1
                &&& accounts[3].lamports == 0 ==> terms::makes(
                    effects[0],
                    0,
                    3,
                    7,
                    0,
                    Pubkey { bytes: SYSTEM_PROGRAM },
                    terms::admin_seeds(accounts[1].key, coin),
                )
                &&& terms::calls(
                    effects[n],
                    accounts[6].key,
                    seq![
                        AccountMeta {
                            pubkey: accounts[3].key,
                            is_signer: true,
                            is_writable: accounts[3].is_writable,
                        },
                        terms::changed(accounts[4].key),
                        terms::read(accounts[5].key),
                    ],
                    seq![3usize, 4usize, 5usize, 6usize],
                    terms::admin_seeds(accounts[1].key, coin),
                )
                &&& effects[n]->instruction.data == data
            }
        }),
{
    terms::lemma_governed(accounts[0], accounts[2], coin, program_id);
    terms::lemma_tokens(accounts[5], accounts[1].key, accounts[0].key);
    terms::lemma_seeds(
        addresses::MARKET_ADMIN_LABEL@,
        accounts[1].key,
        coin.market_admin->0.bump,
    );
}

} // verus!
