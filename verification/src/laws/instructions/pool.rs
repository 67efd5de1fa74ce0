//! The opening of a pool and the deposits into it: when each is taken, and what it does.
use crate::account::Account;
use crate::addresses;
use crate::addresses::{Address, CoinAddresses};
use crate::genesis::{GenesisConfig, GenesisPosition};
use crate::laws::changes;
use crate::laws::instructions::market::admin_account;
use crate::laws::terms;
use crate::pubkey::{Pubkey, RENT_SYSVAR, SYSTEM_PROGRAM, TOKEN_PROGRAM};
use crate::rewards::deposits;
use vstd::prelude::*;

verus! {

/// An account that is yet to be created.
pub open spec fn missing(account: Account) -> bool {
    account.lamports == 0 || account.data@.len() == 0
}

/// What a deposit asks for: a signature and an amount, a COIN that is not live and a pool that is
/// neither deployed nor finalized, the pool's vault and a token account of the depositor's own, and room
/// in the books.
pub open spec fn may_deposit(
    program_id: Pubkey,
    accounts: Seq<Account>,
    data: Seq<u8>,
    coin: CoinAddresses,
    position_address: Option<Address>,
) -> bool {
    let cfg = terms::pool_in(accounts[3]);
    let amount = terms::word(data, 0);
    &&& accounts.len() >= 9
    &&& data.len() == 8
    &&& amount > 0
    &&& accounts[0].is_signer
    &&& accounts[7].key.bytes == TOKEN_PROGRAM
    &&& terms::coin_record(accounts[2], coin, program_id)
    &&& !terms::live(accounts[2])
    &&& GenesisConfig::decoded(accounts[3].data@) is Ok
    &&& terms::stands(accounts[3], coin.genesis_cfg)
    &&& cfg.coin_mint == accounts[1].key
    &&& cfg.finalized == 0
    &&& cfg.kicked == 0
    &&& coin.market_admin is Some
    &&& terms::vault(accounts[6], cfg, coin.market_admin->0.key, coin)
    &&& terms::token_by(accounts[5], cfg.base_mint, accounts[0].key)
    &&& terms::stands(accounts[4], position_address)
    &&& missing(accounts[4]) || terms::position_record(
        accounts[4],
        accounts[0].key,
        position_address,
        program_id,
    )
    &&& cfg.total_deposited + amount <= u64::MAX
    &&& missing(accounts[4]) || terms::position_in(accounts[4]).amount + amount <= u64::MAX
}

/// A deposit is taken exactly where its conditions hold.
#[verifier::spinoff_prover]
#[verifier::rlimit(60)]
pub proof fn when_a_deposit_is_taken(
    program_id: Pubkey,
    accounts: Seq<Account>,
    data: Seq<u8>,
    slot: u64,
    coin: CoinAddresses,
    position_address: Option<Address>,
)
    ensures
        deposits::genesis_deposit_outcome(
            program_id,
            accounts,
            data,
            slot,
            coin,
            position_address,
        ) is Ok <==> may_deposit(program_id, accounts, data, coin, position_address),
{
    let cfg = terms::pool_in(accounts[3]);
    if data.len() == 8 {
        terms::lemma_word(data, 0);
    }
    terms::lemma_governed(accounts[0], accounts[2], coin, program_id);
    if coin.market_admin is Some {
        terms::lemma_pool(
            accounts[3],
            accounts[1],
            accounts[6],
            coin.market_admin->0.key,
            coin,
            program_id,
        );
    }
    terms::lemma_tokens(accounts[5], cfg.base_mint, accounts[0].key);
    terms::lemma_position(accounts[4], accounts[0].key, position_address, program_id);
    changes::lemma_read(accounts[2].data@);
    changes::lemma_read(accounts[3].data@);
}

/// A deposit moves the amount from the depositor into the vault; the pool's total, the position's amount
/// and with it the depositor's claim grow by as much; the position's clock starts at the slot of the
/// deposit. A missing position is created first. Nothing else changes.
#[verifier::spinoff_prover]
#[verifier::rlimit(60)]
pub proof fn what_a_deposit_does(
    program_id: Pubkey,
    accounts: Seq<Account>,
    data: Seq<u8>,
    slot: u64,
    coin: CoinAddresses,
    position_address: Option<Address>,
)
    requires
        may_deposit(program_id, accounts, data, coin, position_address),
    ensures
        ({
            let effects = deposits::genesis_deposit_outcome(
                program_id,
                accounts,
                data,
                slot,
                coin,
                position_address,
            )->Ok_0;
            let amount = terms::word(data, 0);
            let new = missing(accounts[4]);
            let first = if new {
                1int
            } else {
                0int
            };
            let cfg = terms::pool_in(accounts[3]);
            let cfg_after = GenesisConfig::decoded(effects[first + 1]->Write_data)->Ok_0;
            let old_position = terms::position_in(accounts[4]);
            let position = GenesisPosition::decoded(effects[first + 2]->Write_data)->Ok_0;
            &&& effects.len() == first + 3
            &&& new ==> terms::makes(
                effects[0],
                0,
                4,
                8,
                112,
                program_id,
                seq![
                    addresses::GENESIS_POSITION_LABEL@,
                    accounts[3].key.bytes@,
                    accounts[0].key.bytes@,
                    seq![position_address->0.bump],
                ],
            )
            &&& terms::moves(effects[first], accounts, 5, 6, 0, 7, amount, Seq::empty())
            &&& changes::replaces(effects[first + 1], 3, accounts[3].data@, 192)
            &&& changes::holds_pool(effects[first + 1], cfg_after)
            &&& cfg_after.total_deposited == cfg.total_deposited + amount
            &&& cfg_after == (GenesisConfig { total_deposited: cfg_after.total_deposited, ..cfg })
            &&& changes::holds_position(effects[first + 2], position)
            &&& position.start_slot == slot
            &&& new ==> {
                &&& changes::fills(effects[first + 2], 4, 112)
                &&& position.owner == accounts[0].key
                &&& position.amount == amount
                &&& position.withdrawn == 0
                &&& position.voted_weight == 0
                &&& position.voted_principal == 0
                &&& position.voted_proposal.bytes == SYSTEM_PROGRAM
                &&& terms::claim(position) == amount
            }
            &&& !new ==> {
                &&& changes::replaces(effects[first + 2], 4, accounts[4].data@, 112)
                &&& position.amount == old_position.amount + amount
                &&& position == (GenesisPosition {
                    amount: position.amount,
                    start_slot: slot,
                    ..old_position
                })
                &&& old_position.withdrawn <= old_position.amount ==> terms::claim(position)
                    == terms::claim(old_position) + amount
            }
        }),
{
    when_a_deposit_is_taken(program_id, accounts, data, slot, coin, position_address);
    let effects = deposits::genesis_deposit_outcome(
        program_id,
        accounts,
        data,
        slot,
        coin,
        position_address,
    )->Ok_0;
    terms::lemma_word(data, 0);
    let amount = terms::word(data, 0) as u64;
    terms::lemma_tag_and_amount(3, amount);
    changes::lemma_read(accounts[3].data@);
    changes::lemma_read(accounts[4].data@);
    terms::lemma_position(accounts[4], accounts[0].key, position_address, program_id);
    let cfg = terms::pool_in(accounts[3]);
    let cfg_after = GenesisConfig {
        total_deposited: (cfg.total_deposited + amount) as u64,
        ..cfg
    };
    if missing(accounts[4]) {
        let position = GenesisPosition {
            amount,
            start_slot: slot,
            ..deposits::new_position(accounts[0].key)
        };
        assert(effects[0]->Create_signer =~= seq![
            addresses::GENESIS_POSITION_LABEL@,
            accounts[3].key.bytes@,
            accounts[0].key.bytes@,
            seq![position_address->0.bump],
        ]);
        assert(effects.len() == 4);
        changes::lemma_pool_written(effects[2], 3, accounts[3].data@, cfg_after);
        position.reads_back();
        assert(effects[3]->Write_data == position.encoded());
    } else {
        let old_position = terms::position_in(accounts[4]);
        let position = GenesisPosition {
            amount: (old_position.amount + amount) as u64,
            start_slot: slot,
            ..old_position
        };
        assert(effects.len() == 3);
        changes::lemma_pool_written(effects[1], 3, accounts[3].data@, cfg_after);
        changes::lemma_position_written(effects[2], 4, accounts[4].data@, position);
    }
}

/// What the opening of a pool asks for: the COIN's authority, a supply, a COIN that is not live and whose
/// delay runs, a deposit window within the delay if one is asked for, a base mint, and the places of the
/// pool, the vault and the market admin.
pub open spec fn may_open(
    program_id: Pubkey,
    accounts: Seq<Account>,
    data: Seq<u8>,
    slot: u64,
    coin: CoinAddresses,
) -> bool {
    let cfg = terms::coin_in(accounts[3]);
    let end = cfg.bootstrap_start_slot + cfg.bootstrap_delay_slots;
    &&& accounts.len() >= 11
    &&& data.len() == 8 || data.len() == 16
    &&& terms::word(data, 0) > 0
    &&& accounts[0].is_signer
    &&& accounts[8].key.bytes == TOKEN_PROGRAM
    &&& accounts[10].key.bytes == SYSTEM_PROGRAM
    &&& terms::governed(accounts[1], accounts[3], coin, program_id)
    &&& !terms::live(accounts[3])
    &&& slot < end <= u64::MAX
    &&& data.len() == 16 ==> terms::word(data, 8) > 0 && slot + terms::word(data, 8) <= end
    &&& terms::a_mint(accounts[4])
    &&& admin_account(accounts[7], coin)
    &&& terms::stands(accounts[5], coin.genesis_cfg)
    &&& terms::stands(accounts[6], coin.genesis_vault)
}

/// A pool is opened exactly where the conditions hold.
#[verifier::spinoff_prover]
#[verifier::rlimit(60)]
pub proof fn when_a_pool_is_opened(
    program_id: Pubkey,
    accounts: Seq<Account>,
    data: Seq<u8>,
    slot: u64,
    coin: CoinAddresses,
)
    ensures
        deposits::init_genesis_bootstrap_outcome(program_id, accounts, data, slot, coin) is Ok
            <==> may_open(program_id, accounts, data, slot, coin),
{
    if data.len() == 8 || data.len() == 16 {
        terms::lemma_word(data, 0);
    }
    if data.len() == 16 {
        terms::lemma_word(data, 8);
    }
    terms::lemma_governed(accounts[1], accounts[3], coin, program_id);
    terms::lemma_tokens(accounts[4], accounts[2].key, accounts[0].key);
    changes::lemma_read(accounts[3].data@);
}

/// The opening creates the market admin's account, where it is missing, the pool's record and its vault,
/// makes the vault a token account of the base mint that the market admin owns, and writes a pool
/// without deposits, ballots or a mint: the supply is the one that was asked for.
#[verifier::spinoff_prover]
#[verifier::rlimit(80)]
pub proof fn what_the_opening_does(
    program_id: Pubkey,
    accounts: Seq<Account>,
    data: Seq<u8>,
    slot: u64,
    coin: CoinAddresses,
)
    requires
        may_open(program_id, accounts, data, slot, coin),
    ensures
        ({
            let effects = deposits::init_genesis_bootstrap_outcome(
                program_id,
                accounts,
                data,
                slot,
                coin,
            )->Ok_0;
            let n = if accounts[7].lamports == 0 {
                1int
            } else {
                0int
            };
            let mint = accounts[2].key;
            let sent = effects[n + 2]->instruction.data;
            let cfg = GenesisConfig::decoded(effects[n + 3]->Write_data)->Ok_0;
            &&& effects.len() == n + 4
            &&& accounts[7].lamports == 0 ==> terms::makes(
                effects[0],
                0,
                7,
                10,
                0,
                Pubkey { bytes: SYSTEM_PROGRAM },
                terms::admin_seeds(mint, coin),
            )
            &&& terms::makes(
                effects[n],
                0,
                5,
                10,
                192,
                program_id,
                seq![
                    addresses::GENESIS_CFG_LABEL@,
                    mint.bytes@,
                    seq![coin.genesis_cfg->0.bump],
                ],
            )
            &&& terms::makes(
                effects[n + 1],
                0,
                6,
                10,
                165,
                Pubkey { bytes: TOKEN_PROGRAM },
                seq![
                    addresses::GENESIS_VAULT_LABEL@,
                    mint.bytes@,
                    seq![coin.genesis_vault->0.bump],
                ],
            )
            &&& terms::calls(
                effects[n + 2],
                accounts[8].key,
                seq![
                    terms::changed(accounts[6].key),
                    terms::read(accounts[4].key),
                    terms::read(Pubkey { bytes: RENT_SYSVAR }),
                ],
                seq![6usize, 4usize, 9usize, 8usize],
                Seq::empty(),
            )
            &&& sent.len() == 33
            &&& sent[0] == 16
            &&& terms::names(sent, 1, accounts[7].key.bytes)
            &&& changes::fills(effects[n + 3], 5, 192)
            &&& changes::holds_pool(effects[n + 3], cfg)
            &&& cfg.coin_mint == mint
            &&& cfg.base_mint == accounts[4].key
            &&& cfg.token_vault == accounts[6].key
            &&& cfg.reward_supply == terms::word(data, 0)
            &&& cfg.total_deposited == 0 && cfg.total_withdrawn == 0 && cfg.minted_supply == 0
            &&& cfg.total_cast_weight == 0 && cfg.total_voted_principal == 0
            &&& cfg.finalized == 0 && cfg.kicked == 0
            &&& cfg.genesis_market_slab.bytes == SYSTEM_PROGRAM
        }),
{
    when_a_pool_is_opened(program_id, accounts, data, slot, coin);
    let effects = deposits::init_genesis_bootstrap_outcome(
        program_id,
        accounts,
        data,
        slot,
        coin,
    )->Ok_0;
    let mint = accounts[2].key;
    let n = if accounts[7].lamports == 0 {
        1int
    } else {
        0int
    };
    terms::lemma_word(data, 0);
    terms::lemma_seeds(addresses::MARKET_ADMIN_LABEL@, mint, coin.market_admin->0.bump);
    terms::lemma_seeds(addresses::GENESIS_CFG_LABEL@, mint, coin.genesis_cfg->0.bump);
    terms::lemma_seeds(addresses::GENESIS_VAULT_LABEL@, mint, coin.genesis_vault->0.bump);
    assert(effects.len() == n + 4);
    let sent = effects[n + 2]->instruction.data;
    assert(sent == seq![16u8] + accounts[7].key@);
    assert(sent.subrange(1, 33) =~= accounts[7].key.bytes@);
    terms::lemma_names(sent, 1, accounts[7].key.bytes);
    let cfg = deposits::new_pool(
        mint,
        accounts[4].key,
        accounts[6].key,
        terms::word(data, 0) as u64,
    );
    cfg.reads_back();
    assert(effects[n + 3]->Write_data == cfg.encoded());
}

} // verus!
