//! The life of a COIN: its configuration, going live, later mints, and the end of its mint authority.
use crate::account::Account;
use crate::addresses;
use crate::addresses::CoinAddresses;
use crate::coin::CoinConfig;
use crate::laws::changes;
use crate::laws::terms;
use crate::pubkey::{Pubkey, CLOCK_SYSVAR, SYSTEM_PROGRAM, TOKEN_PROGRAM};
use crate::rewards::coin_lifecycle;
use crate::token;
use vstd::prelude::*;

verus! {

/// The bootstrap delay that the data asks for: none, or eight bytes.
pub open spec fn delay_in(data: Seq<u8>) -> int {
    if data.len() == 0 {
        0
    } else {
        terms::word(data, 0)
    }
}

/// What a new COIN asks for: its authority, a delay that ends within 64 bits, a mint that nobody can
/// freeze and that the COIN's own mint authority controls, and the place of its configuration.
pub open spec fn may_register(
    accounts: Seq<Account>,
    data: Seq<u8>,
    slot: u64,
    coin: CoinAddresses,
) -> bool {
    let mint = token::mint_of(accounts[2].data@)->Ok_0;
    &&& accounts.len() >= 5
    &&& data.len() == 0 || data.len() == 8
    &&& accounts[0].is_signer
    &&& terms::authority(accounts[1], coin)
    &&& slot + delay_in(data) <= u64::MAX
    &&& terms::a_mint(accounts[2])
    &&& mint.freeze_authority is None
    &&& mint.mint_authority is Some
    &&& coin.mint_authority is Some
    &&& mint.mint_authority->0 == coin.mint_authority->0.key
    &&& terms::stands(accounts[3], coin.coin_cfg)
}

/// A COIN is registered exactly where the conditions hold: its configuration is created and names the
/// authority, the slot and the delay. Without a delay it is live from that slot on; with one it is not
/// live yet.
#[verifier::spinoff_prover]
#[verifier::rlimit(60)]
pub proof fn what_a_new_coin_is(
    program_id: Pubkey,
    accounts: Seq<Account>,
    data: Seq<u8>,
    slot: u64,
    coin: CoinAddresses,
)
    ensures
        ({
            let r = coin_lifecycle::init_coin_config_outcome(
                program_id,
                accounts,
                data,
                slot,
                coin,
            );
            &&& r is Ok <==> may_register(accounts, data, slot, coin)
            &&& r matches Ok(effects) ==> {
                let cfg = CoinConfig::decoded(effects[1]->Write_data)->Ok_0;
                &&& effects.len() == 2
                &&& terms::makes(
                    effects[0],
                    0,
                    3,
                    4,
                    72,
                    program_id,
                    seq![
                        addresses::COIN_CFG_LABEL@,
                        accounts[2].key.bytes@,
                        seq![coin.coin_cfg->0.bump],
                    ],
                )
                &&& changes::fills(effects[1], 3, 72)
                &&& changes::holds_coin(effects[1], cfg)
                &&& cfg.authority == accounts[1].key
                &&& cfg.bootstrap_start_slot == slot
                &&& cfg.bootstrap_delay_slots == delay_in(data)
                &&& delay_in(data) == 0 ==> cfg.phase == 1 && cfg.live_slot == slot
                &&& delay_in(data) > 0 ==> cfg.phase == 0 && cfg.live_slot == 0
            }
        }),
{
    let r = coin_lifecycle::init_coin_config_outcome(program_id, accounts, data, slot, coin);
    if data.len() == 8 {
        terms::lemma_word(data, 0);
    }
    terms::lemma_governed(accounts[1], accounts[3], coin, program_id);
    terms::lemma_tokens(accounts[2], accounts[2].key, accounts[0].key);
    assert(r is Ok <==> may_register(accounts, data, slot, coin));
    if r is Ok {
        terms::lemma_seeds(
            addresses::COIN_CFG_LABEL@,
            accounts[2].key,
            coin.coin_cfg->0.bump,
        );
        let cfg = coin_lifecycle::new_coin(accounts[1].key, delay_in(data) as u64, slot);
        cfg.reads_back();
    }
}

/// The clock.
pub open spec fn a_clock(account: Account) -> bool {
    account.key.bytes == CLOCK_SYSVAR && account.data@.len() >= 40
}

/// A COIN goes live on the word of its authority, from the end of its delay on: the slot of the clock is
/// recorded, and nothing else of the record changes. A COIN that is live stays as it is.
#[verifier::spinoff_prover]
#[verifier::rlimit(60)]
pub proof fn when_a_coin_goes_live(
    program_id: Pubkey,
    accounts: Seq<Account>,
    data: Seq<u8>,
    coin: CoinAddresses,
)
    ensures
        ({
            let r = coin_lifecycle::activate_live_outcome(program_id, accounts, data, coin);
            let cfg = terms::coin_in(accounts[3]);
            let now = terms::word(accounts[4].data@, 0);
            let end = cfg.bootstrap_start_slot + cfg.bootstrap_delay_slots;
            &&& r is Ok <==> {
                &&& data.len() == 0
                &&& accounts.len() >= 5
                &&& accounts[0].is_signer
                &&& terms::governed(accounts[1], accounts[3], coin, program_id)
                &&& !terms::live(accounts[3]) ==> a_clock(accounts[4]) && now >= end
            }
            &&& r is Ok && terms::live(accounts[3]) ==> r->Ok_0.len() == 0
            &&& r is Ok && !terms::live(accounts[3]) ==> {
                let after = CoinConfig::decoded(r->Ok_0[0]->Write_data)->Ok_0;
                &&& r->Ok_0.len() == 1
                &&& changes::replaces(r->Ok_0[0], 3, accounts[3].data@, 72)
                &&& changes::holds_coin(r->Ok_0[0], after)
                &&& after.phase == 1
                &&& after.live_slot == now
                &&& after.authority == cfg.authority
                &&& after.bootstrap_start_slot == cfg.bootstrap_start_slot
                &&& after.bootstrap_delay_slots == cfg.bootstrap_delay_slots
            }
        }),
{
    let r = coin_lifecycle::activate_live_outcome(program_id, accounts, data, coin);
    terms::lemma_governed(accounts[1], accounts[3], coin, program_id);
    changes::lemma_read(accounts[3].data@);
    if accounts[4].data@.len() >= 40 {
        terms::lemma_word(accounts[4].data@, 0);
    }
    if r is Ok && !terms::live(accounts[3]) {
        let cfg = terms::coin_in(accounts[3]);
        let now = terms::word(accounts[4].data@, 0) as u64;
        changes::lemma_coin_written(
            r->Ok_0[0],
            3,
            accounts[3].data@,
            CoinConfig { phase: 1, live_slot: now, ..cfg },
        );
    }
}

/// A mint after the genesis asks for the COIN's authority, a live COIN and a finalized pool. It mints
/// exactly the amount, to a token account of the COIN, and the COIN's mint authority signs.
#[verifier::spinoff_prover]
#[verifier::rlimit(60)]
pub proof fn what_a_later_mint_does(
    program_id: Pubkey,
    accounts: Seq<Account>,
    data: Seq<u8>,
    coin: CoinAddresses,
)
    ensures
        ({
            let r = coin_lifecycle::mint_reward_outcome(program_id, accounts, data, coin);
            &&& r is Ok <==> {
                &&& accounts.len() >= 8
                &&& data.len() >= 8
                &&& terms::word(data, 0) > 0
                &&& accounts[0].is_signer
                &&& accounts[6].key.bytes == TOKEN_PROGRAM
                &&& terms::governed(accounts[1], accounts[3], coin, program_id)
                &&& terms::live(accounts[3])
                &&& terms::pool_record(accounts[7], accounts[2], coin, program_id)
                &&& terms::pool_in(accounts[7]).finalized == 1
                &&& terms::token_for(accounts[4], accounts[2].key)
                &&& terms::stands(accounts[5], coin.mint_authority)
            }
            &&& r matches Ok(effects) ==> {
                &&& effects.len() == 1
                &&& terms::mints(
                    effects[0],
                    accounts,
                    2,
                    4,
                    5,
                    6,
                    terms::word(data, 0),
                    terms::minter_seeds(accounts[2].key, coin),
                )
            }
        }),
{
    let r = coin_lifecycle::mint_reward_outcome(program_id, accounts, data, coin);
    if data.len() >= 8 {
        terms::lemma_word(data, 0);
        terms::lemma_tag_and_amount(7, terms::word(data, 0) as u64);
    }
    terms::lemma_governed(accounts[1], accounts[3], coin, program_id);
    terms::lemma_pool(accounts[7], accounts[2], accounts[4], accounts[0].key, coin, program_id);
    terms::lemma_tokens(accounts[4], accounts[2].key, accounts[0].key);
    changes::lemma_read(accounts[3].data@);
    changes::lemma_read(accounts[7].data@);
    if r is Ok {
        terms::lemma_seeds(
            addresses::MINT_AUTHORITY_LABEL@,
            accounts[2].key,
            coin.mint_authority->0.bump,
        );
    }
}

/// The mint authority is handed over on the word of the authority of a live COIN: the token program is
/// asked to put the account that is named in the place of the COIN's own mint authority, which signs; the
/// zero address stands for nobody.
#[verifier::spinoff_prover]
#[verifier::rlimit(60)]
pub proof fn what_the_end_of_the_mint_authority_does(
    program_id: Pubkey,
    accounts: Seq<Account>,
    coin: CoinAddresses,
)
    ensures
        ({
            let r = coin_lifecycle::transfer_mint_authority_outcome(program_id, accounts, coin);
            &&& r is Ok <==> {
                &&& accounts.len() >= 7
                &&& accounts[0].is_signer
                &&& accounts[6].key.bytes == TOKEN_PROGRAM
                &&& terms::governed(accounts[1], accounts[3], coin, program_id)
                &&& terms::live(accounts[3])
                &&& terms::stands(accounts[4], coin.mint_authority)
            }
            &&& r matches Ok(effects) ==> {
                let sent = effects[0]->instruction.data;
                &&& effects.len() == 1
                &&& terms::calls(
                    effects[0],
                    accounts[6].key,
                    seq![terms::changed(accounts[2].key), terms::signing(accounts[4].key)],
                    seq![2usize, 4usize, 6usize],
                    terms::minter_seeds(accounts[2].key, coin),
                )
                &&& sent[0] == 6 && sent[1] == 0
                &&& accounts[5].key.bytes == SYSTEM_PROGRAM ==> sent.len() == 3 && sent[2] == 0
                &&& accounts[5].key.bytes != SYSTEM_PROGRAM ==> {
                    &&& sent.len() == 35
                    &&& sent[2] == 1
                    &&& terms::names(sent, 3, accounts[5].key.bytes)
                }
            }
        }),
{
    let r = coin_lifecycle::transfer_mint_authority_outcome(program_id, accounts, coin);
    terms::lemma_governed(accounts[1], accounts[3], coin, program_id);
    changes::lemma_read(accounts[3].data@);
    if r is Ok {
        terms::lemma_seeds(
            addresses::MINT_AUTHORITY_LABEL@,
            accounts[2].key,
            coin.mint_authority->0.bump,
        );
        let sent = r->Ok_0[0]->instruction.data;
        if accounts[5].key.bytes != SYSTEM_PROGRAM {
            assert(sent == seq![6u8, 0u8, 1u8] + accounts[5].key@);
            assert(sent.subrange(3, 35) =~= accounts[5].key.bytes@);
            terms::lemma_names(sent, 3, accounts[5].key.bytes);
        }
    }
}

} // verus!
