//! The end of a genesis: finalization, the surplus, the multisig, and builders.
use crate::account::Account;
use crate::addresses;
use crate::addresses::{Address, CoinAddresses};
use crate::builder::BuilderApproval;
use crate::bytes;
use crate::genesis::GenesisConfig;
use crate::laws::changes;
use crate::laws::instructions::coin::a_clock;
use crate::laws::instructions::pool::missing;
use crate::laws::sums;
use crate::laws::terms;
use crate::pubkey;
use crate::pubkey::{
    Pubkey, BPF_LOADER, BPF_LOADER_UPGRADEABLE, SQUADS_PROGRAM, SYSTEM_PROGRAM, TOKEN_PROGRAM,
};
use crate::rewards::handover;
use crate::squads;
use vstd::prelude::*;

verus! {

/// A genesis is finalized exactly on the word of the authority of a live COIN, once the pool was deployed
/// and its whole supply is minted; the flag is set, and nothing else of the pool changes.
#[verifier::spinoff_prover]
#[verifier::rlimit(60)]
pub proof fn what_finalization_does(
    program_id: Pubkey,
    accounts: Seq<Account>,
    data: Seq<u8>,
    coin: CoinAddresses,
)
    ensures
        ({
            let r = handover::finalize_genesis_outcome(program_id, accounts, data, coin);
            let cfg = terms::pool_in(accounts[2]);
            &&& r is Ok <==> {
                &&& data.len() == 0
                &&& accounts.len() >= 5
                &&& accounts[0].is_signer
                &&& terms::governed(accounts[1], accounts[4], coin, program_id)
                &&& terms::live(accounts[4])
                &&& terms::pool_record(accounts[2], accounts[3], coin, program_id)
                &&& cfg.kicked == 1
                &&& cfg.minted_supply == cfg.reward_supply
            }
            &&& r matches Ok(effects) ==> {
                &&& effects.len() == 1
                &&& changes::replaces(effects[0], 2, accounts[2].data@, 192)
                &&& changes::holds_pool(effects[0], GenesisConfig { finalized: 1, ..cfg })
            }
        }),
{
    let r = handover::finalize_genesis_outcome(program_id, accounts, data, coin);
    terms::lemma_governed(accounts[1], accounts[4], coin, program_id);
    terms::lemma_pool(accounts[2], accounts[3], accounts[4], accounts[0].key, coin, program_id);
    changes::lemma_read(accounts[2].data@);
    changes::lemma_read(accounts[4].data@);
    if r is Ok {
        changes::lemma_pool_written(
            r->Ok_0[0],
            2,
            accounts[2].data@,
            GenesisConfig { finalized: 1, ..terms::pool_in(accounts[2]) },
        );
    }
}

/// The surplus is drawn exactly on the word of the authority of a live COIN, after finalization, and as
/// far as the vault keeps the outstanding principal; the amount goes from the vault to a token account of
/// the base mint, and nothing is written.
#[verifier::spinoff_prover]
#[verifier::rlimit(60)]
pub proof fn what_a_draw_does(
    program_id: Pubkey,
    accounts: Seq<Account>,
    data: Seq<u8>,
    coin: CoinAddresses,
)
    ensures
        ({
            let r = handover::draw_genesis_surplus_outcome(program_id, accounts, data, coin);
            let cfg = terms::pool_in(accounts[2]);
            let amount = terms::word(data, 0);
            &&& r is Ok <==> {
                &&& accounts.len() >= 9
                &&& data.len() == 8
                &&& amount > 0
                &&& accounts[0].is_signer
                &&& accounts[8].key.bytes == TOKEN_PROGRAM
                &&& terms::governed(accounts[1], accounts[4], coin, program_id)
                &&& terms::live(accounts[4])
                &&& terms::pool_record(accounts[2], accounts[3], coin, program_id)
                &&& cfg.finalized == 1
                &&& terms::stands(accounts[7], coin.market_admin)
                &&& terms::vault(accounts[6], cfg, accounts[7].key, coin)
                &&& terms::token_for(accounts[5], cfg.base_mint)
                &&& terms::outstanding(cfg) + amount <= terms::balance(accounts[6])
            }
            &&& r matches Ok(effects) ==> {
                &&& effects.len() == 1
                &&& terms::moves(
                    effects[0],
                    accounts,
                    6,
                    5,
                    7,
                    8,
                    amount,
                    terms::admin_seeds(accounts[3].key, coin),
                )
            }
        }),
{
    let r = handover::draw_genesis_surplus_outcome(program_id, accounts, data, coin);
    let cfg = terms::pool_in(accounts[2]);
    if data.len() == 8 {
        terms::lemma_word(data, 0);
        terms::lemma_tag_and_amount(3, terms::word(data, 0) as u64);
    }
    terms::lemma_governed(accounts[1], accounts[4], coin, program_id);
    terms::lemma_pool(accounts[2], accounts[3], accounts[6], accounts[7].key, coin, program_id);
    terms::lemma_tokens(accounts[5], cfg.base_mint, accounts[0].key);
    changes::lemma_read(accounts[2].data@);
    changes::lemma_read(accounts[4].data@);
    sums::the_surplus_is_all_that_exceeds_the_principal(cfg, terms::balance(accounts[6]) as u64);
    if r is Ok {
        terms::lemma_seeds(
            addresses::MARKET_ADMIN_LABEL@,
            accounts[3].key,
            coin.market_admin->0.bump,
        );
    }
}

/// The multisig's creation data: Squads' discriminator; the admin as config authority; a threshold of
/// one; one member, the admin, with every permission; a time lock of 48 hours; no rent collector and no
/// memo.
pub open spec fn creates_multisig(data: Seq<u8>, admin: Pubkey) -> bool {
    &&& data.len() == 86
    &&& data.subrange(0, 8) == seq![50u8, 221u8, 199u8, 93u8, 40u8, 245u8, 139u8, 233u8]
    &&& data[8] == 1
    &&& terms::names(data, 9, admin.bytes)
    &&& data[41] == 1 && data[42] == 0
    &&& data[43] == 1 && data[44] == 0 && data[45] == 0 && data[46] == 0
    &&& terms::names(data, 47, admin.bytes)
    &&& data[79] == 7
    &&& data[80] + 256 * data[81] + 65536 * data[82] + 16777216 * data[83] == 48 * 60 * 60
    &&& data[84] == 0 && data[85] == 0
}

#[verifier::spinoff_prover]
proof fn lemma_creates(admin: Pubkey)
    ensures
        creates_multisig(squads::create_data(admin), admin),
{
    let data = squads::create_data(admin);
    let (one_in_two, one_in_four, lock) = (
        bytes::le_bytes(1, 2),
        bytes::le_bytes(1, 4),
        bytes::le_bytes(172_800, 4),
    );
    reveal_with_fuel(bytes::le_bytes, 5);
    assert(one_in_two =~= seq![1u8, 0u8]);
    assert(one_in_four =~= seq![1u8, 0u8, 0u8, 0u8]);
    assert(lock =~= seq![0u8, 0xA3u8, 2u8, 0u8]);
    assert(squads::IX_MULTISIG_CREATE_V2@ =~= seq![
        50u8,
        221u8,
        199u8,
        93u8,
        40u8,
        245u8,
        139u8,
        233u8,
    ]);
    assert(data.len() == 86);
    assert(data.subrange(0, 8) =~= squads::IX_MULTISIG_CREATE_V2@);
    assert(data.subrange(9, 41) =~= admin.bytes@);
    assert(data.subrange(47, 79) =~= admin.bytes@);
    terms::lemma_names(data, 9, admin.bytes);
    terms::lemma_names(data, 47, admin.bytes);
}

/// The multisig is created exactly on the word of the COIN's authority, at the COIN's own place and under
/// its own create-key, which signs.
#[verifier::spinoff_prover]
#[verifier::rlimit(60)]
pub proof fn what_the_multisig_is(
    program_id: Pubkey,
    accounts: Seq<Account>,
    data: Seq<u8>,
    coin: CoinAddresses,
)
    ensures
        ({
            let r = handover::init_genesis_squads_outcome(program_id, accounts, data, coin);
            &&& r is Ok <==> {
                &&& data.len() == 0
                &&& accounts.len() >= 11
                &&& accounts[0].is_signer
                &&& accounts[10].key.bytes == SYSTEM_PROGRAM
                &&& accounts[6].key.bytes == SQUADS_PROGRAM
                &&& terms::governed(accounts[1], accounts[3], coin, program_id)
                &&& terms::stands(accounts[4], coin.market_admin)
                &&& terms::stands(accounts[5], coin.create_key)
                &&& terms::stands(accounts[9], coin.multisig)
            }
            &&& r matches Ok(effects) ==> {
                &&& effects.len() == 1
                &&& terms::calls(
                    effects[0],
                    Pubkey { bytes: SQUADS_PROGRAM },
                    seq![
                        terms::read(accounts[7].key),
                        terms::changed(accounts[8].key),
                        terms::changed(accounts[9].key),
                        terms::signing(accounts[5].key),
                        terms::paying(accounts[0].key),
                        terms::read(accounts[10].key),
                    ],
                    seq![7usize, 8usize, 9usize, 5usize, 0usize, 10usize, 6usize],
                    seq![
                        squads::CREATE_KEY_LABEL@,
                        accounts[2].key.bytes@,
                        seq![coin.create_key->0.bump],
                    ],
                )
                &&& creates_multisig(effects[0]->instruction.data, accounts[4].key)
            }
        }),
{
    terms::lemma_governed(accounts[1], accounts[3], coin, program_id);
    terms::lemma_seeds(squads::CREATE_KEY_LABEL@, accounts[2].key, coin.create_key->0.bump);
    lemma_creates(accounts[4].key);
}

/// The data that names a new config authority: Squads' discriminator, the key, no memo.
pub open spec fn names_authority(data: Seq<u8>, key: Pubkey) -> bool {
    &&& data.len() == 41
    &&& data.subrange(0, 8) == seq![143u8, 93u8, 199u8, 143u8, 92u8, 169u8, 193u8, 232u8]
    &&& terms::names(data, 8, key.bytes)
    &&& data[40] == 0
}

proof fn lemma_authority_named(key: Pubkey)
    ensures
        names_authority(squads::set_config_authority_data(key), key),
{
    let data = squads::set_config_authority_data(key);
    assert(squads::IX_SET_CONFIG_AUTHORITY@ =~= seq![
        143u8,
        93u8,
        199u8,
        143u8,
        92u8,
        169u8,
        193u8,
        232u8,
    ]);
    assert(data.subrange(0, 8) =~= squads::IX_SET_CONFIG_AUTHORITY@);
    assert(data.subrange(8, 40) =~= key.bytes@);
    terms::lemma_names(data, 8, key.bytes);
}

/// The multisig is handed over exactly on the word of the COIN's authority, once the genesis is
/// finalized, and to somebody else than the admin, who signs.
#[verifier::spinoff_prover]
#[verifier::rlimit(60)]
pub proof fn what_the_handover_does(
    program_id: Pubkey,
    accounts: Seq<Account>,
    data: Seq<u8>,
    coin: CoinAddresses,
)
    ensures
        ({
            let r = handover::handover_genesis_squads_outcome(program_id, accounts, data, coin);
            let squads_key = Pubkey { bytes: SQUADS_PROGRAM };
            &&& r is Ok <==> {
                &&& data.len() == 0
                &&& accounts.len() >= 9
                &&& accounts[0].is_signer
                &&& accounts[6].key.bytes == SQUADS_PROGRAM
                &&& terms::governed(accounts[1], accounts[3], coin, program_id)
                &&& terms::pool_record(accounts[4], accounts[2], coin, program_id)
                &&& terms::pool_in(accounts[4]).finalized == 1
                &&& terms::stands(accounts[5], coin.market_admin)
                &&& terms::stands(accounts[7], coin.multisig)
                &&& accounts[8].key.bytes != SYSTEM_PROGRAM
                &&& accounts[8].key != accounts[5].key
            }
            &&& r matches Ok(effects) ==> {
                &&& effects.len() == 1
                &&& terms::calls(
                    effects[0],
                    squads_key,
                    seq![
                        terms::changed(accounts[7].key),
                        terms::signing(accounts[5].key),
                        terms::read(squads_key),
                        terms::read(squads_key),
                    ],
                    seq![7usize, 5usize, 6usize],
                    terms::admin_seeds(accounts[2].key, coin),
                )
                &&& names_authority(effects[0]->instruction.data, accounts[8].key)
            }
        }),
{
    terms::lemma_governed(accounts[1], accounts[3], coin, program_id);
    terms::lemma_pool(accounts[4], accounts[2], accounts[7], accounts[0].key, coin, program_id);
    changes::lemma_read(accounts[4].data@);
    terms::lemma_seeds(
        addresses::MARKET_ADMIN_LABEL@,
        accounts[2].key,
        coin.market_admin->0.bump,
    );
    lemma_authority_named(accounts[8].key);
}

/// What an approval asks for: the authority of a live COIN, an executable program of a BPF loader, and
/// the approval's own place: empty, or with an approval of the same builder and the same code.
pub open spec fn may_approve(
    program_id: Pubkey,
    accounts: Seq<Account>,
    data: Seq<u8>,
    coin: CoinAddresses,
    approval_address: Option<Address>,
) -> bool {
    let existing = BuilderApproval::decoded(accounts[5].data@);
    &&& accounts.len() >= 8
    &&& data.len() == 65
    &&& data[64] <= 1
    &&& accounts[0].is_signer
    &&& accounts[6].key.bytes == SYSTEM_PROGRAM
    &&& terms::governed(accounts[1], accounts[3], coin, program_id)
    &&& terms::live(accounts[3])
    &&& accounts[4].executable
    &&& accounts[4].owner.bytes == BPF_LOADER || accounts[4].owner.bytes == BPF_LOADER_UPGRADEABLE
    &&& terms::stands(accounts[5], approval_address)
    &&& missing(accounts[5]) || {
        &&& accounts[5].owner == program_id
        &&& existing is Ok
        &&& existing->Ok_0.coin_mint == accounts[2].key
        &&& existing->Ok_0.builder_program == accounts[4].key
        &&& terms::names(data, 0, existing->Ok_0.code_hash)
    }
    &&& a_clock(accounts[7])
}

/// An approval is given exactly where the conditions hold. The record names the COIN, the builder, the
/// two hashes and the switch of the data, and the slot of the clock; it is created first where it is
/// missing.
#[verifier::spinoff_prover]
#[verifier::rlimit(80)]
pub proof fn what_an_approval_says(
    program_id: Pubkey,
    accounts: Seq<Account>,
    data: Seq<u8>,
    coin: CoinAddresses,
    approval_address: Option<Address>,
)
    ensures
        ({
            let r = handover::approve_builder_outcome(
                program_id,
                accounts,
                data,
                coin,
                approval_address,
            );
            &&& r is Ok <==> may_approve(program_id, accounts, data, coin, approval_address)
            &&& r matches Ok(effects) ==> {
                let n = if missing(accounts[5]) {
                    1int
                } else {
                    0int
                };
                let approval = BuilderApproval::decoded(effects[n]->Write_data)->Ok_0;
                &&& effects.len() == n + 1
                &&& missing(accounts[5]) ==> terms::makes(
                    effects[0],
                    0,
                    5,
                    6,
                    152,
                    program_id,
                    seq![
                        addresses::BUILDER_APPROVAL_LABEL@,
                        accounts[2].key.bytes@,
                        accounts[4].key.bytes@,
                        data.subrange(0, 32),
                        seq![approval_address->0.bump],
                    ],
                ) && changes::fills(effects[1], 5, 152)
                &&& !missing(accounts[5]) ==> changes::replaces(
                    effects[0],
                    5,
                    accounts[5].data@,
                    152,
                )
                &&& changes::holds_approval(effects[n], approval)
                &&& approval.coin_mint == accounts[2].key
                &&& approval.builder_program == accounts[4].key
                &&& terms::names(data, 0, approval.code_hash)
                &&& terms::names(data, 32, approval.terms_hash)
                &&& approval.approved_slot == terms::word(accounts[7].data@, 0)
                &&& approval.enabled == data[64]
            }
        }),
{
    let r = handover::approve_builder_outcome(program_id, accounts, data, coin, approval_address);
    terms::lemma_governed(accounts[1], accounts[3], coin, program_id);
    changes::lemma_read(accounts[3].data@);
    changes::lemma_read(accounts[5].data@);
    if accounts[7].data@.len() >= 40 {
        terms::lemma_word(accounts[7].data@, 0);
    }
    if data.len() == 65 {
        let existing = BuilderApproval::decoded(accounts[5].data@)->Ok_0;
        terms::lemma_names(data, 0, existing.code_hash);
        terms::lemma_names(data, 32, SYSTEM_PROGRAM);
    }
    assert(r is Ok <==> may_approve(program_id, accounts, data, coin, approval_address));
    if r is Ok {
        let effects = r->Ok_0;
        let code_hash = pubkey::key_of(data.subrange(0, 32)).bytes;
        let approval = BuilderApproval {
            coin_mint: accounts[2].key,
            builder_program: accounts[4].key,
            code_hash,
            terms_hash: pubkey::key_of(data.subrange(32, 64)).bytes,
            approved_slot: terms::word(accounts[7].data@, 0) as u64,
            enabled: data[64],
        };
        if missing(accounts[5]) {
            terms::lemma_names(data, 0, code_hash);
            assert(code_hash@ == data.subrange(0, 32));
            assert(effects[0]->Create_signer =~= seq![
                addresses::BUILDER_APPROVAL_LABEL@,
                accounts[2].key.bytes@,
                accounts[4].key.bytes@,
                data.subrange(0, 32),
                seq![approval_address->0.bump],
            ]);
            approval.reads_back();
        } else {
            changes::lemma_approval_written(effects[0], 5, accounts[5].data@, approval);
        }
    }
}

} // verus!
