//! Where each field of a record stands, byte by byte.
use crate::builder::BuilderApproval;
use crate::bytes;
use crate::coin::CoinConfig;
use crate::error::ProgramError;
use crate::genesis::{GenesisConfig, GenesisDistribution, GenesisPosition};
use crate::governance::AuthorityConfig;
use crate::laws::terms;
use crate::percolator_abi;
use crate::pubkey::SYSTEM_PROGRAM;
use crate::token;
use vstd::prelude::*;

verus! {

/// The data begins with the eight letters.
pub open spec fn begins(data: Seq<u8>, letters: Seq<char>) -> bool {
    letters.len() == 8 && data.len() >= 8 && forall|i: int|
        0 <= i < 8 ==> #[trigger] data[i] as int == letters[i] as int
}

proof fn lemma_begins(data: Seq<u8>, letters: Seq<char>, disc: Seq<u8>)
    requires
        data.len() >= 8,
        letters.len() == 8,
        disc.len() == 8,
        forall|i: int| 0 <= i < 8 ==> #[trigger] disc[i] as int == letters[i] as int,
    ensures
        data.subrange(0, 8) == disc <==> begins(data, letters),
{
    let s = data.subrange(0, 8);
    assert forall|i: int| 0 <= i < 8 implies s[i] == data[i] by {}
    if begins(data, letters) {
        assert(s =~= disc) by {
            assert forall|i: int| 0 <= i < 8 implies s[i] == disc[i] by {
                assert(data[i] as int == letters[i] as int);
                assert(disc[i] as int == letters[i] as int);
            }
        }
    }
    if s == disc {
        assert forall|i: int| 0 <= i < 8 implies #[trigger] data[i] as int == letters[i] as int by {
            assert(s[i] == disc[i]);
            assert(disc[i] as int == letters[i] as int);
        }
    }
}

/// The pool's record: 192 bytes, and each number and address where it stands.
#[verifier::spinoff_prover]
pub proof fn where_a_pool_stands(data: Seq<u8>)
    ensures
        GenesisConfig::decoded(data) is Ok <==> data.len() >= 192 && begins(data, "GENCFG02"@)
            && data[136] <= 1 && data[137] <= 1,
        GenesisConfig::decoded(data) matches Ok(cfg) ==> {
            &&& terms::names(data, 8, cfg.coin_mint.bytes)
            &&& terms::names(data, 40, cfg.base_mint.bytes)
            &&& terms::names(data, 72, cfg.token_vault.bytes)
            &&& cfg.total_deposited == terms::word(data, 104)
            &&& cfg.total_withdrawn == terms::word(data, 112)
            &&& cfg.reward_supply == terms::word(data, 120)
            &&& cfg.minted_supply == terms::word(data, 128)
            &&& cfg.finalized == data[136]
            &&& cfg.kicked == data[137]
            &&& cfg.total_cast_weight == terms::word(data, 144)
            &&& cfg.total_voted_principal == terms::word(data, 152)
            &&& terms::names(data, 160, cfg.genesis_market_slab.bytes)
        },
{
    reveal_strlit("GENCFG02");
    if data.len() >= 192 {
        lemma_begins(data, "GENCFG02"@, crate::genesis::GENESIS_CFG_DISC@);
        terms::lemma_word(data, 104);
        terms::lemma_word(data, 112);
        terms::lemma_word(data, 120);
        terms::lemma_word(data, 128);
        terms::lemma_word(data, 144);
        terms::lemma_word(data, 152);
        let any = SYSTEM_PROGRAM;
        terms::lemma_names(data, 8, any);
        terms::lemma_names(data, 40, any);
        terms::lemma_names(data, 72, any);
        terms::lemma_names(data, 160, any);
    }
}

/// A position's record: 112 bytes.
#[verifier::spinoff_prover]
pub proof fn where_a_position_stands(data: Seq<u8>)
    ensures
        GenesisPosition::decoded(data) is Ok <==> data.len() >= 112 && begins(data, "GENPOS01"@),
        GenesisPosition::decoded(data) matches Ok(position) ==> {
            &&& terms::names(data, 8, position.owner.bytes)
            &&& position.amount == terms::word(data, 40)
            &&& position.withdrawn == terms::word(data, 48)
            &&& position.start_slot == terms::word(data, 56)
            &&& terms::names(data, 64, position.voted_proposal.bytes)
            &&& position.voted_weight == terms::word(data, 96)
            &&& position.voted_principal == terms::word(data, 104)
        },
{
    reveal_strlit("GENPOS01");
    if data.len() >= 112 {
        lemma_begins(data, "GENPOS01"@, crate::genesis::GENESIS_POSITION_DISC@);
        terms::lemma_word(data, 40);
        terms::lemma_word(data, 48);
        terms::lemma_word(data, 56);
        terms::lemma_word(data, 96);
        terms::lemma_word(data, 104);
        let any = SYSTEM_PROGRAM;
        terms::lemma_names(data, 8, any);
        terms::lemma_names(data, 64, any);
    }
}

/// A candidate's record: 104 bytes.
#[verifier::spinoff_prover]
pub proof fn where_a_candidate_stands(data: Seq<u8>)
    ensures
        GenesisDistribution::decoded(data) is Ok <==> data.len() >= 104 && begins(data, "GENDIST1"@)
            && data[96] <= 1,
        GenesisDistribution::decoded(data) matches Ok(candidate) ==> {
            &&& terms::names(data, 8, candidate.genesis_cfg.bytes)
            &&& terms::names(data, 40, candidate.destination.bytes)
            &&& candidate.proposal_id == terms::word(data, 72)
            &&& candidate.support_weight == terms::word(data, 80)
            &&& candidate.support_principal == terms::word(data, 88)
            &&& candidate.executed == data[96]
        },
{
    reveal_strlit("GENDIST1");
    if data.len() >= 104 {
        lemma_begins(data, "GENDIST1"@, crate::genesis::GENESIS_DISTRIBUTION_DISC@);
        terms::lemma_word(data, 72);
        terms::lemma_word(data, 80);
        terms::lemma_word(data, 88);
        let any = SYSTEM_PROGRAM;
        terms::lemma_names(data, 8, any);
        terms::lemma_names(data, 40, any);
    }
}

/// A COIN's record: 72 bytes.
#[verifier::spinoff_prover]
pub proof fn where_a_coin_stands(data: Seq<u8>)
    ensures
        CoinConfig::decoded(data) is Ok <==> data.len() >= 72 && begins(data, "CCFGV002"@)
            && data[64] <= 1,
        CoinConfig::decoded(data) matches Ok(cfg) ==> {
            &&& terms::names(data, 8, cfg.authority.bytes)
            &&& cfg.bootstrap_start_slot == terms::word(data, 40)
            &&& cfg.bootstrap_delay_slots == terms::word(data, 48)
            &&& cfg.live_slot == terms::word(data, 56)
            &&& cfg.phase == data[64]
        },
{
    reveal_strlit("CCFGV002");
    if data.len() >= 72 {
        lemma_begins(data, "CCFGV002"@, crate::coin::COIN_CFG_DISC@);
        terms::lemma_word(data, 40);
        terms::lemma_word(data, 48);
        terms::lemma_word(data, 56);
        terms::lemma_names(data, 8, SYSTEM_PROGRAM);
    }
}

/// The record of a builder's approval: 152 bytes.
#[verifier::spinoff_prover]
pub proof fn where_an_approval_stands(data: Seq<u8>)
    ensures
        BuilderApproval::decoded(data) is Ok <==> data.len() >= 152 && begins(data, "BLDAPP01"@)
            && data[144] <= 1,
        BuilderApproval::decoded(data) matches Ok(approval) ==> {
            &&& terms::names(data, 8, approval.coin_mint.bytes)
            &&& terms::names(data, 40, approval.builder_program.bytes)
            &&& terms::names(data, 72, approval.code_hash)
            &&& terms::names(data, 104, approval.terms_hash)
            &&& approval.approved_slot == terms::word(data, 136)
            &&& approval.enabled == data[144]
        },
{
    reveal_strlit("BLDAPP01");
    if data.len() >= 152 {
        lemma_begins(data, "BLDAPP01"@, crate::builder::BUILDER_APPROVAL_DISC@);
        terms::lemma_word(data, 136);
        let any = SYSTEM_PROGRAM;
        terms::lemma_names(data, 8, any);
        terms::lemma_names(data, 40, any);
        terms::lemma_names(data, 72, any);
        terms::lemma_names(data, 104, any);
    }
}

/// The record of an authority's controller: 40 bytes.
#[verifier::spinoff_prover]
pub proof fn where_a_controller_stands(data: Seq<u8>)
    ensures
        AuthorityConfig::decoded(data) is Ok <==> data.len() >= 40 && begins(data, "GAUTH001"@),
        AuthorityConfig::decoded(data) matches Ok(cfg) ==> terms::names(
            data,
            8,
            cfg.controller.bytes,
        ),
{
    reveal_strlit("GAUTH001");
    if data.len() >= 40 {
        lemma_begins(data, "GAUTH001"@, crate::governance::AUTHORITY_DISC@);
        terms::lemma_names(data, 8, SYSTEM_PROGRAM);
    }
}

/// An optional key's tag: four bytes, 0 or 1.
pub open spec fn a_tag(data: Seq<u8>, off: int) -> bool {
    data[off] <= 1 && data[off + 1] == 0 && data[off + 2] == 0 && data[off + 3] == 0
}

/// A token account: 165 bytes that name the mint, the owner and the amount; one whose state is 0 is not
/// initialized yet.
#[verifier::spinoff_prover]
pub proof fn where_a_token_account_stands(data: Seq<u8>)
    ensures
        token::token_account_of(data) is Ok <==> data.len() == 165 && a_tag(data, 72) && a_tag(
            data,
            109,
        ) && a_tag(data, 129) && 1 <= data[108] <= 2,
        token::token_account_of(data) matches Ok(account) ==> {
            &&& terms::names(data, 0, account.mint.bytes)
            &&& terms::names(data, 32, account.owner.bytes)
            &&& account.amount == terms::word(data, 64)
        },
{
    if data.len() == 165 {
        terms::lemma_word(data, 64);
        terms::lemma_names(data, 0, SYSTEM_PROGRAM);
        terms::lemma_names(data, 32, SYSTEM_PROGRAM);
    }
}

/// A mint: 82 bytes that name, optionally, the mint authority and the freeze authority; one whose state
/// is 0 is not initialized yet.
#[verifier::spinoff_prover]
pub proof fn where_a_mint_stands(data: Seq<u8>)
    ensures
        token::mint_of(data) is Ok <==> data.len() == 82 && a_tag(data, 0) && a_tag(data, 46)
            && data[45] == 1,
        token::mint_of(data) matches Ok(mint) ==> {
            &&& mint.mint_authority is Some <==> data[0] == 1
            &&& mint.mint_authority matches Some(key) ==> terms::names(data, 4, key.bytes)
            &&& mint.freeze_authority is Some <==> data[46] == 1
            &&& mint.freeze_authority matches Some(key) ==> terms::names(data, 50, key.bytes)
        },
{
    if data.len() == 82 {
        terms::lemma_names(data, 4, SYSTEM_PROGRAM);
        terms::lemma_names(data, 50, SYSTEM_PROGRAM);
    }
}

/// A Percolator market: its magic number, version 16 and kind 1 in front, at least 640 bytes, a collateral
/// mint, and a second one only if it is another.
#[verifier::spinoff_prover]
pub proof fn where_a_market_stands(data: Seq<u8>)
    ensures
        ({
            let r = percolator_abi::market_config_of(data);
            &&& r is Ok <==> {
                &&& data.len() >= 640
                &&& terms::word(data, 0) == 0x5045_5243_5631_3600
                &&& data[8] == 16 && data[9] == 0 && data[10] == 1
                &&& !terms::names(data, 48, SYSTEM_PROGRAM)
                &&& data.subrange(80, 112) != data.subrange(48, 80)
            }
            &&& r is Err ==> r->Err_0 == ProgramError::InvalidAccountData
            &&& r matches Ok(config) ==> {
                &&& terms::names(data, 16, config.admin)
                &&& terms::names(data, 48, config.collateral_mint)
                &&& terms::names(data, 80, config.secondary_collateral_mint)
                &&& terms::names(data, 208, config.insurance_authority)
                &&& terms::names(data, 240, config.insurance_operator)
                &&& terms::names(data, 272, config.backing_bucket_authority)
            }
        }),
{
    if data.len() >= 640 {
        terms::lemma_word(data, 0);
        let s = data.subrange(8, 10);
        assert(bytes::le_value(s) == data[8] + 256 * data[9]) by {
            reveal_with_fuel(bytes::le_value, 3);
            assert(s.drop_first()[0] == data[9]);
            assert(s.drop_first().drop_first().len() == 0);
        }
        let any = SYSTEM_PROGRAM;
        let fields = percolator_abi::market_fields(data);
        terms::lemma_names(data, 16, any);
        terms::lemma_names(data, 48, any);
        terms::lemma_names(data, 80, fields.collateral_mint);
        terms::lemma_names(data, 48, fields.collateral_mint);
        terms::lemma_names(data, 208, any);
        terms::lemma_names(data, 240, any);
        terms::lemma_names(data, 272, any);
    }
}

/// A record that is written over an account is read back, keeps the account's length, and leaves what
/// stood behind it.
#[verifier::spinoff_prover]
pub proof fn a_record_is_written_in_front(
    cfg: GenesisConfig,
    position: GenesisPosition,
    candidate: GenesisDistribution,
    coin: CoinConfig,
    approval: BuilderApproval,
    data: Seq<u8>,
)
    requires
        cfg.finalized <= 1 && cfg.kicked <= 1,
        candidate.executed <= 1,
        coin.phase <= 1,
        approval.enabled <= 1,
    ensures
        data.len() >= 192 ==> {
            let w = cfg.written(data);
            &&& GenesisConfig::decoded(w) is Ok && GenesisConfig::decoded(w)->Ok_0 == cfg
            &&& w.len() == data.len()
            &&& w.skip(192) == data.skip(192)
        },
        data.len() >= 112 ==> {
            let w = position.written(data);
            &&& GenesisPosition::decoded(w) is Ok && GenesisPosition::decoded(w)->Ok_0 == position
            &&& w.len() == data.len()
            &&& w.skip(112) == data.skip(112)
        },
        data.len() >= 104 ==> {
            let w = candidate.written(data);
            &&& GenesisDistribution::decoded(w) is Ok && GenesisDistribution::decoded(w)->Ok_0
                == candidate
            &&& w.len() == data.len()
            &&& w.skip(104) == data.skip(104)
        },
        data.len() >= 72 ==> {
            let w = coin.written(data);
            &&& CoinConfig::decoded(w) is Ok && CoinConfig::decoded(w)->Ok_0 == coin
            &&& w.len() == data.len()
            &&& w.skip(72) == data.skip(72)
        },
        data.len() >= 152 ==> {
            let w = approval.written(data);
            &&& BuilderApproval::decoded(w) is Ok && BuilderApproval::decoded(w)->Ok_0 == approval
            &&& w.len() == data.len()
            &&& w.skip(152) == data.skip(152)
        },
{
    if data.len() >= 192 {
        cfg.round_trip(data);
        assert(cfg.written(data).skip(192) =~= data.skip(192));
    }
    if data.len() >= 112 {
        position.round_trip(data);
        assert(position.written(data).skip(112) =~= data.skip(112));
    }
    if data.len() >= 104 {
        candidate.round_trip(data);
        assert(candidate.written(data).skip(104) =~= data.skip(104));
    }
    if data.len() >= 72 {
        coin.round_trip(data);
        assert(coin.written(data).skip(72) =~= data.skip(72));
    }
    if data.len() >= 152 {
        approval.round_trip(data);
        assert(approval.written(data).skip(152) =~= data.skip(152));
    }
}

/// The bytes of a record that stand for no field are zero.
#[verifier::spinoff_prover]
pub proof fn the_rest_of_a_record_is_blank(
    cfg: GenesisConfig,
    candidate: GenesisDistribution,
    coin: CoinConfig,
    approval: BuilderApproval,
)
    ensures
        forall|i: int| 138 <= i < 144 ==> #[trigger] cfg.encoded()[i] == 0,
        forall|i: int| 97 <= i < 104 ==> #[trigger] candidate.encoded()[i] == 0,
        forall|i: int| 65 <= i < 72 ==> #[trigger] coin.encoded()[i] == 0,
        forall|i: int| 145 <= i < 152 ==> #[trigger] approval.encoded()[i] == 0,
{
    reveal(GenesisConfig::encoded);
    reveal(GenesisDistribution::encoded);
    reveal(CoinConfig::encoded);
    reveal(BuilderApproval::encoded);
    bytes::lemma_u64_round_trip(cfg.total_deposited);
    bytes::lemma_u64_round_trip(cfg.total_withdrawn);
    bytes::lemma_u64_round_trip(cfg.reward_supply);
    bytes::lemma_u64_round_trip(cfg.minted_supply);
    bytes::lemma_u64_round_trip(cfg.total_cast_weight);
    bytes::lemma_u64_round_trip(cfg.total_voted_principal);
    bytes::lemma_u64_round_trip(candidate.proposal_id);
    bytes::lemma_u64_round_trip(candidate.support_weight);
    bytes::lemma_u64_round_trip(candidate.support_principal);
    bytes::lemma_u64_round_trip(coin.bootstrap_start_slot);
    bytes::lemma_u64_round_trip(coin.bootstrap_delay_slots);
    bytes::lemma_u64_round_trip(coin.live_slot);
    bytes::lemma_u64_round_trip(approval.approved_slot);
}

} // verus!
