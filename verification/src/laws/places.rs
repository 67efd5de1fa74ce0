//! Where everything stands: the seeds of every address.
use crate::addresses;
use crate::addresses::{Address, CoinAddresses};
use crate::bytes;
use crate::governance;
use crate::governance::GOVERNANCE_PROGRAM;
use crate::laws::terms;
use crate::pubkey;
use crate::pubkey::{Pubkey, PERCOLATOR_PROGRAM, SQUADS_PROGRAM};
use crate::squads;
use vstd::prelude::*;

verus! {

/// The bytes spell the letters.
pub open spec fn spells(label: Seq<u8>, letters: Seq<char>) -> bool {
    label.len() == letters.len() && forall|i: int|
        0 <= i < label.len() ==> #[trigger] label[i] as int == letters[i] as int
}

/// The number in eight bytes, most significant byte first.
pub open spec fn big_word(data: Seq<u8>, off: int) -> int {
    data[off + 7] + 0x100 * data[off + 6] + 0x1_0000 * data[off + 5] + 0x100_0000 * data[off + 4]
        + 0x1_0000_0000 * data[off + 3] + 0x100_0000_0000 * data[off + 2] + 0x1_0000_0000_0000
        * data[off + 1] + 0x100_0000_0000_0000 * data[off]
}

/// The 32 bytes of a key as four numbers, most significant byte first.
pub open spec fn is_number(key: [u8; 32], a: int, b: int, c: int, d: int) -> bool {
    &&& big_word(key@, 0) == a
    &&& big_word(key@, 8) == b
    &&& big_word(key@, 16) == c
    &&& big_word(key@, 24) == d
}

/// The addresses that are known beforehand, as numbers: the system program is zero and the adapter is all
/// sevens; the others are the token program `TokenkegQfeZyiNwAJbNbGKPFXCWuBvf9Ss623VQ5DA`, the loaders
/// `BPFLoader2111111111111111111111111111111111` and `BPFLoaderUpgradeab1e11111111111111111111111`, the
/// sysvars `SysvarC1ock11111111111111111111111111111111` and `SysvarRent111111111111111111111111111111111`,
/// Percolator `Perco1ator111111111111111111111111111111111`, Squads
/// `SQDS4ep65T869zMMBKyuUq6aD6EgTu8psMjkvj52pCf` and the rewards program
/// `Rewards111111111111111111111111111111111111`.
#[verifier::spinoff_prover]
pub proof fn which_programs_are_known()
    ensures
        is_number(pubkey::SYSTEM_PROGRAM, 0, 0, 0, 0),
        is_number(
            GOVERNANCE_PROGRAM,
            0x0707_0707_0707_0707,
            0x0707_0707_0707_0707,
            0x0707_0707_0707_0707,
            0x0707_0707_0707_0707,
        ),
        is_number(
            pubkey::TOKEN_PROGRAM,
            0x06dd_f6e1_d765_a193,
            0xd9cb_e146_ceeb_79ac,
            0x1cb4_85ed_5f5b_3791,
            0x3a8c_f585_7eff_00a9,
        ),
        is_number(
            pubkey::BPF_LOADER,
            0x02a8_f691_4e88_a16e,
            0x395a_e128_948f_fa69,
            0x5693_3768_18dd_4743,
            0x5221_f3c6_0000_0000,
        ),
        is_number(
            pubkey::BPF_LOADER_UPGRADEABLE,
            0x02a8_f691_4e88_a1b0,
            0xe210_153e_f763_ae2b,
            0x00c2_b93d_16c1_24d2,
            0xc053_7a10_0480_0000,
        ),
        is_number(
            pubkey::CLOCK_SYSVAR,
            0x06a7_d517_18c7_74c9,
            0x2856_6398_691d_5eb6,
            0x8b5e_b8a3_9b4b_6d5c,
            0x7355_5b21_0000_0000,
        ),
        is_number(
            pubkey::RENT_SYSVAR,
            0x06a7_d517_192c_5c51,
            0x218c_c94c_3d4a_f17f,
            0x58da_ee08_9ba1_fd44,
            0xe3db_d98a_0000_0000,
        ),
        is_number(
            PERCOLATOR_PROGRAM,
            0x05cd_94c3_d94e_d0fa,
            0x0bba_3a74_7730_d968,
            0xb6d8_94cc_42b6_4c9b,
            0xdb0f_e79a_0000_0000,
        ),
        is_number(
            SQUADS_PROGRAM,
            0x0681_c4ce_47e2_2368,
            0xb8b1_555e_c887_af09,
            0x2efc_7efb_b66c_a3f5,
            0x2fbf_68d4_ac9c_b7a8,
        ),
        is_number(
            pubkey::REWARDS_PROGRAM,
            0x0650_d6ed_1004_d58a,
            0x8608_c592_afb5_7c68,
            0x5b7d_80fd_8513_6543,
            0x4b9c_8c60_0000_0000,
        ),
{
}

/// Each label spells its name.
#[verifier::spinoff_prover]
pub proof fn how_the_labels_are_spelled()
    ensures
        spells(addresses::MINT_AUTHORITY_LABEL@, "coin_mint_authority"@),
        spells(addresses::COIN_CFG_LABEL@, "coin_cfg"@),
        spells(addresses::MARKET_ADMIN_LABEL@, "percolator_market_admin"@),
        spells(addresses::GENESIS_CFG_LABEL@, "genesis_cfg"@),
        spells(addresses::GENESIS_VAULT_LABEL@, "genesis_vault"@),
        spells(addresses::GENESIS_POSITION_LABEL@, "genesis_position"@),
        spells(addresses::GENESIS_DISTRIBUTION_LABEL@, "genesis_distribution"@),
        spells(addresses::BUILDER_APPROVAL_LABEL@, "builder_approval"@),
        spells(addresses::PERCOLATOR_VAULT_LABEL@, "vault"@),
        spells(squads::CREATE_KEY_LABEL@, "genesis_squads"@),
        spells(squads::MULTISIG_LABEL@, "multisig"@),
        spells(governance::REWARDS_AUTHORITY_LABEL@, "rewards_authority"@),
{
    reveal_strlit("coin_mint_authority");
    reveal_strlit("coin_cfg");
    reveal_strlit("percolator_market_admin");
    reveal_strlit("genesis_cfg");
    reveal_strlit("genesis_vault");
    reveal_strlit("genesis_position");
    reveal_strlit("genesis_distribution");
    reveal_strlit("builder_approval");
    reveal_strlit("vault");
    reveal_strlit("genesis_squads");
    reveal_strlit("multisig");
    reveal_strlit("rewards_authority");
}

/// `address` is what the seeds derive for the program: the same 32 bytes and the same bump, or nothing
/// where they derive nothing.
pub open spec fn derived(address: Option<Address>, seeds: Seq<Seq<u8>>, program: Pubkey) -> bool {
    match addresses::program_address(seeds, program.bytes@) {
        Some((key, bump)) => {
            &&& address is Some
            &&& address->0.bump == bump
            &&& key.len() == 32 ==> address->0.key.bytes@ == key
        },
        None => address is None,
    }
}

proof fn lemma_derived(seeds: Seq<Seq<u8>>, program: Pubkey)
    ensures
        derived(addresses::address_of(seeds, program), seeds, program),
{
    if let Some((key, bump)) = addresses::program_address(seeds, program.bytes@) {
        if key.len() == 32 {
            terms::lemma_names(key, 0, pubkey::SYSTEM_PROGRAM);
            assert(key.subrange(0, 32) =~= key);
            assert(pubkey::key_of(key).bytes@ =~= key) by {
                terms::lemma_names(key, 0, pubkey::key_of(key).bytes);
            }
        }
    }
}

/// The seeds of a COIN's addresses: each its own label and the COIN's mint, under the rewards program; the
/// authority also names the rewards program, and is the adapter's; the multisig is Squads' own, and
/// follows from the create-key.
pub proof fn where_a_coin_has_its_places(program_id: Pubkey, mint: Pubkey)
    ensures
        ({
            let coin = CoinAddresses::of(program_id, mint);
            &&& derived(
                coin.coin_cfg,
                seq![addresses::COIN_CFG_LABEL@, mint.bytes@],
                program_id,
            )
            &&& derived(
                coin.mint_authority,
                seq![addresses::MINT_AUTHORITY_LABEL@, mint.bytes@],
                program_id,
            )
            &&& derived(
                coin.market_admin,
                seq![addresses::MARKET_ADMIN_LABEL@, mint.bytes@],
                program_id,
            )
            &&& derived(
                coin.genesis_cfg,
                seq![addresses::GENESIS_CFG_LABEL@, mint.bytes@],
                program_id,
            )
            &&& derived(
                coin.genesis_vault,
                seq![addresses::GENESIS_VAULT_LABEL@, mint.bytes@],
                program_id,
            )
            &&& derived(
                coin.create_key,
                seq![squads::CREATE_KEY_LABEL@, mint.bytes@],
                program_id,
            )
            &&& derived(
                coin.governance,
                seq![governance::REWARDS_AUTHORITY_LABEL@, program_id.bytes@, mint.bytes@],
                Pubkey { bytes: GOVERNANCE_PROGRAM },
            )
            &&& coin.create_key is None ==> coin.multisig is None
            &&& coin.create_key matches Some(key) ==> derived(
                coin.multisig,
                seq![squads::MULTISIG_LABEL@, squads::MULTISIG_LABEL@, key.key.bytes@],
                Pubkey { bytes: SQUADS_PROGRAM },
            )
        }),
{
    let coin = CoinAddresses::of(program_id, mint);
    lemma_derived(seq![addresses::COIN_CFG_LABEL@, mint.bytes@], program_id);
    lemma_derived(seq![addresses::MINT_AUTHORITY_LABEL@, mint.bytes@], program_id);
    lemma_derived(seq![addresses::MARKET_ADMIN_LABEL@, mint.bytes@], program_id);
    lemma_derived(seq![addresses::GENESIS_CFG_LABEL@, mint.bytes@], program_id);
    lemma_derived(seq![addresses::GENESIS_VAULT_LABEL@, mint.bytes@], program_id);
    lemma_derived(seq![squads::CREATE_KEY_LABEL@, mint.bytes@], program_id);
    lemma_derived(
        seq![governance::REWARDS_AUTHORITY_LABEL@, program_id.bytes@, mint.bytes@],
        Pubkey { bytes: GOVERNANCE_PROGRAM },
    );
    if coin.create_key is Some {
        lemma_derived(
            seq![
                squads::MULTISIG_LABEL@,
                squads::MULTISIG_LABEL@,
                coin.create_key->0.key.bytes@,
            ],
            Pubkey { bytes: SQUADS_PROGRAM },
        );
    }
}

/// The seeds of what belongs to a pool, a builder or a market: a position names the pool and its owner, a
/// candidate the pool and the eight bytes of its number, an approval the COIN, the builder and the hash
/// of its code, and the authority over a market's vault, which is Percolator's, the market.
pub proof fn where_records_have_their_places(
    program_id: Pubkey,
    pool: Pubkey,
    owner: Pubkey,
    id: Seq<u8>,
    mint: Pubkey,
    builder: Pubkey,
    code_hash: [u8; 32],
    slab: Pubkey,
)
    requires
        id.len() == 8,
    ensures
        derived(
            addresses::address_of(addresses::genesis_position_path(pool, owner), program_id),
            seq![addresses::GENESIS_POSITION_LABEL@, pool.bytes@, owner.bytes@],
            program_id,
        ),
        derived(
            addresses::address_of(
                addresses::genesis_distribution_path(pool, bytes::u64_of(id)),
                program_id,
            ),
            seq![addresses::GENESIS_DISTRIBUTION_LABEL@, pool.bytes@, id],
            program_id,
        ),
        derived(
            addresses::address_of(
                addresses::builder_approval_path(mint, builder, code_hash),
                program_id,
            ),
            seq![addresses::BUILDER_APPROVAL_LABEL@, mint.bytes@, builder.bytes@, code_hash@],
            program_id,
        ),
        derived(
            addresses::percolator_vault_of(slab),
            seq![addresses::PERCOLATOR_VAULT_LABEL@, slab.bytes@],
            Pubkey { bytes: PERCOLATOR_PROGRAM },
        ),
{
    terms::lemma_bytes_of_word(id);
    let position = seq![addresses::GENESIS_POSITION_LABEL@, pool.bytes@, owner.bytes@];
    let candidate = seq![addresses::GENESIS_DISTRIBUTION_LABEL@, pool.bytes@, id];
    let approval = seq![
        addresses::BUILDER_APPROVAL_LABEL@,
        mint.bytes@,
        builder.bytes@,
        code_hash@,
    ];
    assert(addresses::genesis_position_path(pool, owner) =~= position);
    assert(addresses::genesis_distribution_path(pool, bytes::u64_of(id)) =~= candidate);
    assert(addresses::builder_approval_path(mint, builder, code_hash) =~= approval);
    lemma_derived(position, program_id);
    lemma_derived(candidate, program_id);
    lemma_derived(approval, program_id);
    lemma_derived(
        seq![addresses::PERCOLATOR_VAULT_LABEL@, slab.bytes@],
        Pubkey { bytes: PERCOLATOR_PROGRAM },
    );
}

} // verus!
