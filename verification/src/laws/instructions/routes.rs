//! Which instruction a tag names, and which accounts its addresses follow from.
use crate::account::{Account, EffectView};
use crate::addresses;
use crate::addresses::{Address, CoinAddresses};
use crate::bytes;
use crate::error::ProgramError;
use crate::governance;
use crate::governance::forwarding;
use crate::pubkey;
use crate::pubkey::Pubkey;
use crate::rewards;
use crate::rewards::withdrawal::PlanView;
use crate::rewards::{coin_lifecycle, deposits, handover, market, vote, withdrawal};
use vstd::prelude::*;

verus! {

/// The instruction does what the handler does, and nothing is left to complete.
pub open spec fn runs(
    r: Result<PlanView, ProgramError>,
    handler: Result<Seq<EffectView>, ProgramError>,
) -> bool {
    &&& r is Ok <==> handler is Ok
    &&& r is Ok ==> r->Ok_0.effects == handler->Ok_0 && r->Ok_0.exit is None
    &&& r is Err ==> r->Err_0 == handler->Err_0
}

/// The tags of a COIN's own life: 3 registers it, 11 makes it live, 8 mints later, 10 ends its mint
/// authority. The COIN is that of the third account.
pub proof fn the_tags_of_a_coin(
    program_id: Pubkey,
    accounts: Seq<Account>,
    data: Seq<u8>,
    slot: u64,
)
    requires
        data.len() > 0,
    ensures
        ({
            let r = rewards::process_outcome(program_id, accounts, data, slot);
            let rest = data.skip(1);
            let coin = CoinAddresses::of(program_id, accounts[2].key);
            &&& data[0] == 3 ==> runs(
                r,
                coin_lifecycle::init_coin_config_outcome(program_id, accounts, rest, slot, coin),
            )
            &&& data[0] == 11 ==> runs(
                r,
                coin_lifecycle::activate_live_outcome(program_id, accounts, rest, coin),
            )
            &&& data[0] == 8 ==> runs(
                r,
                coin_lifecycle::mint_reward_outcome(program_id, accounts, rest, coin),
            )
            &&& data[0] == 10 ==> runs(
                r,
                coin_lifecycle::transfer_mint_authority_outcome(program_id, accounts, coin),
            )
        }),
{
    assert(data.skip(1) =~= data.subrange(1, data.len() as int));
}

/// The address of the depositor's position: the pool is the fourth account, the depositor the first.
pub open spec fn position_place(program_id: Pubkey, accounts: Seq<Account>) -> Option<Address> {
    addresses::address_of(
        seq![
            addresses::GENESIS_POSITION_LABEL@,
            accounts[3].key.bytes@,
            accounts[0].key.bytes@,
        ],
        program_id,
    )
}

/// The tags of a depositor: 21 opens the pool, 22 deposits, 23 leaves, 29 proposes, 30 votes, 24 mints
/// the supply. The COIN of the opening and the mint is that of the third account, and else that of the
/// second.
pub proof fn the_tags_of_a_pool(
    program_id: Pubkey,
    accounts: Seq<Account>,
    data: Seq<u8>,
    slot: u64,
)
    requires
        data.len() > 0,
    ensures
        ({
            let r = rewards::process_outcome(program_id, accounts, data, slot);
            let rest = data.skip(1);
            let first = CoinAddresses::of(program_id, accounts[1].key);
            let second = CoinAddresses::of(program_id, accounts[2].key);
            let position = position_place(program_id, accounts);
            &&& data[0] == 21 ==> runs(
                r,
                deposits::init_genesis_bootstrap_outcome(
                    program_id,
                    accounts,
                    rest,
                    slot,
                    second,
                ),
            )
            &&& data[0] == 22 ==> runs(
                r,
                deposits::genesis_deposit_outcome(
                    program_id,
                    accounts,
                    rest,
                    slot,
                    first,
                    position,
                ),
            )
            &&& data[0] == 23 ==> r == withdrawal::genesis_withdraw_outcome(
                program_id,
                accounts,
                rest,
                first,
                position,
                addresses::percolator_vault_of(accounts[9].key),
            )
            &&& data[0] == 24 ==> runs(
                r,
                vote::trigger_genesis_distribution_outcome(program_id, accounts, rest, second),
            )
            &&& data[0] == 29 ==> runs(
                r,
                vote::init_genesis_distribution_outcome(
                    program_id,
                    accounts,
                    rest,
                    first,
                    addresses::address_of(
                        addresses::genesis_distribution_path(
                            accounts[3].key,
                            bytes::u64_of(rest.subrange(0, 8)),
                        ),
                        program_id,
                    ),
                ),
            )
            &&& data[0] == 30 ==> runs(
                r,
                vote::vote_genesis_distribution_outcome(
                    program_id,
                    accounts,
                    rest,
                    slot,
                    first,
                    position,
                ),
            )
        }),
{
    assert(data.skip(1) =~= data.subrange(1, data.len() as int));
    assert(addresses::genesis_position_path(accounts[3].key, accounts[0].key) =~= seq![
        addresses::GENESIS_POSITION_LABEL@,
        accounts[3].key.bytes@,
        accounts[0].key.bytes@,
    ]);
}

/// The tags of the markets and of the handover: 19 opens a market, 20 governs one, 27 deploys the pool,
/// 28 recovers, 25 finalizes, 26 draws the surplus, 31 approves a builder, 32 creates the multisig and 33
/// hands it over. The COIN is that of the second account for a new market, of the fourth for 25 and 26,
/// and else of the third; the market of 27 and 28 is the seventh account.
pub proof fn the_tags_of_markets_and_handover(
    program_id: Pubkey,
    accounts: Seq<Account>,
    data: Seq<u8>,
    slot: u64,
)
    requires
        data.len() > 0,
    ensures
        ({
            let r = rewards::process_outcome(program_id, accounts, data, slot);
            let rest = data.skip(1);
            let first = CoinAddresses::of(program_id, accounts[1].key);
            let second = CoinAddresses::of(program_id, accounts[2].key);
            let third = CoinAddresses::of(program_id, accounts[3].key);
            let vault = addresses::percolator_vault_of(accounts[6].key);
            &&& data[0] == 19 ==> runs(
                r,
                market::init_percolator_market_outcome(program_id, accounts, rest, first),
            )
            &&& data[0] == 20 ==> runs(
                r,
                market::percolator_admin_outcome(program_id, accounts, rest, second),
            )
            &&& data[0] == 25 ==> runs(
                r,
                handover::finalize_genesis_outcome(program_id, accounts, rest, third),
            )
            &&& data[0] == 26 ==> runs(
                r,
                handover::draw_genesis_surplus_outcome(program_id, accounts, rest, third),
            )
            &&& data[0] == 27 ==> runs(
                r,
                market::kickstart_genesis_market_outcome(
                    program_id,
                    accounts,
                    rest,
                    second,
                    vault,
                ),
            )
            &&& data[0] == 28 ==> runs(
                r,
                market::recover_genesis_market_outcome(program_id, accounts, rest, second, vault),
            )
            &&& data[0] == 31 ==> runs(
                r,
                handover::approve_builder_outcome(
                    program_id,
                    accounts,
                    rest,
                    second,
                    addresses::address_of(
                        addresses::builder_approval_path(
                            accounts[2].key,
                            accounts[4].key,
                            pubkey::key_of(rest.subrange(0, 32)).bytes,
                        ),
                        program_id,
                    ),
                ),
            )
            &&& data[0] == 32 ==> runs(
                r,
                handover::init_genesis_squads_outcome(program_id, accounts, rest, second),
            )
            &&& data[0] == 33 ==> runs(
                r,
                handover::handover_genesis_squads_outcome(program_id, accounts, rest, second),
            )
        }),
{
    assert(data.skip(1) =~= data.subrange(1, data.len() as int));
}

/// Every other tag is refused, and so is an instruction without one.
pub proof fn no_other_tags(
    program_id: Pubkey,
    accounts: Seq<Account>,
    data: Seq<u8>,
    slot: u64,
)
    requires
        data.len() == 0 || !(data[0] == 3 || data[0] == 8 || data[0] == 10 || data[0] == 11 || 19
            <= data[0] <= 33),
    ensures
        rewards::process_outcome(program_id, accounts, data, slot) == Err::<PlanView, ProgramError>(
            ProgramError::InvalidInstructionData,
        ),
{
}

/// The slot of the clock is read for a registration (3), an opening (21), a deposit (22) and a vote (30).
pub proof fn which_instructions_read_the_slot(data: Seq<u8>)
    ensures
        rewards::reads_slot(data) <==> data.len() > 0 && (data[0] == 3 || data[0] == 21 || data[0]
            == 22 || data[0] == 30),
{
}

/// The adapter's tags. The authority is that of the COIN of the fourth account under the rewards program
/// of the third; for finalization (12) and the surplus (13) it is that of the COIN of the fifth.
pub proof fn the_tags_of_the_adapter(program_id: Pubkey, accounts: Seq<Account>, data: Seq<u8>)
    requires
        data.len() > 0,
    ensures
        ({
            let r = governance::process_outcome(program_id, accounts, data);
            let rest = data.skip(1);
            let third = governance::authority_of(accounts[2].key, accounts[3].key);
            let fourth = governance::authority_of(accounts[2].key, accounts[4].key);
            &&& data[0] == 0 ==> r == forwarding::init_authority_outcome(
                program_id,
                accounts,
                third,
            )
            &&& data[0] == 1 ==> r == forwarding::init_coin_config_outcome(
                program_id,
                accounts,
                rest,
                third,
            )
            &&& data[0] == 4 ==> r == forwarding::mint_reward_outcome(
                program_id,
                accounts,
                rest,
                third,
            )
            &&& data[0] == 6 ==> r == forwarding::transfer_mint_authority_outcome(
                program_id,
                accounts,
                third,
            )
            &&& data[0] == 7 ==> r == forwarding::activate_live_outcome(
                program_id,
                accounts,
                rest,
                third,
            )
            &&& data[0] == 9 ==> r == forwarding::percolator_admin_outcome(
                program_id,
                accounts,
                rest,
                third,
            )
            &&& data[0] == 10 ==> r == forwarding::init_genesis_bootstrap_outcome(
                program_id,
                accounts,
                rest,
                third,
            )
            &&& data[0] == 12 ==> r == forwarding::finalize_genesis_outcome(
                program_id,
                accounts,
                rest,
                fourth,
            )
            &&& data[0] == 13 ==> r == forwarding::draw_genesis_surplus_outcome(
                program_id,
                accounts,
                rest,
                fourth,
            )
            &&& data[0] == 14 ==> r == forwarding::kickstart_genesis_market_outcome(
                program_id,
                accounts,
                rest,
                third,
            )
            &&& data[0] == 15 ==> r == forwarding::recover_genesis_market_outcome(
                program_id,
                accounts,
                rest,
                third,
            )
            &&& data[0] == 16 ==> r == forwarding::approve_builder_outcome(
                program_id,
                accounts,
                rest,
                third,
            )
            &&& data[0] == 17 ==> r == forwarding::init_genesis_squads_outcome(
                program_id,
                accounts,
                rest,
                third,
            )
            &&& data[0] == 18 ==> r == forwarding::handover_genesis_squads_outcome(
                program_id,
                accounts,
                rest,
                third,
            )
        }),
{
    assert(data.skip(1) =~= data.subrange(1, data.len() as int));
}

/// The adapter refuses every other tag, and an instruction without one.
pub proof fn no_other_tags_of_the_adapter(
    program_id: Pubkey,
    accounts: Seq<Account>,
    data: Seq<u8>,
)
    requires
        data.len() == 0 || data[0] == 2 || data[0] == 3 || data[0] == 5 || data[0] == 8 || data[0]
            == 11 || data[0] > 18,
    ensures
        governance::process_outcome(program_id, accounts, data) == Err::<
            Seq<EffectView>,
            ProgramError,
        >(ProgramError::InvalidInstructionData),
{
}

} // verus!
