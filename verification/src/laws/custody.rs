//! Where tokens go: over all instructions of the rewards program, principal goes back to whoever put it
//! in, governance draws what is left over, and COIN is minted by the vote or after the genesis.
use crate::account;
use crate::account::{Account, EffectView};
use crate::addresses;
use crate::addresses::{Address, CoinAddresses};
use crate::bytes;
use crate::checks;
use crate::coin::PHASE_LIVE;
use crate::error::ProgramError;
use crate::genesis::{GenesisConfig, GenesisDistribution, GenesisPosition};
use crate::ledger;
use crate::pubkey;
use crate::pubkey::{
    Pubkey, PERCOLATOR_PROGRAM, SQUADS_PROGRAM, SYSTEM_PROGRAM, TOKEN_PROGRAM,
};
use crate::rewards;
use crate::rewards::coin_lifecycle;
use crate::rewards::deposits;
use crate::rewards::handover;
use crate::rewards::market;
use crate::rewards::vote;
use crate::rewards::withdrawal;
use vstd::prelude::*;

verus! {

/// The effect is an instruction of the token program with the given tag.
pub open spec fn token_instruction(effect: EffectView, tag: u8) -> bool {
    effect is Invoke && effect->instruction.program_id.bytes == TOKEN_PROGRAM
        && effect->instruction.data.len() > 0 && effect->instruction.data[0] == tag
}

/// The effect moves tokens.
pub open spec fn is_transfer(effect: EffectView) -> bool {
    token_instruction(effect, 3)
}

/// The effect creates tokens.
pub open spec fn is_mint(effect: EffectView) -> bool {
    token_instruction(effect, 7)
}

/// The amount that a transfer moves, or that a minting creates.
pub open spec fn amount_of(effect: EffectView) -> u64 {
    bytes::u64_of(effect->instruction.data.subrange(1, 9))
}

/// No effect moves or creates tokens.
pub open spec fn moves_nothing(effects: Seq<EffectView>) -> bool {
    forall|i: int|
        0 <= i < effects.len() ==> !is_transfer(#[trigger] effects[i]) && !is_mint(effects[i])
}

proof fn lemma_programs_differ()
    ensures
        PERCOLATOR_PROGRAM != TOKEN_PROGRAM,
        SQUADS_PROGRAM != TOKEN_PROGRAM,
{
    assert(PERCOLATOR_PROGRAM[0] != TOKEN_PROGRAM[0]);
    assert(SQUADS_PROGRAM[1] != TOKEN_PROGRAM[1]);
}

/// The amount that is written behind a tag is read back.
pub proof fn lemma_amount(tag: u8, amount: u64, data: Seq<u8>)
    requires
        data == seq![tag] + bytes::u64_bytes(amount),
    ensures
        data.len() == 9,
        data[0] == tag,
        bytes::u64_of(data.subrange(1, 9)) == amount,
{
    bytes::lemma_u64_round_trip(amount);
    assert(data.subrange(1, 9) =~= bytes::u64_bytes(amount));
}

#[verifier::spinoff_prover]
proof fn lemma_setup_moves_nothing(
    program_id: Pubkey,
    accounts: Seq<Account>,
    data: Seq<u8>,
    slot: u64,
    coin: CoinAddresses,
)
    ensures
        coin_lifecycle::init_coin_config_outcome(program_id, accounts, data, slot, coin) is Ok
            ==> moves_nothing(
            coin_lifecycle::init_coin_config_outcome(program_id, accounts, data, slot, coin)->Ok_0,
        ),
        coin_lifecycle::activate_live_outcome(program_id, accounts, data, coin) is Ok
            ==> moves_nothing(
            coin_lifecycle::activate_live_outcome(program_id, accounts, data, coin)->Ok_0,
        ),
        coin_lifecycle::transfer_mint_authority_outcome(program_id, accounts, coin) is Ok
            ==> moves_nothing(
            coin_lifecycle::transfer_mint_authority_outcome(program_id, accounts, coin)->Ok_0,
        ),
        deposits::init_genesis_bootstrap_outcome(program_id, accounts, data, slot, coin) is Ok
            ==> moves_nothing(
            deposits::init_genesis_bootstrap_outcome(
                program_id,
                accounts,
                data,
                slot,
                coin,
            )->Ok_0,
        ),
{
}

#[verifier::spinoff_prover]
proof fn lemma_market_moves_nothing(
    program_id: Pubkey,
    accounts: Seq<Account>,
    data: Seq<u8>,
    coin: CoinAddresses,
    address: Option<Address>,
)
    ensures
        market::init_percolator_market_outcome(program_id, accounts, data, coin) is Ok
            ==> moves_nothing(
            market::init_percolator_market_outcome(program_id, accounts, data, coin)->Ok_0,
        ),
        market::percolator_admin_outcome(program_id, accounts, data, coin) is Ok
            ==> moves_nothing(
            market::percolator_admin_outcome(program_id, accounts, data, coin)->Ok_0,
        ),
        market::kickstart_genesis_market_outcome(program_id, accounts, data, coin, address) is Ok
            ==> moves_nothing(
            market::kickstart_genesis_market_outcome(
                program_id,
                accounts,
                data,
                coin,
                address,
            )->Ok_0,
        ),
        market::recover_genesis_market_outcome(program_id, accounts, data, coin, address) is Ok
            ==> moves_nothing(
            market::recover_genesis_market_outcome(
                program_id,
                accounts,
                data,
                coin,
                address,
            )->Ok_0,
        ),
{
    lemma_programs_differ();
}

#[verifier::spinoff_prover]
proof fn lemma_candidates_move_nothing(
    program_id: Pubkey,
    accounts: Seq<Account>,
    data: Seq<u8>,
    coin: CoinAddresses,
    address: Option<Address>,
)
    ensures
        vote::init_genesis_distribution_outcome(program_id, accounts, data, coin, address) is Ok
            ==> moves_nothing(
            vote::init_genesis_distribution_outcome(
                program_id,
                accounts,
                data,
                coin,
                address,
            )->Ok_0,
        ),
{
}

#[verifier::spinoff_prover]
proof fn lemma_votes_move_nothing(
    program_id: Pubkey,
    accounts: Seq<Account>,
    data: Seq<u8>,
    slot: u64,
    coin: CoinAddresses,
    address: Option<Address>,
)
    ensures
        vote::vote_genesis_distribution_outcome(
            program_id,
            accounts,
            data,
            slot,
            coin,
            address,
        ) is Ok ==> moves_nothing(
            vote::vote_genesis_distribution_outcome(
                program_id,
                accounts,
                data,
                slot,
                coin,
                address,
            )->Ok_0,
        ),
{
}

#[verifier::spinoff_prover]
proof fn lemma_handover_moves_nothing(
    program_id: Pubkey,
    accounts: Seq<Account>,
    data: Seq<u8>,
    coin: CoinAddresses,
)
    ensures
        handover::finalize_genesis_outcome(program_id, accounts, data, coin) is Ok
            ==> moves_nothing(
            handover::finalize_genesis_outcome(program_id, accounts, data, coin)->Ok_0,
        ),
        handover::init_genesis_squads_outcome(program_id, accounts, data, coin) is Ok
            ==> moves_nothing(
            handover::init_genesis_squads_outcome(program_id, accounts, data, coin)->Ok_0,
        ),
        handover::handover_genesis_squads_outcome(program_id, accounts, data, coin) is Ok
            ==> moves_nothing(
            handover::handover_genesis_squads_outcome(program_id, accounts, data, coin)->Ok_0,
        ),
{
    lemma_programs_differ();
}

#[verifier::spinoff_prover]
proof fn lemma_approvals_move_nothing(
    program_id: Pubkey,
    accounts: Seq<Account>,
    data: Seq<u8>,
    coin: CoinAddresses,
    address: Option<Address>,
)
    ensures
        handover::approve_builder_outcome(program_id, accounts, data, coin, address) is Ok
            ==> moves_nothing(
            handover::approve_builder_outcome(program_id, accounts, data, coin, address)->Ok_0,
        ),
{
}

/// A transfer is what a deposit, an exit or a draw of the surplus may ask for.
pub open spec fn transfer_allowed(
    tag: u8,
    accounts: Seq<Account>,
    effect: EffectView,
) -> bool {
    let (source, destination) = (
        effect->instruction.accounts[0].pubkey,
        effect->instruction.accounts[1].pubkey,
    );
    if tag == rewards::IX_GENESIS_DEPOSIT {
        // From the depositor, who signed, into the vault.
        let cfg = GenesisConfig::decoded(accounts[3].data@);
        &&& accounts[0].is_signer
        &&& cfg is Ok
        &&& checks::token_owned(accounts[5], cfg->Ok_0.base_mint, accounts[0].key) is Ok
        &&& source == accounts[5].key
        &&& destination == accounts[6].key && destination == cfg->Ok_0.token_vault
    } else if tag == rewards::IX_GENESIS_WITHDRAW {
        // From the vault to the depositor, who signed, and no more than the depositor's claim.
        let cfg = GenesisConfig::decoded(accounts[3].data@);
        let position = GenesisPosition::decoded(accounts[4].data@);
        &&& accounts[0].is_signer
        &&& cfg is Ok && position is Ok
        &&& position->Ok_0.owner == accounts[0].key
        &&& checks::token_owned(accounts[5], cfg->Ok_0.base_mint, accounts[0].key) is Ok
        &&& source == accounts[6].key && source == cfg->Ok_0.token_vault
        &&& destination == accounts[5].key
        &&& amount_of(effect) <= position->Ok_0.claim()
    } else if tag == rewards::IX_DRAW_GENESIS_SURPLUS {
        // From the vault, on the word of governance, after finalization, and out of the surplus.
        let cfg = GenesisConfig::decoded(accounts[2].data@);
        let vault = checks::token_account_at(accounts[6]);
        &&& cfg is Ok && cfg->Ok_0.finalized == 1
        &&& vault is Ok
        &&& source == accounts[6].key && source == cfg->Ok_0.token_vault
        &&& amount_of(effect) + cfg->Ok_0.outstanding() <= vault->Ok_0.amount
    } else {
        false
    }
}

/// COIN is created by the trigger of the winning distribution, or by governance after finalization.
pub open spec fn mint_allowed(tag: u8, accounts: Seq<Account>, effect: EffectView) -> bool {
    if tag == rewards::IX_TRIGGER_GENESIS_DISTRIBUTION {
        let cfg = GenesisConfig::decoded(accounts[1].data@);
        let candidate = GenesisDistribution::decoded(accounts[6].data@);
        &&& cfg is Ok && candidate is Ok
        &&& ledger::quorum(cfg->Ok_0) && ledger::majority(cfg->Ok_0, candidate->Ok_0)
        &&& cfg->Ok_0.minted_supply == 0
        &&& effect->instruction.accounts[1].pubkey == candidate->Ok_0.destination
        &&& amount_of(effect) == cfg->Ok_0.reward_supply
    } else if tag == rewards::IX_MINT_REWARD {
        let cfg = GenesisConfig::decoded(accounts[7].data@);
        cfg is Ok && cfg->Ok_0.finalized == 1
    } else {
        false
    }
}

proof fn lemma_settlement_bound(claim: u64, vault: u64, outstanding: u64)
    requires
        ledger::recoverable(claim, vault, outstanding) is Ok,
    ensures
        ledger::recoverable(claim, vault, outstanding)->Ok_0 <= claim,
{
    if claim != 0 && vault < outstanding {
        ledger::lemma_share_bound(claim as int, vault as int, outstanding as int);
    }
}

proof fn lemma_payment(
    accounts: Seq<Account>,
    amount: u64,
    bump: u8,
    cfg: GenesisConfig,
    position: GenesisPosition,
)
    requires
        accounts.len() >= 9,
        amount <= position.claim(),
        accounts[0].is_signer,
        GenesisConfig::decoded(accounts[3].data@) == Ok::<GenesisConfig, ProgramError>(cfg),
        GenesisPosition::decoded(accounts[4].data@) == Ok::<GenesisPosition, ProgramError>(
            position,
        ),
        position.owner == accounts[0].key,
        checks::token_owned(accounts[5], cfg.base_mint, accounts[0].key) is Ok,
        accounts[6].key == cfg.token_vault,
    ensures
        forall|i: int|
            0 <= i < withdrawal::payment(accounts, amount, bump).len() ==> {
                let effect = #[trigger] withdrawal::payment(accounts, amount, bump)[i];
                !is_mint(effect) && (is_transfer(effect) ==> transfer_allowed(
                    rewards::IX_GENESIS_WITHDRAW,
                    accounts,
                    effect,
                ))
            },
{
    if amount > 0 {
        let effect = withdrawal::payment(accounts, amount, bump)[0];
        lemma_amount(3, amount, effect->instruction.data);
    }
}

#[verifier::spinoff_prover]
#[verifier::rlimit(40)]
proof fn lemma_withdrawal(
    program_id: Pubkey,
    accounts: Seq<Account>,
    data: Seq<u8>,
    coin: CoinAddresses,
    address: Option<Address>,
    percolator_vault: Option<Address>,
    i: int,
)
    requires
        withdrawal::genesis_withdraw_outcome(
            program_id,
            accounts,
            data,
            coin,
            address,
            percolator_vault,
        ) is Ok,
        0 <= i < withdrawal::genesis_withdraw_outcome(
            program_id,
            accounts,
            data,
            coin,
            address,
            percolator_vault,
        )->Ok_0.effects.len(),
    ensures
        ({
            let effect = withdrawal::genesis_withdraw_outcome(
                program_id,
                accounts,
                data,
                coin,
                address,
                percolator_vault,
            )->Ok_0.effects[i];
            !is_mint(effect) && (is_transfer(effect) ==> transfer_allowed(
                rewards::IX_GENESIS_WITHDRAW,
                accounts,
                effect,
            ))
        }),
{
    lemma_programs_differ();
    let cfg = GenesisConfig::decoded(accounts[3].data@)->Ok_0;
    let position = GenesisPosition::decoded(accounts[4].data@)->Ok_0;
    let vault = checks::token_account_at(accounts[6])->Ok_0.amount;
    let bump = coin.market_admin->0.bump;
    if cfg.finalized == 1 {
        if position.claim() != 0 {
            lemma_settlement_bound(position.claim(), vault, cfg.outstanding());
            let exit = ledger::settled(cfg, position, vault)->Ok_0;
            lemma_payment(accounts, exit.paid, bump, cfg, position);
        }
    } else if cfg.kicked != 1 {
        let exit = ledger::refunded(cfg, position, vault);
        lemma_payment(accounts, exit.paid, bump, cfg, position);
    }
}

#[verifier::spinoff_prover]
proof fn lemma_deposit_and_draw(
    program_id: Pubkey,
    accounts: Seq<Account>,
    data: Seq<u8>,
    slot: u64,
    coin: CoinAddresses,
    address: Option<Address>,
    i: int,
)
    ensures
        ({
            let outcome = deposits::genesis_deposit_outcome(
                program_id,
                accounts,
                data,
                slot,
                coin,
                address,
            );
            outcome is Ok && 0 <= i < outcome->Ok_0.len() ==> !is_mint(outcome->Ok_0[i]) && (
            is_transfer(outcome->Ok_0[i]) ==> transfer_allowed(
                rewards::IX_GENESIS_DEPOSIT,
                accounts,
                outcome->Ok_0[i],
            ))
        }),
        ({
            let outcome = handover::draw_genesis_surplus_outcome(
                program_id,
                accounts,
                data,
                coin,
            );
            outcome is Ok && 0 <= i < outcome->Ok_0.len() ==> !is_mint(outcome->Ok_0[i]) && (
            is_transfer(outcome->Ok_0[i]) ==> transfer_allowed(
                rewards::IX_DRAW_GENESIS_SURPLUS,
                accounts,
                outcome->Ok_0[i],
            ))
        }),
{
    let amount = bytes::u64_of(data.subrange(0, 8));
    lemma_amount(3, amount, seq![3u8] + bytes::u64_bytes(amount));
}

#[verifier::spinoff_prover]
proof fn lemma_mints(
    program_id: Pubkey,
    accounts: Seq<Account>,
    data: Seq<u8>,
    coin: CoinAddresses,
    i: int,
)
    ensures
        ({
            let outcome = vote::trigger_genesis_distribution_outcome(
                program_id,
                accounts,
                data,
                coin,
            );
            outcome is Ok && 0 <= i < outcome->Ok_0.len() ==> !is_transfer(outcome->Ok_0[i]) && (
            is_mint(outcome->Ok_0[i]) ==> mint_allowed(
                rewards::IX_TRIGGER_GENESIS_DISTRIBUTION,
                accounts,
                outcome->Ok_0[i],
            ))
        }),
        ({
            let outcome = coin_lifecycle::mint_reward_outcome(program_id, accounts, data, coin);
            outcome is Ok && 0 <= i < outcome->Ok_0.len() ==> !is_transfer(outcome->Ok_0[i]) && (
            is_mint(outcome->Ok_0[i]) ==> mint_allowed(
                rewards::IX_MINT_REWARD,
                accounts,
                outcome->Ok_0[i],
            ))
        }),
{
    let supply = GenesisConfig::decoded(accounts[1].data@)->Ok_0.reward_supply;
    lemma_amount(7, supply, seq![7u8] + bytes::u64_bytes(supply));
    let amount = bytes::u64_of(data.subrange(0, 8));
    lemma_amount(7, amount, seq![7u8] + bytes::u64_bytes(amount));
}

/// Nobody diverts principal, and nobody dilutes the vote. Whatever instruction the rewards program is
/// given: where it moves tokens, that is a deposit, an exit to the depositor's own account within the
/// depositor's claim, or a draw of what the vault holds beyond the outstanding principal; and where it
/// creates COIN, that is the whole supply for the winner of the vote, or a minting after finalization.
#[verifier::spinoff_prover]
#[verifier::rlimit(60)]
pub proof fn nobody_diverts_principal(
    program_id: Pubkey,
    accounts: Seq<Account>,
    instruction_data: Seq<u8>,
    slot: u64,
    i: int,
)
    ensures
        rewards::process_outcome(program_id, accounts, instruction_data, slot) matches Ok(plan)
            ==> 0 <= i < plan.effects.len() ==> {
            let effect = plan.effects[i];
            &&& is_transfer(effect) ==> transfer_allowed(instruction_data[0], accounts, effect)
            &&& is_mint(effect) ==> mint_allowed(instruction_data[0], accounts, effect)
        },
{
    let tag = instruction_data[0];
    let data = instruction_data.subrange(1, instruction_data.len() as int);
    let first = CoinAddresses::of(program_id, accounts[1].key);
    let second = CoinAddresses::of(program_id, accounts[2].key);
    let third = CoinAddresses::of(program_id, accounts[3].key);
    let position = rewards::position_of(program_id, accounts[3].key, accounts[0].key);
    let outcome = rewards::process_outcome(program_id, accounts, instruction_data, slot);
    if outcome is Err || !(0 <= i < outcome->Ok_0.effects.len()) {
        // A refusal has no effects.
    } else if tag == rewards::IX_GENESIS_WITHDRAW {
        lemma_withdrawal(
            program_id,
            accounts,
            data,
            first,
            position,
            addresses::percolator_vault_of(accounts[9].key),
            i,
        );
    } else if tag == rewards::IX_GENESIS_DEPOSIT {
        lemma_deposit_and_draw(program_id, accounts, data, slot, first, position, i);
    } else if tag == rewards::IX_DRAW_GENESIS_SURPLUS {
        lemma_deposit_and_draw(program_id, accounts, data, slot, third, position, i);
    } else if tag == rewards::IX_TRIGGER_GENESIS_DISTRIBUTION || tag == rewards::IX_MINT_REWARD {
        lemma_mints(program_id, accounts, data, second, i);
    } else if tag == rewards::IX_INIT_PERCOLATOR_MARKET {
        lemma_market_moves_nothing(program_id, accounts, data, first, None);
    } else if tag == rewards::IX_PERCOLATOR_ADMIN || tag == rewards::IX_KICKSTART_GENESIS_MARKET
        || tag == rewards::IX_RECOVER_GENESIS_MARKET {
        lemma_market_moves_nothing(
            program_id,
            accounts,
            data,
            second,
            addresses::percolator_vault_of(accounts[6].key),
        );
    } else if tag == rewards::IX_INIT_GENESIS_DISTRIBUTION {
        lemma_candidates_move_nothing(
            program_id,
            accounts,
            data,
            first,
            addresses::address_of(
                addresses::genesis_distribution_path(
                    accounts[3].key,
                    bytes::u64_of(data.subrange(0, 8)),
                ),
                program_id,
            ),
        );
    } else if tag == rewards::IX_VOTE_GENESIS_DISTRIBUTION {
        lemma_votes_move_nothing(program_id, accounts, data, slot, first, position);
    } else if tag == rewards::IX_APPROVE_BUILDER {
        lemma_approvals_move_nothing(
            program_id,
            accounts,
            data,
            second,
            addresses::address_of(
                addresses::builder_approval_path(
                    accounts[2].key,
                    accounts[4].key,
                    pubkey::key_of(data.subrange(0, 32)).bytes,
                ),
                program_id,
            ),
        );
    } else if tag == rewards::IX_FINALIZE_GENESIS {
        lemma_handover_moves_nothing(program_id, accounts, data, third);
    } else if tag == rewards::IX_INIT_GENESIS_SQUADS || tag == rewards::IX_HANDOVER_GENESIS_SQUADS {
        lemma_handover_moves_nothing(program_id, accounts, data, second);
    } else {
        lemma_setup_moves_nothing(program_id, accounts, data, slot, second);
    }
}

/// The effect mints COIN of `coin_mint` on the word of the authority that the rewards program derives
/// for it, which signs with its own seeds.
pub open spec fn signed_by_mint_authority(
    effect: EffectView,
    coin_mint: Pubkey,
    coin: CoinAddresses,
) -> bool {
    &&& coin.mint_authority is Some
    &&& effect->instruction.accounts.len() == 3
    &&& effect->instruction.accounts[0] == account::writable(coin_mint, false)
    &&& effect->instruction.accounts[2] == account::readonly(coin.mint_authority->0.key, true)
    &&& effect->Invoke_signer == addresses::signer_seeds(
        addresses::mint_authority_path(coin_mint),
        coin.mint_authority->0.bump,
    )
}

#[verifier::spinoff_prover]
proof fn lemma_mint_authority(
    program_id: Pubkey,
    accounts: Seq<Account>,
    data: Seq<u8>,
    coin: CoinAddresses,
    i: int,
)
    ensures
        ({
            let outcome = vote::trigger_genesis_distribution_outcome(
                program_id,
                accounts,
                data,
                coin,
            );
            outcome is Ok && 0 <= i < outcome->Ok_0.len() && is_mint(outcome->Ok_0[i])
                ==> signed_by_mint_authority(outcome->Ok_0[i], accounts[2].key, coin)
        }),
        ({
            let outcome = coin_lifecycle::mint_reward_outcome(program_id, accounts, data, coin);
            outcome is Ok && 0 <= i < outcome->Ok_0.len() && is_mint(outcome->Ok_0[i])
                ==> signed_by_mint_authority(outcome->Ok_0[i], accounts[2].key, coin)
        }),
{
}

/// COIN is minted on the word of one authority only: whatever instruction the rewards program is given,
/// where it mints, it mints as the authority that it derives for the COIN. Whether the token program
/// follows is up to the mint: once the mint names another authority, or none, this one is a stranger
/// to it.
#[verifier::spinoff_prover]
#[verifier::rlimit(60)]
pub proof fn only_the_derived_authority_mints(
    program_id: Pubkey,
    accounts: Seq<Account>,
    instruction_data: Seq<u8>,
    slot: u64,
    i: int,
)
    ensures
        rewards::process_outcome(program_id, accounts, instruction_data, slot) matches Ok(plan)
            ==> 0 <= i < plan.effects.len() && is_mint(plan.effects[i])
            ==> signed_by_mint_authority(
            plan.effects[i],
            accounts[2].key,
            CoinAddresses::of(program_id, accounts[2].key),
        ),
{
    nobody_diverts_principal(program_id, accounts, instruction_data, slot, i);
    let data = instruction_data.subrange(1, instruction_data.len() as int);
    lemma_mint_authority(
        program_id,
        accounts,
        data,
        CoinAddresses::of(program_id, accounts[2].key),
        i,
    );
}

/// The mint is handed on as asked, on the word of governance, once the COIN is live: one call of the
/// token program, signed by the derived authority, that names the new authority in its place, or nobody
/// where the account handed over is the zero address.
pub proof fn the_mint_is_handed_on_as_asked(
    program_id: Pubkey,
    accounts: Seq<Account>,
    coin: CoinAddresses,
)
    requires
        coin_lifecycle::transfer_mint_authority_outcome(program_id, accounts, coin) is Ok,
    ensures
        checks::governed_config(accounts[1], accounts[3], coin, program_id) is Ok,
        checks::governed_config(accounts[1], accounts[3], coin, program_id)->Ok_0.phase
            == PHASE_LIVE,
        ({
            let effects = coin_lifecycle::transfer_mint_authority_outcome(
                program_id,
                accounts,
                coin,
            )->Ok_0;
            let call = effects[0]->instruction;
            let handed_to = accounts[5].key;
            &&& effects.len() == 1 && effects[0] is Invoke
            &&& call.program_id.bytes == TOKEN_PROGRAM
            &&& call.accounts == seq![
                account::writable(accounts[2].key, false),
                account::readonly(coin.mint_authority->0.key, true),
            ]
            &&& effects[0]->Invoke_signer == addresses::signer_seeds(
                addresses::mint_authority_path(accounts[2].key),
                coin.mint_authority->0.bump,
            )
            &&& handed_to.bytes == SYSTEM_PROGRAM ==> call.data == seq![6u8, 0u8, 0u8]
            &&& handed_to.bytes != SYSTEM_PROGRAM ==> call.data == seq![6u8, 0u8, 1u8] + handed_to@
        }),
{
}

/// A COIN is set up on a mint that nobody but the derived authority can mint, and nobody can freeze.
pub proof fn a_coin_starts_on_a_mint_of_its_own(
    program_id: Pubkey,
    accounts: Seq<Account>,
    data: Seq<u8>,
    slot: u64,
    coin: CoinAddresses,
)
    requires
        coin_lifecycle::init_coin_config_outcome(program_id, accounts, data, slot, coin) is Ok,
    ensures
        ({
            let mint = checks::mint_at(accounts[2]);
            &&& mint is Ok
            &&& mint->Ok_0.freeze_authority is None
            &&& coin.mint_authority is Some
            &&& mint->Ok_0.mint_authority == Some(coin.mint_authority->0.key)
        }),
{
}

/// The second step of an exit out of the market pays the depositor's own account, no more than the
/// market gave back and no more than the claim.
pub proof fn a_pull_is_paid_to_its_owner(
    accounts: Seq<Account>,
    exit: withdrawal::MarketExit,
    i: int,
)
    requires
        withdrawal::market_exit_outcome(accounts, exit) is Ok,
        0 <= i < withdrawal::market_exit_outcome(accounts, exit)->Ok_0.len(),
        exit.vault_before <= checks::token_account_at(accounts[6])->Ok_0.amount,
    ensures
        ({
            let effect = withdrawal::market_exit_outcome(accounts, exit)->Ok_0[i];
            &&& !is_mint(effect)
            &&& is_transfer(effect) ==> {
                &&& effect->instruction.accounts[0].pubkey == accounts[6].key
                &&& effect->instruction.accounts[1].pubkey == accounts[5].key
                &&& amount_of(effect) <= exit.position.claim()
                &&& amount_of(effect) + exit.vault_before <= checks::token_account_at(
                    accounts[6],
                )->Ok_0.amount
            }
        }),
{
    let vault = checks::token_account_at(accounts[6])->Ok_0.amount;
    let after = ledger::exited(exit.cfg, exit.position, (vault - exit.vault_before) as u64)->Ok_0;
    if after.paid > 0 {
        let effect = withdrawal::payment(accounts, after.paid, exit.admin_bump)[0];
        lemma_amount(3, after.paid, effect->instruction.data);
    }
}

} // verus!
