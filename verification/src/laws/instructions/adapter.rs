//! The adapter: who it obeys, and what it hands on to the rewards program.
use crate::account;
use crate::account::{Account, AccountMeta, EffectView};
use crate::addresses::Address;
use crate::error::ProgramError;
use crate::governance;
use crate::governance::forwarding;
use crate::governance::AuthorityConfig;
use crate::laws::changes;
use crate::laws::faults;
use crate::laws::terms;
use crate::pubkey::{Pubkey, SYSTEM_PROGRAM};
use crate::token;
use vstd::prelude::*;

verus! {

/// The first account signed, and the second is the COIN's authority, whose controller it is.
pub open spec fn asked_by_controller(
    program_id: Pubkey,
    accounts: Seq<Account>,
    address: Option<Address>,
) -> bool {
    &&& accounts[0].is_signer
    &&& terms::stands(accounts[1], address)
    &&& accounts[1].owner == program_id
    &&& AuthorityConfig::decoded(accounts[1].data@) is Ok
    &&& AuthorityConfig::decoded(accounts[1].data@)->Ok_0.controller == accounts[0].key
}

/// One call of the rewards program (the third account) with `data`: the payer and the authority, which
/// signs with the seeds of the COIN's authority, and then the accounts from index 3 on as `rest` names
/// them.
pub open spec fn hands_on(
    effects: Seq<EffectView>,
    accounts: Seq<Account>,
    coin_mint: Pubkey,
    bump: u8,
    rest: int,
    data: Seq<u8>,
) -> bool {
    let metas = effects[0]->instruction.accounts;
    let infos = effects[0]->accounts;
    &&& effects.len() == 1
    &&& effects[0] is Invoke
    &&& effects[0]->instruction.program_id == accounts[2].key
    &&& effects[0]->instruction.data == data
    &&& effects[0]->Invoke_signer == seq![
        governance::REWARDS_AUTHORITY_LABEL@,
        accounts[2].key.bytes@,
        coin_mint.bytes@,
        seq![bump],
    ]
    &&& metas.len() == rest + 2
    &&& metas[0] == terms::paying(accounts[0].key)
    &&& metas[1] == terms::signing(accounts[1].key)
    &&& forall|i: int|
        3 <= i < rest + 3 ==> metas[i - 1].pubkey == (#[trigger] accounts[i]).key
    &&& infos.len() == rest + 3
    &&& infos[0] == 0 && infos[1] == 1 && infos[rest + 2] == 2
    &&& accounts.len() <= usize::MAX ==> forall|i: int|
        3 <= i < rest + 3 ==> #[trigger] infos[i - 1] == i
}

/// None of the accounts behind the authority signs, and those are writable that `writable` says.
pub open spec fn flags(effects: Seq<EffectView>, writable: Seq<bool>) -> bool {
    forall|i: int|
        0 <= i < writable.len() ==> {
            let meta = #[trigger] effects[0]->instruction.accounts[i + 2];
            !meta.is_signer && meta.is_writable == writable[i]
        }
}

/// The instruction is handed on exactly where the controller asked for it and `ready` holds, with the
/// given flags.
pub open spec fn obeys(
    r: Result<Seq<EffectView>, ProgramError>,
    program_id: Pubkey,
    accounts: Seq<Account>,
    address: Option<Address>,
    ready: bool,
    coin_mint: Pubkey,
    writable: Seq<bool>,
    data: Seq<u8>,
) -> bool {
    &&& r is Ok <==> ready && asked_by_controller(program_id, accounts, address)
    &&& r matches Ok(effects) ==> {
        &&& hands_on(effects, accounts, coin_mint, address->0.bump, writable.len() as int, data)
        &&& flags(effects, writable)
    }
}

#[verifier::spinoff_prover]
proof fn lemma_forwarded(
    program_id: Pubkey,
    accounts: Seq<Account>,
    coin_mint: Pubkey,
    rest: Seq<AccountMeta>,
    data: Seq<u8>,
    address: Option<Address>,
)
    requires
        accounts.len() >= rest.len() + 3,
        forall|i: int| 0 <= i < rest.len() ==> (#[trigger] rest[i]).pubkey == accounts[3 + i].key,
    ensures
        ({
            let r = forwarding::forwarded(program_id, accounts, coin_mint, rest, data, address);
            &&& r is Ok <==> asked_by_controller(program_id, accounts, address)
            &&& r matches Ok(effects) ==> {
                &&& hands_on(
                    effects,
                    accounts,
                    coin_mint,
                    address->0.bump,
                    rest.len() as int,
                    data,
                )
                &&& forall|i: int|
                    0 <= i < rest.len() ==> #[trigger] effects[0]->instruction.accounts[i + 2]
                        == rest[i]
            }
        }),
{
    let r = forwarding::forwarded(program_id, accounts, coin_mint, rest, data, address);
    if r is Ok {
        let effects = r->Ok_0;
        let metas = effects[0]->instruction.accounts;
        let infos = effects[0]->accounts;
        assert(effects[0]->Invoke_signer =~= seq![
            governance::REWARDS_AUTHORITY_LABEL@,
            accounts[2].key.bytes@,
            coin_mint.bytes@,
            seq![address->0.bump],
        ]);
        assert forall|i: int| 3 <= i < rest.len() + 3 implies metas[i - 1].pubkey == (
        #[trigger] accounts[i]).key by {
            assert(metas[i - 1] == rest[i - 3]);
            assert(rest[i - 3].pubkey == accounts[3 + (i - 3)].key);
        }
        if accounts.len() <= usize::MAX {
            assert forall|i: int| 3 <= i < rest.len() + 3 implies #[trigger] infos[i - 1] == i by {
                assert(infos[i - 1] == (3 + (i - 3)) as usize);
            }
        }
    }
}

proof fn lemma_flagged(
    program_id: Pubkey,
    accounts: Seq<Account>,
    coin_mint: Pubkey,
    writable: Seq<bool>,
    data: Seq<u8>,
    address: Option<Address>,
)
    requires
        accounts.len() >= writable.len() + 3,
    ensures
        obeys(
            forwarding::forwarded(
                program_id,
                accounts,
                coin_mint,
                forwarding::flagged(accounts, writable),
                data,
                address,
            ),
            program_id,
            accounts,
            address,
            true,
            coin_mint,
            writable,
            data,
        ),
{
    lemma_forwarded(
        program_id,
        accounts,
        coin_mint,
        forwarding::flagged(accounts, writable),
        data,
        address,
    );
}

/// Why the adapter does not obey: a signature is missing, the authority stands elsewhere, is somebody
/// else's or cannot be read, or another controls it.
pub open spec fn controller_fault(
    program_id: Pubkey,
    accounts: Seq<Account>,
    address: Option<Address>,
) -> Option<ProgramError> {
    let cfg = AuthorityConfig::decoded(accounts[1].data@);
    let f = faults::unless(None, accounts[0].is_signer, ProgramError::MissingRequiredSignature);
    let f = faults::or_else(
        f,
        faults::record_fault(accounts[1], address, program_id, cfg is Ok),
    );
    faults::unless(
        f,
        cfg->Ok_0.controller == accounts[0].key,
        ProgramError::MissingRequiredSignature,
    )
}

/// Why an instruction that counts its accounts before it looks at the data is refused.
pub open spec fn accounts_first(
    program_id: Pubkey,
    accounts: Seq<Account>,
    address: Option<Address>,
    count: int,
    well_formed: bool,
) -> Option<ProgramError> {
    let f = faults::unless(None, accounts.len() >= count, ProgramError::NotEnoughAccountKeys);
    let f = faults::unless(f, well_formed, ProgramError::InvalidInstructionData);
    faults::or_else(f, controller_fault(program_id, accounts, address))
}

/// Why an instruction that looks at the data before it counts its accounts is refused.
pub open spec fn data_first(
    program_id: Pubkey,
    accounts: Seq<Account>,
    address: Option<Address>,
    count: int,
    well_formed: bool,
) -> Option<ProgramError> {
    let f = faults::unless(None, well_formed, ProgramError::InvalidInstructionData);
    let f = faults::unless(f, accounts.len() >= count, ProgramError::NotEnoughAccountKeys);
    faults::or_else(f, controller_fault(program_id, accounts, address))
}

/// Why the adapter refuses each of its instructions.
#[verifier::spinoff_prover]
#[verifier::rlimit(40)]
pub proof fn why_the_adapter_refuses(
    program_id: Pubkey,
    accounts: Seq<Account>,
    data: Seq<u8>,
    address: Option<Address>,
)
    ensures
        faults::refused_for(
            forwarding::init_coin_config_outcome(program_id, accounts, data, address),
            faults::unless(
                accounts_first(program_id, accounts, address, 6, true),
                data.len() == 8,
                ProgramError::InvalidInstructionData,
            ),
        ),
        faults::refused_for(
            forwarding::activate_live_outcome(program_id, accounts, data, address),
            data_first(program_id, accounts, address, 6, data.len() == 0),
        ),
        faults::refused_for(
            forwarding::mint_reward_outcome(program_id, accounts, data, address),
            accounts_first(program_id, accounts, address, 9, data.len() >= 8),
        ),
        faults::refused_for(
            forwarding::transfer_mint_authority_outcome(program_id, accounts, address),
            accounts_first(program_id, accounts, address, 8, true),
        ),
        faults::refused_for(
            forwarding::init_genesis_bootstrap_outcome(program_id, accounts, data, address),
            accounts_first(program_id, accounts, address, 12, data.len() == 8),
        ),
        faults::refused_for(
            forwarding::finalize_genesis_outcome(program_id, accounts, data, address),
            data_first(program_id, accounts, address, 6, data.len() == 0),
        ),
        faults::refused_for(
            forwarding::draw_genesis_surplus_outcome(program_id, accounts, data, address),
            accounts_first(program_id, accounts, address, 10, data.len() == 8),
        ),
        faults::refused_for(
            forwarding::kickstart_genesis_market_outcome(program_id, accounts, data, address),
            accounts_first(program_id, accounts, address, 13, data.len() == 9),
        ),
        faults::refused_for(
            forwarding::recover_genesis_market_outcome(program_id, accounts, data, address),
            accounts_first(program_id, accounts, address, 13, data.len() == 10),
        ),
        faults::refused_for(
            forwarding::approve_builder_outcome(program_id, accounts, data, address),
            accounts_first(
                program_id,
                accounts,
                address,
                9,
                data.len() == 65 && data[64] <= 1,
            ),
        ),
        faults::refused_for(
            forwarding::init_genesis_squads_outcome(program_id, accounts, data, address),
            data_first(program_id, accounts, address, 12, data.len() == 0),
        ),
        faults::refused_for(
            forwarding::handover_genesis_squads_outcome(program_id, accounts, data, address),
            data_first(program_id, accounts, address, 10, data.len() == 0),
        ),
        faults::refused_for(
            forwarding::percolator_admin_outcome(program_id, accounts, data, address),
            data_first(program_id, accounts, address, 8, data.len() > 0),
        ),
{
    assert(faults::refused_for(
        forwarding::controller_bump(program_id, accounts[0], accounts[1], address),
        controller_fault(program_id, accounts, address),
    ));
}

/// Why the creation of an authority is refused: who asks for one that exists has to be its controller, and
/// who asks for a new one has to hold the mint.
#[verifier::spinoff_prover]
pub proof fn why_an_authority_is_refused(
    program_id: Pubkey,
    accounts: Seq<Account>,
    address: Option<Address>,
)
    ensures
        ({
            let exists_already = accounts[1].lamports > 0;
            let mint = token::mint_of(accounts[3].data@)->Ok_0;
            let f = faults::unless(
                None,
                accounts.len() >= 5,
                ProgramError::NotEnoughAccountKeys,
            );
            let f = faults::unless(
                f,
                accounts[0].is_signer,
                ProgramError::MissingRequiredSignature,
            );
            let f = faults::unless(
                f,
                accounts[4].key.bytes == SYSTEM_PROGRAM,
                ProgramError::IncorrectProgramId,
            );
            let f = faults::or_else(f, faults::misplaced(accounts[1], address));
            let f = faults::or_else(
                f,
                if exists_already {
                    controller_fault(program_id, accounts, address)
                } else {
                    faults::unless(
                        faults::mint_fault(accounts[3]),
                        mint.mint_authority is Some && mint.mint_authority->0 == accounts[0].key,
                        ProgramError::MissingRequiredSignature,
                    )
                },
            );
            faults::refused_for(
                forwarding::init_authority_outcome(program_id, accounts, address),
                f,
            )
        }),
{
}

/// The registration of a COIN is handed on as tag 3 with the delay; the configuration is writable.
pub proof fn how_a_registration_is_handed_on(
    program_id: Pubkey,
    accounts: Seq<Account>,
    data: Seq<u8>,
    address: Option<Address>,
)
    ensures
        obeys(
            forwarding::init_coin_config_outcome(program_id, accounts, data, address),
            program_id,
            accounts,
            address,
            accounts.len() >= 6 && data.len() == 8,
            accounts[3].key,
            seq![false, true, false],
            seq![3u8] + data,
        ),
{
    if accounts.len() >= 6 {
        lemma_flagged(
            program_id,
            accounts,
            accounts[3].key,
            seq![false, true, false],
            seq![3u8] + data,
            address,
        );
    }
}

/// Going live is handed on as tag 11; the configuration is writable.
pub proof fn how_going_live_is_handed_on(
    program_id: Pubkey,
    accounts: Seq<Account>,
    data: Seq<u8>,
    address: Option<Address>,
)
    ensures
        obeys(
            forwarding::activate_live_outcome(program_id, accounts, data, address),
            program_id,
            accounts,
            address,
            accounts.len() >= 6 && data.len() == 0,
            accounts[3].key,
            seq![false, true, false],
            seq![11u8],
        ),
{
    if accounts.len() >= 6 {
        lemma_flagged(
            program_id,
            accounts,
            accounts[3].key,
            seq![false, true, false],
            seq![11u8],
            address,
        );
    }
}

/// A later mint is handed on as tag 8 with the amount alone; the mint and the destination are writable.
pub proof fn how_a_later_mint_is_handed_on(
    program_id: Pubkey,
    accounts: Seq<Account>,
    data: Seq<u8>,
    address: Option<Address>,
)
    ensures
        obeys(
            forwarding::mint_reward_outcome(program_id, accounts, data, address),
            program_id,
            accounts,
            address,
            accounts.len() >= 9 && data.len() >= 8,
            accounts[3].key,
            seq![true, false, true, false, false, false],
            seq![8u8] + data.subrange(0, 8),
        ),
{
    if accounts.len() >= 9 {
        lemma_flagged(
            program_id,
            accounts,
            accounts[3].key,
            seq![true, false, true, false, false, false],
            seq![8u8] + data.subrange(0, 8),
            address,
        );
    }
}

/// The end of the mint authority is handed on as tag 10; the mint is writable.
pub proof fn how_the_end_of_the_mint_authority_is_handed_on(
    program_id: Pubkey,
    accounts: Seq<Account>,
    address: Option<Address>,
)
    ensures
        obeys(
            forwarding::transfer_mint_authority_outcome(program_id, accounts, address),
            program_id,
            accounts,
            address,
            accounts.len() >= 8,
            accounts[3].key,
            seq![true, false, false, false, false],
            seq![10u8],
        ),
{
    if accounts.len() >= 8 {
        lemma_flagged(
            program_id,
            accounts,
            accounts[3].key,
            seq![true, false, false, false, false],
            seq![10u8],
            address,
        );
    }
}

/// The opening of a pool is handed on as tag 21 with the supply; the pool, the vault and the market admin
/// are writable.
pub proof fn how_the_opening_is_handed_on(
    program_id: Pubkey,
    accounts: Seq<Account>,
    data: Seq<u8>,
    address: Option<Address>,
)
    ensures
        obeys(
            forwarding::init_genesis_bootstrap_outcome(program_id, accounts, data, address),
            program_id,
            accounts,
            address,
            accounts.len() >= 12 && data.len() == 8,
            accounts[3].key,
            seq![false, false, false, true, true, true, false, false, false],
            seq![21u8] + data,
        ),
{
    if accounts.len() >= 12 {
        lemma_flagged(
            program_id,
            accounts,
            accounts[3].key,
            seq![false, false, false, true, true, true, false, false, false],
            seq![21u8] + data,
            address,
        );
    }
}

/// Finalization is handed on as tag 25; the pool, in front of the mint, is writable.
pub proof fn how_finalization_is_handed_on(
    program_id: Pubkey,
    accounts: Seq<Account>,
    data: Seq<u8>,
    address: Option<Address>,
)
    ensures
        obeys(
            forwarding::finalize_genesis_outcome(program_id, accounts, data, address),
            program_id,
            accounts,
            address,
            accounts.len() >= 6 && data.len() == 0,
            accounts[4].key,
            seq![true, false, false],
            seq![25u8],
        ),
{
    if accounts.len() >= 6 {
        lemma_flagged(
            program_id,
            accounts,
            accounts[4].key,
            seq![true, false, false],
            seq![25u8],
            address,
        );
    }
}

/// A draw on the surplus is handed on as tag 26 with the amount; the destination and the vault are
/// writable.
pub proof fn how_a_draw_is_handed_on(
    program_id: Pubkey,
    accounts: Seq<Account>,
    data: Seq<u8>,
    address: Option<Address>,
)
    ensures
        obeys(
            forwarding::draw_genesis_surplus_outcome(program_id, accounts, data, address),
            program_id,
            accounts,
            address,
            accounts.len() >= 10 && data.len() == 8,
            accounts[4].key,
            seq![false, false, false, true, true, false, false],
            seq![26u8] + data,
        ),
{
    if accounts.len() >= 10 {
        lemma_flagged(
            program_id,
            accounts,
            accounts[4].key,
            seq![false, false, false, true, true, false, false],
            seq![26u8] + data,
            address,
        );
    }
}

/// The deployment is handed on as tag 27 with the domain and the expiry; the pool, the market and the two
/// vaults are writable.
pub proof fn how_the_deployment_is_handed_on(
    program_id: Pubkey,
    accounts: Seq<Account>,
    data: Seq<u8>,
    address: Option<Address>,
)
    ensures
        obeys(
            forwarding::kickstart_genesis_market_outcome(program_id, accounts, data, address),
            program_id,
            accounts,
            address,
            accounts.len() >= 13 && data.len() == 9,
            accounts[3].key,
            seq![false, false, true, false, true, true, true, false, false, false],
            seq![27u8] + data,
        ),
{
    if accounts.len() >= 13 {
        lemma_flagged(
            program_id,
            accounts,
            accounts[3].key,
            seq![false, false, true, false, true, true, true, false, false, false],
            seq![27u8] + data,
            address,
        );
    }
}

/// A recovery is handed on as tag 28 with its data; the market and the two vaults are writable, and so is
/// whatever stands behind the accounts that every recovery names.
pub proof fn how_a_recovery_is_handed_on(
    program_id: Pubkey,
    accounts: Seq<Account>,
    data: Seq<u8>,
    address: Option<Address>,
)
    ensures
        obeys(
            forwarding::recover_genesis_market_outcome(program_id, accounts, data, address),
            program_id,
            accounts,
            address,
            accounts.len() >= 13 && data.len() == 10,
            accounts[3].key,
            Seq::new(
                (accounts.len() - 3) as nat,
                |i: int| 4 <= i <= 6 || i >= 10,
            ),
            seq![28u8] + data,
        ),
{
    if accounts.len() >= 13 {
        let writable = Seq::new((accounts.len() - 3) as nat, |i: int| 4 <= i <= 6 || i >= 10);
        assert(forwarding::recovery_flags(accounts.len()) =~= writable);
        lemma_flagged(
            program_id,
            accounts,
            accounts[3].key,
            writable,
            seq![28u8] + data,
            address,
        );
    }
}

/// An approval is handed on as tag 31 with its data, whose last byte is 0 or 1; the approval is writable.
pub proof fn how_an_approval_is_handed_on(
    program_id: Pubkey,
    accounts: Seq<Account>,
    data: Seq<u8>,
    address: Option<Address>,
)
    ensures
        obeys(
            forwarding::approve_builder_outcome(program_id, accounts, data, address),
            program_id,
            accounts,
            address,
            accounts.len() >= 9 && data.len() == 65 && data[64] <= 1,
            accounts[3].key,
            seq![false, false, false, true, false, false],
            seq![31u8] + data,
        ),
{
    if accounts.len() >= 9 {
        lemma_flagged(
            program_id,
            accounts,
            accounts[3].key,
            seq![false, false, false, true, false, false],
            seq![31u8] + data,
            address,
        );
    }
}

/// The creation of the multisig is handed on as tag 32; the treasury and the multisig are writable.
pub proof fn how_the_multisig_is_handed_on(
    program_id: Pubkey,
    accounts: Seq<Account>,
    data: Seq<u8>,
    address: Option<Address>,
)
    ensures
        obeys(
            forwarding::init_genesis_squads_outcome(program_id, accounts, data, address),
            program_id,
            accounts,
            address,
            accounts.len() >= 12 && data.len() == 0,
            accounts[3].key,
            seq![false, false, false, false, false, false, true, true, false],
            seq![32u8],
        ),
{
    if accounts.len() >= 12 {
        lemma_flagged(
            program_id,
            accounts,
            accounts[3].key,
            seq![false, false, false, false, false, false, true, true, false],
            seq![32u8],
            address,
        );
    }
}

/// The handover of the multisig is handed on as tag 33; the multisig is writable.
pub proof fn how_the_handover_is_handed_on(
    program_id: Pubkey,
    accounts: Seq<Account>,
    data: Seq<u8>,
    address: Option<Address>,
)
    ensures
        obeys(
            forwarding::handover_genesis_squads_outcome(program_id, accounts, data, address),
            program_id,
            accounts,
            address,
            accounts.len() >= 10 && data.len() == 0,
            accounts[3].key,
            seq![false, false, false, false, false, true, false],
            seq![33u8],
        ),
{
    if accounts.len() >= 10 {
        lemma_flagged(
            program_id,
            accounts,
            accounts[3].key,
            seq![false, false, false, false, false, true, false],
            seq![33u8],
            address,
        );
    }
}

/// Governance of a market is handed on as tag 20 with the market's own instruction. The mint, the
/// configuration, Percolator and the pool are read; the market admin is writable where it was handed over
/// so, and does not sign; what the market's instruction names behind them is handed on as it came.
#[verifier::spinoff_prover]
pub proof fn how_governance_of_a_market_is_handed_on(
    program_id: Pubkey,
    accounts: Seq<Account>,
    data: Seq<u8>,
    address: Option<Address>,
)
    ensures
        ({
            let r = forwarding::percolator_admin_outcome(program_id, accounts, data, address);
            &&& r is Ok <==> {
                &&& data.len() > 0
                &&& accounts.len() >= 8
                &&& asked_by_controller(program_id, accounts, address)
            }
            &&& r matches Ok(effects) ==> {
                let metas = effects[0]->instruction.accounts;
                &&& hands_on(
                    effects,
                    accounts,
                    accounts[3].key,
                    address->0.bump,
                    accounts.len() - 3,
                    seq![20u8] + data,
                )
                &&& metas[2] == terms::read(accounts[3].key)
                &&& metas[3] == terms::read(accounts[4].key)
                &&& !metas[4].is_signer && metas[4].is_writable == accounts[5].is_writable
                &&& metas[5] == terms::read(accounts[6].key)
                &&& metas[6] == terms::read(accounts[7].key)
                &&& forall|i: int|
                    8 <= i < accounts.len() ==> metas[i - 1].is_signer == (
                    #[trigger] accounts[i]).is_signer && metas[i - 1].is_writable
                        == accounts[i].is_writable
            }
        }),
{
    let r = forwarding::percolator_admin_outcome(program_id, accounts, data, address);
    if accounts.len() >= 8 {
        let rest = forwarding::admin_rest(accounts);
        assert forall|i: int| 0 <= i < rest.len() implies (#[trigger] rest[i]).pubkey
            == accounts[3 + i].key by {
            if i >= 5 {
                assert(rest[i].pubkey == accounts[8 + (i - 5)].key);
            }
        }
        lemma_forwarded(
            program_id,
            accounts,
            accounts[3].key,
            rest,
            seq![20u8] + data,
            address,
        );
        if r is Ok {
            let metas = r->Ok_0[0]->instruction.accounts;
            assert(metas[0int + 2] == rest[0]);
            assert(metas[1int + 2] == rest[1]);
            assert(metas[2int + 2] == rest[2]);
            assert(metas[3int + 2] == rest[3]);
            assert(metas[4int + 2] == rest[4]);
            assert forall|i: int| 8 <= i < accounts.len() implies metas[i - 1].is_signer == (
            #[trigger] accounts[i]).is_signer && metas[i - 1].is_writable
                == accounts[i].is_writable by {
                let k = i - 3;
                assert(metas[k + 2] == rest[k]);
                assert(rest[k] == account::meta_of(
                    accounts[8 + (k - 5)],
                    accounts[8 + (k - 5)].is_signer,
                ));
            }
        }
    }
}

/// The authority over a COIN is created by whoever may mint the COIN, who becomes its controller; where
/// it exists, its controller may ask again, and nothing happens.
#[verifier::spinoff_prover]
pub proof fn how_an_authority_comes_to_be(
    program_id: Pubkey,
    accounts: Seq<Account>,
    address: Option<Address>,
)
    ensures
        ({
            let r = forwarding::init_authority_outcome(program_id, accounts, address);
            let exists_already = accounts[1].lamports > 0;
            let mint = token::mint_of(accounts[3].data@)->Ok_0;
            &&& r is Ok <==> {
                &&& accounts.len() >= 5
                &&& accounts[0].is_signer
                &&& accounts[4].key.bytes == SYSTEM_PROGRAM
                &&& terms::stands(accounts[1], address)
                &&& exists_already ==> asked_by_controller(program_id, accounts, address)
                &&& !exists_already ==> terms::a_mint(accounts[3]) && mint.mint_authority is Some
                    && mint.mint_authority->0 == accounts[0].key
            }
            &&& r is Ok && exists_already ==> r->Ok_0.len() == 0
            &&& r is Ok && !exists_already ==> {
                &&& r->Ok_0.len() == 2
                &&& terms::makes(
                    r->Ok_0[0],
                    0,
                    1,
                    4,
                    40,
                    program_id,
                    seq![
                        governance::REWARDS_AUTHORITY_LABEL@,
                        accounts[2].key.bytes@,
                        accounts[3].key.bytes@,
                        seq![address->0.bump],
                    ],
                )
                &&& changes::fills(r->Ok_0[1], 1, 40)
                &&& AuthorityConfig::decoded(r->Ok_0[1]->Write_data) is Ok
                &&& AuthorityConfig::decoded(r->Ok_0[1]->Write_data)->Ok_0.controller
                    == accounts[0].key
            }
        }),
{
    let r = forwarding::init_authority_outcome(program_id, accounts, address);
    terms::lemma_tokens(accounts[3], accounts[3].key, accounts[0].key);
    if r is Ok && accounts[1].lamports == 0 {
        assert(r->Ok_0[0]->Create_signer =~= seq![
            governance::REWARDS_AUTHORITY_LABEL@,
            accounts[2].key.bytes@,
            accounts[3].key.bytes@,
            seq![address->0.bump],
        ]);
        AuthorityConfig { controller: accounts[0].key }.reads_back();
    }
}

} // verus!
