//! The effects that the handlers ask for.
use crate::account;
use crate::account::{
    and_then, Account, AccountMeta, Effect, EffectView, Instruction, InstructionView,
};
use crate::bytes;
use crate::error::ProgramError;
use crate::pubkey::{Pubkey, TOKEN_PROGRAM};
use crate::token::{mint_to, transfer};
use vstd::prelude::*;

verus! {

/// A call of the program at `program_id`.
pub open spec fn call(
    program_id: Pubkey,
    metas: Seq<AccountMeta>,
    data: Seq<u8>,
    accounts: Seq<usize>,
    signer: Seq<Seq<u8>>,
) -> EffectView {
    EffectView::Invoke {
        instruction: InstructionView { program_id, accounts: metas, data },
        accounts,
        signer,
    }
}

pub fn invoke(
    program_id: Pubkey,
    metas: Vec<AccountMeta>,
    data: Vec<u8>,
    accounts: Vec<usize>,
    signer: Vec<Vec<u8>>,
) -> (r: Effect)
    ensures
        r@ == call(program_id, metas@, data@, accounts@, account::seed_views(signer@)),
{
    Effect::Invoke {
        instruction: Instruction { program_id, accounts: metas, data },
        accounts,
        signer,
    }
}

/// The contents of an effect, or why there is none.
pub open spec fn effect_view(r: Result<Effect, ProgramError>) -> Result<EffectView, ProgramError> {
    match r {
        Ok(effect) => Ok(effect@),
        Err(e) => Err(e),
    }
}

/// A token transfer between two of the accounts. `signer` holds the seeds of the authority, none
/// where the authority signed the transaction.
pub open spec fn transfer_of(
    accounts: Seq<Account>,
    source: usize,
    destination: usize,
    authority: usize,
    token_program: usize,
    amount: u64,
    signer: Seq<Seq<u8>>,
) -> EffectView {
    call(
        accounts[token_program as int].key,
        seq![
            account::writable(accounts[source as int].key, false),
            account::writable(accounts[destination as int].key, false),
            account::readonly(accounts[authority as int].key, true),
        ],
        seq![3u8] + bytes::u64_bytes(amount),
        seq![source, destination, authority, token_program],
        signer,
    )
}

pub fn token_transfer(
    accounts: &[Account],
    source: usize,
    destination: usize,
    authority: usize,
    token_program: usize,
    amount: u64,
    signer: Vec<Vec<u8>>,
) -> (r: Result<Effect, ProgramError>)
    requires
        source < accounts@.len(),
        destination < accounts@.len(),
        authority < accounts@.len(),
        token_program < accounts@.len(),
    ensures
        effect_view(r) == (if accounts@[token_program as int].key.bytes == TOKEN_PROGRAM {
            Ok(
                transfer_of(
                    accounts@,
                    source,
                    destination,
                    authority,
                    token_program,
                    amount,
                    account::seed_views(signer@),
                ),
            )
        } else {
            Err::<EffectView, ProgramError>(ProgramError::IncorrectProgramId)
        }),
{
    let instruction = transfer(
        &accounts[token_program].key,
        &accounts[source].key,
        &accounts[destination].key,
        &accounts[authority].key,
        amount,
    )?;
    let indices: Vec<usize> = vec![source, destination, authority, token_program];
    assert(indices@ =~= seq![source, destination, authority, token_program]);
    Ok(Effect::Invoke { instruction, accounts: indices, signer })
}

/// COIN minted into one of the accounts, signed with the seeds of the COIN's mint authority.
pub open spec fn mint_of(
    accounts: Seq<Account>,
    coin_mint: usize,
    destination: usize,
    mint_authority: usize,
    token_program: usize,
    amount: u64,
    signer: Seq<Seq<u8>>,
) -> EffectView {
    call(
        accounts[token_program as int].key,
        seq![
            account::writable(accounts[coin_mint as int].key, false),
            account::writable(accounts[destination as int].key, false),
            account::readonly(accounts[mint_authority as int].key, true),
        ],
        seq![7u8] + bytes::u64_bytes(amount),
        seq![coin_mint, destination, mint_authority, token_program],
        signer,
    )
}

/// COIN minted as `mint_of` has it, where there is anything to mint.
pub open spec fn minting(
    accounts: Seq<Account>,
    coin_mint: usize,
    destination: usize,
    mint_authority: usize,
    token_program: usize,
    amount: u64,
    signer: Seq<Seq<u8>>,
) -> Seq<EffectView> {
    if amount > 0 {
        seq![
            mint_of(
                accounts,
                coin_mint,
                destination,
                mint_authority,
                token_program,
                amount,
                signer,
            ),
        ]
    } else {
        Seq::empty()
    }
}

/// The effects so far, and then the minting.
pub fn mint_coin(
    plan: Vec<Effect>,
    accounts: &[Account],
    coin_mint: usize,
    destination: usize,
    mint_authority: usize,
    token_program: usize,
    amount: u64,
    signer: Vec<Vec<u8>>,
) -> (r: Result<Vec<Effect>, ProgramError>)
    requires
        coin_mint < accounts@.len(),
        destination < accounts@.len(),
        mint_authority < accounts@.len(),
        token_program < accounts@.len(),
    ensures
        account::outcome(r) == (if amount > 0 && accounts@[token_program as int].key.bytes
            != TOKEN_PROGRAM {
            Err::<Seq<EffectView>, ProgramError>(ProgramError::IncorrectProgramId)
        } else {
            Ok(
                account::effect_views(plan@) + minting(
                    accounts@,
                    coin_mint,
                    destination,
                    mint_authority,
                    token_program,
                    amount,
                    account::seed_views(signer@),
                ),
            )
        }),
{
    let ghost before = account::effect_views(plan@);
    if amount == 0 {
        assert(before + Seq::<EffectView>::empty() =~= before);
        return Ok(plan);
    }
    let instruction = mint_to(
        &accounts[token_program].key,
        &accounts[coin_mint].key,
        &accounts[destination].key,
        &accounts[mint_authority].key,
        amount,
    )?;
    let indices: Vec<usize> = vec![coin_mint, destination, mint_authority, token_program];
    assert(indices@ =~= seq![coin_mint, destination, mint_authority, token_program]);
    let effect = Effect::Invoke { instruction, accounts: indices, signer };
    let ghost minted = effect@;
    assert(before.push(minted) =~= before + seq![minted]);
    Ok(and_then(plan, effect))
}

/// An account is created at a derived address.
pub open spec fn creation_of(
    payer: usize,
    target: usize,
    system_program: usize,
    space: u64,
    owner: Pubkey,
    signer: Seq<Seq<u8>>,
) -> EffectView {
    EffectView::Create { payer, target, system_program, space, owner, signer }
}

pub fn create_pda_account(
    payer: usize,
    target: usize,
    system_program: usize,
    space: u64,
    owner: Pubkey,
    signer: Vec<Vec<u8>>,
) -> (r: Effect)
    ensures
        r@ == creation_of(
            payer,
            target,
            system_program,
            space,
            owner,
            account::seed_views(signer@),
        ),
{
    Effect::Create { payer, target, system_program, space, owner, signer }
}

/// An account's contents are replaced.
pub open spec fn write_of(account: usize, data: Seq<u8>) -> EffectView {
    EffectView::Write { account, data }
}

pub fn write_account(account: usize, data: Vec<u8>) -> (r: Effect)
    ensures
        r@ == write_of(account, data@),
{
    Effect::Write { account, data }
}

} // verus!
