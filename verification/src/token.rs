//! SPL Token accounts, mints and instructions.
use crate::account;
use crate::account::{AccountMeta, Instruction, InstructionView};
use crate::bytes;
use crate::error::ProgramError;
use crate::pubkey;
use crate::pubkey::{Pubkey, RENT_SYSVAR, TOKEN_PROGRAM};
use solana_program::program_pack::Pack;
use vstd::prelude::*;

verus! {

/// What is read of a token account.
#[derive(Clone, Copy, PartialEq, Eq, Debug)]
pub struct TokenAccount {
    pub mint: Pubkey,
    pub owner: Pubkey,
    pub amount: u64,
}

/// What is read of a mint.
#[derive(Clone, Copy, PartialEq, Eq, Debug)]
pub struct MintState {
    pub mint_authority: Option<Pubkey>,
    pub freeze_authority: Option<Pubkey>,
}

/// The length of a token account.
pub const TOKEN_ACCOUNT_LEN: u64 = 165;

/// The four bytes at `off` say "none" (0) or "some" (1).
pub open spec fn option_tag(data: Seq<u8>, off: int) -> bool {
    &&& data[off] <= 1
    &&& data[off + 1] == 0
    &&& data[off + 2] == 0
    &&& data[off + 3] == 0
}

/// The optional key at `off`.
pub open spec fn option_key(data: Seq<u8>, off: int) -> Option<Pubkey> {
    if data[off] == 1 {
        Some(pubkey::key_of(data.subrange(off + 4, off + 36)))
    } else {
        None
    }
}

/// A token account of 165 bytes: the mint, the owner, the amount, the optional delegate at 72, the
/// state at 108 (0 uninitialized, 1 initialized, 2 frozen), the optional reserve at 109, the
/// delegated amount and the optional close authority at 129.
pub open spec fn token_account_of(data: Seq<u8>) -> Result<TokenAccount, ProgramError> {
    if data.len() != 165 || !option_tag(data, 72) || data[108] > 2 || !option_tag(data, 109)
        || !option_tag(data, 129) {
        Err(ProgramError::InvalidAccountData)
    } else if data[108] == 0 {
        Err(ProgramError::UninitializedAccount)
    } else {
        Ok(
            TokenAccount {
                mint: pubkey::key_of(data.subrange(0, 32)),
                owner: pubkey::key_of(data.subrange(32, 64)),
                amount: bytes::u64_of(data.subrange(64, 72)),
            },
        )
    }
}

/// A mint of 82 bytes: the optional mint authority, the supply, the decimals, the initialized flag
/// at 45 and the optional freeze authority at 46.
pub open spec fn mint_of(data: Seq<u8>) -> Result<MintState, ProgramError> {
    if data.len() != 82 || !option_tag(data, 0) || data[45] > 1 || !option_tag(data, 46) {
        Err(ProgramError::InvalidAccountData)
    } else if data[45] == 0 {
        Err(ProgramError::UninitializedAccount)
    } else {
        Ok(
            MintState {
                mint_authority: option_key(data, 0),
                freeze_authority: option_key(data, 46),
            },
        )
    }
}

/// Calls `spl_token::state::Account::unpack`: the account is refused as malformed unless it is 165
/// bytes long, its three optional fields are tagged 0 or 1 and its state is at most 2; it is refused
/// as uninitialized if its state is 0; else its mint, owner and amount are read where they stand.
#[verifier::external_body]
pub(crate) fn unpack_account(data: &[u8]) -> (r: Result<TokenAccount, ProgramError>)
    ensures
        r == token_account_of(data@),
{
    match spl_token::state::Account::unpack(data) {
        Ok(token) => Ok(TokenAccount {
            mint: Pubkey { bytes: token.mint.to_bytes() },
            owner: Pubkey { bytes: token.owner.to_bytes() },
            amount: token.amount,
        }),
        Err(solana_program::program_error::ProgramError::UninitializedAccount) => {
            Err(ProgramError::UninitializedAccount)
        },
        Err(_) => Err(ProgramError::InvalidAccountData),
    }
}

/// Calls `spl_token::state::Mint::unpack`: the mint is refused as malformed unless it is 82 bytes
/// long, its two optional keys are tagged 0 or 1 and its initialized flag is 0 or 1; it is refused as
/// uninitialized if that flag is 0; else its two authorities are read where they stand.
#[verifier::external_body]
pub(crate) fn unpack_mint(data: &[u8]) -> (r: Result<MintState, ProgramError>)
    ensures
        r == mint_of(data@),
{
    match spl_token::state::Mint::unpack(data) {
        Ok(mint) => Ok(MintState {
            mint_authority: Option::from(mint.mint_authority.map(|k| Pubkey { bytes: k.to_bytes() })),
            freeze_authority: Option::from(
                mint.freeze_authority.map(|k| Pubkey { bytes: k.to_bytes() }),
            ),
        }),
        Err(solana_program::program_error::ProgramError::UninitializedAccount) => {
            Err(ProgramError::UninitializedAccount)
        },
        Err(_) => Err(ProgramError::InvalidAccountData),
    }
}

/// An instruction of the token program, refused for any other program.
pub open spec fn token_call(
    token_program: Pubkey,
    accounts: Seq<AccountMeta>,
    data: Seq<u8>,
) -> Result<InstructionView, ProgramError> {
    if token_program.bytes != TOKEN_PROGRAM {
        Err(ProgramError::IncorrectProgramId)
    } else {
        Ok(InstructionView { program_id: token_program, accounts, data })
    }
}

/// The contents of an instruction, or why there is none.
pub open spec fn call_view(r: Result<Instruction, ProgramError>) -> Result<
    InstructionView,
    ProgramError,
> {
    match r {
        Ok(ix) => Ok(ix@),
        Err(e) => Err(e),
    }
}

/// `Transfer`: moves `amount` from `source` to `destination`; `authority` signs.
pub open spec fn transfer_call(
    token_program: Pubkey,
    source: Pubkey,
    destination: Pubkey,
    authority: Pubkey,
    amount: u64,
) -> Result<InstructionView, ProgramError> {
    token_call(
        token_program,
        seq![
            account::writable(source, false),
            account::writable(destination, false),
            account::readonly(authority, true),
        ],
        seq![3u8] + bytes::u64_bytes(amount),
    )
}

/// `MintTo`: creates `amount` in `destination`; the mint's `authority` signs.
pub open spec fn mint_to_call(
    token_program: Pubkey,
    mint: Pubkey,
    destination: Pubkey,
    authority: Pubkey,
    amount: u64,
) -> Result<InstructionView, ProgramError> {
    token_call(
        token_program,
        seq![
            account::writable(mint, false),
            account::writable(destination, false),
            account::readonly(authority, true),
        ],
        seq![7u8] + bytes::u64_bytes(amount),
    )
}

/// `SetAuthority` of the mint tokens kind: hands the mint over, or gives minting up for good.
pub open spec fn set_mint_authority_call(
    token_program: Pubkey,
    mint: Pubkey,
    new_authority: Option<Pubkey>,
    authority: Pubkey,
) -> Result<InstructionView, ProgramError> {
    token_call(
        token_program,
        seq![account::writable(mint, false), account::readonly(authority, true)],
        match new_authority {
            Some(key) => seq![6u8, 0u8, 1u8] + key@,
            None => seq![6u8, 0u8, 0u8],
        },
    )
}

/// `InitializeAccount2`: makes `account` a token account of `mint` that `owner` owns.
pub open spec fn initialize_account_call(
    token_program: Pubkey,
    account: Pubkey,
    mint: Pubkey,
    owner: Pubkey,
) -> Result<InstructionView, ProgramError> {
    token_call(
        token_program,
        seq![
            account::writable(account, false),
            account::readonly(mint, false),
            account::readonly(Pubkey { bytes: RENT_SYSVAR }, false),
        ],
        seq![16u8] + owner@,
    )
}

/// Calls `spl_token::instruction::transfer` without further signers: three accounts, tag 3 and the
/// amount; refused unless the program is the token program.
#[verifier::external_body]
pub(crate) fn transfer(
    token_program: &Pubkey,
    source: &Pubkey,
    destination: &Pubkey,
    authority: &Pubkey,
    amount: u64,
) -> (r: Result<Instruction, ProgramError>)
    ensures
        call_view(r) == transfer_call(*token_program, *source, *destination, *authority, amount),
{
    match spl_token::instruction::transfer(
        &token_program.bytes.into(), &source.bytes.into(), &destination.bytes.into(),
        &authority.bytes.into(), &[], amount,
    ) {
        Ok(ix) => Ok(Instruction {
            program_id: Pubkey { bytes: ix.program_id.to_bytes() },
            accounts: ix.accounts.iter().map(|m| AccountMeta {
                pubkey: Pubkey { bytes: m.pubkey.to_bytes() },
                is_signer: m.is_signer, is_writable: m.is_writable,
            }).collect(),
            data: ix.data,
        }),
        Err(_) => Err(ProgramError::IncorrectProgramId),
    }
}

/// Calls `spl_token::instruction::mint_to` without further signers: three accounts, tag 7 and the
/// amount; refused unless the program is the token program.
#[verifier::external_body]
pub(crate) fn mint_to(
    token_program: &Pubkey,
    mint: &Pubkey,
    destination: &Pubkey,
    authority: &Pubkey,
    amount: u64,
) -> (r: Result<Instruction, ProgramError>)
    ensures
        call_view(r) == mint_to_call(*token_program, *mint, *destination, *authority, amount),
{
    match spl_token::instruction::mint_to(
        &token_program.bytes.into(), &mint.bytes.into(), &destination.bytes.into(),
        &authority.bytes.into(), &[], amount,
    ) {
        Ok(ix) => Ok(Instruction {
            program_id: Pubkey { bytes: ix.program_id.to_bytes() },
            accounts: ix.accounts.iter().map(|m| AccountMeta {
                pubkey: Pubkey { bytes: m.pubkey.to_bytes() },
                is_signer: m.is_signer, is_writable: m.is_writable,
            }).collect(),
            data: ix.data,
        }),
        Err(_) => Err(ProgramError::IncorrectProgramId),
    }
}

/// Calls `spl_token::instruction::set_authority` for the mint tokens authority without further
/// signers: two accounts, tag 6, kind 0 and the optional new authority; refused unless the program is
/// the token program.
#[verifier::external_body]
pub(crate) fn set_mint_authority(
    token_program: &Pubkey,
    mint: &Pubkey,
    new_authority: Option<Pubkey>,
    authority: &Pubkey,
) -> (r: Result<Instruction, ProgramError>)
    ensures
        call_view(r) == set_mint_authority_call(*token_program, *mint, new_authority, *authority),
{
    match spl_token::instruction::set_authority(
        &token_program.bytes.into(), &mint.bytes.into(), new_authority.map(|k| k.bytes.into()).as_ref(),
        spl_token::instruction::AuthorityType::MintTokens, &authority.bytes.into(), &[],
    ) {
        Ok(ix) => Ok(Instruction {
            program_id: Pubkey { bytes: ix.program_id.to_bytes() },
            accounts: ix.accounts.iter().map(|m| AccountMeta {
                pubkey: Pubkey { bytes: m.pubkey.to_bytes() },
                is_signer: m.is_signer, is_writable: m.is_writable,
            }).collect(),
            data: ix.data,
        }),
        Err(_) => Err(ProgramError::IncorrectProgramId),
    }
}

/// Calls `spl_token::instruction::initialize_account2`: the account, its mint and the rent sysvar, tag
/// 16 and the owner; refused unless the program is the token program.
#[verifier::external_body]
pub(crate) fn initialize_account(
    token_program: &Pubkey,
    account: &Pubkey,
    mint: &Pubkey,
    owner: &Pubkey,
) -> (r: Result<Instruction, ProgramError>)
    ensures
        call_view(r) == initialize_account_call(*token_program, *account, *mint, *owner),
{
    match spl_token::instruction::initialize_account2(
        &token_program.bytes.into(), &account.bytes.into(), &mint.bytes.into(), &owner.bytes.into(),
    ) {
        Ok(ix) => Ok(Instruction {
            program_id: Pubkey { bytes: ix.program_id.to_bytes() },
            accounts: ix.accounts.iter().map(|m| AccountMeta {
                pubkey: Pubkey { bytes: m.pubkey.to_bytes() },
                is_signer: m.is_signer, is_writable: m.is_writable,
            }).collect(),
            data: ix.data,
        }),
        Err(_) => Err(ProgramError::IncorrectProgramId),
    }
}

} // verus!
