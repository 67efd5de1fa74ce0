//! The system program and the clock.
use crate::account;
use crate::account::{Account, AccountMeta, Effect, Instruction, InstructionView};
use crate::bytes;
use crate::error::ProgramError;
use crate::pubkey::{Pubkey, CLOCK_SYSVAR, SYSTEM_PROGRAM};
use solana_program::sysvar::Sysvar;
use vstd::prelude::*;

verus! {

/// The slot that a clock sysvar holds: its first eight bytes. The sysvar is 40 bytes long; more may
/// follow.
pub open spec fn slot_of(clock: Account) -> Result<u64, ProgramError> {
    if clock.key.bytes == CLOCK_SYSVAR && clock.data@.len() >= 40 {
        Ok(bytes::u64_of(clock.data@.subrange(0, 8)))
    } else {
        Err(ProgramError::InvalidArgument)
    }
}

/// Calls `solana_program::clock::Clock::from_account_info` and takes the slot: an account at another
/// address than the clock's, or shorter than the clock's five 64-bit fields, is an invalid argument.
#[verifier::external_body]
pub(crate) fn clock_slot(clock: &Account) -> (r: Result<u64, ProgramError>)
    ensures
        r == slot_of(*clock),
{
    let key: solana_program::pubkey::Pubkey = clock.key.bytes.into();
    let owner: solana_program::pubkey::Pubkey = clock.owner.bytes.into();
    let mut lamports: u64 = clock.lamports;
    let mut data = clock.data.clone();
    let info = solana_program::account_info::AccountInfo::new(
        &key, clock.is_signer, clock.is_writable, &mut lamports, &mut data, &owner,
        clock.executable, 0,
    );
    match solana_program::clock::Clock::from_account_info(&info) {
        Ok(clock) => Ok(clock.slot),
        Err(_) => Err(ProgramError::InvalidArgument),
    }
}

/// `CreateAccount`: both accounts sign; the data holds the variant's index in four bytes, the
/// lamports, the space and the owner.
pub open spec fn create_account_call(
    payer: Pubkey,
    target: Pubkey,
    lamports: u64,
    space: u64,
    owner: Pubkey,
) -> InstructionView {
    InstructionView {
        program_id: Pubkey { bytes: SYSTEM_PROGRAM },
        accounts: seq![account::writable(payer, true), account::writable(target, true)],
        data: bytes::le_bytes(0, 4) + bytes::u64_bytes(lamports) + bytes::u64_bytes(space)
            + owner@,
    }
}

/// Calls `solana_program::system_instruction::create_account`: two accounts that sign, and the
/// arguments in fixed-width little-endian form behind the variant's index.
#[verifier::external_body]
fn create_account(
    payer: &Pubkey,
    target: &Pubkey,
    lamports: u64,
    space: u64,
    owner: &Pubkey,
) -> (r: Instruction)
    ensures
        r@ == create_account_call(*payer, *target, lamports, space, *owner),
{
    let ix = solana_program::system_instruction::create_account(
        &payer.bytes.into(), &target.bytes.into(), lamports, space, &owner.bytes.into(),
    );
    Instruction {
        program_id: Pubkey { bytes: ix.program_id.to_bytes() },
        accounts: ix.accounts.iter().map(|m| AccountMeta {
            pubkey: Pubkey { bytes: m.pubkey.to_bytes() },
            is_signer: m.is_signer, is_writable: m.is_writable,
        }).collect(),
        data: ix.data,
    }
}

impl Effect {
    /// The instruction that carries out the creation of an account, once the lamports that make it
    /// rent-exempt are known. There is none for another effect, nor for accounts that were not handed
    /// over.
    pub fn creation(&self, accounts: &[Account], lamports: u64) -> (r: Option<Instruction>)
        ensures
            match *self {
                Effect::Create { payer, target, space, owner, .. } => {
                    if payer < accounts@.len() && target < accounts@.len() {
                        r is Some && r->0@ == create_account_call(
                            accounts@[payer as int].key,
                            accounts@[target as int].key,
                            lamports,
                            space,
                            owner,
                        )
                    } else {
                        r is None
                    }
                },
                _ => r is None,
            },
    {
        match self {
            Effect::Create { payer, target, system_program: _, space, owner, signer: _ } => {
                if *payer < accounts.len() && *target < accounts.len() {
                    Some(
                        create_account(
                            &accounts[*payer].key,
                            &accounts[*target].key,
                            lamports,
                            *space,
                            owner,
                        ),
                    )
                } else {
                    None
                }
            },
            _ => None,
        }
    }
}

} // verus!
