//! What an instruction is given, and what it asks the runtime to do.
//!
//! A handler reads the accounts that an instruction names and decides. What it decides is a list of
//! effects, in order: the caller carries them out, and the instruction fails as a whole if one of
//! them fails.
use crate::error::ProgramError;
use crate::pubkey::Pubkey;
use vstd::prelude::*;

verus! {

/// An account as an instruction sees it.
#[derive(Clone, PartialEq, Eq, Debug)]
pub struct Account {
    pub key: Pubkey,
    pub owner: Pubkey,
    pub lamports: u64,
    pub is_signer: bool,
    pub is_writable: bool,
    pub executable: bool,
    pub data: Vec<u8>,
}

/// How an instruction names an account.
#[derive(Clone, Copy, PartialEq, Eq, Debug)]
pub struct AccountMeta {
    pub pubkey: Pubkey,
    pub is_signer: bool,
    pub is_writable: bool,
}

/// An account that the instruction may change.
pub open spec fn writable(pubkey: Pubkey, is_signer: bool) -> AccountMeta {
    AccountMeta { pubkey, is_signer, is_writable: true }
}

/// An account that the instruction only reads.
pub open spec fn readonly(pubkey: Pubkey, is_signer: bool) -> AccountMeta {
    AccountMeta { pubkey, is_signer, is_writable: false }
}

impl AccountMeta {
    pub fn new(pubkey: Pubkey, is_signer: bool) -> (r: AccountMeta)
        ensures
            r == writable(pubkey, is_signer),
    {
        AccountMeta { pubkey, is_signer, is_writable: true }
    }

    pub fn new_readonly(pubkey: Pubkey, is_signer: bool) -> (r: AccountMeta)
        ensures
            r == readonly(pubkey, is_signer),
    {
        AccountMeta { pubkey, is_signer, is_writable: false }
    }
}

/// An account named as writable exactly where it was handed over as writable.
pub open spec fn meta_of(account: Account, is_signer: bool) -> AccountMeta {
    AccountMeta { pubkey: account.key, is_signer, is_writable: account.is_writable }
}

pub fn account_meta_from_info(account: &Account, is_signer: bool) -> (r: AccountMeta)
    ensures
        r == meta_of(*account, is_signer),
{
    AccountMeta { pubkey: account.key, is_signer, is_writable: account.is_writable }
}

/// A call of another program.
#[derive(Clone, PartialEq, Eq, Debug)]
pub struct Instruction {
    pub program_id: Pubkey,
    pub accounts: Vec<AccountMeta>,
    pub data: Vec<u8>,
}

#[verifier::ext_equal]
pub struct InstructionView {
    pub program_id: Pubkey,
    pub accounts: Seq<AccountMeta>,
    pub data: Seq<u8>,
}

impl View for Instruction {
    type V = InstructionView;

    open spec fn view(&self) -> InstructionView {
        InstructionView {
            program_id: self.program_id,
            accounts: self.accounts@,
            data: self.data@,
        }
    }
}

/// The contents of a list of seeds.
pub open spec fn seed_views(seeds: Seq<Vec<u8>>) -> Seq<Seq<u8>> {
    Seq::new(seeds.len(), |i: int| seeds[i]@)
}

/// One thing that the runtime is asked to do. Accounts are given by their index in the list that the
/// instruction was handed; `signer` holds the seeds of the address that signs, none where nothing
/// but the transaction's own signers signs.
#[derive(Clone, PartialEq, Eq, Debug)]
pub enum Effect {
    /// Calls another program, handing it the given accounts.
    Invoke { instruction: Instruction, accounts: Vec<usize>, signer: Vec<Vec<u8>> },
    /// Creates the account `target`, rent-exempt at the expense of `payer`, `space` zero bytes long.
    Create {
        payer: usize,
        target: usize,
        system_program: usize,
        space: u64,
        owner: Pubkey,
        signer: Vec<Vec<u8>>,
    },
    /// Replaces the contents of an account.
    Write { account: usize, data: Vec<u8> },
}

#[verifier::ext_equal]
pub enum EffectView {
    Invoke { instruction: InstructionView, accounts: Seq<usize>, signer: Seq<Seq<u8>> },
    Create {
        payer: usize,
        target: usize,
        system_program: usize,
        space: u64,
        owner: Pubkey,
        signer: Seq<Seq<u8>>,
    },
    Write { account: usize, data: Seq<u8> },
}

impl View for Effect {
    type V = EffectView;

    open spec fn view(&self) -> EffectView {
        match *self {
            Effect::Invoke { instruction, accounts, signer } => EffectView::Invoke {
                instruction: instruction@,
                accounts: accounts@,
                signer: seed_views(signer@),
            },
            Effect::Create { payer, target, system_program, space, owner, signer } =>
                EffectView::Create {
                    payer,
                    target,
                    system_program,
                    space,
                    owner,
                    signer: seed_views(signer@),
                },
            Effect::Write { account, data } => EffectView::Write { account, data: data@ },
        }
    }
}

/// The effects of a list, in order.
pub open spec fn effect_views(effects: Seq<Effect>) -> Seq<EffectView> {
    Seq::new(effects.len(), |i: int| effects[i]@)
}

/// What a handler returns: the effects that it asks for, or why it refuses.
pub open spec fn outcome(r: Result<Vec<Effect>, ProgramError>) -> Result<
    Seq<EffectView>,
    ProgramError,
> {
    match r {
        Ok(effects) => Ok(effect_views(effects@)),
        Err(e) => Err(e),
    }
}

/// No effects.
pub fn no_effects() -> (r: Vec<Effect>)
    ensures
        effect_views(r@) == Seq::<EffectView>::empty(),
{
    let r: Vec<Effect> = Vec::new();
    assert(effect_views(r@) =~= Seq::<EffectView>::empty());
    r
}

/// The effects so far, and then one more.
pub fn and_then(effects: Vec<Effect>, effect: Effect) -> (r: Vec<Effect>)
    ensures
        effect_views(r@) == effect_views(effects@).push(effect@),
{
    let ghost before = effects@;
    let mut r = effects;
    r.push(effect);
    assert(effect_views(r@) =~= effect_views(before).push(effect@));
    r
}

/// A single effect.
pub fn only(effect: Effect) -> (r: Vec<Effect>)
    ensures
        effect_views(r@) == seq![effect@],
{
    and_then(no_effects(), effect)
}

} // verus!
