//! What an outcome shows of what is returned, and what the creation of an account comes to.
use crate::account;
use crate::account::{Effect, EffectView};
use crate::bytes;
use crate::error::ProgramError;
use crate::laws::terms;
use crate::pubkey::{Pubkey, SYSTEM_PROGRAM};
use crate::rewards::withdrawal;
use crate::rewards::withdrawal::Plan;
use crate::system;
use vstd::prelude::*;

verus! {

/// The seeds are those of the list, byte for byte and in order.
pub open spec fn same_seeds(seeds: Seq<Seq<u8>>, list: Seq<Vec<u8>>) -> bool {
    seeds.len() == list.len() && forall|i: int|
        0 <= i < list.len() ==> #[trigger] seeds[i] == list[i]@
}

/// What is shown of an effect is all of it.
pub open spec fn shown_in_full(view: EffectView, effect: Effect) -> bool {
    match effect {
        Effect::Invoke { instruction, accounts, signer } => {
            &&& view is Invoke
            &&& view->instruction.program_id == instruction.program_id
            &&& view->instruction.accounts == instruction.accounts@
            &&& view->instruction.data == instruction.data@
            &&& view->accounts == accounts@
            &&& same_seeds(view->Invoke_signer, signer@)
        },
        Effect::Create { payer, target, system_program, space, owner, signer } => {
            &&& view is Create
            &&& view->payer == payer
            &&& view->target == target
            &&& view->system_program == system_program
            &&& view->space == space
            &&& view->owner == owner
            &&& same_seeds(view->Create_signer, signer@)
        },
        Effect::Write { account, data } => {
            view is Write && view->account == account && view->Write_data == data@
        },
    }
}

/// An outcome shows every effect of a list, in full and in order, and every refusal as it is.
pub proof fn an_outcome_shows_every_effect(r: Result<Vec<Effect>, ProgramError>)
    ensures
        ({
            let shown = account::outcome(r);
            &&& r matches Err(e) ==> shown is Err && shown->Err_0 == e
            &&& r matches Ok(effects) ==> {
                &&& shown is Ok
                &&& shown->Ok_0.len() == effects@.len()
                &&& forall|i: int|
                    0 <= i < effects@.len() ==> shown_in_full(
                        #[trigger] shown->Ok_0[i],
                        effects@[i],
                    )
            }
        }),
{
}

/// A plan shows its effects in the same way, and what is left to complete.
pub proof fn a_plan_shows_every_effect(r: Result<Plan, ProgramError>)
    ensures
        ({
            let shown = withdrawal::plan_view(r);
            &&& r matches Err(e) ==> shown is Err && shown->Err_0 == e
            &&& r matches Ok(plan) ==> {
                &&& shown is Ok
                &&& shown->Ok_0.exit == plan.exit
                &&& shown->Ok_0.effects.len() == plan.effects@.len()
                &&& forall|i: int|
                    0 <= i < plan.effects@.len() ==> shown_in_full(
                        #[trigger] shown->Ok_0.effects[i],
                        plan.effects@[i],
                    )
            }
        }),
{
}

/// An account is created by the system program's instruction 0, which the payer and the new account sign:
/// the lamports, the space and the owner stand behind its four bytes.
#[verifier::spinoff_prover]
pub proof fn what_a_creation_calls(
    payer: Pubkey,
    target: Pubkey,
    lamports: u64,
    space: u64,
    owner: Pubkey,
)
    ensures
        ({
            let call = system::create_account_call(payer, target, lamports, space, owner);
            &&& call.program_id.bytes == SYSTEM_PROGRAM
            &&& call.accounts == seq![terms::paying(payer), terms::paying(target)]
            &&& call.data.len() == 52
            &&& call.data[0] == 0 && call.data[1] == 0 && call.data[2] == 0 && call.data[3] == 0
            &&& terms::word(call.data, 4) == lamports
            &&& terms::word(call.data, 12) == space
            &&& terms::names(call.data, 20, owner.bytes)
        }),
{
    let data = system::create_account_call(payer, target, lamports, space, owner).data;
    reveal_with_fuel(bytes::le_bytes, 5);
    assert(bytes::le_bytes(0, 4) =~= seq![0u8, 0u8, 0u8, 0u8]);
    bytes::lemma_u64_round_trip(lamports);
    bytes::lemma_u64_round_trip(space);
    assert(data.subrange(4, 12) =~= bytes::u64_bytes(lamports));
    assert(data.subrange(12, 20) =~= bytes::u64_bytes(space));
    assert(data.subrange(20, 52) =~= owner.bytes@);
    terms::lemma_word_of(lamports, data, 4);
    terms::lemma_word_of(space, data, 12);
    terms::lemma_names(data, 20, owner.bytes);
}

} // verus!
