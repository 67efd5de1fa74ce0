use vstd::prelude::*;

verus! {

/// The reasons for which an instruction is refused.
#[derive(Clone, Copy, PartialEq, Eq, Debug)]
pub enum ProgramError {
    InvalidArgument,
    InvalidInstructionData,
    InvalidAccountData,
    InsufficientFunds,
    IncorrectProgramId,
    MissingRequiredSignature,
    UninitializedAccount,
    NotEnoughAccountKeys,
    InvalidSeeds,
    IllegalOwner,
    ArithmeticOverflow,
}

} // verus!
