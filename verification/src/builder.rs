//! The registry of approved builder code.
use crate::bytes;
use crate::bytes::{append, append_le, append_zeros, holds_at, rest_of, u64_at};
use crate::error::ProgramError;
use crate::pubkey;
use crate::pubkey::Pubkey;
use vstd::prelude::*;

verus! {

/// `"BLDAPP01"`.
pub const BUILDER_APPROVAL_DISC: [u8; 8] = [66, 76, 68, 65, 80, 80, 48, 49];

/// The length of the record.
pub const BUILDER_APPROVAL_SIZE: usize = 152;

/// That a COIN's governance approves (or no longer approves) a builder program's code, and on which
/// terms.
#[derive(Clone, Copy, PartialEq, Eq, Debug)]
pub struct BuilderApproval {
    pub coin_mint: Pubkey,
    pub builder_program: Pubkey,
    pub code_hash: [u8; 32],
    pub terms_hash: [u8; 32],
    pub approved_slot: u64,
    pub enabled: u8,
}

impl BuilderApproval {
    pub open spec fn wf(self) -> bool {
        self.enabled <= 1
    }

    /// The record: the discriminator, the mint, the program, the two hashes, the slot, the flag and
    /// seven zero bytes.
    #[verifier::opaque]
    pub open spec fn encoded(self) -> Seq<u8> {
        BUILDER_APPROVAL_DISC@ + self.coin_mint@ + self.builder_program@ + self.code_hash@
            + self.terms_hash@ + bytes::u64_bytes(self.approved_slot) + seq![self.enabled]
            + bytes::zeros(7)
    }

    /// The approval that an account's data holds.
    pub open spec fn decoded(data: Seq<u8>) -> Result<BuilderApproval, ProgramError> {
        if data.len() < BUILDER_APPROVAL_SIZE || data.subrange(0, 8) != BUILDER_APPROVAL_DISC@
            || data[144] > 1 {
            Err(ProgramError::InvalidAccountData)
        } else {
            Ok(
                BuilderApproval {
                    coin_mint: pubkey::key_of(data.subrange(8, 40)),
                    builder_program: pubkey::key_of(data.subrange(40, 72)),
                    code_hash: pubkey::key_of(data.subrange(72, 104)).bytes,
                    terms_hash: pubkey::key_of(data.subrange(104, 136)).bytes,
                    approved_slot: bytes::u64_of(data.subrange(136, 144)),
                    enabled: data[144],
                },
            )
        }
    }

    /// An account's data with the record in front; what stood behind it stays.
    pub open spec fn written(self, data: Seq<u8>) -> Seq<u8> {
        self.encoded() + data.skip(BUILDER_APPROVAL_SIZE as int)
    }

    pub fn deserialize(data: &[u8]) -> (r: Result<BuilderApproval, ProgramError>)
        ensures
            r == Self::decoded(data@),
            r matches Ok(approval) ==> approval.wf(),
    {
        if data.len() < BUILDER_APPROVAL_SIZE || !holds_at(data, 0, &BUILDER_APPROVAL_DISC)
            || data[144] > 1 {
            return Err(ProgramError::InvalidAccountData);
        }
        Ok(
            BuilderApproval {
                coin_mint: Pubkey::at(data, 8),
                builder_program: Pubkey::at(data, 40),
                code_hash: Pubkey::at(data, 72).bytes,
                terms_hash: Pubkey::at(data, 104).bytes,
                approved_slot: u64_at(data, 136),
                enabled: data[144],
            },
        )
    }

    /// The record on its own.
    pub fn to_bytes(&self) -> (r: Vec<u8>)
        ensures
            r@ == self.encoded(),
    {
        proof {
            reveal(BuilderApproval::encoded);
        }
        let mut out: Vec<u8> = Vec::with_capacity(BUILDER_APPROVAL_SIZE);
        append(&mut out, &BUILDER_APPROVAL_DISC);
        assert(out@ =~= BUILDER_APPROVAL_DISC@);
        append(&mut out, &self.coin_mint.bytes);
        append(&mut out, &self.builder_program.bytes);
        append(&mut out, &self.code_hash);
        append(&mut out, &self.terms_hash);
        append_le(&mut out, self.approved_slot as u128, 8);
        append(&mut out, &[self.enabled]);
        assert([self.enabled]@ =~= seq![self.enabled]);
        append_zeros(&mut out, 7);
        out
    }

    pub fn serialize(&self, data: &mut Vec<u8>)
        requires
            old(data)@.len() >= BUILDER_APPROVAL_SIZE,
        ensures
            final(data)@ == self.written(old(data)@),
    {
        let tail = rest_of(data, BUILDER_APPROVAL_SIZE);
        let mut out = self.to_bytes();
        append(&mut out, &tail);
        *data = out;
    }

    /// What is written is read back, and the data keeps its length.
    pub proof fn round_trip(self, data: Seq<u8>)
        requires
            self.wf(),
            data.len() >= BUILDER_APPROVAL_SIZE,
        ensures
            Self::decoded(self.written(data)) == Ok::<BuilderApproval, ProgramError>(self),
            self.written(data).len() == data.len(),
            self.encoded().len() == BUILDER_APPROVAL_SIZE,
    {
        reveal(BuilderApproval::encoded);
        bytes::lemma_u64_round_trip(self.approved_slot);
        pubkey::lemma_key_of_bytes(self.coin_mint);
        pubkey::lemma_key_of_bytes(self.builder_program);
        pubkey::lemma_key_of_bytes(Pubkey { bytes: self.code_hash });
        pubkey::lemma_key_of_bytes(Pubkey { bytes: self.terms_hash });
        let s = self.written(data);
        assert(s.subrange(0, 8) =~= BUILDER_APPROVAL_DISC@);
        assert(s.subrange(8, 40) =~= self.coin_mint@);
        assert(s.subrange(40, 72) =~= self.builder_program@);
        assert(s.subrange(72, 104) =~= self.code_hash@);
        assert(s.subrange(104, 136) =~= self.terms_hash@);
        assert(s.subrange(136, 144) =~= bytes::u64_bytes(self.approved_slot));
    }

    /// A record on its own is read back.
    pub proof fn reads_back(self)
        requires
            self.wf(),
        ensures
            Self::decoded(self.encoded()) == Ok::<BuilderApproval, ProgramError>(self),
            self.encoded().len() == BUILDER_APPROVAL_SIZE,
    {
        let blank = bytes::zeros(BUILDER_APPROVAL_SIZE as nat);
        self.round_trip(blank);
        assert(self.written(blank) =~= self.encoded());
    }
}

} // verus!
