//! The configuration of a COIN, shared by all its markets.
use crate::bytes;
use crate::bytes::{append, append_le, append_zeros, holds_at, rest_of, u64_at};
use crate::error::ProgramError;
use crate::pubkey;
use crate::pubkey::Pubkey;
use vstd::prelude::*;

verus! {

/// `"CCFGV002"`.
pub const COIN_CFG_DISC: [u8; 8] = [67, 67, 70, 71, 86, 48, 48, 50];

/// The length of the record.
pub const COIN_CFG_SIZE: usize = 72;

pub const PHASE_BOOTSTRAP: u8 = 0;

pub const PHASE_LIVE: u8 = 1;

/// Who governs a COIN, and whether its bootstrap phase is over.
#[derive(Clone, Copy, PartialEq, Eq, Debug)]
pub struct CoinConfig {
    pub authority: Pubkey,
    pub bootstrap_start_slot: u64,
    pub bootstrap_delay_slots: u64,
    pub live_slot: u64,
    pub phase: u8,
}

impl CoinConfig {
    /// The phase is one of the two that exist.
    pub open spec fn wf(self) -> bool {
        self.phase == PHASE_BOOTSTRAP || self.phase == PHASE_LIVE
    }

    /// The record: the discriminator, the authority, the three slots, the phase and seven zero bytes.
    #[verifier::opaque]
    pub open spec fn encoded(self) -> Seq<u8> {
        COIN_CFG_DISC@ + self.authority@ + bytes::u64_bytes(self.bootstrap_start_slot)
            + bytes::u64_bytes(self.bootstrap_delay_slots) + bytes::u64_bytes(self.live_slot)
            + seq![self.phase] + bytes::zeros(7)
    }

    /// The configuration that an account's data holds.
    pub open spec fn decoded(data: Seq<u8>) -> Result<CoinConfig, ProgramError> {
        if data.len() < COIN_CFG_SIZE || data.subrange(0, 8) != COIN_CFG_DISC@ || data[64] > 1 {
            Err(ProgramError::InvalidAccountData)
        } else {
            Ok(
                CoinConfig {
                    authority: pubkey::key_of(data.subrange(8, 40)),
                    bootstrap_start_slot: bytes::u64_of(data.subrange(40, 48)),
                    bootstrap_delay_slots: bytes::u64_of(data.subrange(48, 56)),
                    live_slot: bytes::u64_of(data.subrange(56, 64)),
                    phase: data[64],
                },
            )
        }
    }

    /// An account's data with the record in front; what stood behind it stays.
    pub open spec fn written(self, data: Seq<u8>) -> Seq<u8> {
        self.encoded() + data.skip(COIN_CFG_SIZE as int)
    }

    /// The slot from which the COIN may go live, if there is one.
    pub open spec fn live_after(self) -> Option<u64> {
        let slot = self.bootstrap_start_slot + self.bootstrap_delay_slots;
        if slot <= u64::MAX {
            Some(slot as u64)
        } else {
            None
        }
    }

    pub fn deserialize(data: &[u8]) -> (r: Result<CoinConfig, ProgramError>)
        ensures
            r == Self::decoded(data@),
            r matches Ok(cfg) ==> cfg.wf(),
    {
        if data.len() < COIN_CFG_SIZE || !holds_at(data, 0, &COIN_CFG_DISC) || data[64] > PHASE_LIVE {
            return Err(ProgramError::InvalidAccountData);
        }
        Ok(
            CoinConfig {
                authority: Pubkey::at(data, 8),
                bootstrap_start_slot: u64_at(data, 40),
                bootstrap_delay_slots: u64_at(data, 48),
                live_slot: u64_at(data, 56),
                phase: data[64],
            },
        )
    }

    /// The record on its own.
    pub fn to_bytes(&self) -> (r: Vec<u8>)
        ensures
            r@ == self.encoded(),
    {
        proof {
            reveal(CoinConfig::encoded);
        }
        let mut out: Vec<u8> = Vec::with_capacity(COIN_CFG_SIZE);
        append(&mut out, &COIN_CFG_DISC);
        assert(out@ =~= COIN_CFG_DISC@);
        append(&mut out, &self.authority.bytes);
        append_le(&mut out, self.bootstrap_start_slot as u128, 8);
        append_le(&mut out, self.bootstrap_delay_slots as u128, 8);
        append_le(&mut out, self.live_slot as u128, 8);
        append(&mut out, &[self.phase]);
        assert([self.phase]@ =~= seq![self.phase]);
        append_zeros(&mut out, 7);
        out
    }

    pub fn serialize(&self, data: &mut Vec<u8>)
        requires
            old(data)@.len() >= COIN_CFG_SIZE,
        ensures
            final(data)@ == self.written(old(data)@),
    {
        let tail = rest_of(data, COIN_CFG_SIZE);
        let mut out = self.to_bytes();
        append(&mut out, &tail);
        *data = out;
    }

    pub fn is_live(&self) -> (r: bool)
        ensures
            r == (self.phase == PHASE_LIVE),
    {
        self.phase == PHASE_LIVE
    }

    /// What is written is read back, and the data keeps its length.
    pub proof fn round_trip(self, data: Seq<u8>)
        requires
            self.wf(),
            data.len() >= COIN_CFG_SIZE,
        ensures
            Self::decoded(self.written(data)) == Ok::<CoinConfig, ProgramError>(self),
            self.written(data).len() == data.len(),
            self.encoded().len() == COIN_CFG_SIZE,
    {
        reveal(CoinConfig::encoded);
        bytes::lemma_u64_round_trip(self.bootstrap_start_slot);
        bytes::lemma_u64_round_trip(self.bootstrap_delay_slots);
        bytes::lemma_u64_round_trip(self.live_slot);
        pubkey::lemma_key_of_bytes(self.authority);
        let s = self.written(data);
        assert(s.subrange(0, 8) =~= COIN_CFG_DISC@);
        assert(s.subrange(8, 40) =~= self.authority@);
        assert(s.subrange(40, 48) =~= bytes::u64_bytes(self.bootstrap_start_slot));
        assert(s.subrange(48, 56) =~= bytes::u64_bytes(self.bootstrap_delay_slots));
        assert(s.subrange(56, 64) =~= bytes::u64_bytes(self.live_slot));
    }

    /// A record on its own is read back.
    pub proof fn reads_back(self)
        requires
            self.wf(),
        ensures
            Self::decoded(self.encoded()) == Ok::<CoinConfig, ProgramError>(self),
            self.encoded().len() == COIN_CFG_SIZE,
    {
        let blank = bytes::zeros(COIN_CFG_SIZE as nat);
        self.round_trip(blank);
        assert(self.written(blank) =~= self.encoded());
    }
}

} // verus!
