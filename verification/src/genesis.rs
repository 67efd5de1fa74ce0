//! The records of a genesis: the pool, the positions of its depositors and the candidate
//! distributions that they vote on.
use crate::bytes;
use crate::bytes::{append, append_le, append_zeros, holds_at, rest_of, u64_at};
use crate::error::ProgramError;
use crate::pubkey;
use crate::pubkey::Pubkey;
use vstd::prelude::*;

verus! {

/// `"GENCFG02"`.
pub const GENESIS_CFG_DISC: [u8; 8] = [71, 69, 78, 67, 70, 71, 48, 50];

/// `"GENPOS01"`.
pub const GENESIS_POSITION_DISC: [u8; 8] = [71, 69, 78, 80, 79, 83, 48, 49];

/// `"GENDIST1"`.
pub const GENESIS_DISTRIBUTION_DISC: [u8; 8] = [71, 69, 78, 68, 73, 83, 84, 49];

/// The length of a [`GenesisConfig`] record.
pub const GENESIS_CFG_SIZE: usize = 192;

/// The length of a [`GenesisPosition`] record.
pub const GENESIS_POSITION_SIZE: usize = 112;

/// The length of a [`GenesisDistribution`] record.
pub const GENESIS_DISTRIBUTION_SIZE: usize = 104;

/// The pool of a COIN's genesis: what was deposited, what was paid back, the fixed COIN supply that
/// the vote decides on, and the running totals of the vote.
#[derive(Clone, Copy, PartialEq, Eq, Debug)]
pub struct GenesisConfig {
    pub coin_mint: Pubkey,
    pub base_mint: Pubkey,
    pub token_vault: Pubkey,
    pub total_deposited: u64,
    pub total_withdrawn: u64,
    pub reward_supply: u64,
    pub minted_supply: u64,
    pub finalized: u8,
    pub kicked: u8,
    /// The weight of all ballots that are cast.
    pub total_cast_weight: u64,
    /// The principal behind all ballots that are cast.
    pub total_voted_principal: u64,
    /// The market that the pool was deployed into; the zero address before that.
    pub genesis_market_slab: Pubkey,
}

impl GenesisConfig {
    pub open spec fn wf(self) -> bool {
        self.finalized <= 1 && self.kicked <= 1
    }

    #[verifier::opaque]
    pub open spec fn encoded(self) -> Seq<u8> {
        GENESIS_CFG_DISC@ + self.coin_mint@ + self.base_mint@ + self.token_vault@
            + bytes::u64_bytes(self.total_deposited) + bytes::u64_bytes(self.total_withdrawn)
            + bytes::u64_bytes(self.reward_supply) + bytes::u64_bytes(self.minted_supply)
            + seq![self.finalized] + seq![self.kicked] + bytes::zeros(6) + bytes::u64_bytes(
            self.total_cast_weight,
        ) + bytes::u64_bytes(self.total_voted_principal) + self.genesis_market_slab@
    }

    /// The pool that an account's data holds.
    pub open spec fn decoded(data: Seq<u8>) -> Result<GenesisConfig, ProgramError> {
        if data.len() < GENESIS_CFG_SIZE || data.subrange(0, 8) != GENESIS_CFG_DISC@ || data[136] > 1
            || data[137] > 1 {
            Err(ProgramError::InvalidAccountData)
        } else {
            Ok(
                GenesisConfig {
                    coin_mint: pubkey::key_of(data.subrange(8, 40)),
                    base_mint: pubkey::key_of(data.subrange(40, 72)),
                    token_vault: pubkey::key_of(data.subrange(72, 104)),
                    total_deposited: bytes::u64_of(data.subrange(104, 112)),
                    total_withdrawn: bytes::u64_of(data.subrange(112, 120)),
                    reward_supply: bytes::u64_of(data.subrange(120, 128)),
                    minted_supply: bytes::u64_of(data.subrange(128, 136)),
                    finalized: data[136],
                    kicked: data[137],
                    total_cast_weight: bytes::u64_of(data.subrange(144, 152)),
                    total_voted_principal: bytes::u64_of(data.subrange(152, 160)),
                    genesis_market_slab: pubkey::key_of(data.subrange(160, 192)),
                },
            )
        }
    }

    /// An account's data with the record in front; what stood behind it stays.
    pub open spec fn written(self, data: Seq<u8>) -> Seq<u8> {
        self.encoded() + data.skip(GENESIS_CFG_SIZE as int)
    }

    /// The principal that was deposited and not yet settled.
    pub open spec fn outstanding(self) -> u64 {
        if self.total_deposited >= self.total_withdrawn {
            (self.total_deposited - self.total_withdrawn) as u64
        } else {
            0
        }
    }

    pub fn deserialize(data: &[u8]) -> (r: Result<GenesisConfig, ProgramError>)
        ensures
            r == Self::decoded(data@),
            r matches Ok(cfg) ==> cfg.wf(),
    {
        if data.len() < GENESIS_CFG_SIZE || !holds_at(data, 0, &GENESIS_CFG_DISC) || data[136] > 1
            || data[137] > 1 {
            return Err(ProgramError::InvalidAccountData);
        }
        Ok(
            GenesisConfig {
                coin_mint: Pubkey::at(data, 8),
                base_mint: Pubkey::at(data, 40),
                token_vault: Pubkey::at(data, 72),
                total_deposited: u64_at(data, 104),
                total_withdrawn: u64_at(data, 112),
                reward_supply: u64_at(data, 120),
                minted_supply: u64_at(data, 128),
                finalized: data[136],
                kicked: data[137],
                total_cast_weight: u64_at(data, 144),
                total_voted_principal: u64_at(data, 152),
                genesis_market_slab: Pubkey::at(data, 160),
            },
        )
    }

    /// The record on its own.
    pub fn to_bytes(&self) -> (r: Vec<u8>)
        ensures
            r@ == self.encoded(),
    {
        proof {
            reveal(GenesisConfig::encoded);
        }
        let mut out: Vec<u8> = Vec::with_capacity(GENESIS_CFG_SIZE);
        append(&mut out, &GENESIS_CFG_DISC);
        assert(out@ =~= GENESIS_CFG_DISC@);
        append(&mut out, &self.coin_mint.bytes);
        append(&mut out, &self.base_mint.bytes);
        append(&mut out, &self.token_vault.bytes);
        append_le(&mut out, self.total_deposited as u128, 8);
        append_le(&mut out, self.total_withdrawn as u128, 8);
        append_le(&mut out, self.reward_supply as u128, 8);
        append_le(&mut out, self.minted_supply as u128, 8);
        append(&mut out, &[self.finalized]);
        assert([self.finalized]@ =~= seq![self.finalized]);
        append(&mut out, &[self.kicked]);
        assert([self.kicked]@ =~= seq![self.kicked]);
        append_zeros(&mut out, 6);
        append_le(&mut out, self.total_cast_weight as u128, 8);
        append_le(&mut out, self.total_voted_principal as u128, 8);
        append(&mut out, &self.genesis_market_slab.bytes);
        out
    }

    pub fn serialize(&self, data: &mut Vec<u8>)
        requires
            old(data)@.len() >= GENESIS_CFG_SIZE,
        ensures
            final(data)@ == self.written(old(data)@),
    {
        let tail = rest_of(data, GENESIS_CFG_SIZE);
        let mut out = self.to_bytes();
        append(&mut out, &tail);
        *data = out;
    }

    pub fn is_finalized(&self) -> (r: bool)
        ensures
            r == (self.finalized == 1),
    {
        self.finalized == 1
    }

    pub fn is_kicked(&self) -> (r: bool)
        ensures
            r == (self.kicked == 1),
    {
        self.kicked == 1
    }

    pub fn outstanding_principal(&self) -> (r: u64)
        ensures
            r == self.outstanding(),
    {
        self.total_deposited.saturating_sub(self.total_withdrawn)
    }

    /// What is written is read back, and the data keeps its length.
    #[verifier::rlimit(60)]
    #[verifier::spinoff_prover]
    pub proof fn round_trip(self, data: Seq<u8>)
        requires
            self.wf(),
            data.len() >= GENESIS_CFG_SIZE,
        ensures
            Self::decoded(self.written(data)) == Ok::<GenesisConfig, ProgramError>(self),
            self.written(data).len() == data.len(),
            self.encoded().len() == GENESIS_CFG_SIZE,
    {
        reveal(GenesisConfig::encoded);
        bytes::lemma_u64_round_trip(self.total_deposited);
        bytes::lemma_u64_round_trip(self.total_withdrawn);
        bytes::lemma_u64_round_trip(self.reward_supply);
        bytes::lemma_u64_round_trip(self.minted_supply);
        bytes::lemma_u64_round_trip(self.total_cast_weight);
        bytes::lemma_u64_round_trip(self.total_voted_principal);
        pubkey::lemma_key_of_bytes(self.coin_mint);
        pubkey::lemma_key_of_bytes(self.base_mint);
        pubkey::lemma_key_of_bytes(self.token_vault);
        pubkey::lemma_key_of_bytes(self.genesis_market_slab);
        let s = self.written(data);
        assert(s.subrange(0, 8) =~= GENESIS_CFG_DISC@);
        assert(s.subrange(8, 40) =~= self.coin_mint@);
        assert(s.subrange(40, 72) =~= self.base_mint@);
        assert(s.subrange(72, 104) =~= self.token_vault@);
        assert(s.subrange(104, 112) =~= bytes::u64_bytes(self.total_deposited));
        assert(s.subrange(112, 120) =~= bytes::u64_bytes(self.total_withdrawn));
        assert(s.subrange(120, 128) =~= bytes::u64_bytes(self.reward_supply));
        assert(s.subrange(128, 136) =~= bytes::u64_bytes(self.minted_supply));
        assert(s.subrange(144, 152) =~= bytes::u64_bytes(self.total_cast_weight));
        assert(s.subrange(152, 160) =~= bytes::u64_bytes(self.total_voted_principal));
        assert(s.subrange(160, 192) =~= self.genesis_market_slab@);
    }

    /// A record on its own is read back.
    pub proof fn reads_back(self)
        requires
            self.wf(),
        ensures
            Self::decoded(self.encoded()) == Ok::<GenesisConfig, ProgramError>(self),
            self.encoded().len() == GENESIS_CFG_SIZE,
    {
        let blank = bytes::zeros(GENESIS_CFG_SIZE as nat);
        self.round_trip(blank);
        assert(self.written(blank) =~= self.encoded());
    }
}

/// One depositor's share of the pool, and the one ballot that it may back a distribution with.
#[derive(Clone, Copy, PartialEq, Eq, Debug)]
pub struct GenesisPosition {
    pub owner: Pubkey,
    pub amount: u64,
    pub withdrawn: u64,
    /// The slot of the latest deposit; 0 before the first and after an exit.
    pub start_slot: u64,
    /// The distribution that the ballot backs; the zero address without a ballot.
    pub voted_proposal: Pubkey,
    /// The weight that the ballot was counted with; 0 without a ballot.
    pub voted_weight: u64,
    /// The principal that the ballot was counted with; 0 without a ballot.
    pub voted_principal: u64,
}

impl GenesisPosition {
    #[verifier::opaque]
    pub open spec fn encoded(self) -> Seq<u8> {
        GENESIS_POSITION_DISC@ + self.owner@ + bytes::u64_bytes(self.amount) + bytes::u64_bytes(
            self.withdrawn,
        ) + bytes::u64_bytes(self.start_slot) + self.voted_proposal@ + bytes::u64_bytes(
            self.voted_weight,
        ) + bytes::u64_bytes(self.voted_principal)
    }

    /// The position that an account's data holds.
    pub open spec fn decoded(data: Seq<u8>) -> Result<GenesisPosition, ProgramError> {
        if data.len() < GENESIS_POSITION_SIZE || data.subrange(0, 8) != GENESIS_POSITION_DISC@ {
            Err(ProgramError::InvalidAccountData)
        } else {
            Ok(
                GenesisPosition {
                    owner: pubkey::key_of(data.subrange(8, 40)),
                    amount: bytes::u64_of(data.subrange(40, 48)),
                    withdrawn: bytes::u64_of(data.subrange(48, 56)),
                    start_slot: bytes::u64_of(data.subrange(56, 64)),
                    voted_proposal: pubkey::key_of(data.subrange(64, 96)),
                    voted_weight: bytes::u64_of(data.subrange(96, 104)),
                    voted_principal: bytes::u64_of(data.subrange(104, 112)),
                },
            )
        }
    }

    /// An account's data with the record in front; what stood behind it stays.
    pub open spec fn written(self, data: Seq<u8>) -> Seq<u8> {
        self.encoded() + data.skip(GENESIS_POSITION_SIZE as int)
    }

    /// The principal that the depositor still has a claim to.
    pub open spec fn claim(self) -> u64 {
        if self.amount >= self.withdrawn {
            (self.amount - self.withdrawn) as u64
        } else {
            0
        }
    }

    /// A ballot is cast exactly where weight was counted.
    pub open spec fn votes(self) -> bool {
        self.voted_weight != 0
    }

    pub fn deserialize(data: &[u8]) -> (r: Result<GenesisPosition, ProgramError>)
        ensures
            r == Self::decoded(data@),
    {
        if data.len() < GENESIS_POSITION_SIZE || !holds_at(data, 0, &GENESIS_POSITION_DISC) {
            return Err(ProgramError::InvalidAccountData);
        }
        Ok(
            GenesisPosition {
                owner: Pubkey::at(data, 8),
                amount: u64_at(data, 40),
                withdrawn: u64_at(data, 48),
                start_slot: u64_at(data, 56),
                voted_proposal: Pubkey::at(data, 64),
                voted_weight: u64_at(data, 96),
                voted_principal: u64_at(data, 104),
            },
        )
    }

    /// The record on its own.
    pub fn to_bytes(&self) -> (r: Vec<u8>)
        ensures
            r@ == self.encoded(),
    {
        proof {
            reveal(GenesisPosition::encoded);
        }
        let mut out: Vec<u8> = Vec::with_capacity(GENESIS_POSITION_SIZE);
        append(&mut out, &GENESIS_POSITION_DISC);
        assert(out@ =~= GENESIS_POSITION_DISC@);
        append(&mut out, &self.owner.bytes);
        append_le(&mut out, self.amount as u128, 8);
        append_le(&mut out, self.withdrawn as u128, 8);
        append_le(&mut out, self.start_slot as u128, 8);
        append(&mut out, &self.voted_proposal.bytes);
        append_le(&mut out, self.voted_weight as u128, 8);
        append_le(&mut out, self.voted_principal as u128, 8);
        out
    }

    pub fn serialize(&self, data: &mut Vec<u8>)
        requires
            old(data)@.len() >= GENESIS_POSITION_SIZE,
        ensures
            final(data)@ == self.written(old(data)@),
    {
        let tail = rest_of(data, GENESIS_POSITION_SIZE);
        let mut out = self.to_bytes();
        append(&mut out, &tail);
        *data = out;
    }

    pub fn staked(&self) -> (r: u64)
        ensures
            r == self.claim(),
    {
        self.amount.saturating_sub(self.withdrawn)
    }

    pub fn has_ballot(&self) -> (r: bool)
        ensures
            r == self.votes(),
    {
        self.voted_weight != 0
    }

    /// What is written is read back, and the data keeps its length.
    pub proof fn round_trip(self, data: Seq<u8>)
        requires
            data.len() >= GENESIS_POSITION_SIZE,
        ensures
            Self::decoded(self.written(data)) == Ok::<GenesisPosition, ProgramError>(self),
            self.written(data).len() == data.len(),
            self.encoded().len() == GENESIS_POSITION_SIZE,
    {
        reveal(GenesisPosition::encoded);
        bytes::lemma_u64_round_trip(self.amount);
        bytes::lemma_u64_round_trip(self.withdrawn);
        bytes::lemma_u64_round_trip(self.start_slot);
        bytes::lemma_u64_round_trip(self.voted_weight);
        bytes::lemma_u64_round_trip(self.voted_principal);
        pubkey::lemma_key_of_bytes(self.owner);
        pubkey::lemma_key_of_bytes(self.voted_proposal);
        let s = self.written(data);
        assert(s.subrange(0, 8) =~= GENESIS_POSITION_DISC@);
        assert(s.subrange(8, 40) =~= self.owner@);
        assert(s.subrange(40, 48) =~= bytes::u64_bytes(self.amount));
        assert(s.subrange(48, 56) =~= bytes::u64_bytes(self.withdrawn));
        assert(s.subrange(56, 64) =~= bytes::u64_bytes(self.start_slot));
        assert(s.subrange(64, 96) =~= self.voted_proposal@);
        assert(s.subrange(96, 104) =~= bytes::u64_bytes(self.voted_weight));
        assert(s.subrange(104, 112) =~= bytes::u64_bytes(self.voted_principal));
    }

    /// A record on its own is read back.
    pub proof fn reads_back(self)
        ensures
            Self::decoded(self.encoded()) == Ok::<GenesisPosition, ProgramError>(self),
            self.encoded().len() == GENESIS_POSITION_SIZE,
    {
        let blank = bytes::zeros(GENESIS_POSITION_SIZE as nat);
        self.round_trip(blank);
        assert(self.written(blank) =~= self.encoded());
    }
}

/// A candidate for the whole COIN supply, and the ballots that back it.
#[derive(Clone, Copy, PartialEq, Eq, Debug)]
pub struct GenesisDistribution {
    pub genesis_cfg: Pubkey,
    pub destination: Pubkey,
    pub proposal_id: u64,
    /// The weight of the ballots that back it.
    pub support_weight: u64,
    /// The principal behind those ballots.
    pub support_principal: u64,
    pub executed: u8,
}

impl GenesisDistribution {
    pub open spec fn wf(self) -> bool {
        self.executed <= 1
    }

    #[verifier::opaque]
    pub open spec fn encoded(self) -> Seq<u8> {
        GENESIS_DISTRIBUTION_DISC@ + self.genesis_cfg@ + self.destination@ + bytes::u64_bytes(
            self.proposal_id,
        ) + bytes::u64_bytes(self.support_weight) + bytes::u64_bytes(self.support_principal)
            + seq![self.executed] + bytes::zeros(7)
    }

    /// The candidate that an account's data holds.
    pub open spec fn decoded(data: Seq<u8>) -> Result<GenesisDistribution, ProgramError> {
        if data.len() < GENESIS_DISTRIBUTION_SIZE || data.subrange(0, 8)
            != GENESIS_DISTRIBUTION_DISC@ || data[96] > 1 {
            Err(ProgramError::InvalidAccountData)
        } else {
            Ok(
                GenesisDistribution {
                    genesis_cfg: pubkey::key_of(data.subrange(8, 40)),
                    destination: pubkey::key_of(data.subrange(40, 72)),
                    proposal_id: bytes::u64_of(data.subrange(72, 80)),
                    support_weight: bytes::u64_of(data.subrange(80, 88)),
                    support_principal: bytes::u64_of(data.subrange(88, 96)),
                    executed: data[96],
                },
            )
        }
    }

    /// An account's data with the record in front; what stood behind it stays.
    pub open spec fn written(self, data: Seq<u8>) -> Seq<u8> {
        self.encoded() + data.skip(GENESIS_DISTRIBUTION_SIZE as int)
    }

    pub fn deserialize(data: &[u8]) -> (r: Result<GenesisDistribution, ProgramError>)
        ensures
            r == Self::decoded(data@),
            r matches Ok(candidate) ==> candidate.wf(),
    {
        if data.len() < GENESIS_DISTRIBUTION_SIZE || !holds_at(data, 0, &GENESIS_DISTRIBUTION_DISC)
            || data[96] > 1 {
            return Err(ProgramError::InvalidAccountData);
        }
        Ok(
            GenesisDistribution {
                genesis_cfg: Pubkey::at(data, 8),
                destination: Pubkey::at(data, 40),
                proposal_id: u64_at(data, 72),
                support_weight: u64_at(data, 80),
                support_principal: u64_at(data, 88),
                executed: data[96],
            },
        )
    }

    /// The record on its own.
    pub fn to_bytes(&self) -> (r: Vec<u8>)
        ensures
            r@ == self.encoded(),
    {
        proof {
            reveal(GenesisDistribution::encoded);
        }
        let mut out: Vec<u8> = Vec::with_capacity(GENESIS_DISTRIBUTION_SIZE);
        append(&mut out, &GENESIS_DISTRIBUTION_DISC);
        assert(out@ =~= GENESIS_DISTRIBUTION_DISC@);
        append(&mut out, &self.genesis_cfg.bytes);
        append(&mut out, &self.destination.bytes);
        append_le(&mut out, self.proposal_id as u128, 8);
        append_le(&mut out, self.support_weight as u128, 8);
        append_le(&mut out, self.support_principal as u128, 8);
        append(&mut out, &[self.executed]);
        assert([self.executed]@ =~= seq![self.executed]);
        append_zeros(&mut out, 7);
        out
    }

    pub fn serialize(&self, data: &mut Vec<u8>)
        requires
            old(data)@.len() >= GENESIS_DISTRIBUTION_SIZE,
        ensures
            final(data)@ == self.written(old(data)@),
    {
        let tail = rest_of(data, GENESIS_DISTRIBUTION_SIZE);
        let mut out = self.to_bytes();
        append(&mut out, &tail);
        *data = out;
    }

    pub fn is_executed(&self) -> (r: bool)
        ensures
            r == (self.executed == 1),
    {
        self.executed == 1
    }

    /// What is written is read back, and the data keeps its length.
    pub proof fn round_trip(self, data: Seq<u8>)
        requires
            self.wf(),
            data.len() >= GENESIS_DISTRIBUTION_SIZE,
        ensures
            Self::decoded(self.written(data)) == Ok::<GenesisDistribution, ProgramError>(self),
            self.written(data).len() == data.len(),
            self.encoded().len() == GENESIS_DISTRIBUTION_SIZE,
    {
        reveal(GenesisDistribution::encoded);
        bytes::lemma_u64_round_trip(self.proposal_id);
        bytes::lemma_u64_round_trip(self.support_weight);
        bytes::lemma_u64_round_trip(self.support_principal);
        pubkey::lemma_key_of_bytes(self.genesis_cfg);
        pubkey::lemma_key_of_bytes(self.destination);
        let s = self.written(data);
        assert(s.subrange(0, 8) =~= GENESIS_DISTRIBUTION_DISC@);
        assert(s.subrange(8, 40) =~= self.genesis_cfg@);
        assert(s.subrange(40, 72) =~= self.destination@);
        assert(s.subrange(72, 80) =~= bytes::u64_bytes(self.proposal_id));
        assert(s.subrange(80, 88) =~= bytes::u64_bytes(self.support_weight));
        assert(s.subrange(88, 96) =~= bytes::u64_bytes(self.support_principal));
    }

    /// A record on its own is read back.
    pub proof fn reads_back(self)
        requires
            self.wf(),
        ensures
            Self::decoded(self.encoded()) == Ok::<GenesisDistribution, ProgramError>(self),
            self.encoded().len() == GENESIS_DISTRIBUTION_SIZE,
    {
        let blank = bytes::zeros(GENESIS_DISTRIBUTION_SIZE as nat);
        self.round_trip(blank);
        assert(self.written(blank) =~= self.encoded());
    }
}

} // verus!
