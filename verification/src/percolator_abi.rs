//! What is known of the Percolator program: how a market stores its configuration, and which
//! instructions it takes.
use crate::bytes;
use crate::bytes::{append, append_le, u16_at, u64_at};
use crate::error::ProgramError;
use crate::pubkey;
use crate::pubkey::{Pubkey, SYSTEM_PROGRAM};
use vstd::prelude::*;

verus! {

/// `"PERCV16\0"`, read as a big-endian integer.
pub const MAGIC: u64 = 0x5045_5243_5631_3600;

pub const VERSION: u16 = 16;

pub const KIND_MARKET: u8 = 1;

/// The header of 16 bytes and the configuration of 624.
pub const MARKET_LEN: usize = 640;

pub const PERC_IX_INIT_MARKET: u8 = 0;

pub const PERC_IX_TOP_UP_INSURANCE: u8 = 9;

pub const PERC_IX_CLOSE_SLAB: u8 = 13;

pub const PERC_IX_RESOLVE_MARKET: u8 = 19;

pub const PERC_IX_WITHDRAW_INSURANCE_LIMITED: u8 = 23;

pub const PERC_IX_TOP_UP_BACKING_BUCKET: u8 = 24;

pub const PERC_IX_UPDATE_AUTHORITY: u8 = 32;

pub const PERC_IX_UPDATE_INSURANCE_POLICY: u8 = 33;

pub const PERC_IX_CONFIGURE_HYBRID_ORACLE: u8 = 34;

pub const PERC_IX_CONFIGURE_EWMA_MARK: u8 = 35;

pub const PERC_IX_UPDATE_LIQUIDATION_FEE_POLICY: u8 = 37;

pub const PERC_IX_CONFIGURE_PERMISSIONLESS_RESOLVE: u8 = 38;

pub const PERC_IX_UPDATE_ASSET_LIFECYCLE: u8 = 40;

pub const PERC_IX_WITHDRAW_INSURANCE: u8 = 41;

pub const PERC_IX_UPDATE_MAINTENANCE_FEE_POLICY: u8 = 49;

pub const PERC_IX_WITHDRAW_BACKING_BUCKET: u8 = 50;

pub const PERC_IX_UPDATE_BACKING_FEE_POLICY: u8 = 51;

pub const PERC_IX_WITHDRAW_BACKING_BUCKET_EARNINGS: u8 = 52;

pub const PERC_IX_UPDATE_TRADE_FEE_POLICY: u8 = 55;

pub const PERC_IX_WITHDRAW_INSURANCE_DOMAIN: u8 = 57;

pub const PERC_IX_UPDATE_FEE_REDIRECT_POLICY: u8 = 58;

pub const PERC_IX_UPDATE_MARKET_INIT_FEE_POLICY: u8 = 59;

pub const PERC_IX_UPDATE_BASE_UNIT_MINTS: u8 = 60;

pub const PERC_IX_CONFIGURE_AUTH_MARK: u8 = 62;

/// The share of the deposited insurance that may be withdrawn again, in basis points: all of it.
pub const GENESIS_INSURANCE_WITHDRAW_MAX_BPS: u16 = 10_000;

pub const GENESIS_RECOVER_INSURANCE_LIMITED: u8 = 0;

pub const GENESIS_RECOVER_BACKING: u8 = 1;

pub const GENESIS_RECOVER_BACKING_EARNINGS: u8 = 2;

pub const GENESIS_RECOVER_INSURANCE_TERMINAL: u8 = 3;

pub const GENESIS_RECOVER_INSURANCE_DOMAIN: u8 = 4;

/// What is read of a market's configuration.
#[derive(Clone, Copy, PartialEq, Eq, Debug)]
pub struct MarketConfig {
    pub admin: [u8; 32],
    pub collateral_mint: [u8; 32],
    pub secondary_collateral_mint: [u8; 32],
    pub insurance_authority: [u8; 32],
    pub insurance_operator: [u8; 32],
    pub backing_bucket_authority: [u8; 32],
}

/// The header of a market: the magic number, the version and the kind.
pub open spec fn market_header(data: Seq<u8>) -> bool {
    &&& bytes::u64_of(data.subrange(0, 8)) == MAGIC
    &&& bytes::le_value(data.subrange(8, 10)) == VERSION
    &&& data[10] == KIND_MARKET
}

/// The 32 bytes at `off`.
pub open spec fn bytes32_at(data: Seq<u8>, off: int) -> [u8; 32] {
    pubkey::key_of(data.subrange(off, off + 32)).bytes
}

/// The fields of a market, behind its header.
pub open spec fn market_fields(data: Seq<u8>) -> MarketConfig {
    MarketConfig {
        admin: bytes32_at(data, 16),
        collateral_mint: bytes32_at(data, 48),
        secondary_collateral_mint: bytes32_at(data, 80),
        insurance_authority: bytes32_at(data, 208),
        insurance_operator: bytes32_at(data, 240),
        backing_bucket_authority: bytes32_at(data, 272),
    }
}

/// The configuration that a market's data holds. A market has a collateral mint, and a second one
/// only if that is another mint.
pub open spec fn market_config_of(data: Seq<u8>) -> Result<MarketConfig, ProgramError> {
    let config = market_fields(data);
    if data.len() < MARKET_LEN || !market_header(data) || config.collateral_mint == SYSTEM_PROGRAM
        || config.secondary_collateral_mint == config.collateral_mint {
        Err(ProgramError::InvalidAccountData)
    } else {
        Ok(config)
    }
}

pub fn read_market_config(data: &[u8]) -> (r: Result<MarketConfig, ProgramError>)
    ensures
        r == market_config_of(data@),
{
    if data.len() < MARKET_LEN {
        return Err(ProgramError::InvalidAccountData);
    }
    if u64_at(data, 0) != MAGIC || u16_at(data, 8) != VERSION || data[10] != KIND_MARKET {
        return Err(ProgramError::InvalidAccountData);
    }
    let collateral = Pubkey::at(data, 48);
    let secondary = Pubkey::at(data, 80);
    if collateral.is_id(&SYSTEM_PROGRAM) || (!secondary.is_id(&SYSTEM_PROGRAM) && secondary.same(
        &collateral,
    )) {
        return Err(ProgramError::InvalidAccountData);
    }
    Ok(
        MarketConfig {
            admin: Pubkey::at(data, 16).bytes,
            collateral_mint: collateral.bytes,
            secondary_collateral_mint: secondary.bytes,
            insurance_authority: Pubkey::at(data, 208).bytes,
            insurance_operator: Pubkey::at(data, 240).bytes,
            backing_bucket_authority: Pubkey::at(data, 272).bytes,
        },
    )
}

/// The instructions that governance may hand on to a market: its life cycle, its oracles and its
/// fees. None of them moves funds, and none moves an authority over funds.
pub open spec fn admin_tag(tag: u8) -> bool {
    ||| tag == PERC_IX_CLOSE_SLAB
    ||| tag == PERC_IX_RESOLVE_MARKET
    ||| tag == PERC_IX_UPDATE_INSURANCE_POLICY
    ||| tag == PERC_IX_CONFIGURE_HYBRID_ORACLE
    ||| tag == PERC_IX_CONFIGURE_EWMA_MARK
    ||| tag == PERC_IX_UPDATE_LIQUIDATION_FEE_POLICY
    ||| tag == PERC_IX_CONFIGURE_PERMISSIONLESS_RESOLVE
    ||| tag == PERC_IX_UPDATE_ASSET_LIFECYCLE
    ||| tag == PERC_IX_UPDATE_MAINTENANCE_FEE_POLICY
    ||| tag == PERC_IX_UPDATE_BACKING_FEE_POLICY
    ||| tag == PERC_IX_UPDATE_TRADE_FEE_POLICY
    ||| tag == PERC_IX_UPDATE_FEE_REDIRECT_POLICY
    ||| tag == PERC_IX_UPDATE_MARKET_INIT_FEE_POLICY
    ||| tag == PERC_IX_UPDATE_BASE_UNIT_MINTS
    ||| tag == PERC_IX_CONFIGURE_AUTH_MARK
}

pub fn percolator_admin_tag_allowed(tag: u8) -> (r: bool)
    ensures
        r == admin_tag(tag),
{
    tag == PERC_IX_CLOSE_SLAB || tag == PERC_IX_RESOLVE_MARKET || tag
        == PERC_IX_UPDATE_INSURANCE_POLICY || tag == PERC_IX_CONFIGURE_HYBRID_ORACLE || tag
        == PERC_IX_CONFIGURE_EWMA_MARK || tag == PERC_IX_UPDATE_LIQUIDATION_FEE_POLICY || tag
        == PERC_IX_CONFIGURE_PERMISSIONLESS_RESOLVE || tag == PERC_IX_UPDATE_ASSET_LIFECYCLE || tag
        == PERC_IX_UPDATE_MAINTENANCE_FEE_POLICY || tag == PERC_IX_UPDATE_BACKING_FEE_POLICY || tag
        == PERC_IX_UPDATE_TRADE_FEE_POLICY || tag == PERC_IX_UPDATE_FEE_REDIRECT_POLICY || tag
        == PERC_IX_UPDATE_MARKET_INIT_FEE_POLICY || tag == PERC_IX_UPDATE_BASE_UNIT_MINTS || tag
        == PERC_IX_CONFIGURE_AUTH_MARK
}

/// The instructions that would take a genesis market away from under its depositors.
pub open spec fn locking_tag(tag: u8) -> bool {
    ||| tag == PERC_IX_UPDATE_INSURANCE_POLICY
    ||| tag == PERC_IX_RESOLVE_MARKET
    ||| tag == PERC_IX_CLOSE_SLAB
}

pub fn is_locked_tag(tag: u8) -> (r: bool)
    ensures
        r == locking_tag(tag),
{
    tag == PERC_IX_UPDATE_INSURANCE_POLICY || tag == PERC_IX_RESOLVE_MARKET || tag
        == PERC_IX_CLOSE_SLAB
}

/// The 16 bytes that an amount is written in.
pub open spec fn amount_bytes(amount: u64) -> Seq<u8> {
    bytes::le_bytes(amount as nat, 16)
}

/// The data of a withdrawal from a market: a tag, the domain where the withdrawal has one, and the
/// amount.
pub open spec fn recovery_data(kind: u8, domain: u8, amount: u64) -> Result<Seq<u8>, ProgramError> {
    if amount == 0 {
        Err(ProgramError::InvalidInstructionData)
    } else if kind == GENESIS_RECOVER_INSURANCE_LIMITED {
        Ok(seq![PERC_IX_WITHDRAW_INSURANCE_LIMITED] + amount_bytes(amount))
    } else if kind == GENESIS_RECOVER_BACKING {
        Ok(seq![PERC_IX_WITHDRAW_BACKING_BUCKET, domain] + amount_bytes(amount))
    } else if kind == GENESIS_RECOVER_BACKING_EARNINGS {
        Ok(seq![PERC_IX_WITHDRAW_BACKING_BUCKET_EARNINGS, domain] + amount_bytes(amount))
    } else if kind == GENESIS_RECOVER_INSURANCE_TERMINAL {
        Ok(seq![PERC_IX_WITHDRAW_INSURANCE] + amount_bytes(amount))
    } else if kind == GENESIS_RECOVER_INSURANCE_DOMAIN {
        Ok(seq![PERC_IX_WITHDRAW_INSURANCE_DOMAIN, domain] + amount_bytes(amount))
    } else {
        Err(ProgramError::InvalidInstructionData)
    }
}

/// The contents of instruction data, or why there is none.
pub open spec fn data_view(r: Result<Vec<u8>, ProgramError>) -> Result<Seq<u8>, ProgramError> {
    match r {
        Ok(data) => Ok(data@),
        Err(e) => Err(e),
    }
}

pub fn genesis_recovery_ix_data(kind: u8, domain: u8, amount: u64) -> (r: Result<
    Vec<u8>,
    ProgramError,
>)
    ensures
        data_view(r) == recovery_data(kind, domain, amount),
{
    if amount == 0 {
        return Err(ProgramError::InvalidInstructionData);
    }
    let mut data: Vec<u8> = Vec::with_capacity(18);
    if kind == GENESIS_RECOVER_INSURANCE_LIMITED {
        data.push(PERC_IX_WITHDRAW_INSURANCE_LIMITED);
    } else if kind == GENESIS_RECOVER_BACKING {
        data.push(PERC_IX_WITHDRAW_BACKING_BUCKET);
        data.push(domain);
    } else if kind == GENESIS_RECOVER_BACKING_EARNINGS {
        data.push(PERC_IX_WITHDRAW_BACKING_BUCKET_EARNINGS);
        data.push(domain);
    } else if kind == GENESIS_RECOVER_INSURANCE_TERMINAL {
        data.push(PERC_IX_WITHDRAW_INSURANCE);
    } else if kind == GENESIS_RECOVER_INSURANCE_DOMAIN {
        data.push(PERC_IX_WITHDRAW_INSURANCE_DOMAIN);
        data.push(domain);
    } else {
        return Err(ProgramError::InvalidInstructionData);
    }
    append_le(&mut data, amount as u128, 16);
    assert(data@ =~= recovery_data(kind, domain, amount)->Ok_0);
    Ok(data)
}

/// The data that makes a market's deposited insurance, and nothing more, withdrawable at any time:
/// all of it, deposits only, without a cooldown.
pub open spec fn policy_data() -> Seq<u8> {
    seq![PERC_IX_UPDATE_INSURANCE_POLICY] + bytes::le_bytes(
        GENESIS_INSURANCE_WITHDRAW_MAX_BPS as nat,
        2,
    ) + seq![1u8] + bytes::u64_bytes(0)
}

pub fn insurance_policy_ix_data() -> (r: Vec<u8>)
    ensures
        r@ == policy_data(),
{
    let mut data: Vec<u8> = Vec::with_capacity(12);
    data.push(PERC_IX_UPDATE_INSURANCE_POLICY);
    append_le(&mut data, GENESIS_INSURANCE_WITHDRAW_MAX_BPS as u128, 2);
    append(&mut data, &[1u8]);
    assert([1u8]@ =~= seq![1u8]);
    append_le(&mut data, 0, 8);
    data
}

/// The data that tops a market's insurance up.
pub open spec fn insurance_top_up_data(amount: u64) -> Seq<u8> {
    seq![PERC_IX_TOP_UP_INSURANCE] + amount_bytes(amount)
}

pub fn insurance_top_up_ix_data(amount: u64) -> (r: Vec<u8>)
    ensures
        r@ == insurance_top_up_data(amount),
{
    let mut data: Vec<u8> = Vec::with_capacity(17);
    data.push(PERC_IX_TOP_UP_INSURANCE);
    append_le(&mut data, amount as u128, 16);
    data
}

/// The data that tops one of a market's backing buckets up, until a slot.
pub open spec fn backing_top_up_data(domain: u8, amount: u64, expiry_slot: u64) -> Seq<u8> {
    seq![PERC_IX_TOP_UP_BACKING_BUCKET, domain] + amount_bytes(amount) + bytes::u64_bytes(
        expiry_slot,
    )
}

pub fn backing_top_up_ix_data(domain: u8, amount: u64, expiry_slot: u64) -> (r: Vec<u8>)
    ensures
        r@ == backing_top_up_data(domain, amount, expiry_slot),
{
    let mut data: Vec<u8> = Vec::with_capacity(27);
    data.push(PERC_IX_TOP_UP_BACKING_BUCKET);
    data.push(domain);
    append_le(&mut data, amount as u128, 16);
    append_le(&mut data, expiry_slot as u128, 8);
    data
}

} // verus!
