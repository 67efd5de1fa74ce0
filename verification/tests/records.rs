use percolator_meta::error::ProgramError;
use percolator_meta::genesis::{GenesisConfig, GENESIS_CFG_SIZE};
use percolator_meta::ledger::genesis_recoverable_principal;
use percolator_meta::percolator_abi::{
    genesis_recovery_ix_data, percolator_admin_tag_allowed, GENESIS_RECOVER_BACKING,
    GENESIS_RECOVER_INSURANCE_LIMITED, GENESIS_RECOVER_INSURANCE_TERMINAL, PERC_IX_CLOSE_SLAB,
    PERC_IX_INIT_MARKET, PERC_IX_RESOLVE_MARKET, PERC_IX_TOP_UP_INSURANCE,
    PERC_IX_UPDATE_ASSET_LIFECYCLE, PERC_IX_UPDATE_AUTHORITY,
    PERC_IX_UPDATE_MARKET_INIT_FEE_POLICY, PERC_IX_WITHDRAW_BACKING_BUCKET,
    PERC_IX_WITHDRAW_INSURANCE, PERC_IX_WITHDRAW_INSURANCE_LIMITED,
};
use percolator_meta::pubkey::Pubkey;

fn key(seed: u8) -> Pubkey {
    Pubkey::new([seed; 32])
}

#[test]
fn genesis_config_round_trips_fixed_layout() {
    let cfg = GenesisConfig {
        coin_mint: key(1),
        base_mint: key(2),
        token_vault: key(3),
        total_deposited: 101,
        total_withdrawn: 1,
        reward_supply: 1_000_000,
        minted_supply: 250_000,
        finalized: 1,
        kicked: 1,
        total_cast_weight: 12345,
        total_voted_principal: 101,
        genesis_market_slab: key(4),
    };

    let mut bytes = vec![0u8; GENESIS_CFG_SIZE];
    cfg.serialize(&mut bytes);
    let decoded = GenesisConfig::deserialize(&bytes).unwrap();

    assert_eq!(decoded.coin_mint, cfg.coin_mint);
    assert_eq!(decoded.base_mint, cfg.base_mint);
    assert_eq!(decoded.token_vault, cfg.token_vault);
    assert_eq!(decoded.total_deposited, cfg.total_deposited);
    assert_eq!(decoded.total_withdrawn, cfg.total_withdrawn);
    assert_eq!(decoded.reward_supply, cfg.reward_supply);
    assert_eq!(decoded.minted_supply, cfg.minted_supply);
    assert_eq!(decoded.total_voted_principal, cfg.total_voted_principal);
    assert_eq!(decoded.total_cast_weight, cfg.total_cast_weight);
    assert_eq!(decoded.genesis_market_slab, cfg.genesis_market_slab);
    assert!(decoded.is_finalized());
    assert!(decoded.is_kicked());
    assert_eq!(decoded.outstanding_principal(), 100);
    assert_eq!(bytes.len(), 192);
}

#[test]
fn genesis_withdrawal_returns_up_to_principal_pro_rata() {
    assert_eq!(genesis_recoverable_principal(10, 100, 100).unwrap(), 10);
    assert_eq!(genesis_recoverable_principal(10, 50, 100).unwrap(), 5);
    assert_eq!(genesis_recoverable_principal(3, 2, 10).unwrap(), 0);
    assert!(genesis_recoverable_principal(1, 0, 0).is_err());
}

#[test]
fn genesis_recovery_builds_only_supported_percolator_withdrawals() {
    let insurance = genesis_recovery_ix_data(GENESIS_RECOVER_INSURANCE_LIMITED, 7, 5).unwrap();
    assert_eq!(insurance[0], PERC_IX_WITHDRAW_INSURANCE_LIMITED);
    assert_eq!(insurance.len(), 17);
    assert_eq!(u128::from_le_bytes(insurance[1..17].try_into().unwrap()), 5);

    let backing = genesis_recovery_ix_data(GENESIS_RECOVER_BACKING, 3, 9).unwrap();
    assert_eq!(backing[0], PERC_IX_WITHDRAW_BACKING_BUCKET);
    assert_eq!(backing[1], 3);
    assert_eq!(u128::from_le_bytes(backing[2..18].try_into().unwrap()), 9);

    let terminal = genesis_recovery_ix_data(GENESIS_RECOVER_INSURANCE_TERMINAL, 0, 11).unwrap();
    assert_eq!(terminal[0], PERC_IX_WITHDRAW_INSURANCE);
    assert_eq!(terminal.len(), 17);

    assert!(genesis_recovery_ix_data(99, 0, 1).is_err());
    assert!(genesis_recovery_ix_data(GENESIS_RECOVER_BACKING, 0, 0).is_err());
}

#[test]
fn futarchy_admin_proxy_is_lifecycle_scoped() {
    assert!(!percolator_admin_tag_allowed(PERC_IX_INIT_MARKET));
    assert!(percolator_admin_tag_allowed(
        PERC_IX_UPDATE_MARKET_INIT_FEE_POLICY
    ));
    assert!(percolator_admin_tag_allowed(PERC_IX_UPDATE_ASSET_LIFECYCLE));
    assert!(percolator_admin_tag_allowed(PERC_IX_RESOLVE_MARKET));
    assert!(percolator_admin_tag_allowed(PERC_IX_CLOSE_SLAB));
    assert!(!percolator_admin_tag_allowed(PERC_IX_UPDATE_AUTHORITY));
    assert!(!percolator_admin_tag_allowed(PERC_IX_TOP_UP_INSURANCE));
    assert!(!percolator_admin_tag_allowed(
        PERC_IX_WITHDRAW_BACKING_BUCKET
    ));
}

#[test]
fn recovery_errors_name_their_reason() {
    assert_eq!(genesis_recoverable_principal(1, 0, 0), Err(ProgramError::InvalidAccountData));
    assert_eq!(
        genesis_recovery_ix_data(99, 0, 1),
        Err(ProgramError::InvalidInstructionData)
    );
}
