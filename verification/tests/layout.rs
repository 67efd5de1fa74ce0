//! Addresses, labels and layouts, held against the crates that define them.
use percolator_meta::account::{Account, AccountMeta, Effect};
use percolator_meta::addresses::{
    find_program_address, percolator_vault_address, CoinAddresses, BUILDER_APPROVAL_LABEL,
    COIN_CFG_LABEL, GENESIS_CFG_LABEL, GENESIS_DISTRIBUTION_LABEL, GENESIS_POSITION_LABEL,
    GENESIS_VAULT_LABEL, MARKET_ADMIN_LABEL, MINT_AUTHORITY_LABEL, PERCOLATOR_VAULT_LABEL,
};
use percolator_meta::builder::{BuilderApproval, BUILDER_APPROVAL_DISC, BUILDER_APPROVAL_SIZE};
use percolator_meta::coin::{CoinConfig, COIN_CFG_DISC, COIN_CFG_SIZE, PHASE_BOOTSTRAP, PHASE_LIVE};
use percolator_meta::error::ProgramError;
use percolator_meta::genesis::{
    GenesisConfig, GenesisDistribution, GenesisPosition, GENESIS_CFG_DISC, GENESIS_CFG_SIZE,
    GENESIS_DISTRIBUTION_DISC, GENESIS_DISTRIBUTION_SIZE, GENESIS_POSITION_DISC,
    GENESIS_POSITION_SIZE,
};
use percolator_meta::governance::{
    authority_address, AuthorityConfig, AUTHORITY_DISC, AUTHORITY_SIZE, GOVERNANCE_PROGRAM,
    REWARDS_AUTHORITY_LABEL,
};
use percolator_meta::percolator_abi::{read_market_config, MAGIC};
use percolator_meta::pubkey::{
    Pubkey, BPF_LOADER, BPF_LOADER_UPGRADEABLE, CLOCK_SYSVAR, PERCOLATOR_PROGRAM, RENT_SYSVAR,
    REWARDS_PROGRAM, SQUADS_PROGRAM, SYSTEM_PROGRAM, TOKEN_PROGRAM,
};
use percolator_meta::squads::{
    create_ix_data, multisig_address, set_config_authority_ix_data, CREATE_KEY_LABEL,
    MULTISIG_LABEL, TIMELOCK_48H_SECS,
};
use solana_program::pubkey::Pubkey as SolanaKey;
use std::str::FromStr;

fn key(seed: u8) -> Pubkey {
    Pubkey::new([seed; 32])
}

fn derived(seeds: &[&[u8]], program: [u8; 32]) -> (Pubkey, u8) {
    let program = SolanaKey::new_from_array(program);
    let (address, bump) = SolanaKey::find_program_address(seeds, &program);
    (Pubkey::new(address.to_bytes()), bump)
}

#[test]
fn program_ids_are_the_published_ones() {
    let id = |s: &str| SolanaKey::from_str(s).unwrap().to_bytes();
    assert_eq!(SYSTEM_PROGRAM, solana_program::system_program::ID.to_bytes());
    assert_eq!(TOKEN_PROGRAM, spl_token::ID.to_bytes());
    assert_eq!(BPF_LOADER, solana_program::bpf_loader::ID.to_bytes());
    assert_eq!(BPF_LOADER_UPGRADEABLE, solana_program::bpf_loader_upgradeable::ID.to_bytes());
    assert_eq!(CLOCK_SYSVAR, solana_program::sysvar::clock::ID.to_bytes());
    assert_eq!(RENT_SYSVAR, solana_program::sysvar::rent::ID.to_bytes());
    assert_eq!(PERCOLATOR_PROGRAM, id("Perco1ator111111111111111111111111111111111"));
    assert_eq!(SQUADS_PROGRAM, id("SQDS4ep65T869zMMBKyuUq6aD6EgTu8psMjkvj52pCf"));
    assert_eq!(REWARDS_PROGRAM, id("Rewards111111111111111111111111111111111111"));
    assert_eq!(GOVERNANCE_PROGRAM, [7u8; 32]);
}

#[test]
fn labels_spell_what_they_say() {
    assert_eq!(&MINT_AUTHORITY_LABEL, b"coin_mint_authority");
    assert_eq!(&COIN_CFG_LABEL, b"coin_cfg");
    assert_eq!(&MARKET_ADMIN_LABEL, b"percolator_market_admin");
    assert_eq!(&GENESIS_CFG_LABEL, b"genesis_cfg");
    assert_eq!(&GENESIS_VAULT_LABEL, b"genesis_vault");
    assert_eq!(&GENESIS_POSITION_LABEL, b"genesis_position");
    assert_eq!(&GENESIS_DISTRIBUTION_LABEL, b"genesis_distribution");
    assert_eq!(&BUILDER_APPROVAL_LABEL, b"builder_approval");
    assert_eq!(&PERCOLATOR_VAULT_LABEL, b"vault");
    assert_eq!(&CREATE_KEY_LABEL, b"genesis_squads");
    assert_eq!(&MULTISIG_LABEL, b"multisig");
    assert_eq!(&REWARDS_AUTHORITY_LABEL, b"rewards_authority");
    assert_eq!(&COIN_CFG_DISC, b"CCFGV002");
    assert_eq!(&GENESIS_CFG_DISC, b"GENCFG02");
    assert_eq!(&GENESIS_POSITION_DISC, b"GENPOS01");
    assert_eq!(&GENESIS_DISTRIBUTION_DISC, b"GENDIST1");
    assert_eq!(&BUILDER_APPROVAL_DISC, b"BLDAPP01");
    assert_eq!(&AUTHORITY_DISC, b"GAUTH001");
    assert_eq!(MAGIC, u64::from_be_bytes(*b"PERCV16\0"));
}

#[test]
fn addresses_are_the_derived_ones() {
    let (program, mint) = (key(8), key(9));
    let coin = CoinAddresses::derive(&program, &mint);
    let at = |label: &[u8]| derived(&[label, &mint.bytes], program.bytes);
    for (address, label) in [
        (coin.coin_cfg, b"coin_cfg".as_slice()),
        (coin.mint_authority, b"coin_mint_authority"),
        (coin.market_admin, b"percolator_market_admin"),
        (coin.genesis_cfg, b"genesis_cfg"),
        (coin.genesis_vault, b"genesis_vault"),
        (coin.create_key, b"genesis_squads"),
    ] {
        let address = address.unwrap();
        assert_eq!((address.key, address.bump), at(label));
    }
    let create_key = coin.create_key.unwrap().key;
    let multisig = derived(&[b"multisig", b"multisig", &create_key.bytes], SQUADS_PROGRAM);
    assert_eq!(coin.multisig, multisig_address(&create_key));
    assert_eq!(coin.multisig.map(|a| (a.key, a.bump)), Some(multisig));
    let seeds: [&[u8]; 3] = [b"rewards_authority", &program.bytes, &mint.bytes];
    assert_eq!(coin.governance, authority_address(&program, &mint));
    assert_eq!(coin.governance.map(|a| (a.key, a.bump)), Some(derived(&seeds, [7; 32])));
    let vault = derived(&[b"vault", &mint.bytes], PERCOLATOR_PROGRAM);
    assert_eq!(percolator_vault_address(&mint).map(|a| (a.key, a.bump)), Some(vault));
}

#[test]
fn too_many_or_too_long_seeds_derive_nothing() {
    assert_eq!(find_program_address(&vec![vec![0u8; 33]], &key(8)), None);
    assert_eq!(find_program_address(&vec![vec![1u8]; 17], &key(8)), None);
    assert!(find_program_address(&vec![vec![0u8; 32]], &key(8)).is_some());
}

#[test]
fn a_creation_is_the_system_programs_own_instruction() {
    let account = |seed: u8| Account {
        key: key(seed),
        owner: Pubkey::new(SYSTEM_PROGRAM),
        lamports: 0,
        is_signer: true,
        is_writable: true,
        executable: false,
        data: vec![],
    };
    let accounts = [account(1), account(2), account(3)];
    let create = Effect::Create {
        payer: 0,
        target: 1,
        system_program: 2,
        space: 72,
        owner: key(8),
        signer: vec![],
    };
    let ix = create.creation(&accounts, 1_392_000).unwrap();
    let expected = solana_program::system_instruction::create_account(
        &SolanaKey::new_from_array([1; 32]),
        &SolanaKey::new_from_array([2; 32]),
        1_392_000,
        72,
        &SolanaKey::new_from_array([8; 32]),
    );
    assert_eq!(ix.program_id.bytes, expected.program_id.to_bytes());
    assert_eq!(ix.data, expected.data);
    assert_eq!(ix.accounts, vec![AccountMeta::new(key(1), true), AccountMeta::new(key(2), true)]);
    assert_eq!(create.creation(&accounts[..1], 1), None);
    assert_eq!(Effect::Write { account: 0, data: vec![] }.creation(&accounts, 1), None);
}

#[test]
fn records_are_read_back_and_keep_what_follows() {
    let coin = CoinConfig {
        authority: key(1),
        bootstrap_start_slot: 2,
        bootstrap_delay_slots: u64::MAX,
        live_slot: 4,
        phase: PHASE_LIVE,
    };
    let mut data = vec![5u8; COIN_CFG_SIZE + 3];
    coin.serialize(&mut data);
    assert_eq!(CoinConfig::deserialize(&data), Ok(coin));
    assert_eq!(data[..COIN_CFG_SIZE], coin.to_bytes());
    assert_eq!(data[COIN_CFG_SIZE..], [5, 5, 5]);
    assert!(coin.is_live());
    assert!(!CoinConfig { phase: PHASE_BOOTSTRAP, ..coin }.is_live());

    let held = GenesisPosition {
        owner: key(1),
        amount: 2,
        withdrawn: 3,
        start_slot: 4,
        voted_proposal: key(5),
        voted_weight: 6,
        voted_principal: 7,
    };
    let mut data = vec![5u8; GENESIS_POSITION_SIZE + 1];
    held.serialize(&mut data);
    assert_eq!(GenesisPosition::deserialize(&data), Ok(held));
    assert_eq!(held.staked(), 0);
    assert_eq!(data[GENESIS_POSITION_SIZE..], [5]);

    let candidate = GenesisDistribution {
        genesis_cfg: key(1),
        destination: key(2),
        proposal_id: 3,
        support_weight: 4,
        support_principal: 5,
        executed: 1,
    };
    let mut data = vec![5u8; GENESIS_DISTRIBUTION_SIZE];
    candidate.serialize(&mut data);
    assert_eq!(GenesisDistribution::deserialize(&data), Ok(candidate));
    assert!(candidate.is_executed());

    let approval = BuilderApproval {
        coin_mint: key(1),
        builder_program: key(2),
        code_hash: [3; 32],
        terms_hash: [4; 32],
        approved_slot: 5,
        enabled: 1,
    };
    let mut data = vec![5u8; BUILDER_APPROVAL_SIZE];
    approval.serialize(&mut data);
    assert_eq!(BuilderApproval::deserialize(&data), Ok(approval));

    let authority = AuthorityConfig { controller: key(6) };
    let mut data = vec![5u8; AUTHORITY_SIZE + 2];
    authority.serialize(&mut data);
    assert_eq!(AuthorityConfig::deserialize(&data), Ok(authority));
    assert_eq!(data[AUTHORITY_SIZE..], [5, 5]);
}

#[test]
fn malformed_records_are_refused() {
    let short = [0u8; 10];
    let zeros = [0u8; 200];
    assert_eq!(CoinConfig::deserialize(&short), Err(ProgramError::InvalidAccountData));
    assert_eq!(CoinConfig::deserialize(&zeros), Err(ProgramError::InvalidAccountData));
    assert_eq!(GenesisConfig::deserialize(&zeros), Err(ProgramError::InvalidAccountData));
    assert_eq!(GenesisPosition::deserialize(&zeros), Err(ProgramError::InvalidAccountData));
    assert_eq!(GenesisDistribution::deserialize(&zeros), Err(ProgramError::InvalidAccountData));
    assert_eq!(BuilderApproval::deserialize(&zeros), Err(ProgramError::InvalidAccountData));
    assert_eq!(AuthorityConfig::deserialize(&zeros), Err(ProgramError::InvalidAccountData));

    let mut data = vec![0u8; GENESIS_CFG_SIZE];
    data[..8].copy_from_slice(b"GENCFG02");
    assert!(GenesisConfig::deserialize(&data).is_ok());
    data[136] = 2;
    assert_eq!(GenesisConfig::deserialize(&data), Err(ProgramError::InvalidAccountData));
    data[136] = 0;
    data[137] = 2;
    assert_eq!(GenesisConfig::deserialize(&data), Err(ProgramError::InvalidAccountData));

    let mut data = vec![0u8; COIN_CFG_SIZE];
    data[..8].copy_from_slice(b"CCFGV002");
    data[64] = 2;
    assert_eq!(CoinConfig::deserialize(&data), Err(ProgramError::InvalidAccountData));
}

#[test]
fn a_market_has_one_collateral_or_two_different_ones() {
    let mut data = vec![0u8; 640];
    data[0..8].copy_from_slice(&MAGIC.to_le_bytes());
    data[8..10].copy_from_slice(&16u16.to_le_bytes());
    data[10] = 1;
    assert_eq!(read_market_config(&data), Err(ProgramError::InvalidAccountData));
    data[48..80].copy_from_slice(&[3; 32]);
    data[16..48].copy_from_slice(&[4; 32]);
    data[208..240].copy_from_slice(&[5; 32]);
    data[240..272].copy_from_slice(&[6; 32]);
    data[272..304].copy_from_slice(&[7; 32]);
    let config = read_market_config(&data).unwrap();
    assert_eq!(config.admin, [4; 32]);
    assert_eq!(config.collateral_mint, [3; 32]);
    assert_eq!(config.secondary_collateral_mint, [0; 32]);
    assert_eq!(config.insurance_authority, [5; 32]);
    assert_eq!(config.insurance_operator, [6; 32]);
    assert_eq!(config.backing_bucket_authority, [7; 32]);
    data[80..112].copy_from_slice(&[3; 32]);
    assert_eq!(read_market_config(&data), Err(ProgramError::InvalidAccountData));
    data[80..112].copy_from_slice(&[8; 32]);
    assert!(read_market_config(&data).is_ok());
    assert_eq!(read_market_config(&data[..639]), Err(ProgramError::InvalidAccountData));
    data[9] = 1;
    assert_eq!(read_market_config(&data), Err(ProgramError::InvalidAccountData));
}

#[test]
fn squads_data_is_laid_out_as_the_program_expects() {
    let data = create_ix_data(&key(9));
    let mut expected = vec![50, 221, 199, 93, 40, 245, 139, 233, 1];
    expected.extend_from_slice(&[9; 32]);
    expected.extend_from_slice(&1u16.to_le_bytes());
    expected.extend_from_slice(&1u32.to_le_bytes());
    expected.extend_from_slice(&[9; 32]);
    expected.push(7);
    expected.extend_from_slice(&(48u32 * 60 * 60).to_le_bytes());
    expected.extend_from_slice(&[0, 0]);
    assert_eq!(data, expected);
    assert_eq!(TIMELOCK_48H_SECS, 48 * 60 * 60);
    let mut expected = vec![143, 93, 199, 143, 92, 169, 193, 232];
    expected.extend_from_slice(&[9; 32]);
    expected.push(0);
    assert_eq!(set_config_authority_ix_data(&key(9)), expected);
}
