//! The two programs against a small runtime: accounts, signatures, privileges, derived signers, and
//! transactions that fail as a whole. The token program is the real one; Percolator and Squads are
//! stood in for by what the programs rely on.
use percolator_meta::account::{Account, AccountMeta, Effect, Instruction};
use percolator_meta::governance;
use percolator_meta::percolator_abi::read_market_config;
use percolator_meta::pubkey::{
    Pubkey, BPF_LOADER, CLOCK_SYSVAR, PERCOLATOR_PROGRAM, RENT_SYSVAR, SQUADS_PROGRAM,
    SYSTEM_PROGRAM, TOKEN_PROGRAM,
};
use percolator_meta::rewards;
use percolator_meta::rewards::withdrawal::complete_market_exit;
use solana_program::account_info::AccountInfo;
use solana_program::program_option::COption;
use solana_program::program_pack::Pack;
use solana_program::pubkey::Pubkey as SolanaKey;
use solana_program::rent::Rent;
use spl_token::state::{Account as TokenAccount, AccountState, Mint};
use std::collections::HashMap;

const TOKEN: Pubkey = Pubkey { bytes: TOKEN_PROGRAM };
const SYSTEM: Pubkey = Pubkey { bytes: SYSTEM_PROGRAM };
const PERCOLATOR: Pubkey = Pubkey { bytes: PERCOLATOR_PROGRAM };
const SQUADS: Pubkey = Pubkey { bytes: SQUADS_PROGRAM };
const CLOCK: Pubkey = Pubkey { bytes: CLOCK_SYSVAR };
const RENT: Pubkey = Pubkey { bytes: RENT_SYSVAR };
const SQUADS_TIMELOCK_48H: u32 = 48 * 60 * 60;

fn solana(key: &Pubkey) -> SolanaKey {
    SolanaKey::new_from_array(key.bytes)
}

fn derived(seeds: &[&[u8]], program: &Pubkey) -> Pubkey {
    Pubkey::new(SolanaKey::find_program_address(seeds, &solana(program)).0.to_bytes())
}

fn make_token_account_data(mint: &Pubkey, owner: &Pubkey, amount: u64) -> Vec<u8> {
    let mut data = vec![0u8; TokenAccount::LEN];
    let account = TokenAccount {
        mint: solana(mint),
        owner: solana(owner),
        amount,
        state: AccountState::Initialized,
        ..TokenAccount::default()
    };
    TokenAccount::pack(account, &mut data).unwrap();
    data
}

fn make_mint_data(authority: Option<&Pubkey>, freeze: Option<&Pubkey>) -> Vec<u8> {
    let mut data = vec![0u8; Mint::LEN];
    let mint = Mint {
        mint_authority: COption::from(authority.map(solana)),
        supply: 0,
        decimals: 6,
        is_initialized: true,
        freeze_authority: COption::from(freeze.map(solana)),
    };
    Mint::pack(mint, &mut data).unwrap();
    data
}

fn make_percolator_market_data(collateral_mint: &Pubkey, admin: &Pubkey) -> Vec<u8> {
    let mut data = vec![0u8; 1024];
    data[0..8].copy_from_slice(&0x5045_5243_5631_3600u64.to_le_bytes());
    data[8..10].copy_from_slice(&16u16.to_le_bytes());
    data[10] = 1;
    data[48..80].copy_from_slice(&collateral_mint.bytes);
    for offset in [16, 208, 240, 272] {
        data[offset..offset + 32].copy_from_slice(&admin.bytes);
    }
    data
}

fn encode_init_market() -> Vec<u8> {
    let mut data = vec![0u8];
    data.extend_from_slice(&1u16.to_le_bytes()); // max_portfolio_assets
    data.extend_from_slice(&0u64.to_le_bytes()); // h_min
    data.extend_from_slice(&1u64.to_le_bytes()); // h_max
    data.extend_from_slice(&1_000_000u64.to_le_bytes()); // initial_price
    data.extend_from_slice(&1u128.to_le_bytes()); // min_nonzero_mm_req
    data.extend_from_slice(&2u128.to_le_bytes()); // min_nonzero_im_req
    data.extend_from_slice(&10_000u64.to_le_bytes()); // maintenance_margin_bps
    data.extend_from_slice(&10_000u64.to_le_bytes()); // initial_margin_bps
    data.extend_from_slice(&0u64.to_le_bytes()); // max_trading_fee_bps
    data.extend_from_slice(&0u64.to_le_bytes()); // trade_fee_base_bps
    data.extend_from_slice(&0u64.to_le_bytes()); // liquidation_fee_bps
    data.extend_from_slice(&1_000_000_000_000u128.to_le_bytes()); // liquidation_fee_cap
    data.extend_from_slice(&0u128.to_le_bytes()); // min_liquidation_abs
    data.extend_from_slice(&10_000u64.to_le_bytes()); // max_price_move_bps_per_slot
    data.extend_from_slice(&1u64.to_le_bytes()); // max_accrual_dt_slots
    data.extend_from_slice(&0u64.to_le_bytes()); // max_abs_funding_e9_per_slot
    data.extend_from_slice(&1u64.to_le_bytes()); // min_funding_lifetime_slots
    data.extend_from_slice(&1u64.to_le_bytes()); // max_account_b_settlement_chunks
    data.extend_from_slice(&1u64.to_le_bytes()); // max_bankrupt_close_chunks
    data.extend_from_slice(&1u64.to_le_bytes()); // max_bankrupt_close_lifetime_slots
    data.extend_from_slice(&1u128.to_le_bytes()); // public_b_chunk_atoms
    data.extend_from_slice(&0u128.to_le_bytes()); // maintenance_fee_per_slot
    data
}

#[derive(Clone)]
struct Stored {
    owner: Pubkey,
    lamports: u64,
    executable: bool,
    data: Vec<u8>,
}

#[derive(Clone, Default)]
struct Market {
    insurance: u128,
    backing: u128,
    policy: Vec<u8>,
}

#[derive(Clone)]
struct Runtime {
    accounts: HashMap<[u8; 32], Stored>,
    markets: HashMap<[u8; 32], Market>,
    rewards_id: Pubkey,
    slot: u64,
}

impl Runtime {
    fn load(&self, meta: &AccountMeta) -> Account {
        let stored = self.accounts.get(&meta.pubkey.bytes).cloned().unwrap_or(Stored {
            owner: SYSTEM,
            lamports: 0,
            executable: false,
            data: vec![],
        });
        Account {
            key: meta.pubkey,
            owner: stored.owner,
            lamports: stored.lamports,
            is_signer: meta.is_signer,
            is_writable: meta.is_writable,
            executable: stored.executable,
            data: stored.data,
        }
    }

    fn load_all(&self, metas: &[AccountMeta]) -> Vec<Account> {
        metas.iter().map(|meta| self.load(meta)).collect()
    }

    fn run(&mut self, program: &Pubkey, metas: &[AccountMeta], data: &[u8]) -> Result<(), String> {
        let accounts = self.load_all(metas);
        if *program == self.rewards_id {
            let plan = rewards::process_instruction(program, &accounts, data, self.slot)
                .map_err(|e| format!("{:?}", e))?;
            self.perform(program, &accounts, &plan.effects)?;
            if let Some(exit) = plan.exit {
                let accounts = self.load_all(metas);
                let rest = complete_market_exit(&accounts, &exit).map_err(|e| format!("{:?}", e))?;
                self.perform(program, &accounts, &rest)?;
            }
            Ok(())
        } else if *program == governance::id() {
            let effects = governance::process_instruction(program, &accounts, data)
                .map_err(|e| format!("{:?}", e))?;
            self.perform(program, &accounts, &effects)
        } else if *program == TOKEN {
            self.run_token(&accounts, data)
        } else if *program == PERCOLATOR {
            self.run_percolator(&accounts, data)
        } else if *program == SQUADS {
            self.run_squads(&accounts, data)
        } else {
            Err("unknown program".to_string())
        }
    }

    fn perform(
        &mut self,
        caller: &Pubkey,
        accounts: &[Account],
        effects: &[Effect],
    ) -> Result<(), String> {
        for effect in effects {
            match effect {
                Effect::Create { payer, target, system_program, space, owner, signer } => {
                    let lamports = Rent::default().minimum_balance(*space as usize);
                    let ix = effect.creation(accounts, lamports).expect("a creation");
                    let handed = [*payer, *target, *system_program];
                    self.check_call(caller, accounts, &ix, &handed, signer)?;
                    let key = accounts[*target].key;
                    if self.accounts.get(&key.bytes).map(|a| a.lamports).unwrap_or(0) > 0 {
                        return Err("account already in use".to_string());
                    }
                    let data = vec![0u8; *space as usize];
                    let stored = Stored { owner: *owner, lamports, executable: false, data };
                    self.accounts.insert(key.bytes, stored);
                }
                Effect::Write { account, data } => {
                    assert!(accounts[*account].is_writable, "write to a read-only account");
                    let stored = self.accounts.get_mut(&accounts[*account].key.bytes).unwrap();
                    assert_eq!(stored.owner, *caller, "write to a foreign account");
                    assert_eq!(stored.data.len(), data.len(), "write of another length");
                    stored.data = data.clone();
                }
                Effect::Invoke { instruction, accounts: handed, signer } => {
                    self.check_call(caller, accounts, instruction, handed, signer)?;
                    self.run(&instruction.program_id, &instruction.accounts, &instruction.data)?;
                }
            }
        }
        Ok(())
    }

    /// What the runtime asks of a call: every account is handed over, signatures and write access are
    /// not made up, and the called program is there.
    fn check_call(
        &self,
        caller: &Pubkey,
        accounts: &[Account],
        ix: &Instruction,
        handed: &[usize],
        signer: &[Vec<u8>],
    ) -> Result<(), String> {
        let seeds: Vec<&[u8]> = signer.iter().map(|seed| seed.as_slice()).collect();
        let own = if seeds.is_empty() {
            None
        } else {
            let key = SolanaKey::create_program_address(&seeds, &solana(caller)).unwrap();
            Some(Pubkey::new(key.to_bytes()))
        };
        for meta in &ix.accounts {
            let same: Vec<&Account> =
                handed.iter().map(|i| &accounts[*i]).filter(|a| a.key == meta.pubkey).collect();
            if same.is_empty() {
                return Err("missing account".to_string());
            }
            if meta.is_signer && own != Some(meta.pubkey) && !same.iter().any(|a| a.is_signer) {
                return Err("missing signature".to_string());
            }
            if meta.is_writable && !same.iter().any(|a| a.is_writable) {
                return Err("missing write access".to_string());
            }
        }
        assert!(handed.iter().any(|i| accounts[*i].key == ix.program_id), "program not handed over");
        Ok(())
    }

    fn run_token(&mut self, accounts: &[Account], data: &[u8]) -> Result<(), String> {
        let keys: Vec<SolanaKey> = accounts.iter().map(|a| solana(&a.key)).collect();
        let owners: Vec<SolanaKey> = accounts.iter().map(|a| solana(&a.owner)).collect();
        let mut lamports: Vec<u64> = accounts.iter().map(|a| a.lamports).collect();
        let mut contents: Vec<Vec<u8>> = accounts.iter().map(|a| a.data.clone()).collect();
        {
            let infos: Vec<AccountInfo> = accounts
                .iter()
                .zip(lamports.iter_mut().zip(contents.iter_mut()))
                .enumerate()
                .map(|(i, (a, (l, d)))| {
                    let (w, x) = (a.is_writable, a.executable);
                    AccountInfo::new(&keys[i], a.is_signer, w, l, d, &owners[i], x, 0)
                })
                .collect();
            spl_token::processor::Processor::process(&spl_token::ID, &infos, data)
                .map_err(|e| format!("{:?}", e))?;
        }
        for (account, data) in accounts.iter().zip(contents) {
            if account.is_writable {
                self.accounts.get_mut(&account.key.bytes).unwrap().data = data;
            }
        }
        Ok(())
    }

    fn move_tokens(&mut self, from: &Pubkey, to: &Pubkey, amount: u64) -> Result<(), String> {
        let balance = self.balance(from);
        if balance < amount {
            return Err("insufficient tokens".to_string());
        }
        self.set_balance(from, balance - amount);
        let held = self.balance(to);
        self.set_balance(to, held + amount);
        Ok(())
    }

    fn balance(&self, account: &Pubkey) -> u64 {
        TokenAccount::unpack(&self.accounts[&account.bytes].data).unwrap().amount
    }

    fn set_balance(&mut self, account: &Pubkey, amount: u64) {
        let stored = self.accounts.get_mut(&account.bytes).unwrap();
        let mut token = TokenAccount::unpack(&stored.data).unwrap();
        token.amount = amount;
        TokenAccount::pack(token, &mut stored.data).unwrap();
    }

    fn run_percolator(&mut self, accounts: &[Account], data: &[u8]) -> Result<(), String> {
        let (admin, slab) = (&accounts[0], &accounts[1]);
        if !admin.is_signer {
            return Err("admin must sign".to_string());
        }
        if data[0] == 0 {
            assert_eq!(data, encode_init_market());
            let market = make_percolator_market_data(&accounts[2].key, &admin.key);
            self.accounts.get_mut(&slab.key.bytes).unwrap().data = market;
            self.markets.insert(slab.key.bytes, Market::default());
            return Ok(());
        }
        let config = read_market_config(&slab.data).map_err(|e| format!("{:?}", e))?;
        if config.admin != admin.key.bytes {
            return Err("wrong admin".to_string());
        }
        let amount = |at: usize| u128::from_le_bytes(data[at..at + 16].try_into().unwrap());
        let mut market = self.markets.get(&slab.key.bytes).cloned().unwrap_or_default();
        match data[0] {
            9 => {
                market.insurance += amount(1);
                self.move_tokens(&accounts[2].key, &accounts[3].key, amount(1) as u64)?;
            }
            24 => {
                market.backing += amount(2);
                self.move_tokens(&accounts[2].key, &accounts[3].key, amount(2) as u64)?;
            }
            23 => {
                market.insurance =
                    market.insurance.checked_sub(amount(1)).ok_or("insurance exhausted")?;
                self.move_tokens(&accounts[3].key, &accounts[2].key, amount(1) as u64)?;
            }
            50 => {
                market.backing = market.backing.checked_sub(amount(2)).ok_or("backing exhausted")?;
                self.move_tokens(&accounts[3].key, &accounts[2].key, amount(2) as u64)?;
            }
            33 => market.policy = data[1..].to_vec(),
            tag => return Err(format!("market instruction {}", tag)),
        }
        self.markets.insert(slab.key.bytes, market);
        Ok(())
    }

    fn run_squads(&mut self, accounts: &[Account], data: &[u8]) -> Result<(), String> {
        if data[..8] == [50, 221, 199, 93, 40, 245, 139, 233] {
            assert!(accounts[3].is_signer && accounts[4].is_signer);
            assert_eq!(data[8], 1);
            let mut multisig = vec![0u8; 132];
            multisig[8..40].copy_from_slice(&accounts[3].key.bytes);
            multisig[40..72].copy_from_slice(&data[9..41]);
            multisig[72..74].copy_from_slice(&data[41..43]);
            assert_eq!(u32::from_le_bytes(data[43..47].try_into().unwrap()), 1);
            assert_eq!(data[47..79], data[9..41]);
            assert_eq!(data[79], 7);
            multisig[74..78].copy_from_slice(&data[80..84]);
            assert_eq!(data[84..], [0, 0]);
            let stored =
                Stored { owner: SQUADS, lamports: 1_000_000, executable: false, data: multisig };
            self.accounts.insert(accounts[2].key.bytes, stored);
            Ok(())
        } else if data[..8] == [143, 93, 199, 143, 92, 169, 193, 232] {
            let multisig = self.accounts.get_mut(&accounts[0].key.bytes).unwrap();
            if !accounts[1].is_signer || multisig.data[40..72] != accounts[1].key.bytes {
                return Err("wrong config authority".to_string());
            }
            multisig.data[40..72].copy_from_slice(&data[8..40]);
            assert_eq!(data[40..], [0]);
            Ok(())
        } else {
            Err("unknown instruction".to_string())
        }
    }
}

struct TestEnv {
    svm: Runtime,
    next: u64,
    rewards_id: Pubkey,
    payer: Pubkey,
    dao_authority: Pubkey,
    governance_authority_pda: Pubkey,
    collateral_mint: Pubkey,
    coin_mint: Pubkey,
    mint_authority_pda: Pubkey,
}

impl TestEnv {
    fn new() -> Self {
        Self::new_with_governance_bootstrap(true)
    }

    fn new_meta_only() -> Self {
        Self::new()
    }

    fn new_without_governance_bootstrap() -> Self {
        Self::new_with_governance_bootstrap(false)
    }

    fn new_with_governance_bootstrap(bootstrap_governance: bool) -> Self {
        let key = |n: u8| Pubkey::new([n; 32]);
        let rewards_id = key(200);
        let coin_mint = key(201);
        let dao_authority = key(202);
        let mut env = TestEnv {
            svm: Runtime {
                accounts: HashMap::new(),
                markets: HashMap::new(),
                rewards_id,
                slot: 100,
            },
            next: 0,
            rewards_id,
            payer: key(203),
            dao_authority,
            governance_authority_pda: derived(
                &[b"rewards_authority", &rewards_id.bytes, &coin_mint.bytes],
                &governance::id(),
            ),
            collateral_mint: key(204),
            coin_mint,
            mint_authority_pda: derived(&[b"coin_mint_authority", &coin_mint.bytes], &rewards_id),
        };
        env.set_account(env.payer, 100_000_000_000, vec![], SYSTEM);
        env.set_account(env.dao_authority, 100_000_000_000, vec![], SYSTEM);
        env.set_account(env.collateral_mint, 1_000_000, make_mint_data(None, None), TOKEN);
        let mint_data = make_mint_data(Some(&env.dao_authority), None);
        env.set_account(env.coin_mint, 1_000_000, mint_data, TOKEN);
        let mut rent = 3480u64.to_le_bytes().to_vec();
        rent.extend_from_slice(&2.0f64.to_le_bytes());
        rent.push(50);
        env.set_account(RENT, 1_000_000, rent, key(205));
        env.set_clock(100);
        if bootstrap_governance {
            let dao = env.dao_authority;
            env.try_init_governance_authority(&dao).expect("governance init_authority failed");
            env.handoff_mint_authority_to_rewards();
        }
        env
    }

    fn unique(&mut self) -> Pubkey {
        self.next += 1;
        let mut bytes = [99u8; 32];
        bytes[..8].copy_from_slice(&self.next.to_le_bytes());
        Pubkey::new(bytes)
    }

    fn user(&mut self) -> Pubkey {
        let key = self.unique();
        self.set_account(key, 10_000_000_000, vec![], SYSTEM);
        key
    }

    fn set_account(&mut self, key: Pubkey, lamports: u64, data: Vec<u8>, owner: Pubkey) {
        let stored = Stored { owner, lamports, executable: false, data };
        self.svm.accounts.insert(key.bytes, stored);
    }

    fn get_account(&self, key: &Pubkey) -> Option<Stored> {
        self.svm.accounts.get(&key.bytes).cloned()
    }

    fn set_clock(&mut self, slot: u64) {
        self.svm.slot = slot;
        let mut data = vec![0u8; 40];
        data[..8].copy_from_slice(&slot.to_le_bytes());
        data[32..].copy_from_slice(&slot.to_le_bytes());
        self.set_account(CLOCK, 1_000_000, data, SYSTEM);
    }

    /// One transaction: signed by `signers`, carried out whole or not at all.
    fn send(
        &mut self,
        program: Pubkey,
        metas: Vec<AccountMeta>,
        data: Vec<u8>,
        signers: &[Pubkey],
    ) -> Result<(), String> {
        for meta in &metas {
            assert!(!meta.is_signer || signers.contains(&meta.pubkey));
        }
        let before = self.svm.clone();
        let result = self.svm.run(&program, &metas, &data);
        if result.is_err() {
            self.svm = before;
        }
        result
    }

    fn w(&self, key: Pubkey) -> AccountMeta {
        AccountMeta::new(key, false)
    }

    fn r(&self, key: Pubkey) -> AccountMeta {
        AccountMeta::new_readonly(key, false)
    }

    /// An instruction of the adapter; `rest` follows the payer, the authority and the rewards program.
    fn govern(
        &mut self,
        signer: &Pubkey,
        rest: Vec<AccountMeta>,
        data: Vec<u8>,
    ) -> Result<(), String> {
        let mut metas = vec![
            AccountMeta::new(*signer, true),
            self.w(self.governance_authority_pda),
            self.r(self.rewards_id),
        ];
        metas.extend(rest);
        self.send(governance::id(), metas, data, &[*signer])
    }

    /// As `govern`, with the authority account read-only.
    fn govern_readonly(&mut self, rest: Vec<AccountMeta>, data: Vec<u8>) -> Result<(), String> {
        let dao = self.dao_authority;
        let mut metas = vec![
            AccountMeta::new(dao, true),
            self.r(self.governance_authority_pda),
            self.r(self.rewards_id),
        ];
        metas.extend(rest);
        self.send(governance::id(), metas, data, &[dao])
    }

    fn try_init_governance_authority(&mut self, signer: &Pubkey) -> Result<(), String> {
        let rest = vec![self.r(self.coin_mint), self.r(SYSTEM)];
        self.govern(signer, rest, vec![0])
    }

    fn handoff_mint_authority_to_rewards(&mut self) {
        let dao = self.dao_authority;
        let ix = spl_token::instruction::set_authority(
            &spl_token::ID,
            &solana(&self.coin_mint),
            Some(&solana(&self.mint_authority_pda)),
            spl_token::instruction::AuthorityType::MintTokens,
            &solana(&dao),
            &[],
        )
        .unwrap();
        let metas = vec![self.w(self.coin_mint), AccountMeta::new_readonly(dao, true)];
        self.send(TOKEN, metas, ix.data, &[dao]).expect("mint authority handoff failed");
    }

    fn init_coin_config(&mut self) {
        self.init_coin_config_with_delay(0);
    }

    fn init_coin_config_with_delay(&mut self, delay: u64) {
        let mint = self.coin_mint;
        self.try_init_coin_config_with_mint_and_delay(&mint, delay).expect("init_coin_config failed");
    }

    fn try_init_coin_config_with_mint(&mut self, coin_mint: &Pubkey) -> Result<(), String> {
        self.try_init_coin_config_with_mint_and_delay(coin_mint, 0)
    }

    fn try_init_coin_config_with_mint_and_delay(
        &mut self,
        coin_mint: &Pubkey,
        delay: u64,
    ) -> Result<(), String> {
        let coin_cfg = derived(&[b"coin_cfg", &coin_mint.bytes], &self.rewards_id);
        let rest = vec![self.r(*coin_mint), self.w(coin_cfg), self.r(SYSTEM)];
        let mut data = vec![1u8];
        data.extend_from_slice(&delay.to_le_bytes());
        let dao = self.dao_authority;
        self.govern(&dao, rest, data)
    }

    fn coin_cfg_pda(&self) -> Pubkey {
        derived(&[b"coin_cfg", &self.coin_mint.bytes], &self.rewards_id)
    }

    fn market_admin_pda(&self) -> Pubkey {
        derived(&[b"percolator_market_admin", &self.coin_mint.bytes], &self.rewards_id)
    }

    fn genesis_cfg_pda(&self) -> Pubkey {
        derived(&[b"genesis_cfg", &self.coin_mint.bytes], &self.rewards_id)
    }

    fn genesis_vault_pda(&self) -> Pubkey {
        derived(&[b"genesis_vault", &self.coin_mint.bytes], &self.rewards_id)
    }

    fn genesis_position_pda(&self, user: &Pubkey) -> Pubkey {
        let cfg = self.genesis_cfg_pda();
        derived(&[b"genesis_position", &cfg.bytes, &user.bytes], &self.rewards_id)
    }

    fn genesis_distribution_pda(&self, proposal_id: u64) -> Pubkey {
        let cfg = self.genesis_cfg_pda();
        let id = proposal_id.to_le_bytes();
        derived(&[b"genesis_distribution", &cfg.bytes, &id], &self.rewards_id)
    }

    fn builder_approval_pda(&self, builder_program: &Pubkey, code_hash: &[u8; 32]) -> Pubkey {
        let (mint, builder) = (&self.coin_mint.bytes, &builder_program.bytes);
        derived(&[b"builder_approval", mint, builder, code_hash], &self.rewards_id)
    }

    fn try_activate_live(&mut self, signer: &Pubkey) -> Result<(), String> {
        let rest = vec![self.r(self.coin_mint), self.w(self.coin_cfg_pda()), self.r(CLOCK)];
        self.govern(signer, rest, vec![7])
    }

    fn activate_live(&mut self) {
        let dao = self.dao_authority;
        self.try_activate_live(&dao).expect("activate_live failed");
    }

    fn init_genesis_bootstrap(&mut self, reward_supply: u64) {
        let dao = self.dao_authority;
        self.try_init_genesis_bootstrap_with_signer(&dao, reward_supply)
            .expect("init_genesis_bootstrap failed");
    }

    fn try_init_genesis_bootstrap_with_signer(
        &mut self,
        signer: &Pubkey,
        reward_supply: u64,
    ) -> Result<(), String> {
        let rest = vec![
            self.r(self.coin_mint),
            self.r(self.coin_cfg_pda()),
            self.r(self.collateral_mint),
            self.w(self.genesis_cfg_pda()),
            self.w(self.genesis_vault_pda()),
            self.w(self.market_admin_pda()),
            self.r(TOKEN),
            self.r(RENT),
            self.r(SYSTEM),
        ];
        let mut data = vec![10u8];
        data.extend_from_slice(&reward_supply.to_le_bytes());
        self.govern(signer, rest, data)
    }

    /// The rewards program's own instruction, with the governance authority's signature.
    fn bootstrap_directly(&mut self, data: &[u8]) -> Result<(), String> {
        let payer = self.dao_authority;
        let metas = vec![
            AccountMeta::new(payer, true),
            AccountMeta::new_readonly(self.governance_authority_pda, true),
            self.r(self.coin_mint),
            self.r(self.coin_cfg_pda()),
            self.r(self.collateral_mint),
            self.w(self.genesis_cfg_pda()),
            self.w(self.genesis_vault_pda()),
            self.w(self.market_admin_pda()),
            self.r(TOKEN),
            self.r(RENT),
            self.r(SYSTEM),
        ];
        let signers = [payer, self.governance_authority_pda];
        self.send(self.rewards_id, metas, data.to_vec(), &signers)
    }

    fn create_ata(&mut self, mint: &Pubkey, owner: &Pubkey, amount: u64) -> Pubkey {
        let ata = self.unique();
        self.set_account(ata, 1_000_000, make_token_account_data(mint, owner, amount), TOKEN);
        ata
    }

    fn create_coin_ata(&mut self, owner: &Pubkey, amount: u64) -> Pubkey {
        let mint = self.coin_mint;
        self.create_ata(&mint, owner, amount)
    }

    fn read_token_balance(&self, account: &Pubkey) -> u64 {
        self.svm.balance(account)
    }

    fn genesis_deposit(&mut self, user: &Pubkey, amount: u64) {
        self.try_genesis_deposit(user, amount).expect("genesis_deposit failed");
    }

    fn try_genesis_deposit(&mut self, user: &Pubkey, amount: u64) -> Result<(), String> {
        let mint = self.collateral_mint;
        let user_ata = self.create_ata(&mint, user, amount);
        let metas = vec![
            AccountMeta::new(*user, true),
            self.r(self.coin_mint),
            self.r(self.coin_cfg_pda()),
            self.w(self.genesis_cfg_pda()),
            self.w(self.genesis_position_pda(user)),
            self.w(user_ata),
            self.w(self.genesis_vault_pda()),
            self.r(TOKEN),
            self.r(SYSTEM),
        ];
        let mut data = vec![22u8];
        data.extend_from_slice(&amount.to_le_bytes());
        self.send(self.rewards_id, metas, data, &[*user])
    }

    fn init_genesis_distribution(&mut self, proposal_id: u64, destination: &Pubkey) {
        let dao = self.dao_authority;
        self.try_init_genesis_distribution_with_payer(&dao, proposal_id, destination)
            .expect("init genesis distribution failed");
    }

    fn try_init_genesis_distribution_with_payer(
        &mut self,
        payer: &Pubkey,
        proposal_id: u64,
        destination: &Pubkey,
    ) -> Result<(), String> {
        let metas = vec![
            AccountMeta::new(*payer, true),
            self.r(self.coin_mint),
            self.r(self.coin_cfg_pda()),
            self.r(self.genesis_cfg_pda()),
            self.w(self.genesis_distribution_pda(proposal_id)),
            self.r(*destination),
            self.r(SYSTEM),
        ];
        let mut data = vec![29u8];
        data.extend_from_slice(&proposal_id.to_le_bytes());
        self.send(self.rewards_id, metas, data, &[*payer])
    }

    fn vote_genesis_distribution(&mut self, voter: &Pubkey, proposal_id: u64) {
        self.try_vote_genesis_distribution(voter, proposal_id)
            .expect("vote genesis distribution failed");
    }

    fn try_vote_genesis_distribution(
        &mut self,
        voter: &Pubkey,
        proposal_id: u64,
    ) -> Result<(), String> {
        self.send_genesis_vote(voter, proposal_id, 1)
    }

    fn retract_genesis_vote(&mut self, voter: &Pubkey, proposal_id: u64) -> Result<(), String> {
        self.send_genesis_vote(voter, proposal_id, 2)
    }

    fn send_genesis_vote(
        &mut self,
        voter: &Pubkey,
        proposal_id: u64,
        action: u8,
    ) -> Result<(), String> {
        let metas = vec![
            AccountMeta::new(*voter, true),
            self.r(self.coin_mint),
            self.r(self.coin_cfg_pda()),
            self.w(self.genesis_cfg_pda()),
            self.w(self.genesis_position_pda(voter)),
            self.w(self.genesis_distribution_pda(proposal_id)),
        ];
        self.send(self.rewards_id, metas, vec![30, action], &[*voter])
    }

    fn trigger_genesis_distribution(&mut self, cranker: &Pubkey, id: u64, destination: &Pubkey) {
        self.try_trigger_genesis_distribution(cranker, id, destination)
            .expect("genesis trigger failed");
    }

    fn try_trigger_genesis_distribution(
        &mut self,
        cranker: &Pubkey,
        proposal_id: u64,
        destination: &Pubkey,
    ) -> Result<(), String> {
        let metas = vec![
            AccountMeta::new(*cranker, true),
            self.w(self.genesis_cfg_pda()),
            self.w(self.coin_mint),
            self.r(self.coin_cfg_pda()),
            self.w(*destination),
            self.r(self.mint_authority_pda),
            self.w(self.genesis_distribution_pda(proposal_id)),
            self.r(TOKEN),
        ];
        self.send(self.rewards_id, metas, vec![24], &[*cranker])
    }

    fn finalize_genesis(&mut self) {
        self.try_finalize_genesis().expect("finalize genesis failed");
    }

    fn try_finalize_genesis(&mut self) -> Result<(), String> {
        let dao = self.dao_authority;
        self.try_finalize_genesis_with_signer(&dao)
    }

    fn try_finalize_genesis_with_signer(&mut self, signer: &Pubkey) -> Result<(), String> {
        let rest =
            vec![self.w(self.genesis_cfg_pda()), self.r(self.coin_mint), self.r(self.coin_cfg_pda())];
        self.govern(signer, rest, vec![12])
    }

    fn genesis_withdraw(&mut self, user: &Pubkey) -> Pubkey {
        self.try_genesis_withdraw(user).expect("genesis_withdraw failed")
    }

    fn try_genesis_withdraw(&mut self, user: &Pubkey) -> Result<Pubkey, String> {
        self.try_exit(user, 0, 0, 0, None)
    }

    /// Leaves the pool; with a market, takes funds out of it. Returns the token account paid into.
    fn try_exit(
        &mut self,
        user: &Pubkey,
        domain: u8,
        insurance_pull: u64,
        backing_pull: u64,
        market: Option<(Pubkey, Pubkey)>,
    ) -> Result<Pubkey, String> {
        let mint = self.collateral_mint;
        let user_ata = self.create_ata(&mint, user, 0);
        let mut metas = vec![
            AccountMeta::new(*user, true),
            self.r(self.coin_mint),
            self.r(self.coin_cfg_pda()),
            self.w(self.genesis_cfg_pda()),
            self.w(self.genesis_position_pda(user)),
            self.w(user_ata),
            self.w(self.genesis_vault_pda()),
            self.r(self.market_admin_pda()),
            self.r(TOKEN),
        ];
        if let Some((slab, percolator_vault)) = market {
            metas.push(self.w(slab));
            metas.push(self.w(percolator_vault));
            metas.push(self.r(derived(&[b"vault", &slab.bytes], &PERCOLATOR)));
            metas.push(self.r(PERCOLATOR));
        }
        let mut data = vec![23u8, domain];
        data.extend_from_slice(&insurance_pull.to_le_bytes());
        data.extend_from_slice(&backing_pull.to_le_bytes());
        self.send(self.rewards_id, metas, data, &[*user]).map(|_| user_ata)
    }

    fn draw_genesis_surplus(&mut self, amount: u64, destination: &Pubkey) {
        let dao = self.dao_authority;
        self.try_draw_genesis_surplus_with_signer(&dao, amount, destination)
            .expect("draw_genesis_surplus failed");
    }

    fn try_draw_genesis_surplus_with_signer(
        &mut self,
        signer: &Pubkey,
        amount: u64,
        destination: &Pubkey,
    ) -> Result<(), String> {
        let rest = vec![
            self.r(self.genesis_cfg_pda()),
            self.r(self.coin_mint),
            self.r(self.coin_cfg_pda()),
            self.w(*destination),
            self.w(self.genesis_vault_pda()),
            self.r(self.market_admin_pda()),
            self.r(TOKEN),
        ];
        let mut data = vec![13u8];
        data.extend_from_slice(&amount.to_le_bytes());
        self.govern(signer, rest, data)
    }

    fn init_futarchy_percolator_market(&mut self) -> (Pubkey, Pubkey) {
        let slab = self.unique();
        self.set_account(slab, 1_000_000_000, vec![0u8; 1024], PERCOLATOR);
        let vault_authority = derived(&[b"vault", &slab.bytes], &PERCOLATOR);
        self.set_account(vault_authority, 1_000_000, vec![], SYSTEM);
        let mint = self.collateral_mint;
        let vault = self.create_ata(&mint, &vault_authority, 0);
        let metas = vec![
            AccountMeta::new(self.payer, true),
            self.r(self.coin_mint),
            self.r(self.coin_cfg_pda()),
            self.w(self.market_admin_pda()),
            self.w(slab),
            self.r(self.collateral_mint),
            self.r(PERCOLATOR),
            self.r(SYSTEM),
        ];
        let payer = self.payer;
        let mut data = vec![19u8];
        data.extend_from_slice(&encode_init_market());
        self.send(self.rewards_id, metas, data, &[payer])
            .expect("init futarchy percolator market failed");
        (slab, vault)
    }

    fn install_manual_futarchy_market_for_test(&mut self) -> (Pubkey, Pubkey) {
        let slab = self.unique();
        let admin = self.market_admin_pda();
        let mint = self.collateral_mint;
        let data = make_percolator_market_data(&mint, &admin);
        self.set_account(slab, 1_000_000_000, data, PERCOLATOR);
        let vault_authority = derived(&[b"vault", &slab.bytes], &PERCOLATOR);
        let vault = self.create_ata(&mint, &vault_authority, 0);
        (slab, vault)
    }

    fn market_metas(&self, slab: &Pubkey, percolator_vault: &Pubkey, pool: AccountMeta) -> Vec<AccountMeta> {
        vec![
            self.r(self.coin_mint),
            self.r(self.coin_cfg_pda()),
            pool,
            self.r(self.market_admin_pda()),
            self.w(*slab),
            self.w(self.genesis_vault_pda()),
            self.w(*percolator_vault),
            self.r(derived(&[b"vault", &slab.bytes], &PERCOLATOR)),
            self.r(PERCOLATOR),
            self.r(TOKEN),
        ]
    }

    fn kickstart_genesis_market(&mut self, slab: &Pubkey, percolator_vault: &Pubkey) {
        let rest = self.market_metas(slab, percolator_vault, self.w(self.genesis_cfg_pda()));
        let mut data = vec![14u8, 0];
        data.extend_from_slice(&10_000u64.to_le_bytes());
        let dao = self.dao_authority;
        self.govern(&dao, rest, data).expect("kickstart genesis market failed");
    }

    fn try_recover(
        &mut self,
        slab: &Pubkey,
        percolator_vault: &Pubkey,
        kind: u8,
        domain: u8,
        amount: u64,
        ledger: Option<Pubkey>,
    ) -> Result<(), String> {
        let mut rest = self.market_metas(slab, percolator_vault, self.r(self.genesis_cfg_pda()));
        if let Some(ledger) = ledger {
            rest.push(self.w(ledger));
        }
        let mut data = vec![15u8, kind, domain];
        data.extend_from_slice(&amount.to_le_bytes());
        let dao = self.dao_authority;
        self.govern(&dao, rest, data)
    }

    fn percolator_insurance_balance(&self, slab: &Pubkey) -> u128 {
        self.svm.markets[&slab.bytes].insurance
    }

    fn approve_builder(&mut self, builder: &Pubkey, code: [u8; 32], terms: [u8; 32], enabled: bool) {
        let dao = self.dao_authority;
        self.try_approve_builder_with_signer(&dao, builder, code, terms, enabled)
            .expect("approve builder failed");
    }

    fn try_approve_builder_with_signer(
        &mut self,
        signer: &Pubkey,
        builder_program: &Pubkey,
        code_hash: [u8; 32],
        terms_hash: [u8; 32],
        enabled: bool,
    ) -> Result<(), String> {
        let rest = vec![
            self.r(self.coin_mint),
            self.r(self.coin_cfg_pda()),
            self.r(*builder_program),
            self.w(self.builder_approval_pda(builder_program, &code_hash)),
            self.r(SYSTEM),
            self.r(CLOCK),
        ];
        let mut data = vec![16u8];
        data.extend_from_slice(&code_hash);
        data.extend_from_slice(&terms_hash);
        data.push(enabled as u8);
        self.govern(signer, rest, data)
    }

    fn install_executable_builder_for_test(&mut self, builder_program: Pubkey) {
        self.set_account(builder_program, 1_000_000, vec![1], Pubkey { bytes: BPF_LOADER });
        self.svm.accounts.get_mut(&builder_program.bytes).unwrap().executable = true;
    }

    fn try_governance_unknown_tag(&mut self, signer: &Pubkey, tag: u8) -> Result<(), String> {
        let metas = vec![AccountMeta::new(*signer, true)];
        self.send(governance::id(), metas, vec![tag], &[*signer])
    }

    fn try_percolator_admin(
        &mut self,
        signer: &Pubkey,
        inner: Vec<u8>,
        admin: AccountMeta,
        tail: Vec<AccountMeta>,
    ) -> Result<(), String> {
        let mut rest = vec![
            self.r(self.coin_mint),
            self.r(self.coin_cfg_pda()),
            admin,
            self.r(PERCOLATOR),
            self.r(self.genesis_cfg_pda()),
        ];
        rest.extend(tail);
        let mut data = vec![9u8];
        data.extend_from_slice(&inner);
        self.govern(signer, rest, data)
    }

    fn try_governance_percolator_admin_raw(
        &mut self,
        signer: &Pubkey,
        inner: Vec<u8>,
    ) -> Result<(), String> {
        let admin = self.r(self.market_admin_pda());
        self.try_percolator_admin(signer, inner, admin, vec![])
    }

    fn try_governance_mint_reward(
        &mut self,
        signer: &Pubkey,
        amount: u64,
        destination: &Pubkey,
    ) -> Result<(), String> {
        let rest = vec![
            self.w(self.coin_mint),
            self.r(self.coin_cfg_pda()),
            self.w(*destination),
            self.r(self.mint_authority_pda),
            self.r(TOKEN),
            self.r(self.genesis_cfg_pda()),
        ];
        let mut data = vec![4u8];
        data.extend_from_slice(&amount.to_le_bytes());
        self.govern(signer, rest, data)
    }

    fn try_transfer_mint_authority(
        &mut self,
        signer: &Pubkey,
        new_authority: &Pubkey,
    ) -> Result<(), String> {
        let rest = vec![
            self.w(self.coin_mint),
            self.r(self.coin_cfg_pda()),
            self.r(self.mint_authority_pda),
            self.r(*new_authority),
            self.r(TOKEN),
        ];
        self.govern(signer, rest, vec![6])
    }

    fn set_token_balance_for_test(&mut self, account: &Pubkey, amount: u64) {
        self.svm.set_balance(account, amount);
    }

    fn force_genesis_kicked_for_test(&mut self) {
        let cfg = self.genesis_cfg_pda();
        self.svm.accounts.get_mut(&cfg.bytes).unwrap().data[137] = 1;
    }

    fn force_genesis_finalized_for_test(&mut self) {
        let cfg = self.genesis_cfg_pda();
        self.svm.accounts.get_mut(&cfg.bytes).unwrap().data[136] = 1;
        self.svm.accounts.get_mut(&cfg.bytes).unwrap().data[137] = 1;
    }

    fn read_u64(&self, account: &Pubkey, at: usize) -> u64 {
        let data = self.get_account(account).unwrap().data;
        u64::from_le_bytes(data[at..at + 8].try_into().unwrap())
    }

    fn read_genesis_start_slot(&self, user: &Pubkey) -> u64 {
        self.read_u64(&self.genesis_position_pda(user), 56)
    }

    fn read_genesis_position_amount(&self, user: &Pubkey) -> u64 {
        self.read_u64(&self.genesis_position_pda(user), 40)
    }

    fn read_proposal_support_weight(&self, proposal_id: u64) -> u64 {
        self.read_u64(&self.genesis_distribution_pda(proposal_id), 80)
    }

    fn read_position_vote_weight(&self, voter: &Pubkey) -> u64 {
        self.read_u64(&self.genesis_position_pda(voter), 96)
    }

    fn squads_multisig(&self) -> (Pubkey, Pubkey) {
        let create_key = derived(&[b"genesis_squads", &self.coin_mint.bytes], &self.rewards_id);
        (create_key, derived(&[b"multisig", b"multisig", &create_key.bytes], &SQUADS))
    }

    fn install_squads(&mut self) -> (Pubkey, Pubkey) {
        let treasury = self.unique();
        self.set_account(treasury, 1_000_000_000, vec![], SYSTEM);
        let program_config = derived(&[b"multisig", b"program_config"], &SQUADS);
        let mut config = vec![0u8; 144];
        config[0..8].copy_from_slice(&[196, 210, 90, 231, 144, 149, 140, 63]);
        config[48..80].copy_from_slice(&treasury.bytes);
        self.set_account(program_config, 10_000_000, config, SQUADS);
        (program_config, treasury)
    }

    fn try_create_squads(&mut self) -> Result<(), String> {
        let (program_config, treasury) = self.install_squads();
        let (create_key, multisig) = self.squads_multisig();
        let rest = vec![
            self.r(self.coin_mint),
            self.r(self.coin_cfg_pda()),
            self.r(self.market_admin_pda()),
            self.r(create_key),
            self.r(SQUADS),
            self.r(program_config),
            self.w(treasury),
            self.w(multisig),
            self.r(SYSTEM),
        ];
        self.govern_readonly(rest, vec![17])
    }

    fn try_handover(&mut self, new_authority: &Pubkey) -> Result<(), String> {
        let (_, multisig) = self.squads_multisig();
        let rest = vec![
            self.r(self.coin_mint),
            self.r(self.coin_cfg_pda()),
            self.r(self.genesis_cfg_pda()),
            self.r(self.market_admin_pda()),
            self.r(SQUADS),
            self.w(multisig),
            self.r(*new_authority),
        ];
        self.govern_readonly(rest, vec![18])
    }

    fn multisig_config_authority(&self) -> Pubkey {
        let (_, multisig) = self.squads_multisig();
        Pubkey::new(self.get_account(&multisig).unwrap().data[40..72].try_into().unwrap())
    }
}

#[test]
fn test_init_coin_config_happy_path() {
    let mut env = TestEnv::new();
    env.init_coin_config();

    let cfg_account = env.get_account(&env.coin_cfg_pda()).unwrap();
    assert_eq!(cfg_account.owner, env.rewards_id);
    assert_eq!(cfg_account.data.len(), 72);

    assert_eq!(&cfg_account.data[..8], b"CCFGV002");
    assert_eq!(cfg_account.data[8..40], env.governance_authority_pda.bytes);
    assert_eq!(env.read_u64(&env.coin_cfg_pda(), 40), 100);
    assert_eq!(env.read_u64(&env.coin_cfg_pda(), 48), 0);
    assert_eq!(env.read_u64(&env.coin_cfg_pda(), 56), 100);
    assert_eq!(cfg_account.data[64], 1);
}

#[test]
fn test_init_coin_config_records_configurable_bootstrap_delay() {
    let mut env = TestEnv::new();
    env.init_coin_config_with_delay(50);

    let cfg_account = env.get_account(&env.coin_cfg_pda()).unwrap();
    assert_eq!(&cfg_account.data[..8], b"CCFGV002");
    assert_eq!(cfg_account.data[8..40], env.governance_authority_pda.bytes);
    assert_eq!(env.read_u64(&env.coin_cfg_pda(), 40), 100);
    assert_eq!(env.read_u64(&env.coin_cfg_pda(), 48), 50);
    assert_eq!(env.read_u64(&env.coin_cfg_pda(), 56), 0);
    assert_eq!(cfg_account.data[64], 0);
}

#[test]
fn test_init_coin_config_double_init_fails() {
    let mut env = TestEnv::new();
    env.init_coin_config();

    let mint = env.coin_mint;
    let result = env.try_init_coin_config_with_mint(&mint);
    assert!(result.is_err(), "Double init should fail");
}

#[test]
fn test_init_coin_config_direct_eoa_authority_rejected() {
    let mut env = TestEnv::new();
    let attacker = env.user();

    let metas = vec![
        AccountMeta::new(attacker, true),
        AccountMeta::new_readonly(attacker, true),
        env.r(env.coin_mint),
        env.w(env.coin_cfg_pda()),
        env.r(SYSTEM),
    ];
    let mut data = vec![3u8];
    data.extend_from_slice(&0u64.to_le_bytes());
    let result = env.send(env.rewards_id, metas, data, &[attacker]);
    assert!(result.is_err(), "Direct EOA authority should be rejected");
}

#[test]
fn test_init_coin_config_wrong_mint_authority_fails() {
    let mut env = TestEnv::new();
    let wrong_auth = env.unique();
    let mint = env.coin_mint;
    env.set_account(mint, 1_000_000, make_mint_data(Some(&wrong_auth), None), TOKEN);

    let result = env.try_init_coin_config_with_mint(&mint);
    assert!(result.is_err(), "Wrong mint_authority should fail");
}

#[test]
fn test_init_coin_config_freeze_authority_fails() {
    let mut env = TestEnv::new();
    let freeze = env.unique();
    let mint = env.coin_mint;
    let ma = env.mint_authority_pda;
    env.set_account(mint, 1_000_000, make_mint_data(Some(&ma), Some(&freeze)), TOKEN);

    let result = env.try_init_coin_config_with_mint(&mint);
    assert!(result.is_err(), "Mint with freeze_authority should fail");
}

#[test]
fn test_init_coin_config_no_mint_authority_fails() {
    let mut env = TestEnv::new();
    let mint = env.coin_mint;
    env.set_account(mint, 1_000_000, make_mint_data(None, None), TOKEN);

    let result = env.try_init_coin_config_with_mint(&mint);
    assert!(result.is_err(), "Mint with no authority should fail");
}

#[test]
fn test_init_coin_config_non_spl_mint_rejected() {
    let mut env = TestEnv::new();
    let fake_mint = env.unique();
    let fake_mint_auth = derived(&[b"coin_mint_authority", &fake_mint.bytes], &env.rewards_id);
    let fake_owner = env.unique();
    env.set_account(fake_mint, 1_000_000, make_mint_data(Some(&fake_mint_auth), None), fake_owner);
    let result = env.try_init_coin_config_with_mint(&fake_mint);
    assert!(result.is_err(), "Non-SPL-owned mint must be rejected");

    // The same holds where the adapter has an authority for this mint: its owner alone is wrong.
    let fake_authority = derived(
        &[b"rewards_authority", &env.rewards_id.bytes, &fake_mint.bytes],
        &governance::id(),
    );
    let dao = env.dao_authority;
    let mut authority_data = b"GAUTH001".to_vec();
    authority_data.extend_from_slice(&dao.bytes);
    env.set_account(fake_authority, 1_000_000, authority_data, governance::id());
    env.governance_authority_pda = fake_authority;
    let result = env.try_init_coin_config_with_mint(&fake_mint);
    assert!(result.is_err(), "Non-SPL-owned mint must be rejected");

    env.set_account(fake_mint, 1_000_000, make_mint_data(Some(&fake_mint_auth), None), TOKEN);
    env.try_init_coin_config_with_mint(&fake_mint).expect("the same mint under SPL Token");
}

#[test]
fn test_trusted_bootstrap_ceremony_flow() {
    let mut env = TestEnv::new();

    let governance_authority = env
        .get_account(&env.governance_authority_pda)
        .expect("governance authority PDA should exist");
    assert_eq!(governance_authority.owner, governance::id());

    env.init_coin_config();
    let coin_cfg = env.get_account(&env.coin_cfg_pda()).expect("coin config must exist");
    assert_eq!(coin_cfg.data[8..40], env.governance_authority_pda.bytes);

    let dao = env.dao_authority;
    for tag in [2u8, 3u8, 5u8] {
        assert!(
            env.try_governance_unknown_tag(&dao, tag).is_err(),
            "legacy governance staking tag {tag} must stay disabled"
        );
    }
    for tag in [0u8, 1u8, 2u8, 4u8, 5u8, 6u8, 7u8, 9u8] {
        assert!(
            env.send(env.rewards_id, vec![], vec![tag], &[]).is_err(),
            "legacy program staking tag {tag} must stay disabled"
        );
    }
}

#[test]
fn test_configurable_bootstrap_delay_blocks_live_actions_until_live() {
    let mut env = TestEnv::new();
    env.init_coin_config_with_delay(50);
    env.init_genesis_bootstrap(1_000);

    let dao = env.dao_authority;
    let dao_dest = env.create_coin_ata(&dao, 0);
    let result = env.try_governance_mint_reward(&dao, 1, &dao_dest);
    assert!(
        result.is_err(),
        "live governance minting should be blocked while bootstrap phase is active"
    );

    env.set_clock(149);
    let result = env.try_activate_live(&dao);
    assert!(
        result.is_err(),
        "bootstrap activation should fail before configured delay elapses"
    );

    env.set_clock(150);
    env.activate_live();
    let cfg_account = env.get_account(&env.coin_cfg_pda()).unwrap();
    assert_eq!(env.read_u64(&env.coin_cfg_pda(), 56), 150);
    assert_eq!(cfg_account.data[64], 1);

    assert!(
        env.try_governance_mint_reward(&dao, 1, &dao_dest).is_err(),
        "governed mint stays locked until genesis finalization"
    );
    env.force_genesis_finalized_for_test();
    env.try_governance_mint_reward(&dao, 1, &dao_dest)
        .expect("governed reward mint should succeed after finalization");
    assert_eq!(env.read_token_balance(&dao_dest), 1);
}

#[test]
fn test_bootstrap_live_activation_requires_controller() {
    let mut env = TestEnv::new();
    env.init_coin_config_with_delay(10);
    env.set_clock(110);

    let attacker = env.user();
    let result = env.try_activate_live(&attacker);
    assert!(
        result.is_err(),
        "non-controller must not be able to activate live phase"
    );

    let cfg_account = env.get_account(&env.coin_cfg_pda()).unwrap();
    assert_eq!(cfg_account.data[64], 0);
}

#[test]
fn test_genesis_bootstrap_votes_distribution_withdrawal_and_surplus() {
    let mut env = TestEnv::new_meta_only();
    env.init_coin_config_with_delay(50);
    env.init_genesis_bootstrap(100);

    let alice = env.user();
    let bob = env.user();
    env.genesis_deposit(&alice, 1);
    env.genesis_deposit(&bob, 3);
    assert_eq!(env.read_token_balance(&env.genesis_vault_pda()), 4);

    assert_eq!(env.read_u64(&env.genesis_cfg_pda(), 104), 4);
    assert!(
        env.read_genesis_start_slot(&alice) > 0,
        "deposit records a start slot for time-weighting"
    );

    let alice_coin = env.create_coin_ata(&alice, 0);
    let cranker = env.user();
    let early = env.try_trigger_genesis_distribution(&cranker, 1, &alice_coin);
    assert!(early.is_err(), "distribution is blocked before genesis ends");

    env.set_clock(150);
    env.activate_live();
    env.force_genesis_kicked_for_test();
    let bob_coin = env.create_coin_ata(&bob, 0);
    env.init_genesis_distribution(1, &alice_coin);
    let unapproved = env.try_trigger_genesis_distribution(&cranker, 1, &alice_coin);
    assert!(
        unapproved.is_err(),
        "triggering requires a quorum-valid weighted majority for the proposal"
    );
    env.init_genesis_distribution(2, &bob_coin);
    env.vote_genesis_distribution(&alice, 1);
    env.vote_genesis_distribution(&bob, 1);
    env.trigger_genesis_distribution(&cranker, 1, &alice_coin);
    assert_eq!(
        env.read_token_balance(&alice_coin),
        100,
        "the winning proposal is minted the full reward supply"
    );
    assert_eq!(env.read_token_balance(&bob_coin), 0, "the unbacked proposal mints nothing");
    let overmint = env.try_trigger_genesis_distribution(&cranker, 2, &bob_coin);
    assert!(
        overmint.is_err(),
        "winner-take-all: the genesis distribution executes exactly once"
    );
    env.force_genesis_kicked_for_test();
    env.finalize_genesis();

    let collateral_mint = env.collateral_mint;
    let dao = env.dao_authority;
    let donor_ata = env.create_ata(&collateral_mint, &dao, 2);
    let vault = env.genesis_vault_pda();
    let xfer = spl_token::instruction::transfer(
        &spl_token::ID,
        &solana(&donor_ata),
        &solana(&vault),
        &solana(&dao),
        &[],
        2,
    )
    .unwrap();
    let metas =
        vec![env.w(donor_ata), env.w(vault), AccountMeta::new_readonly(dao, true)];
    env.send(TOKEN, metas, xfer.data, &[dao]).expect("inject genesis surplus");

    let alice_base = env.genesis_withdraw(&alice);
    let bob_base = env.genesis_withdraw(&bob);
    assert_eq!(env.read_token_balance(&alice_base), 1);
    assert_eq!(env.read_token_balance(&bob_base), 3);
    assert_eq!(
        env.read_genesis_start_slot(&alice),
        0,
        "votes are worthless after principal claim"
    );

    let dao_base = env.create_ata(&collateral_mint, &dao, 0);
    env.draw_genesis_surplus(2, &dao_base);
    assert_eq!(env.read_token_balance(&dao_base), 2);
    assert_eq!(env.read_token_balance(&env.genesis_vault_pda()), 0);
}

#[test]
fn test_genesis_deposits_stay_open_until_voting_starts() {
    let mut env = TestEnv::new_meta_only();
    env.init_coin_config_with_delay(50);
    env.init_genesis_bootstrap(100);

    let early = env.user();
    let mid = env.user();
    let late = env.user();

    env.genesis_deposit(&early, 1);
    env.set_clock(140);
    env.genesis_deposit(&mid, 1);
    assert_eq!(env.read_token_balance(&env.genesis_vault_pda()), 2);

    env.set_clock(150);
    env.activate_live();
    let late_deposit = env.try_genesis_deposit(&late, 1);
    assert!(
        late_deposit.is_err(),
        "joining closes once voting starts (COIN live)"
    );
    assert_eq!(env.read_token_balance(&env.genesis_vault_pda()), 2);
}

#[test]
fn test_genesis_distribution_creation_is_permissionless_but_bounded() {
    let mut env = TestEnv::new_meta_only();
    env.init_coin_config_with_delay(50);
    env.init_genesis_bootstrap(100);

    let proposer = env.user();
    let destination = env.create_coin_ata(&proposer, 0);

    let early = env.try_init_genesis_distribution_with_payer(&proposer, 1, &destination);
    assert!(
        early.is_err(),
        "genesis allocation proposals are blocked until the COIN instance is live"
    );

    env.set_clock(150);
    env.activate_live();

    let collateral_mint = env.collateral_mint;
    let wrong_mint_destination = env.create_ata(&collateral_mint, &proposer, 0);
    let wrong_mint =
        env.try_init_genesis_distribution_with_payer(&proposer, 1, &wrong_mint_destination);
    assert!(
        wrong_mint.is_err(),
        "allocation destination must be a COIN token account"
    );

    env.try_init_genesis_distribution_with_payer(&proposer, 1, &destination)
        .expect("permissionless proposer should be able to create a candidate proposal");

    let duplicate = env.try_init_genesis_distribution_with_payer(&proposer, 1, &destination);
    assert!(duplicate.is_err(), "proposal ids are one-shot PDAs");
}

#[test]
fn test_genesis_distribution_and_finalize_require_market_kickstart() {
    let mut env = TestEnv::new_meta_only();
    env.init_coin_config_with_delay(1);
    env.init_genesis_bootstrap(100);

    let voter = env.user();
    env.genesis_deposit(&voter, 1);
    env.set_clock(110);
    env.activate_live();

    let destination = env.create_coin_ata(&voter, 0);
    env.init_genesis_distribution(1, &destination);
    env.vote_genesis_distribution(&voter, 1);

    let cranker = env.user();
    let trigger_without_kick = env.try_trigger_genesis_distribution(&cranker, 1, &destination);
    assert!(
        trigger_without_kick.is_err(),
        "COIN cannot be distributed before the genesis market is kickstarted"
    );
    let finalize_without_kick = env.try_finalize_genesis();
    assert!(
        finalize_without_kick.is_err(),
        "genesis cannot finalize before pooled risk is deployed"
    );

    env.force_genesis_kicked_for_test();
    env.trigger_genesis_distribution(&cranker, 1, &destination);
    env.finalize_genesis();
}

#[test]
fn test_underfunded_genesis_haircut_is_order_independent_and_loop_proof() {
    let mut env = TestEnv::new_meta_only();
    env.init_coin_config_with_delay(1);
    env.init_genesis_bootstrap(100);

    let alice = env.user();
    let bob = env.user();
    env.genesis_deposit(&alice, 2);
    env.genesis_deposit(&bob, 2);
    env.set_clock(110);
    env.activate_live();
    env.force_genesis_kicked_for_test();

    let destination = env.create_coin_ata(&alice, 0);
    env.init_genesis_distribution(1, &destination);
    env.vote_genesis_distribution(&alice, 1);
    env.vote_genesis_distribution(&bob, 1);
    let cranker = env.user();
    env.trigger_genesis_distribution(&cranker, 1, &destination);
    env.force_genesis_kicked_for_test();
    env.finalize_genesis();

    let genesis_vault = env.genesis_vault_pda();
    env.set_token_balance_for_test(&genesis_vault, 2);

    let alice_base = env.genesis_withdraw(&alice);
    assert_eq!(
        env.read_token_balance(&alice_base),
        1,
        "alice recovers her 50% pro-rata share"
    );
    assert_eq!(
        env.read_u64(&env.genesis_position_pda(&alice), 48),
        2,
        "the full claim is settled at the health ratio; the unpaid half is realized as loss"
    );

    let alice_again = env.genesis_withdraw(&alice);
    assert_eq!(
        env.read_token_balance(&alice_again),
        0,
        "re-withdrawing yields nothing: no loop-amplified extraction"
    );

    let bob_base = env.genesis_withdraw(&bob);
    assert_eq!(
        env.read_token_balance(&bob_base),
        1,
        "bob (second) recovers the same 50% share, not a degraded one"
    );
}

#[test]
fn test_genesis_vote_records_are_nontransferable_and_strict_majority() {
    let mut env = TestEnv::new_meta_only();
    env.init_coin_config_with_delay(10);
    env.init_genesis_bootstrap(100);

    let alice = env.user();
    let bob = env.user();
    let outsider = env.user();

    env.genesis_deposit(&alice, 1);
    env.genesis_deposit(&bob, 1);
    env.set_clock(120);
    env.activate_live();
    env.force_genesis_kicked_for_test();

    let dest1 = env.create_coin_ata(&alice, 0);
    let dest2 = env.create_coin_ata(&bob, 0);
    env.init_genesis_distribution(1, &dest1);
    env.init_genesis_distribution(2, &dest2);

    let cranker = env.user();

    let outsider_vote = env.try_vote_genesis_distribution(&outsider, 1);
    assert!(
        outsider_vote.is_err(),
        "only genesis depositors with recorded vote units can vote"
    );

    env.vote_genesis_distribution(&alice, 1);
    assert_eq!(env.read_position_vote_weight(&alice), 4, "alice weight = log2(20) * 1");

    let one_backer = env.try_trigger_genesis_distribution(&cranker, 1, &dest1);
    assert!(
        one_backer.is_err(),
        "one of two equal depositors does not meet the principal quorum"
    );

    env.vote_genesis_distribution(&bob, 2);
    assert_eq!(env.read_proposal_support_weight(1), 4, "prop1 support");
    assert_eq!(env.read_proposal_support_weight(2), 4, "prop2 support");
    assert!(
        env.try_trigger_genesis_distribution(&cranker, 1, &dest1).is_err(),
        "a proposal with only half the cast weight cannot win"
    );

    let double_vote = env.try_vote_genesis_distribution(&bob, 1);
    assert!(
        double_vote.is_err(),
        "a voter must retract before backing another proposal"
    );

    env.retract_genesis_vote(&bob, 2).expect("retract prop2");
    env.vote_genesis_distribution(&bob, 1);
    assert_eq!(
        env.read_proposal_support_weight(1),
        8,
        "prop1 now holds both ballots' weight"
    );
    assert_eq!(env.read_position_vote_weight(&bob), 4, "bob's ballot moved to prop1");

    env.trigger_genesis_distribution(&cranker, 1, &dest1);
    assert_eq!(env.read_token_balance(&dest1), 100);

    let second_trigger = env.try_trigger_genesis_distribution(&cranker, 2, &dest2);
    assert!(second_trigger.is_err(), "winner-take-all: only one proposal mints the supply");
    let post_execute_vote = env.try_vote_genesis_distribution(&alice, 1);
    assert!(
        post_execute_vote.is_err(),
        "executed allocations cannot be re-voted"
    );

    let early_withdraw = env.try_genesis_withdraw(&alice);
    assert!(
        early_withdraw.is_err(),
        "genesis principal cannot be withdrawn before finalization"
    );

    env.force_genesis_kicked_for_test();
    env.finalize_genesis();
    let post_finalize_vote = env.try_vote_genesis_distribution(&alice, 1);
    assert!(
        post_finalize_vote.is_err(),
        "finalized genesis vote units are not reusable"
    );
}

#[test]
fn test_genesis_governance_surface_is_fixed_and_controller_gated() {
    let mut env = TestEnv::new_meta_only();
    env.init_coin_config_with_delay(10);

    let dao = env.dao_authority;
    let attacker = env.user();

    let unknown = env.try_governance_unknown_tag(&dao, 250);
    assert!(
        unknown.is_err(),
        "governance adapter has no catch-all executor"
    );

    let attacker_bootstrap = env.try_init_genesis_bootstrap_with_signer(&attacker, 100);
    assert!(
        attacker_bootstrap.is_err(),
        "non-controller cannot initialize genesis bootstrap"
    );

    env.init_genesis_bootstrap(100);
    let voter = env.user();
    env.genesis_deposit(&voter, 1);
    env.set_clock(120);
    env.activate_live();
    let destination = env.create_coin_ata(&voter, 0);
    env.init_genesis_distribution(1, &destination);
    env.vote_genesis_distribution(&voter, 1);

    env.force_genesis_kicked_for_test();
    env.trigger_genesis_distribution(&attacker, 1, &destination);
    assert_eq!(
        env.read_token_balance(&destination),
        100,
        "anyone may crank the winning distribution; it is not controller-gated"
    );

    let attacker_finalize = env.try_finalize_genesis_with_signer(&attacker);
    assert!(
        attacker_finalize.is_err(),
        "non-controller cannot finalize genesis"
    );

    let collateral_mint = env.collateral_mint;
    let attacker_base = env.create_ata(&collateral_mint, &attacker, 0);
    let attacker_draw = env.try_draw_genesis_surplus_with_signer(&attacker, 1, &attacker_base);
    assert!(
        attacker_draw.is_err(),
        "non-controller cannot draw genesis surplus"
    );

    let builder_program = env.unique();
    let attacker_approval = env.try_approve_builder_with_signer(
        &attacker,
        &builder_program,
        [1u8; 32],
        [2u8; 32],
        true,
    );
    assert!(
        attacker_approval.is_err(),
        "non-controller cannot approve builder code"
    );

    let funding_tag = env.try_governance_percolator_admin_raw(&dao, vec![9u8]);
    assert!(
        funding_tag.is_err(),
        "governance percolator proxy rejects funding/withdrawal-style tags"
    );
    let mut update_admin = vec![32u8, 0u8];
    update_admin.extend_from_slice(&attacker.bytes);
    let custody_update = env.try_governance_percolator_admin_raw(&dao, update_admin);
    assert!(
        custody_update.is_err(),
        "generic futarchy admin cannot move Percolator custody authorities"
    );
}

#[test]
fn test_builder_code_approval_registry_is_governed_and_versioned() {
    let mut env = TestEnv::new_meta_only();
    env.init_coin_config();
    let non_executable = env.unique();
    env.set_account(non_executable, 1_000_000, vec![], SYSTEM);

    let code_hash = [7u8; 32];
    let terms_hash = [9u8; 32];
    let dao = env.dao_authority;
    let rejected =
        env.try_approve_builder_with_signer(&dao, &non_executable, code_hash, terms_hash, true);
    assert!(
        rejected.is_err(),
        "builder approvals are only for executable BPF program accounts"
    );

    let builder_program = env.unique();
    env.install_executable_builder_for_test(builder_program);
    env.approve_builder(&builder_program, code_hash, terms_hash, true);

    let approval = env.builder_approval_pda(&builder_program, &code_hash);
    let account = env.get_account(&approval).unwrap();
    assert_eq!(&account.data[..8], b"BLDAPP01");
    assert_eq!(account.data[8..40], env.coin_mint.bytes);
    assert_eq!(account.data[40..72], builder_program.bytes);
    assert_eq!(&account.data[72..104], &code_hash);
    assert_eq!(&account.data[104..136], &terms_hash);
    assert_eq!(account.data[144], 1);
    assert_eq!(env.read_u64(&approval, 136), 100);

    let new_terms_hash = [10u8; 32];
    env.approve_builder(&builder_program, code_hash, new_terms_hash, false);
    let account = env.get_account(&approval).unwrap();
    assert_eq!(&account.data[104..136], &new_terms_hash);
    assert_eq!(account.data[144], 0);
}

#[test]
fn test_genesis_recovery_rejects_unneeded_ledger_accounts() {
    let mut env = TestEnv::new_meta_only();
    env.init_coin_config_with_delay(1);
    env.init_genesis_bootstrap(100);
    let depositor = env.user();
    env.genesis_deposit(&depositor, 1);
    env.set_clock(101);
    env.activate_live();
    env.force_genesis_kicked_for_test();

    let (slab, percolator_vault) = env.install_manual_futarchy_market_for_test();
    let extra_ledger = env.unique();
    env.set_account(extra_ledger, 1_000_000, vec![0u8; 8], PERCOLATOR);

    let result = env.try_recover(&slab, &percolator_vault, 0, 0, 1, Some(extra_ledger));
    assert!(
        result.is_err(),
        "only backing-earnings recovery may include an engine ledger account"
    );
}

#[test]
fn test_genesis_bootstrap_kickstarts_market_50_50() {
    let mut env = TestEnv::new();
    env.init_coin_config_with_delay(50);
    env.init_genesis_bootstrap(100);

    let alice = env.user();
    let bob = env.user();
    env.genesis_deposit(&alice, 2);
    env.genesis_deposit(&bob, 2);

    let (slab, percolator_vault) = env.init_futarchy_percolator_market();
    let header = read_market_config(&env.get_account(&slab).unwrap().data).unwrap();
    assert_eq!(
        Pubkey::new(header.admin),
        env.market_admin_pda(),
        "market admin is the futarchy PDA from creation"
    );

    env.kickstart_genesis_market(&slab, &percolator_vault);
    assert_eq!(env.read_token_balance(&env.genesis_vault_pda()), 0);
    assert_eq!(env.read_token_balance(&percolator_vault), 4);
    assert_eq!(
        env.percolator_insurance_balance(&slab),
        2,
        "half of genesis principal goes to insurance"
    );
    assert_eq!(env.svm.markets[&slab.bytes].backing, 2);
    assert_eq!(env.svm.markets[&slab.bytes].policy, [0x10, 0x27, 1, 0, 0, 0, 0, 0, 0, 0, 0]);

    let cfg_account = env.get_account(&env.genesis_cfg_pda()).unwrap();
    assert_eq!(cfg_account.data[137], 1, "genesis market was kicked");
    assert_eq!(cfg_account.data[160..192], slab.bytes);
    let late = env.user();
    let late_deposit = env.try_genesis_deposit(&late, 1);
    assert!(
        late_deposit.is_err(),
        "genesis deposits close once pooled capital is deployed"
    );

    assert_eq!(env.read_token_balance(&env.genesis_vault_pda()), 0);
}

#[test]
fn test_governance_init_authority_requires_current_mint_authority() {
    let mut env = TestEnv::new_without_governance_bootstrap();
    let attacker = env.user();

    let result = env.try_init_governance_authority(&attacker);
    assert!(
        result.is_err(),
        "attacker must not initialize governance authority for a mint they do not control"
    );
    assert!(
        env.get_account(&env.governance_authority_pda).is_none(),
        "failed first mover must not create authority PDA"
    );

    let dao = env.dao_authority;
    env.try_init_governance_authority(&dao)
        .expect("mint authority should initialize governance adapter");
    env.handoff_mint_authority_to_rewards();
    env.init_coin_config();

    let authority =
        env.get_account(&env.governance_authority_pda).expect("authority account exists");
    assert_eq!(&authority.data[..8], b"GAUTH001");
    assert_eq!(authority.data[8..40], env.dao_authority.bytes);
}

#[test]
fn test_governance_reward_lifecycle_mint_and_transfer_authority() {
    let mut env = TestEnv::new();
    env.init_coin_config_with_delay(1);
    env.init_genesis_bootstrap(1_000);
    env.set_clock(110);
    env.activate_live();
    env.force_genesis_finalized_for_test();

    let dao = env.dao_authority;
    let dao_dest = env.create_coin_ata(&dao, 0);
    env.try_governance_mint_reward(&dao, 123, &dao_dest)
        .expect("controller should mint governed reward");
    assert_eq!(env.read_token_balance(&dao_dest), 123);

    let attacker = env.user();
    let attacker_dest = env.create_coin_ata(&attacker, 0);
    let result = env.try_governance_mint_reward(&attacker, 1, &attacker_dest);
    assert!(
        result.is_err(),
        "non-controller must not drive governed reward minting"
    );
    assert_eq!(env.read_token_balance(&attacker_dest), 0);

    let new_authority = env.user();
    env.try_transfer_mint_authority(&dao, &new_authority)
        .expect("controller should transfer mint authority");
    let mint = Mint::unpack(&env.get_account(&env.coin_mint).unwrap().data).unwrap();
    assert_eq!(mint.mint_authority, COption::Some(solana(&new_authority)));

    let result = env.try_governance_mint_reward(&dao, 1, &dao_dest);
    assert!(
        result.is_err(),
        "rewards PDA must stop minting after authority is transferred away"
    );
}

#[test]
fn test_governed_reward_mint_locked_until_genesis_finalized() {
    let mut env = TestEnv::new();
    env.init_coin_config_with_delay(10);
    env.init_genesis_bootstrap(1_000);

    let dao = env.dao_authority;
    let dao_dest = env.create_coin_ata(&dao, 0);

    assert!(
        env.try_governance_mint_reward(&dao, 1, &dao_dest).is_err(),
        "bootstrap phase blocks the governed mint"
    );
    assert_eq!(env.read_token_balance(&dao_dest), 0);

    env.set_clock(110);
    env.activate_live();
    assert!(
        env.try_governance_mint_reward(&dao, 1, &dao_dest).is_err(),
        "governed mint stays locked until genesis is finalized"
    );
    assert_eq!(env.read_token_balance(&dao_dest), 0);

    env.force_genesis_finalized_for_test();
    env.try_governance_mint_reward(&dao, 1, &dao_dest)
        .expect("governed mint unlocks once genesis is finalized");
    assert_eq!(env.read_token_balance(&dao_dest), 1);
}

#[test]
fn test_genesis_squads_create_and_handover_through_governance() {
    let mut env = TestEnv::new();
    env.init_coin_config();
    let (_, multisig) = env.squads_multisig();
    let market_admin = env.market_admin_pda();

    env.try_create_squads().expect("init_genesis_squads via governance failed");

    let ms = env.get_account(&multisig).expect("multisig created");
    assert_eq!(ms.owner, SQUADS, "multisig owned by Squads");
    assert_eq!(
        env.multisig_config_authority(),
        market_admin,
        "config_authority is the program's market_admin PDA at genesis",
    );
    assert_eq!(
        u16::from_le_bytes(ms.data[72..74].try_into().unwrap()),
        1,
        "1/1 threshold",
    );
    assert_eq!(
        u32::from_le_bytes(ms.data[74..78].try_into().unwrap()),
        SQUADS_TIMELOCK_48H,
        "48h timelock",
    );

    let genesis_cfg = env.genesis_cfg_pda();
    let mut gdata = vec![0u8; 192];
    gdata[0..8].copy_from_slice(b"GENCFG02");
    gdata[8..40].copy_from_slice(&env.coin_mint.bytes);
    gdata[136] = 1;
    gdata[137] = 1;
    env.set_account(genesis_cfg, 10_000_000, gdata, env.rewards_id);

    for (bad, label) in [(SYSTEM, "null key"), (market_admin, "self")] {
        assert!(
            env.try_handover(&bad).is_err(),
            "handover must reject {label} as the new config authority"
        );
    }

    let winning_dao = env.unique();
    env.try_handover(&winning_dao).expect("handover_genesis_squads via governance failed");

    let ms = env.get_account(&multisig).unwrap();
    assert_eq!(
        env.multisig_config_authority(),
        winning_dao,
        "config_authority handed to the winning DAO",
    );
    assert_eq!(
        u32::from_le_bytes(ms.data[74..78].try_into().unwrap()),
        SQUADS_TIMELOCK_48H,
        "48h timelock preserved across handover",
    );
}

#[test]
fn test_genesis_squads_handover_requires_finalized_genesis() {
    let mut env = TestEnv::new();
    env.init_coin_config();
    let market_admin = env.market_admin_pda();
    env.try_create_squads().expect("create failed");

    let genesis_cfg = env.genesis_cfg_pda();
    let mut gdata = vec![0u8; 160];
    gdata[0..8].copy_from_slice(b"GENCFG01");
    gdata[8..40].copy_from_slice(&env.coin_mint.bytes);
    gdata[136] = 0;
    gdata[137] = 1;
    env.set_account(genesis_cfg, 10_000_000, gdata, env.rewards_id);

    let winning_dao = env.unique();
    assert!(
        env.try_handover(&winning_dao).is_err(),
        "handover before finalization must fail",
    );
    assert_eq!(env.multisig_config_authority(), market_admin);

    let mut gdata = vec![0u8; 192];
    gdata[0..8].copy_from_slice(b"GENCFG02");
    gdata[8..40].copy_from_slice(&env.coin_mint.bytes);
    gdata[137] = 1;
    env.set_account(genesis_cfg, 10_000_000, gdata, env.rewards_id);
    assert_eq!(
        env.try_handover(&winning_dao),
        Err("InvalidInstructionData".to_string()),
        "handover before finalization must fail",
    );
    assert_eq!(env.multisig_config_authority(), market_admin);
}

#[test]
fn test_genesis_bootstrap_withdraw_before_kickstart_full_refund() {
    let mut env = TestEnv::new();
    env.init_coin_config_with_delay(50);
    env.init_genesis_bootstrap(100);

    let alice = env.user();
    env.genesis_deposit(&alice, 5);
    assert!(env.read_genesis_start_slot(&alice) > 0, "start slot recorded");
    assert_eq!(env.read_token_balance(&env.genesis_vault_pda()), 5);

    let user_ata = env
        .try_exit(&alice, 0, 0, 0, None)
        .expect("bootstrap withdraw before kickstart failed");

    assert_eq!(env.read_token_balance(&user_ata), 5, "full refund");
    assert_eq!(env.read_genesis_start_slot(&alice), 0, "vote forfeited");
    assert_eq!(env.read_genesis_position_amount(&alice), 0, "principal claim cleared");
    assert_eq!(env.read_token_balance(&env.genesis_vault_pda()), 0, "vault drained");
    assert_eq!(env.read_u64(&env.genesis_cfg_pda(), 104), 0);
}

#[test]
fn test_genesis_bootstrap_withdraw_after_kickstart_pulls_from_market() {
    let mut env = TestEnv::new();
    env.init_coin_config_with_delay(50);
    env.init_genesis_bootstrap(100);

    let alice = env.user();
    let bob = env.user();
    env.genesis_deposit(&alice, 2);
    env.genesis_deposit(&bob, 2);

    let (slab, percolator_vault) = env.init_futarchy_percolator_market();
    env.kickstart_genesis_market(&slab, &percolator_vault);
    assert_eq!(env.percolator_insurance_balance(&slab), 2);
    assert_eq!(env.read_token_balance(&percolator_vault), 4);
    assert_eq!(env.read_token_balance(&env.genesis_vault_pda()), 0);

    let user_ata = env
        .try_exit(&alice, 0, 1, 1, Some((slab, percolator_vault)))
        .expect("bootstrap withdraw after kickstart failed");

    assert_eq!(env.read_token_balance(&user_ata), 2, "principal recovered from market");
    assert_eq!(env.read_genesis_start_slot(&alice), 0, "vote forfeited");
    assert_eq!(env.percolator_insurance_balance(&slab), 1, "insurance drawn down by 1");
}

#[test]
fn test_genesis_nonvoter_exits_freely_during_voting() {
    let mut env = TestEnv::new();
    env.init_coin_config_with_delay(50);
    env.init_genesis_bootstrap(100);

    let alice = env.user();
    env.genesis_deposit(&alice, 3);

    env.set_clock(200);
    env.activate_live();

    let exit = env.try_exit(&alice, 0, 0, 0, None);
    assert!(exit.is_ok(), "a non-voter may exit during voting");
    assert_eq!(
        env.read_genesis_position_amount(&alice),
        0,
        "principal fully refunded on exit"
    );
    assert_eq!(
        env.read_token_balance(&exit.unwrap()),
        3,
        "got the full deposit back"
    );
}

#[test]
fn test_voter_retracts_then_exits_and_quorum_recomputes() {
    let mut env = TestEnv::new_meta_only();
    env.init_coin_config_with_delay(1);
    env.init_genesis_bootstrap(100);

    let alice = env.user();
    let bob = env.user();
    env.genesis_deposit(&alice, 3);
    env.genesis_deposit(&bob, 1);
    env.set_clock(120);
    env.activate_live();

    let dest = env.create_coin_ata(&alice, 0);
    env.init_genesis_distribution(1, &dest);
    env.vote_genesis_distribution(&alice, 1);
    env.vote_genesis_distribution(&bob, 1);

    let proposal = env.genesis_distribution_pda(1);
    assert_eq!(env.read_u64(&proposal, 88), 4, "both ballots counted (3 + 1)");

    assert!(
        env.try_genesis_withdraw(&alice).is_err(),
        "a voter cannot exit while a ballot is live"
    );

    env.retract_genesis_vote(&alice, 1).expect("retract");
    assert_eq!(
        env.read_u64(&proposal, 88),
        1,
        "alice's principal is backed out of the quorum tally on retract"
    );
    assert_eq!(
        env.read_position_vote_weight(&alice),
        0,
        "retracted ballot leaves no weight on the position"
    );

    assert!(
        env.retract_genesis_vote(&alice, 1).is_err(),
        "cannot retract an already-retracted ballot"
    );

    let alice_ata = env.genesis_withdraw(&alice);
    assert_eq!(env.read_token_balance(&alice_ata), 3, "full refund on exit");
    assert_eq!(env.read_genesis_position_amount(&alice), 0, "position emptied");
    assert_eq!(env.read_u64(&env.genesis_cfg_pda(), 104), 1);
    assert_eq!(env.read_u64(&env.genesis_cfg_pda(), 152), 1);
}

#[test]
fn test_full_genesis_to_dao_lifecycle_end_to_end() {
    let mut env = TestEnv::new();
    env.init_coin_config_with_delay(50);
    env.init_genesis_bootstrap(100);
    let market_admin = env.market_admin_pda();

    let alice = env.user();
    let bob = env.user();
    let carol = env.user();
    env.genesis_deposit(&alice, 4);
    env.genesis_deposit(&bob, 4);
    env.genesis_deposit(&carol, 2);
    assert_eq!(env.read_token_balance(&env.genesis_vault_pda()), 10);

    let (slab, percolator_vault) = env.init_futarchy_percolator_market();

    env.try_create_squads().expect("create squads multisig");
    assert_eq!(env.multisig_config_authority(), market_admin, "born under market_admin");

    env.kickstart_genesis_market(&slab, &percolator_vault);
    assert_eq!(env.read_token_balance(&env.genesis_vault_pda()), 0, "vault deployed to market");
    assert_eq!(env.percolator_insurance_balance(&slab), 5, "half to insurance");
    assert_eq!(env.read_token_balance(&percolator_vault), 10);

    let carol_ata = env
        .try_exit(&carol, 0, 1, 1, Some((slab, percolator_vault)))
        .expect("carol mid-bootstrap exit");
    assert_eq!(env.read_token_balance(&carol_ata), 2, "carol recovered her principal");
    assert_eq!(env.read_genesis_start_slot(&carol), 0, "carol forfeited her vote");
    assert_eq!(
        env.percolator_insurance_balance(&slab),
        4,
        "insurance drawn down by carol's share"
    );

    env.set_clock(150);
    env.activate_live();

    let dao_coin = env.create_coin_ata(&alice, 0);
    let bob_coin = env.create_coin_ata(&bob, 0);
    env.init_genesis_distribution(1, &dao_coin);
    env.init_genesis_distribution(2, &bob_coin);
    env.vote_genesis_distribution(&alice, 1);
    env.vote_genesis_distribution(&bob, 1);
    let cranker = env.user();
    env.trigger_genesis_distribution(&cranker, 1, &dao_coin);
    assert_eq!(env.read_token_balance(&dao_coin), 100, "winner-take-all: full supply minted");
    assert_eq!(env.read_token_balance(&bob_coin), 0, "the losing proposal mints nothing");

    env.try_recover(&slab, &percolator_vault, 0, 0, 4, None).expect("recover genesis market");
    env.try_recover(&slab, &percolator_vault, 1, 0, 4, None).expect("recover genesis market");
    assert_eq!(
        env.read_token_balance(&env.genesis_vault_pda()),
        8,
        "principal recovered to vault"
    );

    env.finalize_genesis();
    let cfg = env.get_account(&env.genesis_cfg_pda()).unwrap();
    assert_eq!(cfg.data[136], 1, "finalized");

    let winning_dao = env.unique();
    env.try_handover(&winning_dao).expect("squads handover to DAO");
    assert_eq!(env.multisig_config_authority(), winning_dao, "DAO controls the multisig");

    let alice_base = env.genesis_withdraw(&alice);
    let bob_base = env.genesis_withdraw(&bob);
    assert_eq!(env.read_token_balance(&alice_base), 4, "alice principal returned");
    assert_eq!(env.read_token_balance(&bob_base), 4, "bob principal returned");
    assert_eq!(env.read_genesis_start_slot(&alice), 0, "votes worthless after withdrawal");
    assert_eq!(env.read_token_balance(&env.genesis_vault_pda()), 0, "vault fully distributed");
}

#[test]
fn test_genesis_vote_weight_rewards_earlier_joiners() {
    let mut env = TestEnv::new_meta_only();
    env.init_coin_config_with_delay(2000);
    env.init_genesis_bootstrap(100);

    let early = env.user();
    let late = env.user();
    env.genesis_deposit(&early, 1);
    env.set_clock(2000);
    env.genesis_deposit(&late, 1);
    env.set_clock(2100);
    env.activate_live();

    let dest = env.create_coin_ata(&early, 0);
    env.init_genesis_distribution(1, &dest);
    env.vote_genesis_distribution(&early, 1);
    env.vote_genesis_distribution(&late, 1);

    let early_w = env.read_position_vote_weight(&early);
    let late_w = env.read_position_vote_weight(&late);
    assert_eq!(early_w, 10, "floor(log2(2000)) * 1");
    assert_eq!(late_w, 6, "floor(log2(100)) * 1");
    assert!(early_w > late_w, "the earlier joiner weighs strictly more per unit principal");
    assert_eq!(env.read_proposal_support_weight(1), early_w + late_w);
}

#[test]
fn test_genesis_last_deposit_resets_vote_clock() {
    let mut env = TestEnv::new_meta_only();
    env.init_coin_config_with_delay(2000);
    env.init_genesis_bootstrap(100);

    let steady = env.user();
    let topper = env.user();
    env.genesis_deposit(&steady, 1);
    env.genesis_deposit(&topper, 1);
    env.set_clock(2000);
    env.genesis_deposit(&topper, 1);
    env.set_clock(2100);
    env.activate_live();

    let dest = env.create_coin_ata(&steady, 0);
    env.init_genesis_distribution(1, &dest);
    env.vote_genesis_distribution(&steady, 1);
    env.vote_genesis_distribution(&topper, 1);

    assert_eq!(env.read_position_vote_weight(&steady), 10);
    assert_eq!(env.read_position_vote_weight(&topper), 12);
}

#[test]
fn test_genesis_distribution_requires_principal_quorum() {
    let mut env = TestEnv::new_meta_only();
    env.init_coin_config_with_delay(2000);
    env.init_genesis_bootstrap(100);

    let a = env.user();
    let b = env.user();
    let c = env.user();
    env.genesis_deposit(&a, 2);
    env.genesis_deposit(&b, 1);
    env.genesis_deposit(&c, 1);
    env.set_clock(2100);
    env.activate_live();
    env.force_genesis_kicked_for_test();

    let dest = env.create_coin_ata(&a, 0);
    env.init_genesis_distribution(1, &dest);

    let cranker = env.user();

    env.vote_genesis_distribution(&a, 1);
    assert!(
        env.try_trigger_genesis_distribution(&cranker, 1, &dest).is_err(),
        "exactly half the outstanding principal is not a quorum"
    );
    env.vote_genesis_distribution(&b, 1);
    env.trigger_genesis_distribution(&cranker, 1, &dest);
    assert_eq!(env.read_token_balance(&dest), 100);
}

#[test]
fn test_genesis_bootstrap_exit_prekickstart_rejects_market_pull() {
    let mut env = TestEnv::new();
    env.init_coin_config_with_delay(50);
    env.init_genesis_bootstrap(100);
    let alice = env.user();
    env.genesis_deposit(&alice, 4);

    assert!(
        env.try_exit(&alice, 0, 1, 0, None).is_err(),
        "pre-kickstart exit must reject market-pull amounts"
    );
    assert_eq!(env.read_genesis_position_amount(&alice), 4);
    assert!(env.read_genesis_start_slot(&alice) > 0);
}

#[test]
fn test_genesis_bootstrap_exit_rejects_overpull() {
    let mut env = TestEnv::new();
    env.init_coin_config_with_delay(50);
    env.init_genesis_bootstrap(100);
    let alice = env.user();
    let bob = env.user();
    env.genesis_deposit(&alice, 2);
    env.genesis_deposit(&bob, 2);
    let (slab, percolator_vault) = env.init_futarchy_percolator_market();
    env.kickstart_genesis_market(&slab, &percolator_vault);

    assert!(
        env.try_exit(&alice, 0, 2, 2, Some((slab, percolator_vault))).is_err(),
        "cannot recover more than the remaining principal"
    );
    assert_eq!(
        env.percolator_insurance_balance(&slab),
        2,
        "market untouched on rejected over-pull"
    );
}

#[test]
fn test_percolator_admin_locks_invariant_breaking_tags_on_genesis_pre_finalize() {
    let mut env = TestEnv::new();
    env.init_coin_config_with_delay(50);
    env.init_genesis_bootstrap(100);

    let alice = env.user();
    env.genesis_deposit(&alice, 10);

    let (slab, percolator_vault) = env.init_futarchy_percolator_market();
    env.kickstart_genesis_market(&slab, &percolator_vault);
    env.set_clock(150);
    env.activate_live();

    let dao = env.dao_authority;
    let admin = env.w(env.market_admin_pda());
    let percolator_vault_pda = derived(&[b"vault", &slab.bytes], &PERCOLATOR);
    let mut policy = vec![33u8];
    policy.extend_from_slice(&9999u16.to_le_bytes());
    policy.push(0);
    policy.extend_from_slice(&1u64.to_le_bytes());

    let tail = vec![env.w(slab)];
    assert!(
        env.try_percolator_admin(&dao, policy.clone(), admin, tail).is_err(),
        "UPDATE_INSURANCE_POLICY on the genesis slab must be rejected pre-finalize"
    );

    let tail = vec![env.w(slab)];
    assert!(
        env.try_percolator_admin(&dao, vec![19u8], admin, tail).is_err(),
        "RESOLVE_MARKET on the genesis slab must be rejected pre-finalize"
    );

    let tail = vec![
        env.w(slab),
        env.w(percolator_vault),
        env.r(percolator_vault_pda),
        env.w(env.genesis_vault_pda()),
        env.r(TOKEN),
    ];
    assert!(
        env.try_percolator_admin(&dao, vec![13u8], admin, tail).is_err(),
        "CLOSE_SLAB on the genesis slab must be rejected pre-finalize"
    );

    assert_eq!(env.percolator_insurance_balance(&slab), 5);
    assert_eq!(env.svm.markets[&slab.bytes].policy, [0x10, 0x27, 1, 0, 0, 0, 0, 0, 0, 0, 0]);

    env.force_genesis_finalized_for_test();
    let tail = vec![env.w(slab)];
    env.try_percolator_admin(&dao, policy.clone(), admin, tail)
        .expect("UPDATE_INSURANCE_POLICY unlocks post-finalization");
    assert_eq!(env.svm.markets[&slab.bytes].policy, policy[1..]);
}

#[test]
fn an_odd_pool_is_split_with_the_remainder_in_backing() {
    let mut env = TestEnv::new();
    env.init_coin_config_with_delay(50);
    env.init_genesis_bootstrap(100);
    let alice = env.user();
    env.genesis_deposit(&alice, 5);
    let (slab, percolator_vault) = env.init_futarchy_percolator_market();
    env.kickstart_genesis_market(&slab, &percolator_vault);
    assert_eq!(env.svm.markets[&slab.bytes].insurance, 2);
    assert_eq!(env.svm.markets[&slab.bytes].backing, 3);
    assert_eq!(env.read_token_balance(&percolator_vault), 5);

    let paid = env.try_exit(&alice, 0, 2, 3, Some((slab, percolator_vault))).unwrap();
    assert_eq!(env.read_token_balance(&paid), 5);
    assert_eq!(env.read_token_balance(&percolator_vault), 0);
    assert_eq!(env.read_u64(&env.genesis_cfg_pda(), 112), 5);
}

#[test]
fn a_pool_of_one_goes_into_backing_alone() {
    let mut env = TestEnv::new();
    env.init_coin_config_with_delay(50);
    env.init_genesis_bootstrap(100);
    let alice = env.user();
    env.genesis_deposit(&alice, 1);
    let (slab, percolator_vault) = env.init_futarchy_percolator_market();
    env.kickstart_genesis_market(&slab, &percolator_vault);
    assert_eq!(env.svm.markets[&slab.bytes].insurance, 0);
    assert_eq!(env.svm.markets[&slab.bytes].backing, 1);
}

#[test]
fn an_exit_is_paid_what_the_market_gave_back() {
    let mut env = TestEnv::new();
    env.init_coin_config_with_delay(50);
    env.init_genesis_bootstrap(100);
    let (alice, bob) = (env.user(), env.user());
    env.genesis_deposit(&alice, 4);
    env.genesis_deposit(&bob, 4);
    let (slab, percolator_vault) = env.init_futarchy_percolator_market();
    env.kickstart_genesis_market(&slab, &percolator_vault);

    let first = env.try_exit(&alice, 0, 1, 0, Some((slab, percolator_vault))).unwrap();
    assert_eq!(env.read_token_balance(&first), 1);
    assert_eq!(env.read_u64(&env.genesis_position_pda(&alice), 48), 1);
    let second = env.try_exit(&alice, 0, 0, 3, Some((slab, percolator_vault))).unwrap();
    assert_eq!(env.read_token_balance(&second), 3);
    assert_eq!(env.svm.markets[&slab.bytes].insurance, 3);
    assert_eq!(env.svm.markets[&slab.bytes].backing, 1);
    assert_eq!(
        env.try_exit(&alice, 0, 1, 0, Some((slab, percolator_vault))),
        Err("InvalidInstructionData".to_string())
    );
    assert_eq!(
        env.try_exit(&bob, 0, 0, 0, Some((slab, percolator_vault))),
        Err("InvalidInstructionData".to_string())
    );
    assert_eq!(
        env.try_exit(&bob, 0, u64::MAX, 1, Some((slab, percolator_vault))),
        Err("ArithmeticOverflow".to_string())
    );
    assert_eq!(env.try_exit(&bob, 0, 1, 1, None), Err("NotEnoughAccountKeys".to_string()));
}

#[test]
fn a_live_coin_stays_as_it_is() {
    let mut env = TestEnv::new();
    env.init_coin_config_with_delay(10);
    env.set_clock(115);
    env.activate_live();
    let before = env.get_account(&env.coin_cfg_pda()).unwrap().data;
    env.set_clock(500);
    env.activate_live();
    assert_eq!(env.get_account(&env.coin_cfg_pda()).unwrap().data, before);
    assert_eq!(env.read_u64(&env.coin_cfg_pda(), 56), 115);
}

#[test]
fn the_controller_may_be_recorded_again_by_nobody_else() {
    let mut env = TestEnv::new();
    let (dao, attacker) = (env.dao_authority, env.user());
    let before = env.get_account(&env.governance_authority_pda).unwrap().data;
    env.try_init_governance_authority(&dao).expect("nothing to do");
    assert_eq!(
        env.try_init_governance_authority(&attacker),
        Err("MissingRequiredSignature".to_string())
    );
    assert_eq!(env.get_account(&env.governance_authority_pda).unwrap().data, before);
}

#[test]
fn minting_can_be_given_up_for_good() {
    let mut env = TestEnv::new();
    env.init_coin_config();
    let dao = env.dao_authority;
    env.try_transfer_mint_authority(&dao, &SYSTEM).expect("burn the mint authority");
    let mint = Mint::unpack(&env.get_account(&env.coin_mint).unwrap().data).unwrap();
    assert_eq!(mint.mint_authority, COption::None);
}

#[test]
fn earnings_are_recovered_with_their_ledger() {
    let mut env = TestEnv::new();
    env.init_coin_config_with_delay(50);
    env.init_genesis_bootstrap(100);
    let alice = env.user();
    env.genesis_deposit(&alice, 4);
    let (slab, vault) = env.init_futarchy_percolator_market();
    env.kickstart_genesis_market(&slab, &vault);
    env.set_clock(150);
    env.activate_live();

    let ledger = env.unique();
    env.set_account(ledger, 1_000_000, vec![0u8; 8], PERCOLATOR);
    assert_eq!(
        env.try_recover(&slab, &vault, 2, 0, 1, Some(ledger)),
        Err("market instruction 52".to_string()),
        "the call reaches the market"
    );
    assert_eq!(
        env.try_recover(&slab, &vault, 2, 0, 1, None),
        Err("NotEnoughAccountKeys".to_string())
    );
    let stranger = env.user();
    assert_eq!(
        env.try_recover(&slab, &vault, 2, 0, 1, Some(stranger)),
        Err("IllegalOwner".to_string())
    );
    assert_eq!(
        env.try_recover(&slab, &vault, 3, 0, 1, None),
        Err("market instruction 41".to_string())
    );
    assert_eq!(
        env.try_recover(&slab, &vault, 4, 1, 1, None),
        Err("market instruction 57".to_string())
    );
    assert_eq!(
        env.try_recover(&slab, &vault, 5, 0, 1, None),
        Err("InvalidInstructionData".to_string())
    );
    assert_eq!(
        env.try_recover(&slab, &vault, 0, 0, 0, None),
        Err("InvalidInstructionData".to_string())
    );
}

#[test]
fn the_lock_names_the_genesis_market_only() {
    let mut env = TestEnv::new();
    env.init_coin_config_with_delay(50);
    env.init_genesis_bootstrap(100);
    let alice = env.user();
    env.genesis_deposit(&alice, 10);
    let (slab, vault) = env.init_futarchy_percolator_market();
    env.kickstart_genesis_market(&slab, &vault);
    env.set_clock(150);
    env.activate_live();

    let (other, _) = env.init_futarchy_percolator_market();
    let dao = env.dao_authority;
    let admin = env.w(env.market_admin_pda());
    let mut policy = vec![33u8];
    policy.extend_from_slice(&[1; 11]);
    let tail = vec![env.w(other)];
    env.try_percolator_admin(&dao, policy.clone(), admin, tail).expect("another market is open");
    assert_eq!(env.svm.markets[&other.bytes].policy, [1; 11]);
    let tail = vec![env.w(other), env.w(slab)];
    assert_eq!(
        env.try_percolator_admin(&dao, policy, admin, tail),
        Err("InvalidInstructionData".to_string())
    );
    let tail = vec![env.w(slab)];
    assert_eq!(
        env.try_percolator_admin(&dao, vec![34], admin, tail),
        Err("market instruction 34".to_string()),
        "what takes nothing away is handed on"
    );
}

#[test]
fn nothing_is_locked_without_a_genesis() {
    let mut env = TestEnv::new();
    env.init_coin_config();
    let (slab, _) = env.init_futarchy_percolator_market();
    let dao = env.dao_authority;
    let admin = env.w(env.market_admin_pda());
    let mut policy = vec![33u8];
    policy.extend_from_slice(&[2; 11]);
    let tail = vec![env.w(slab)];
    env.try_percolator_admin(&dao, policy, admin, tail).expect("no genesis, no lock");
    assert_eq!(env.svm.markets[&slab.bytes].policy, [2; 11]);
}

#[test]
fn tokens_are_conserved_through_a_genesis() {
    let mut env = TestEnv::new();
    env.init_coin_config_with_delay(50);
    env.init_genesis_bootstrap(1_000);
    let users = [env.user(), env.user(), env.user()];
    for (user, amount) in users.iter().zip([7u64, 11, 5]) {
        env.genesis_deposit(user, amount);
    }
    let refunded = env.try_genesis_withdraw(&users[2]).unwrap();
    assert_eq!(env.read_token_balance(&refunded), 5);
    let (slab, vault) = env.init_futarchy_percolator_market();
    env.kickstart_genesis_market(&slab, &vault);
    assert_eq!(env.read_token_balance(&vault), 18);
    env.set_clock(150);
    env.activate_live();
    let coin = env.create_coin_ata(&users[0], 0);
    env.init_genesis_distribution(7, &coin);
    env.vote_genesis_distribution(&users[0], 7);
    env.vote_genesis_distribution(&users[1], 7);
    assert_eq!(env.read_proposal_support_weight(7), 5 * 18);
    let cranker = env.user();
    env.trigger_genesis_distribution(&cranker, 7, &coin);
    assert_eq!(env.read_token_balance(&coin), 1_000);
    // The market lost 4 of the 18.
    env.try_recover(&slab, &vault, 0, 0, 9, None).unwrap();
    env.try_recover(&slab, &vault, 1, 0, 5, None).unwrap();
    env.finalize_genesis();
    let first = env.genesis_withdraw(&users[0]);
    let second = env.genesis_withdraw(&users[1]);
    assert_eq!(env.read_token_balance(&first), 7 * 14 / 18);
    assert_eq!(env.read_token_balance(&second), 9);
    assert_eq!(env.read_token_balance(&env.genesis_vault_pda()), 14 - 5 - 9);
}

#[test]
fn refusals_name_their_reason() {
    let mut env = TestEnv::new();
    env.init_coin_config_with_delay(50);
    env.init_genesis_bootstrap(100);
    let refused = |reason: &str| Err(reason.to_string());
    let alice = env.user();
    let deposit = |env: &TestEnv, ata: Pubkey| {
        vec![
            AccountMeta::new(alice, true),
            env.r(env.coin_mint),
            env.r(env.coin_cfg_pda()),
            env.w(env.genesis_cfg_pda()),
            env.w(env.genesis_position_pda(&alice)),
            env.w(ata),
            env.w(env.genesis_vault_pda()),
            env.r(TOKEN),
            env.r(SYSTEM),
        ]
    };
    let mut data = vec![22u8];
    data.extend_from_slice(&3u64.to_le_bytes());
    let mint = env.collateral_mint;
    let ata = env.create_ata(&mint, &alice, 3);
    let id = env.rewards_id;

    let mut metas = deposit(&env, ata);
    metas.pop();
    assert_eq!(env.send(id, metas, data.clone(), &[alice]), refused("NotEnoughAccountKeys"));
    let mut metas = deposit(&env, ata);
    metas[0].is_signer = false;
    assert_eq!(env.send(id, metas, data.clone(), &[]), refused("MissingRequiredSignature"));
    let mut metas = deposit(&env, ata);
    metas[7] = env.r(SYSTEM);
    assert_eq!(env.send(id, metas, data.clone(), &[alice]), refused("IncorrectProgramId"));
    let mut metas = deposit(&env, ata);
    metas[4] = env.w(ata);
    assert_eq!(env.send(id, metas, data.clone(), &[alice]), refused("InvalidSeeds"));
    let foreign = env.unique();
    let contents = make_token_account_data(&mint, &alice, 3);
    env.set_account(foreign, 1_000_000, contents, SYSTEM);
    let metas = deposit(&env, foreign);
    assert_eq!(env.send(id, metas, data.clone(), &[alice]), refused("IllegalOwner"));
    let other = env.unique();
    let stolen = env.create_ata(&mint, &other, 3);
    let metas = deposit(&env, stolen);
    assert_eq!(env.send(id, metas, data.clone(), &[alice]), refused("InvalidAccountData"));
    let metas = deposit(&env, ata);
    assert_eq!(env.send(id, metas, vec![22, 1], &[alice]), refused("InvalidInstructionData"));
    assert_eq!(env.try_genesis_deposit(&alice, 0), refused("InvalidInstructionData"));

    env.try_genesis_deposit(&alice, 3).expect("a deposit");
    let cfg = env.genesis_cfg_pda();
    let full = u64::MAX.to_le_bytes();
    env.svm.accounts.get_mut(&cfg.bytes).unwrap().data[104..112].copy_from_slice(&full);
    assert_eq!(env.try_genesis_deposit(&alice, 1), refused("ArithmeticOverflow"));
    let three = 3u64.to_le_bytes();
    env.svm.accounts.get_mut(&cfg.bytes).unwrap().data[104..112].copy_from_slice(&three);

    env.set_clock(150);
    env.activate_live();
    env.force_genesis_finalized_for_test();
    let dao = env.dao_authority;
    let base = env.create_ata(&mint, &dao, 0);
    assert_eq!(
        env.try_draw_genesis_surplus_with_signer(&dao, 1, &base),
        refused("InsufficientFunds")
    );
    assert_eq!(env.try_handover(&SYSTEM), refused("InvalidArgument"));

    let blank = env.unique();
    env.set_account(blank, 1_000_000, vec![0u8; Mint::LEN], TOKEN);
    let mut fresh = TestEnv::new_without_governance_bootstrap();
    fresh.svm.accounts.insert(fresh.coin_mint.bytes, env.get_account(&blank).unwrap());
    assert_eq!(fresh.try_init_governance_authority(&dao), refused("UninitializedAccount"));
}

#[test]
fn a_vote_needs_age_and_an_action() {
    let mut env = TestEnv::new_meta_only();
    env.init_coin_config_with_delay(1);
    env.init_genesis_bootstrap(100);
    let alice = env.user();
    env.genesis_deposit(&alice, 3);
    env.set_clock(101);
    env.activate_live();
    let dest = env.create_coin_ata(&alice, 0);
    env.init_genesis_distribution(1, &dest);
    assert_eq!(
        env.try_vote_genesis_distribution(&alice, 1),
        Err("InvalidAccountData".to_string()),
        "one slot of age carries no weight"
    );
    env.set_clock(102);
    assert_eq!(
        env.send_genesis_vote(&alice, 1, 3),
        Err("InvalidInstructionData".to_string())
    );
    env.vote_genesis_distribution(&alice, 1);
    assert_eq!(env.read_position_vote_weight(&alice), 3);
    env.set_clock(116);
    env.vote_genesis_distribution(&alice, 1);
    assert_eq!(env.read_position_vote_weight(&alice), 12, "the ballot is counted anew");
    assert_eq!(env.read_proposal_support_weight(1), 12);
    assert_eq!(env.read_u64(&env.genesis_cfg_pda(), 144), 12);
}

#[test]
fn disabled_tags_are_refused() {
    let mut env = TestEnv::new();
    let dao = env.dao_authority;
    for tag in 0..=255u8 {
        let known = matches!(tag, 3 | 8 | 10 | 11 | 19..=33);
        let reason = env.send(env.rewards_id, vec![], vec![tag], &[]).unwrap_err();
        assert!(known || reason == "InvalidInstructionData");
        let known = matches!(tag, 0 | 1 | 4 | 6 | 7 | 9 | 10 | 12..=18);
        let reason = env.try_governance_unknown_tag(&dao, tag).unwrap_err();
        assert!(known || reason == "InvalidInstructionData");
    }
    let empty = env.send(env.rewards_id, vec![], vec![], &[]);
    assert_eq!(empty, Err("InvalidInstructionData".to_string()));
    let empty = env.send(governance::id(), vec![], vec![], &[]);
    assert_eq!(empty, Err("InvalidInstructionData".to_string()));
}

#[test]
fn a_retraction_restores_the_records() {
    let mut env = TestEnv::new_meta_only();
    env.init_coin_config_with_delay(1);
    env.init_genesis_bootstrap(100);
    let alice = env.user();
    let bob = env.user();
    env.genesis_deposit(&alice, 3);
    env.genesis_deposit(&bob, 5);
    env.set_clock(120);
    env.activate_live();
    let dest = env.create_coin_ata(&alice, 0);
    env.init_genesis_distribution(1, &dest);
    env.vote_genesis_distribution(&bob, 1);
    let watched = [
        env.genesis_cfg_pda(),
        env.genesis_position_pda(&alice),
        env.genesis_distribution_pda(1),
    ];
    let read = |env: &TestEnv| watched.map(|key| env.get_account(&key).unwrap().data);
    let before = read(&env);
    env.vote_genesis_distribution(&alice, 1);
    let voted = read(&env);
    assert!(before[0] != voted[0] && before[1] != voted[1] && before[2] != voted[2]);
    env.set_clock(140);
    env.retract_genesis_vote(&alice, 1).expect("retract");
    assert_eq!(read(&env), before);
    assert_eq!(
        env.retract_genesis_vote(&alice, 1),
        Err("InvalidInstructionData".to_string())
    );
    assert_eq!(read(&env), before);
}

#[test]
fn no_more_is_minted_than_the_supply() {
    let mut env = TestEnv::new_meta_only();
    env.init_coin_config_with_delay(1);
    env.init_genesis_bootstrap(100);
    let pool = env.genesis_cfg_pda();
    let minted = |env: &TestEnv| (env.read_u64(&pool, 128), env.read_u64(&pool, 120));
    let alice = env.user();
    env.genesis_deposit(&alice, 2);
    env.set_clock(110);
    env.activate_live();
    env.force_genesis_kicked_for_test();
    let destination = env.create_coin_ata(&alice, 0);
    env.init_genesis_distribution(1, &destination);
    env.vote_genesis_distribution(&alice, 1);
    assert_eq!(minted(&env), (0, 100));
    let cranker = env.user();
    env.trigger_genesis_distribution(&cranker, 1, &destination);
    assert_eq!(minted(&env), (100, 100));
    let again = env.try_trigger_genesis_distribution(&cranker, 1, &destination);
    assert_eq!(again, Err("InvalidInstructionData".to_string()));
    env.finalize_genesis();
    env.genesis_withdraw(&alice);
    assert_eq!(minted(&env), (100, 100));
    assert_eq!(env.read_token_balance(&destination), 100);
}

#[test]
fn a_burned_mint_authority_mints_no_more() {
    let mut env = TestEnv::new();
    env.init_coin_config_with_delay(1);
    env.init_genesis_bootstrap(1_000);
    env.set_clock(110);
    env.activate_live();
    env.force_genesis_finalized_for_test();
    let dao = env.dao_authority;
    let destination = env.create_coin_ata(&dao, 0);
    let derived_authority = env.mint_authority_pda;
    env.try_transfer_mint_authority(&dao, &derived_authority).expect("handed to itself");
    env.try_governance_mint_reward(&dao, 7, &destination).expect("still its own");
    env.try_transfer_mint_authority(&dao, &SYSTEM).expect("burned");
    let mint = Mint::unpack(&env.get_account(&env.coin_mint).unwrap().data).unwrap();
    assert_eq!(mint.mint_authority, COption::None);
    assert!(env.try_governance_mint_reward(&dao, 1, &destination).is_err());
    assert_eq!(env.read_token_balance(&destination), 7);
}

#[test]
fn a_bootstrap_may_ask_for_a_window() {
    let refused = Err("InvalidInstructionData".to_string());
    // The delay of ten slots started at slot 100, and the clock stands at 104.
    for (window, fits) in [(0u64, false), (1, true), (6, true), (7, false), (u64::MAX, false)] {
        let mut env = TestEnv::new_meta_only();
        env.init_coin_config_with_delay(10);
        env.set_clock(104);
        let mut data = vec![21u8];
        data.extend_from_slice(&100u64.to_le_bytes());
        data.extend_from_slice(&window.to_le_bytes());
        let result = env.bootstrap_directly(&data);
        assert_eq!(result, if fits { Ok(()) } else { refused.clone() });
        if fits {
            // Deposits do not depend on the window.
            env.set_clock(109);
            let alice = env.user();
            env.genesis_deposit(&alice, 2);
            assert_eq!(env.read_u64(&env.genesis_cfg_pda(), 104), 2);
        }
    }
    for len in [0usize, 7, 9, 15, 17] {
        let mut env = TestEnv::new_meta_only();
        env.init_coin_config_with_delay(10);
        let mut data = vec![1u8; len + 1];
        data[0] = 21;
        assert_eq!(env.bootstrap_directly(&data), refused);
    }
}

#[test]
fn milestones_are_one_way() {
    let mut env = TestEnv::new_meta_only();
    env.init_coin_config_with_delay(1);
    env.init_genesis_bootstrap(100);
    let alice = env.user();
    let bob = env.user();
    env.genesis_deposit(&alice, 2);
    env.genesis_deposit(&bob, 1);
    env.set_clock(110);
    env.activate_live();
    let live = env.get_account(&env.coin_cfg_pda()).unwrap().data;
    env.set_clock(120);
    env.activate_live();
    assert_eq!(env.get_account(&env.coin_cfg_pda()).unwrap().data, live);
    env.force_genesis_kicked_for_test();
    let pool = env.genesis_cfg_pda();
    let destination = env.create_coin_ata(&alice, 0);
    env.init_genesis_distribution(1, &destination);
    env.init_genesis_distribution(2, &destination);
    env.vote_genesis_distribution(&alice, 1);
    let cranker = env.user();
    env.trigger_genesis_distribution(&cranker, 1, &destination);
    // The votes go on, and change nothing about it.
    env.retract_genesis_vote(&alice, 1).expect("retract");
    env.vote_genesis_distribution(&alice, 2);
    env.vote_genesis_distribution(&bob, 2);
    assert_eq!(
        env.try_trigger_genesis_distribution(&cranker, 2, &destination),
        Err("InvalidInstructionData".to_string())
    );
    env.finalize_genesis();
    env.genesis_withdraw(&alice);
    env.genesis_withdraw(&bob);
    assert_eq!((env.read_u64(&pool, 120), env.read_u64(&pool, 128)), (100, 100));
    let data = env.get_account(&pool).unwrap().data;
    assert_eq!((data[136], data[137]), (1, 1));
    assert_eq!(env.read_token_balance(&destination), 100);
}
