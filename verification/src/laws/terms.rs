//! The terms in which the laws on single instructions speak: integers and addresses where they stand in
//! the data, what an account has to be, and what a call carries.
use crate::account::{Account, AccountMeta, EffectView};
use crate::addresses;
use crate::addresses::{Address, CoinAddresses};
use crate::bytes;
use crate::checks;
use crate::coin::CoinConfig;
use crate::genesis::{GenesisConfig, GenesisPosition};
use crate::governance::GOVERNANCE_PROGRAM;
use crate::percolator_abi;
use crate::pubkey;
use crate::pubkey::{Pubkey, PERCOLATOR_PROGRAM, SYSTEM_PROGRAM, TOKEN_PROGRAM};
use crate::token;
use vstd::arithmetic::power::*;
use vstd::prelude::*;

verus! {

/// The number in the eight bytes from `off` on, least significant byte first.
pub open spec fn word(data: Seq<u8>, off: int) -> int {
    data[off] + 0x100 * data[off + 1] + 0x1_0000 * data[off + 2] + 0x100_0000 * data[off + 3]
        + 0x1_0000_0000 * data[off + 4] + 0x100_0000_0000 * data[off + 5] + 0x1_0000_0000_0000
        * data[off + 6] + 0x100_0000_0000_0000 * data[off + 7]
}

/// The 32 bytes from `off` on are those of `key`.
pub open spec fn names(data: Seq<u8>, off: int, key: [u8; 32]) -> bool {
    forall|i: int| 0 <= i < 32 ==> #[trigger] data[off + i] == key@[i]
}

/// Eight zero bytes from `off` on.
pub open spec fn blank(data: Seq<u8>, off: int) -> bool {
    forall|i: int| off <= i < off + 8 ==> #[trigger] data[i] == 0
}

pub proof fn lemma_word(data: Seq<u8>, off: int)
    requires
        0 <= off,
        off + 8 <= data.len(),
    ensures
        bytes::u64_of(data.subrange(off, off + 8)) == word(data, off),
        0 <= word(data, off) <= u64::MAX,
{
    let s = data.subrange(off, off + 8);
    lemma_value(s);
    assert(bytes::le_value(s) == word(s, 0));
    assert(word(s, 0) == word(data, off));
}

proof fn lemma_value(s: Seq<u8>)
    requires
        s.len() == 8,
    ensures
        bytes::le_value(s) == word(s, 0),
{
    let s1 = s.drop_first();
    let s2 = s1.drop_first();
    let s3 = s2.drop_first();
    let s4 = s3.drop_first();
    let s5 = s4.drop_first();
    let s6 = s5.drop_first();
    let s7 = s6.drop_first();
    let s8 = s7.drop_first();
    assert(bytes::le_value(s8) == 0);
    assert(bytes::le_value(s7) == s[7]);
    assert(bytes::le_value(s6) == s[6] + 256 * s[7]);
    assert(bytes::le_value(s5) == s[5] + 256 * bytes::le_value(s6));
    assert(bytes::le_value(s4) == s[4] + 256 * bytes::le_value(s5));
    assert(bytes::le_value(s3) == s[3] + 256 * bytes::le_value(s4));
    assert(bytes::le_value(s2) == s[2] + 256 * bytes::le_value(s3));
    assert(bytes::le_value(s1) == s[1] + 256 * bytes::le_value(s2));
    assert(bytes::le_value(s) == s[0] + 256 * bytes::le_value(s1));
}

/// The eight bytes of `x`, wherever they stand.
pub proof fn lemma_word_of(x: u64, data: Seq<u8>, off: int)
    requires
        0 <= off,
        off + 8 <= data.len(),
        data.subrange(off, off + 8) == bytes::u64_bytes(x),
    ensures
        word(data, off) == x,
{
    lemma_word(data, off);
    bytes::lemma_u64_round_trip(x);
}

proof fn lemma_value_bytes(s: Seq<u8>)
    ensures
        bytes::le_bytes(bytes::le_value(s), s.len()) == s,
    decreases s.len(),
{
    if s.len() > 0 {
        lemma_value_bytes(s.drop_first());
        let rest = bytes::le_value(s.drop_first());
        assert(bytes::le_value(s) == s[0] + 256 * rest);
        assert((s[0] + 256 * rest) / 256 == rest && (s[0] + 256 * rest) % 256 == s[0]);
        assert(bytes::le_bytes(bytes::le_value(s), s.len()) =~= s);
    } else {
        assert(bytes::le_bytes(bytes::le_value(s), s.len()) =~= s);
    }
}

/// Eight bytes are those of the number that they hold.
pub proof fn lemma_bytes_of_word(data: Seq<u8>)
    requires
        data.len() == 8,
    ensures
        bytes::u64_bytes(bytes::u64_of(data)) == data,
{
    assert(data.subrange(0, 8) =~= data);
    lemma_word(data, 0);
    lemma_value(data);
    lemma_value_bytes(data);
}

proof fn lemma_bytes_split(n: nat, a: nat, b: nat)
    ensures
        bytes::le_bytes(n, a + b) == bytes::le_bytes(n, a) + bytes::le_bytes(
            n / (pow(256, a) as nat),
            b,
        ),
        pow(256, a) > 0,
    decreases a,
{
    lemma_pow_positive(256, a);
    reveal(pow);
    if a == 0 {
        assert(bytes::le_bytes(n, 0) + bytes::le_bytes(n, b) =~= bytes::le_bytes(n, b));
        assert(n / 1 == n);
    } else {
        let m = (a - 1) as nat;
        lemma_bytes_split(n / 256, m, b);
        assert(pow(256, a) == 256 * pow(256, m));
        vstd::arithmetic::div_mod::lemma_div_denominator(n as int, 256, pow(256, m));
        assert(bytes::le_bytes(n, a + b) =~= bytes::le_bytes(n, a) + bytes::le_bytes(
            n / (pow(256, a) as nat),
            b,
        ));
    }
}

proof fn lemma_bytes_of_zero(b: nat)
    ensures
        bytes::le_bytes(0, b).len() == b,
        forall|i: int| 0 <= i < b ==> #[trigger] bytes::le_bytes(0, b)[i] == 0,
    decreases b,
{
    if b > 0 {
        lemma_bytes_of_zero((b - 1) as nat);
    }
}

/// A 64-bit amount in sixteen bytes: its eight bytes, and eight zeros.
pub proof fn lemma_amount_of(x: u64, data: Seq<u8>, off: int)
    requires
        0 <= off,
        off + 16 <= data.len(),
        data.subrange(off, off + 16) == bytes::le_bytes(x as nat, 16),
    ensures
        word(data, off) == x,
        blank(data, off + 8),
{
    assert(pow(256, 8) == 0x1_0000_0000_0000_0000) by {
        reveal(pow);
        reveal_with_fuel(pow, 9);
    }
    lemma_bytes_split(x as nat, 8, 8);
    lemma_bytes_of_zero(8);
    assert(x as nat / (pow(256, 8) as nat) == 0);
    bytes::lemma_u64_round_trip(x);
    let s = data.subrange(off, off + 16);
    assert(data.subrange(off, off + 8) =~= bytes::u64_bytes(x));
    lemma_word_of(x, data, off);
    assert forall|i: int| off + 8 <= i < off + 16 implies #[trigger] data[i] == 0 by {
        assert(data[i] == s[i - off]);
    }
}

pub proof fn lemma_names(data: Seq<u8>, off: int, key: [u8; 32])
    requires
        0 <= off,
        off + 32 <= data.len(),
    ensures
        names(data, off, pubkey::key_of(data.subrange(off, off + 32)).bytes),
        names(data, off, key) <==> pubkey::key_of(data.subrange(off, off + 32)).bytes == key,
        names(data, off, key) <==> data.subrange(off, off + 32) == key@,
{
    let s = data.subrange(off, off + 32);
    let k = pubkey::key_of(s);
    assert(k.bytes@ =~= s);
    assert forall|i: int| 0 <= i < 32 implies #[trigger] data[off + i] == k.bytes@[i] by {
        assert(s[i] == data[off + i]);
    }
    if names(data, off, key) {
        assert(s =~= key@) by {
            assert forall|i: int| 0 <= i < 32 implies s[i] == key@[i] by {
                assert(s[i] == data[off + i]);
            }
        }
        pubkey::lemma_key_of_bytes(Pubkey { bytes: key });
        assert(k == pubkey::key_of(key@));
    }
    if s == key@ {
        assert(k.bytes@ == key@);
        assert forall|i: int| 0 <= i < 32 implies #[trigger] data[off + i] == key@[i] by {
            assert(s[i] == data[off + i]);
        }
    }
}

/// An account that the call reads.
pub open spec fn read(key: Pubkey) -> AccountMeta {
    AccountMeta { pubkey: key, is_signer: false, is_writable: false }
}

/// An account that the call changes.
pub open spec fn changed(key: Pubkey) -> AccountMeta {
    AccountMeta { pubkey: key, is_signer: false, is_writable: true }
}

/// An account that signs the call.
pub open spec fn signing(key: Pubkey) -> AccountMeta {
    AccountMeta { pubkey: key, is_signer: true, is_writable: false }
}

/// An account that signs the call and pays for it.
pub open spec fn paying(key: Pubkey) -> AccountMeta {
    AccountMeta { pubkey: key, is_signer: true, is_writable: true }
}

/// The effect calls `program`, which is handed the accounts at `infos` and is told of them as `metas`;
/// the address of the seeds `signer` signs.
pub open spec fn calls(
    effect: EffectView,
    program: Pubkey,
    metas: Seq<AccountMeta>,
    infos: Seq<usize>,
    signer: Seq<Seq<u8>>,
) -> bool {
    &&& effect is Invoke
    &&& effect->instruction.program_id == program
    &&& effect->instruction.accounts == metas
    &&& effect->accounts == infos
    &&& effect->Invoke_signer == signer
}

/// A tag, and an amount in eight bytes behind it.
pub open spec fn tag_and_amount(data: Seq<u8>, tag: u8, amount: int) -> bool {
    data.len() == 9 && data[0] == tag && word(data, 1) == amount
}

pub proof fn lemma_tag_and_amount(tag: u8, amount: u64)
    ensures
        tag_and_amount(seq![tag] + bytes::u64_bytes(amount), tag, amount as int),
{
    let data = seq![tag] + bytes::u64_bytes(amount);
    bytes::lemma_u64_round_trip(amount);
    assert(data.subrange(1, 9) =~= bytes::u64_bytes(amount));
    lemma_word_of(amount, data, 1);
}

/// A tag, and an amount in sixteen bytes behind it.
pub open spec fn tag_and_wide_amount(data: Seq<u8>, tag: u8, amount: int) -> bool {
    data.len() == 17 && data[0] == tag && word(data, 1) == amount && blank(data, 9)
}

/// A tag, a domain, and an amount in sixteen bytes behind them.
pub open spec fn tag_domain_and_amount(data: Seq<u8>, tag: u8, domain: u8, amount: int) -> bool {
    &&& data.len() == 18
    &&& data[0] == tag
    &&& data[1] == domain
    &&& word(data, 2) == amount
    &&& blank(data, 10)
}

pub proof fn lemma_wide_amounts(tag: u8, domain: u8, amount: u64)
    ensures
        tag_and_wide_amount(
            seq![tag] + percolator_abi::amount_bytes(amount),
            tag,
            amount as int,
        ),
        tag_domain_and_amount(
            seq![tag, domain] + percolator_abi::amount_bytes(amount),
            tag,
            domain,
            amount as int,
        ),
{
    let wide = percolator_abi::amount_bytes(amount);
    bytes::lemma_le_bytes_len(amount as nat, 16);
    let a = seq![tag] + wide;
    let b = seq![tag, domain] + wide;
    assert(a.subrange(1, 17) =~= wide);
    assert(b.subrange(2, 18) =~= wide);
    lemma_amount_of(amount, a, 1);
    lemma_amount_of(amount, b, 2);
}

/// The token program is asked to move `amount`.
pub open spec fn moves(
    effect: EffectView,
    accounts: Seq<Account>,
    source: usize,
    destination: usize,
    authority: usize,
    program: usize,
    amount: int,
    signer: Seq<Seq<u8>>,
) -> bool {
    &&& accounts[program as int].key.bytes == TOKEN_PROGRAM
    &&& calls(
        effect,
        accounts[program as int].key,
        seq![
            changed(accounts[source as int].key),
            changed(accounts[destination as int].key),
            signing(accounts[authority as int].key),
        ],
        seq![source, destination, authority, program],
        signer,
    )
    &&& tag_and_amount(effect->instruction.data, 3, amount)
}

/// The token program is asked to mint `amount`.
pub open spec fn mints(
    effect: EffectView,
    accounts: Seq<Account>,
    mint: usize,
    destination: usize,
    authority: usize,
    program: usize,
    amount: int,
    signer: Seq<Seq<u8>>,
) -> bool {
    &&& accounts[program as int].key.bytes == TOKEN_PROGRAM
    &&& calls(
        effect,
        accounts[program as int].key,
        seq![
            changed(accounts[mint as int].key),
            changed(accounts[destination as int].key),
            signing(accounts[authority as int].key),
        ],
        seq![mint, destination, authority, program],
        signer,
    )
    &&& tag_and_amount(effect->instruction.data, 7, amount)
}

/// An account of `space` bytes is created for `owner`.
pub open spec fn makes(
    effect: EffectView,
    payer: usize,
    target: usize,
    system_program: usize,
    space: int,
    owner: Pubkey,
    signer: Seq<Seq<u8>>,
) -> bool {
    &&& effect is Create
    &&& effect->payer == payer
    &&& effect->target == target
    &&& effect->system_program == system_program
    &&& effect->space == space
    &&& effect->owner == owner
    &&& effect->Create_signer == signer
}

/// The seeds of the COIN's market admin.
pub open spec fn admin_seeds(coin_mint: Pubkey, coin: CoinAddresses) -> Seq<Seq<u8>> {
    seq![addresses::MARKET_ADMIN_LABEL@, coin_mint.bytes@, seq![coin.market_admin->0.bump]]
}

/// The seeds of the COIN's mint authority.
pub open spec fn minter_seeds(coin_mint: Pubkey, coin: CoinAddresses) -> Seq<Seq<u8>> {
    seq![addresses::MINT_AUTHORITY_LABEL@, coin_mint.bytes@, seq![coin.mint_authority->0.bump]]
}

pub proof fn lemma_seeds(label: Seq<u8>, key: Pubkey, bump: u8)
    ensures
        addresses::signer_seeds(addresses::labelled(label, key), bump) == seq![
            label,
            key.bytes@,
            seq![bump],
        ],
{
    assert(addresses::signer_seeds(addresses::labelled(label, key), bump) =~= seq![
        label,
        key.bytes@,
        seq![bump],
    ]);
}

/// The account stands at a derived address.
pub open spec fn stands(account: Account, address: Option<Address>) -> bool {
    address matches Some(a) && a.key == account.key
}

/// A token account.
pub open spec fn token_account(account: Account) -> bool {
    account.owner.bytes == TOKEN_PROGRAM && token::token_account_of(account.data@) is Ok
}

/// A token account of a mint.
pub open spec fn token_for(account: Account, mint: Pubkey) -> bool {
    token_account(account) && token::token_account_of(account.data@)->Ok_0.mint == mint
}

/// Somebody's token account of a mint.
pub open spec fn token_by(account: Account, mint: Pubkey, owner: Pubkey) -> bool {
    token_for(account, mint) && token::token_account_of(account.data@)->Ok_0.owner == owner
}

/// What a token account holds.
pub open spec fn balance(account: Account) -> int {
    token::token_account_of(account.data@)->Ok_0.amount as int
}

/// A mint.
pub open spec fn a_mint(account: Account) -> bool {
    account.owner.bytes == TOKEN_PROGRAM && token::mint_of(account.data@) is Ok
}

/// The COIN's authority, which signed.
pub open spec fn authority(account: Account, coin: CoinAddresses) -> bool {
    account.is_signer && account.owner.bytes == GOVERNANCE_PROGRAM && stands(
        account,
        coin.governance,
    )
}

/// The COIN's configuration.
pub open spec fn coin_record(account: Account, coin: CoinAddresses, program_id: Pubkey) -> bool {
    stands(account, coin.coin_cfg) && account.owner == program_id && CoinConfig::decoded(
        account.data@,
    ) is Ok
}

pub open spec fn coin_in(account: Account) -> CoinConfig {
    CoinConfig::decoded(account.data@)->Ok_0
}

/// The COIN's authority signed, and the COIN's configuration names it.
pub open spec fn governed(
    authority_account: Account,
    coin_cfg: Account,
    coin: CoinAddresses,
    program_id: Pubkey,
) -> bool {
    authority(authority_account, coin) && coin_record(coin_cfg, coin, program_id) && coin_in(
        coin_cfg,
    ).authority == authority_account.key
}

/// The COIN is live: its phase is 1.
pub open spec fn live(coin_cfg: Account) -> bool {
    coin_in(coin_cfg).phase == 1
}

/// The COIN's pool.
pub open spec fn pool_record(
    account: Account,
    coin_mint: Account,
    coin: CoinAddresses,
    program_id: Pubkey,
) -> bool {
    &&& stands(account, coin.genesis_cfg)
    &&& account.owner == program_id
    &&& GenesisConfig::decoded(account.data@) is Ok
    &&& pool_in(account).coin_mint == coin_mint.key
}

pub open spec fn pool_in(account: Account) -> GenesisConfig {
    GenesisConfig::decoded(account.data@)->Ok_0
}

pub open spec fn position_in(account: Account) -> GenesisPosition {
    GenesisPosition::decoded(account.data@)->Ok_0
}

/// The principal of a pool that was not paid back yet.
pub open spec fn outstanding(cfg: GenesisConfig) -> int {
    if cfg.total_withdrawn <= cfg.total_deposited {
        cfg.total_deposited - cfg.total_withdrawn
    } else {
        0
    }
}

/// The principal that a position may still take out.
pub open spec fn claim(position: GenesisPosition) -> int {
    if position.withdrawn <= position.amount {
        position.amount - position.withdrawn
    } else {
        0
    }
}

/// The pool's vault, which the market admin owns.
pub open spec fn vault(
    account: Account,
    cfg: GenesisConfig,
    admin: Pubkey,
    coin: CoinAddresses,
) -> bool {
    stands(account, coin.genesis_vault) && cfg.token_vault == account.key && token_by(
        account,
        cfg.base_mint,
        admin,
    )
}

/// A Percolator market for the base mint that the market admin controls in every respect.
pub open spec fn controlled(market: Account, base_mint: Pubkey, admin: Pubkey) -> bool {
    let data = market.data@;
    &&& market.owner.bytes == PERCOLATOR_PROGRAM
    &&& data.len() >= 640
    &&& word(data, 0) == 0x5045_5243_5631_3600
    &&& data[8] == 16 && data[9] == 0 && data[10] == 1
    &&& names(data, 16, admin.bytes)
    &&& names(data, 48, base_mint.bytes)
    &&& !names(data, 80, base_mint.bytes)
    &&& names(data, 208, admin.bytes)
    &&& names(data, 240, admin.bytes)
    &&& names(data, 272, admin.bytes)
    &&& base_mint.bytes != SYSTEM_PROGRAM
}

/// The token vault of a market, and the authority over it.
pub open spec fn market_vault(
    vault_account: Account,
    vault_authority: Account,
    base_mint: Pubkey,
    address: Option<Address>,
) -> bool {
    stands(vault_authority, address) && token_by(vault_account, base_mint, vault_authority.key)
}

/// A depositor's position.
pub open spec fn position_record(
    account: Account,
    owner: Pubkey,
    address: Option<Address>,
    program_id: Pubkey,
) -> bool {
    &&& stands(account, address)
    &&& account.owner == program_id
    &&& GenesisPosition::decoded(account.data@) is Ok
    &&& position_in(account).owner == owner
}

pub proof fn lemma_governed(
    authority_account: Account,
    coin_cfg: Account,
    coin: CoinAddresses,
    program_id: Pubkey,
)
    ensures
        checks::governance_ok(authority_account, coin.governance) is Ok <==> authority(
            authority_account,
            coin,
        ),
        checks::coin_config_at(coin_cfg, coin.coin_cfg, program_id) is Ok <==> coin_record(
            coin_cfg,
            coin,
            program_id,
        ),
        checks::governed_config(authority_account, coin_cfg, coin, program_id) is Ok <==> governed(
            authority_account,
            coin_cfg,
            coin,
            program_id,
        ),
        coin_record(coin_cfg, coin, program_id) ==> checks::coin_config_at(
            coin_cfg,
            coin.coin_cfg,
            program_id,
        )->Ok_0 == coin_in(coin_cfg),
        governed(authority_account, coin_cfg, coin, program_id) ==> checks::governed_config(
            authority_account,
            coin_cfg,
            coin,
            program_id,
        )->Ok_0 == coin_in(coin_cfg),
{
}

pub proof fn lemma_pool(
    account: Account,
    coin_mint: Account,
    vault_account: Account,
    admin: Pubkey,
    coin: CoinAddresses,
    program_id: Pubkey,
)
    ensures
        checks::genesis_config_at(
            account,
            coin_mint.key,
            coin.genesis_cfg,
            program_id,
        ) is Ok <==> pool_record(account, coin_mint, coin, program_id),
        pool_record(account, coin_mint, coin, program_id) ==> checks::genesis_config_at(
            account,
            coin_mint.key,
            coin.genesis_cfg,
            program_id,
        )->Ok_0 == pool_in(account),
        checks::vault_at(
            vault_account,
            pool_in(account),
            admin,
            coin.genesis_vault,
        ) is Ok <==> vault(vault_account, pool_in(account), admin, coin),
        vault(vault_account, pool_in(account), admin, coin) ==> checks::vault_at(
            vault_account,
            pool_in(account),
            admin,
            coin.genesis_vault,
        )->Ok_0.amount == balance(vault_account),
        pool_in(account).outstanding() == outstanding(pool_in(account)),
{
}

pub proof fn lemma_position(
    account: Account,
    owner: Pubkey,
    address: Option<Address>,
    program_id: Pubkey,
)
    ensures
        checks::position_at(account, owner, address, program_id) is Ok <==> position_record(
            account,
            owner,
            address,
            program_id,
        ),
        position_record(account, owner, address, program_id) ==> checks::position_at(
            account,
            owner,
            address,
            program_id,
        )->Ok_0 == position_in(account),
        position_in(account).claim() == claim(position_in(account)),
{
}

pub proof fn lemma_tokens(account: Account, mint: Pubkey, owner: Pubkey)
    ensures
        checks::token_account_at(account) is Ok <==> token_account(account),
        checks::token_of_mint(account, mint) is Ok <==> token_for(account, mint),
        checks::token_owned(account, mint, owner) is Ok <==> token_by(account, mint, owner),
        checks::mint_at(account) is Ok <==> a_mint(account),
        token_account(account) ==> checks::token_account_at(account)->Ok_0.amount == balance(
            account,
        ),
{
}

#[verifier::spinoff_prover]
pub proof fn lemma_market(
    market: Account,
    vault_account: Account,
    vault_authority: Account,
    base_mint: Pubkey,
    admin: Pubkey,
    address: Option<Address>,
)
    ensures
        checks::controlled_market(market, base_mint, admin) is Ok <==> controlled(
            market,
            base_mint,
            admin,
        ),
        checks::market_vault_ok(
            vault_account,
            vault_authority,
            base_mint,
            address,
        ) is Ok <==> market_vault(vault_account, vault_authority, base_mint, address),
{
    let data = market.data@;
    if data.len() >= 640 {
        lemma_word(data, 0);
        let s = data.subrange(8, 10);
        assert(bytes::le_value(s) == data[8] + 256 * data[9]) by {
            reveal_with_fuel(bytes::le_value, 3);
            assert(s.drop_first()[0] == data[9]);
            assert(s.drop_first().drop_first().len() == 0);
        }
        lemma_names(data, 16, admin.bytes);
        lemma_names(data, 48, base_mint.bytes);
        lemma_names(data, 80, base_mint.bytes);
        lemma_names(data, 208, admin.bytes);
        lemma_names(data, 240, admin.bytes);
        lemma_names(data, 272, admin.bytes);
        let fields = percolator_abi::market_fields(data);
        assert(fields.admin == admin.bytes <==> names(data, 16, admin.bytes));
        assert(fields.collateral_mint == base_mint.bytes <==> names(data, 48, base_mint.bytes));
    }
}

} // verus!
