//! The bookkeeping of a genesis on concrete numbers.
use percolator_meta::account::{no_effects, Account, Effect};
use percolator_meta::effects::mint_coin;
use percolator_meta::error::ProgramError;
use percolator_meta::genesis::{GenesisConfig, GenesisDistribution, GenesisPosition};
use percolator_meta::ledger::{
    available_surplus, depart, deposit, genesis_recoverable_principal, genesis_vote_weight,
    has_majority, has_quorum, market_exit, position_weight, refund, settle, Tally,
};
use percolator_meta::pubkey::{Pubkey, TOKEN_PROGRAM};
use percolator_meta::rewards::needs_slot;

fn key(seed: u8) -> Pubkey {
    Pubkey::new([seed; 32])
}

fn pool() -> GenesisConfig {
    GenesisConfig {
        coin_mint: key(1),
        base_mint: key(2),
        token_vault: key(3),
        total_deposited: 0,
        total_withdrawn: 0,
        reward_supply: 100,
        minted_supply: 0,
        finalized: 0,
        kicked: 0,
        total_cast_weight: 0,
        total_voted_principal: 0,
        genesis_market_slab: key(0),
    }
}

fn position(seed: u8) -> GenesisPosition {
    GenesisPosition {
        owner: key(seed),
        amount: 0,
        withdrawn: 0,
        start_slot: 0,
        voted_proposal: key(0),
        voted_weight: 0,
        voted_principal: 0,
    }
}

fn candidate(id: u64) -> GenesisDistribution {
    GenesisDistribution {
        genesis_cfg: key(9),
        destination: key(10),
        proposal_id: id,
        support_weight: 0,
        support_principal: 0,
        executed: 0,
    }
}

#[test]
fn a_vote_weighs_the_doublings_of_its_age() {
    assert_eq!(genesis_vote_weight(1, 0), 0);
    assert_eq!(genesis_vote_weight(1, 1), 0);
    assert_eq!(genesis_vote_weight(1, 2), 1);
    assert_eq!(genesis_vote_weight(1, 3), 1);
    assert_eq!(genesis_vote_weight(1, 4), 2);
    assert_eq!(genesis_vote_weight(5, 1023), 45);
    assert_eq!(genesis_vote_weight(5, 1024), 50);
    assert_eq!(genesis_vote_weight(1, u64::MAX), 63);
    assert_eq!(genesis_vote_weight(0, 1_000_000), 0);
    for age in 1..2000u64 {
        assert_eq!(genesis_vote_weight(3, 2 * age), genesis_vote_weight(3, age) + 3);
        assert_eq!(genesis_vote_weight(1, age), (age as f64).log2().floor() as u64);
        assert!(genesis_vote_weight(3, age) <= genesis_vote_weight(4, age + 1));
    }
}

#[test]
fn a_vote_saturates() {
    assert_eq!(genesis_vote_weight(u64::MAX, 2), u64::MAX);
    assert_eq!(genesis_vote_weight(u64::MAX, 4), u64::MAX);
    assert_eq!(genesis_vote_weight(u64::MAX / 2, 4), u64::MAX - 1);
    assert_eq!(genesis_vote_weight(u64::MAX / 2 + 1, 4), u64::MAX);
}

#[test]
fn a_deposit_starts_the_clock_anew() {
    let (cfg, first) = deposit(&pool(), &position(5), 4, 100).unwrap();
    assert_eq!((cfg.total_deposited, first.amount, first.start_slot), (4, 4, 100));
    assert_eq!(position_weight(&first, 116), 16);
    let (cfg, second) = deposit(&cfg, &first, 1, 110).unwrap();
    assert_eq!((cfg.total_deposited, second.amount, second.start_slot), (5, 5, 110));
    assert_eq!(position_weight(&second, 110), 0);
    assert_eq!(position_weight(&second, 111), 0);
    assert_eq!(position_weight(&second, 112), 5);
    assert_eq!(position_weight(&second, 5), 0);
    assert_eq!(position_weight(&depart(&second), 1_000_000), 0);
    assert!(!depart(&second).has_ballot());
}

#[test]
fn a_deposit_that_overflows_is_refused() {
    let full = GenesisConfig { total_deposited: u64::MAX, ..pool() };
    assert_eq!(deposit(&full, &position(5), 1, 1), Err(ProgramError::ArithmeticOverflow));
    let rich = GenesisPosition { amount: u64::MAX, ..position(5) };
    assert_eq!(deposit(&pool(), &rich, 1, 1), Err(ProgramError::ArithmeticOverflow));
}

#[test]
fn retracting_a_ballot_undoes_it() {
    let (cfg, held) = deposit(&pool(), &position(5), 7, 100).unwrap();
    let before = Tally { cfg, position: held, candidate: candidate(1) };
    let voted = before.back(&key(20), 28).unwrap();
    assert_eq!((voted.cfg.total_cast_weight, voted.cfg.total_voted_principal), (28, 7));
    assert_eq!((voted.candidate.support_weight, voted.candidate.support_principal), (28, 7));
    assert_eq!((voted.position.voted_weight, voted.position.voted_principal), (28, 7));
    assert_eq!(voted.position.voted_proposal, key(20));
    assert!(voted.position.has_ballot());
    assert_eq!(voted.retract(&key(20)), Ok(before));
    assert_eq!(voted.retract(&key(21)), Err(ProgramError::InvalidInstructionData));
    assert_eq!(before.retract(&key(20)), Err(ProgramError::InvalidInstructionData));
}

#[test]
fn a_position_has_one_ballot() {
    let (cfg, held) = deposit(&pool(), &position(5), 7, 100).unwrap();
    let tally = Tally { cfg, position: held, candidate: candidate(1) };
    let voted = tally.back(&key(20), 28).unwrap();
    assert_eq!(voted.back(&key(21), 28), Err(ProgramError::InvalidInstructionData));
    let again = voted.back(&key(20), 35).unwrap();
    assert_eq!((again.cfg.total_cast_weight, again.cfg.total_voted_principal), (35, 7));
    assert_eq!((again.candidate.support_weight, again.candidate.support_principal), (35, 7));
}

#[test]
fn a_tally_that_cannot_hold_a_ballot_is_refused() {
    let (cfg, held) = deposit(&pool(), &position(5), 7, 100).unwrap();
    let tally = Tally { cfg, position: held, candidate: candidate(1) };
    let voted = tally.back(&key(20), 28).unwrap();
    let torn = Tally { candidate: candidate(1), ..voted };
    assert_eq!(torn.retract(&key(20)), Err(ProgramError::InvalidAccountData));
    assert_eq!(torn.back(&key(20), 1), Err(ProgramError::InvalidAccountData));
    let full = Tally { cfg: GenesisConfig { total_cast_weight: u64::MAX, ..cfg }, ..tally };
    assert_eq!(full.back(&key(20), 1), Err(ProgramError::ArithmeticOverflow));
}

#[test]
fn half_decides_nothing() {
    let mut cfg = GenesisConfig { total_deposited: 10, total_voted_principal: 5, ..pool() };
    assert!(!has_quorum(&cfg));
    cfg.total_voted_principal = 6;
    assert!(has_quorum(&cfg));
    cfg.total_deposited = u64::MAX;
    cfg.total_voted_principal = u64::MAX;
    assert!(has_quorum(&cfg));

    cfg.total_cast_weight = 8;
    let mut split = GenesisDistribution { support_weight: 4, ..candidate(1) };
    assert!(!has_majority(&cfg, &split));
    split.support_weight = 5;
    assert!(has_majority(&cfg, &split));
    cfg.total_cast_weight = 0;
    split.support_weight = 0;
    assert!(!has_majority(&cfg, &split));
}

/// The outstanding principal and the totals of the vote are the sums over the positions.
fn assert_balanced(
    cfg: &GenesisConfig,
    positions: &[GenesisPosition],
    candidates: &[(Pubkey, GenesisDistribution)],
) {
    let claims: u64 = positions.iter().map(|p| p.staked()).sum();
    assert_eq!(claims, cfg.outstanding_principal());
    assert_eq!(positions.iter().map(|p| p.voted_weight).sum::<u64>(), cfg.total_cast_weight);
    let voted: u64 = positions.iter().map(|p| p.voted_principal).sum();
    assert_eq!(voted, cfg.total_voted_principal);
    assert!(voted <= cfg.outstanding_principal());
    for (at, c) in candidates {
        let backers = || positions.iter().filter(|p| p.has_ballot() && p.voted_proposal == *at);
        assert_eq!(backers().map(|p| p.voted_weight).sum::<u64>(), c.support_weight);
        assert_eq!(backers().map(|p| p.voted_principal).sum::<u64>(), c.support_principal);
    }
    assert!(candidates.iter().filter(|(_, c)| has_majority(cfg, c)).count() <= 1);
}

#[test]
fn the_books_balance_through_a_genesis() {
    let mut cfg = pool();
    let mut positions = [position(5), position(6), position(7)];
    let mut candidates = [(key(20), candidate(1)), (key(21), candidate(2))];
    for (i, amount, slot) in [(0, 10, 100), (1, 20, 110), (2, 5, 120), (0, 3, 130)] {
        let (c, p) = deposit(&cfg, &positions[i], amount, slot).unwrap();
        (cfg, positions[i]) = (c, p);
        assert_balanced(&cfg, &positions, &candidates);
    }
    for (i, j) in [(0, 0), (1, 1), (1, 1), (2, 0)] {
        let tally = Tally { cfg, position: positions[i], candidate: candidates[j].1 };
        let weight = position_weight(&positions[i], 300);
        let after = tally.back(&candidates[j].0, weight).unwrap();
        (cfg, positions[i], candidates[j].1) = (after.cfg, after.position, after.candidate);
        assert_balanced(&cfg, &positions, &candidates);
    }
    let tally = Tally { cfg, position: positions[2], candidate: candidates[0].1 };
    let after = tally.retract(&key(20)).unwrap();
    (cfg, positions[2], candidates[0].1) = (after.cfg, after.position, after.candidate);
    assert_balanced(&cfg, &positions, &candidates);
    let left = refund(&cfg, &positions[2], 38);
    assert_eq!(left.paid, 5);
    (cfg, positions[2]) = (left.cfg, left.position);
    assert_balanced(&cfg, &positions, &candidates);

    let tally = Tally { cfg, position: positions[0], candidate: candidates[0].1 };
    let after = tally.retract(&key(20)).unwrap();
    (cfg, positions[0], candidates[0].1) = (after.cfg, after.position, after.candidate);
    let left = market_exit(&cfg, &positions[0], 6).unwrap();
    assert_eq!(left.paid, 6);
    assert_eq!(left.position.staked(), 7);
    (cfg, positions[0]) = (left.cfg, left.position);
    assert_balanced(&cfg, &positions, &candidates);
}

#[test]
fn a_refund_pays_the_claim_out_of_the_vault() {
    let (cfg, held) = deposit(&pool(), &position(5), 7, 100).unwrap();
    let full = refund(&cfg, &held, 50);
    assert_eq!((full.paid, full.cfg.total_deposited, full.position.amount), (7, 0, 0));
    assert_eq!(full.position.start_slot, 0);
    let short = refund(&cfg, &held, 3);
    assert_eq!((short.paid, short.cfg.total_deposited, short.position.amount), (3, 4, 4));
}

#[test]
fn a_market_exit_pays_no_more_than_the_claim() {
    let (cfg, held) = deposit(&pool(), &position(5), 7, 100).unwrap();
    let all = market_exit(&cfg, &held, 9).unwrap();
    assert_eq!((all.paid, all.cfg.total_withdrawn, all.position.withdrawn), (7, 7, 7));
    let none = market_exit(&cfg, &held, 0).unwrap();
    assert_eq!((none.paid, none.position.staked(), none.position.start_slot), (0, 7, 0));
    let full = GenesisConfig { total_withdrawn: u64::MAX, ..cfg };
    assert_eq!(market_exit(&full, &held, 1), Err(ProgramError::ArithmeticOverflow));
}

#[test]
fn the_order_of_exits_costs_nobody() {
    let claims = [2u64, 3, 7, 8];
    for vault in 0..=25u64 {
        let mut fair: Vec<u64> = vec![];
        for claim in claims {
            fair.push(genesis_recoverable_principal(claim, vault, 20).unwrap());
        }
        for start in 0..4 {
            let mut cfg = GenesisConfig { total_deposited: 20, ..pool() };
            let mut left = vault;
            for step in 0..4 {
                let i = (start + step) % 4;
                let held = GenesisPosition { amount: claims[i], ..position(5) };
                let exit = settle(&cfg, &held, left).unwrap();
                assert!(exit.paid >= fair[i] && exit.paid <= claims[i] && exit.paid <= left);
                assert_eq!(exit.position.staked(), 0);
                cfg = exit.cfg;
                left -= exit.paid;
            }
            assert_eq!(cfg.outstanding_principal(), 0);
        }
    }
}

#[test]
fn a_settled_claim_pays_nothing_more() {
    let cfg = GenesisConfig { total_deposited: 4, ..pool() };
    let held = GenesisPosition { amount: 2, start_slot: 9, ..position(5) };
    let exit = settle(&cfg, &held, 2).unwrap();
    assert_eq!((exit.paid, exit.position.withdrawn, exit.cfg.total_withdrawn), (1, 2, 2));
    let again = settle(&exit.cfg, &exit.position, 1).unwrap();
    assert_eq!((again.paid, again.cfg), (0, exit.cfg));
    let nothing = GenesisConfig { total_deposited: 0, ..cfg };
    assert_eq!(settle(&nothing, &held, 2), Err(ProgramError::InvalidAccountData));
}

#[test]
fn only_what_exceeds_the_principal_is_surplus() {
    let cfg = GenesisConfig { total_deposited: 10, total_withdrawn: 4, ..pool() };
    assert_eq!(available_surplus(&cfg, 9), 3);
    assert_eq!(available_surplus(&cfg, 6), 0);
    assert_eq!(available_surplus(&cfg, 0), 0);
}

#[test]
fn shares_of_large_pools_do_not_overflow() {
    let max = u64::MAX;
    assert_eq!(genesis_recoverable_principal(max, max - 1, max), Ok(max - 1));
    assert_eq!(genesis_recoverable_principal(max - 1, max / 2, max), Ok(max / 2 - 1));
    assert_eq!(genesis_recoverable_principal(0, 0, 0), Ok(0));
}

#[test]
fn the_quorum_follows_whoever_stays() {
    let (cfg, voter) = deposit(&pool(), &position(5), 40, 100).unwrap();
    let (cfg, leaver) = deposit(&cfg, &position(6), 60, 100).unwrap();
    let tally = Tally { cfg, position: voter, candidate: candidate(1) };
    let cfg = tally.back(&key(20), position_weight(&voter, 116)).unwrap().cfg;
    assert_eq!((cfg.total_voted_principal, cfg.outstanding_principal()), (40, 100));
    assert!(!has_quorum(&cfg));
    let exit = market_exit(&cfg, &leaver, 20).unwrap();
    assert_eq!((exit.paid, exit.cfg.outstanding_principal()), (20, 80));
    assert!(!has_quorum(&exit.cfg));
    let exit = market_exit(&exit.cfg, &exit.position, 1).unwrap();
    assert_eq!((exit.paid, exit.cfg.outstanding_principal()), (1, 79));
    assert!(has_quorum(&exit.cfg));
    let exit = refund(&cfg, &leaver, 100);
    assert_eq!((exit.paid, exit.cfg.outstanding_principal()), (60, 40));
    assert!(has_quorum(&exit.cfg));
}

#[test]
fn nothing_is_asked_for_to_mint_nothing() {
    let account = |key: Pubkey| Account {
        key,
        owner: key,
        lamports: 1,
        is_signer: false,
        is_writable: true,
        executable: false,
        data: Vec::new(),
    };
    let token = Pubkey::new(TOKEN_PROGRAM);
    let accounts = vec![account(key(1)), account(key(2)), account(key(3)), account(token)];
    let mint = |amount: u64, program: usize| {
        mint_coin(no_effects(), &accounts, 0, 1, 2, program, amount, Vec::new())
    };
    assert_eq!(mint(0, 3).unwrap(), Vec::new());
    assert_eq!(mint(5, 2), Err(ProgramError::IncorrectProgramId));
    let effects = mint(5, 3).unwrap();
    assert_eq!(effects.len(), 1);
    match &effects[0] {
        Effect::Invoke { instruction, accounts, signer } => {
            assert_eq!(instruction.program_id, token);
            assert_eq!(instruction.data, vec![7, 5, 0, 0, 0, 0, 0, 0, 0]);
            assert_eq!(accounts, &vec![0, 1, 2, 3]);
            assert!(signer.is_empty());
        }
        _ => panic!("a call was expected"),
    }
}

#[test]
fn the_order_of_exits_moves_one_unit_at_most() {
    for outstanding in 1..=12u64 {
        for first in 0..outstanding {
            for second in 1..=(outstanding - first) {
                for vault in 0..=(outstanding + 1) {
                    let paid = genesis_recoverable_principal(first, vault, outstanding).unwrap();
                    let before = genesis_recoverable_principal(second, vault, outstanding).unwrap();
                    let after = genesis_recoverable_principal(
                        second,
                        vault - paid,
                        outstanding - first,
                    )
                    .unwrap();
                    assert!(before <= after && after <= before + 1);
                    if vault >= outstanding || first * vault % outstanding == 0 {
                        assert_eq!(before, after);
                    }
                }
            }
        }
    }
    // One unit for two claims goes to whoever comes last.
    assert_eq!(genesis_recoverable_principal(1, 1, 2).unwrap(), 0);
    assert_eq!(genesis_recoverable_principal(1, 1, 1).unwrap(), 1);
}

#[test]
fn the_supply_stays_what_it_was() {
    let half = GenesisConfig { total_deposited: 9, minted_supply: 50, ..pool() };
    let held = GenesisPosition { amount: 9, start_slot: 1, ..position(5) };
    let tally = Tally { cfg: half, position: held, candidate: candidate(1) };
    let backed = tally.back(&key(20), 9).unwrap();
    let pools = [
        deposit(&half, &held, 1, 2).unwrap().0,
        refund(&half, &held, 4).cfg,
        market_exit(&half, &held, 4).unwrap().cfg,
        settle(&half, &held, 4).unwrap().cfg,
        backed.cfg,
        backed.retract(&key(20)).unwrap().cfg,
    ];
    for cfg in pools {
        assert_eq!((cfg.minted_supply, cfg.reward_supply), (50, 100));
    }
}

#[test]
fn few_instructions_read_the_slot() {
    for tag in 0..=255u8 {
        assert_eq!(needs_slot(&[tag, 1, 2]), matches!(tag, 3 | 21 | 22 | 30));
    }
    assert!(!needs_slot(&[]));
}
