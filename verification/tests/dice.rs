use anchor_programs::accounts::{Account, SystemAccount};
use anchor_programs::cpi::{Instruction, Invocation};
use anchor_programs::dice::{
    payout, roll_from_randomness, Bet, BetErrorCode, PlaceBet, PlaceBetBumps, Randomness,
    ResloveBet, ResloveBetBumps,
};
use anchor_programs::pubkey::Pubkey;

fn key(b: u8) -> Pubkey {
    Pubkey::new_from_array([b; 32])
}

fn empty_bet() -> Bet {
    Bet {
        amount: 0,
        player: Pubkey::default(),
        slot: 0,
        seed: 0,
        roll: 0,
        bump: 0,
        randomness_account: Pubkey::default(),
        commit_slot: 0,
        is_resloved: false,
    }
}

fn place_bet_accounts(bet: Bet) -> PlaceBet {
    PlaceBet {
        player: key(1),
        house: key(2),
        vault: SystemAccount { key: key(3), lamports: 0 },
        bet: Account { key: key(4), data: bet },
        randomness_account: key(5),
    }
}

fn resolve_accounts(bet: Bet, vault_lamports: u64) -> ResloveBet {
    ResloveBet {
        house: key(2),
        player: key(1),
        vault: SystemAccount { key: key(3), lamports: vault_lamports },
        bet: Account { key: key(4), data: bet },
        randomness_account: key(5),
    }
}

fn open_bet(amount: u64, roll: u8) -> Bet {
    Bet {
        amount,
        player: key(1),
        slot: 10,
        seed: 7,
        roll,
        bump: 254,
        randomness_account: key(5),
        commit_slot: 10,
        is_resloved: false,
    }
}

#[test]
fn create_bet_records_bet_and_moves_stake() {
    let mut accounts = place_bet_accounts(empty_bet());
    let bumps = PlaceBetBumps { vault: 255, bet: 253 };
    let inv = accounts.create_bet(500, 4, 99, key(9), &bumps, 1234).unwrap();
    assert_eq!(
        inv,
        Invocation {
            instruction: Instruction::SystemTransfer { from: key(1), to: key(3), lamports: 500 },
            signer_seeds: vec![],
        }
    );
    assert_eq!(
        accounts.bet.data,
        Bet {
            amount: 500,
            player: key(1),
            slot: 1234,
            seed: 99,
            roll: 4,
            bump: 253,
            randomness_account: key(9),
            commit_slot: 1234,
            is_resloved: false,
        }
    );
}

#[test]
fn create_bet_refuses_an_open_bet() {
    let mut accounts = place_bet_accounts(open_bet(100, 3));
    let bumps = PlaceBetBumps { vault: 255, bet: 253 };
    assert_eq!(
        accounts.create_bet(500, 4, 99, key(9), &bumps, 1234),
        Err(BetErrorCode::BetAlreadyPlaced)
    );
    assert_eq!(accounts.bet.data, open_bet(100, 3));
}

#[test]
fn create_bet_over_a_resolved_bet() {
    let mut resolved = open_bet(100, 3);
    resolved.is_resloved = true;
    let mut accounts = place_bet_accounts(resolved);
    let bumps = PlaceBetBumps { vault: 255, bet: 1 };
    assert!(accounts.create_bet(7, 2, 1, key(9), &bumps, 50).is_ok());
    assert_eq!(accounts.bet.data.amount, 7);
    assert!(!accounts.bet.data.is_resloved);
}

#[test]
fn create_bet_with_default_bet_address() {
    let mut accounts = place_bet_accounts(open_bet(100, 3));
    accounts.bet.key = Pubkey::default();
    let bumps = PlaceBetBumps { vault: 255, bet: 1 };
    assert!(accounts.create_bet(7, 2, 1, key(9), &bumps, 50).is_ok());
}

#[test]
fn roll_of_zero_value_is_six() {
    // keccak256 of 32 zero bytes starts with 0x29 = 41, and 41 % 6 + 1 = 6
    assert_eq!(roll_from_randomness(&[0u8; 32]), 6);
}

#[test]
fn rolls_are_die_faces() {
    for b in 0..=255u8 {
        let r = roll_from_randomness(&[b; 32]);
        assert!((1..=6).contains(&r));
    }
}

#[test]
fn payout_returns_the_stake() {
    assert_eq!(payout(1000), 1000);
    assert_eq!(payout(0), 0);
    assert_eq!(payout(u64::MAX / 100), u64::MAX / 100);
}

#[test]
fn resolve_winning_bet_pays_from_vault() {
    let mut accounts = resolve_accounts(open_bet(1000, 6), 5000);
    let bumps = ResloveBetBumps { vault: 251 };
    let paid = accounts.reslove_bet(&bumps, Randomness::Revealed([0u8; 32])).unwrap().unwrap();
    let vault_seed = b"vault".to_vec();
    assert_eq!(
        paid,
        Invocation {
            instruction: Instruction::SystemTransfer { from: key(3), to: key(1), lamports: 1000 },
            signer_seeds: vec![vault_seed, vec![2u8; 32], vec![251]],
        }
    );
    assert!(accounts.bet.data.is_resloved);
}

#[test]
fn resolve_losing_bet_pays_nothing() {
    let mut accounts = resolve_accounts(open_bet(1000, 1), 5000);
    let bumps = ResloveBetBumps { vault: 251 };
    assert_eq!(accounts.reslove_bet(&bumps, Randomness::Revealed([0u8; 32])), Ok(None));
    assert!(accounts.bet.data.is_resloved);
}

#[test]
fn resolve_refuses_when_house_cannot_pay() {
    let mut accounts = resolve_accounts(open_bet(1000, 6), 999);
    let bumps = ResloveBetBumps { vault: 251 };
    assert_eq!(
        accounts.reslove_bet(&bumps, Randomness::Revealed([0u8; 32])),
        Err(BetErrorCode::InsufficientFunds)
    );
    assert!(!accounts.bet.data.is_resloved);
}

#[test]
fn resolve_pays_when_vault_holds_exactly_the_payout() {
    let mut accounts = resolve_accounts(open_bet(1000, 6), 1000);
    let bumps = ResloveBetBumps { vault: 251 };
    assert!(accounts.reslove_bet(&bumps, Randomness::Revealed([0u8; 32])).unwrap().is_some());
}

#[test]
fn resolve_twice_fails() {
    let mut accounts = resolve_accounts(open_bet(1000, 1), 5000);
    let bumps = ResloveBetBumps { vault: 251 };
    assert!(accounts.reslove_bet(&bumps, Randomness::Revealed([0u8; 32])).is_ok());
    assert_eq!(
        accounts.reslove_bet(&bumps, Randomness::Revealed([0u8; 32])),
        Err(BetErrorCode::BetAlreadyResloved)
    );
}

#[test]
fn resolve_without_randomness_fails() {
    let bumps = ResloveBetBumps { vault: 251 };
    let mut accounts = resolve_accounts(open_bet(1000, 6), 5000);
    assert_eq!(
        accounts.reslove_bet(&bumps, Randomness::Unparsed),
        Err(BetErrorCode::FailedToParseRandomness)
    );
    assert_eq!(
        accounts.reslove_bet(&bumps, Randomness::Unrevealed),
        Err(BetErrorCode::RandomnessNotResloved)
    );
    assert!(!accounts.bet.data.is_resloved);
}

#[test]
fn resolve_checked_stops_before_overflow() {
    let bumps = ResloveBetBumps { vault: 251 };
    let mut accounts = resolve_accounts(open_bet(u64::MAX / 100 + 1, 6), u64::MAX);
    assert_eq!(accounts.reslove_bet_checked(&bumps, Randomness::Revealed([0u8; 32])), None);
    assert!(!accounts.bet.data.is_resloved);
    let mut losing = resolve_accounts(open_bet(u64::MAX, 1), 0);
    assert_eq!(
        losing.reslove_bet_checked(&bumps, Randomness::Revealed([0u8; 32])),
        Some(Ok(None))
    );
}

#[test]
fn bet_error_messages() {
    assert_eq!(BetErrorCode::InsufficientFunds.msg(), "Insuffient funds with the house");
    assert_eq!(BetErrorCode::BetAlreadyPlaced.msg(), "Bet already places");
}
