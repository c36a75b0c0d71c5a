use anchor_programs::accounts::{Account, Mint, TokenAccount};
use anchor_programs::amm::{
    deposit, initialize, AmmError, Config, DepositEvent, Deposite, Initialize, InitializeBumps,
    InitializeEvent, XYAmounts,
};
use anchor_programs::cpi::{Instruction, Invocation};
use anchor_programs::pubkey::Pubkey;

fn key(b: u8) -> Pubkey {
    Pubkey::new_from_array([b; 32])
}

fn pool_config(seed: u64, locked: bool) -> Config {
    Config {
        seed,
        authority: None,
        mint_x: key(2),
        mint_y: key(3),
        fee: 30,
        locked,
        config_bump: 254,
        lp_bump: 253,
    }
}

fn pool(locked: bool, supply: u64, vault_x: u64) -> Deposite {
    Deposite {
        user: key(1),
        mint_x: key(2),
        mint_y: key(3),
        mint_lp: Mint { key: key(4), supply },
        config: Account { key: key(5), data: pool_config(0x0102, locked) },
        vault_x: TokenAccount { key: key(6), amount: vault_x },
        vault_y: TokenAccount { key: key(7), amount: 40 },
        user_x: TokenAccount { key: key(8), amount: 1_000 },
        user_y: TokenAccount { key: key(9), amount: 1_000 },
        user_lp: key(10),
    }
}

fn config_seeds() -> Vec<Vec<u8>> {
    vec![b"config".to_vec(), vec![2, 1, 0, 0, 0, 0, 0, 0], vec![254]]
}

#[test]
fn initialize_records_open_pool() {
    let mut accounts = Initialize {
        initializer: key(1),
        mint_x: key(2),
        mint_y: key(3),
        mint_lp: key(4),
        config: Account { key: key(5), data: pool_config(0, true) },
        vault_x: key(6),
        vault_y: key(7),
    };
    let event = initialize(&mut accounts, 42, 30, Some(key(11)), InitializeBumps { config: 250, mint_lp: 249 })
        .unwrap();
    assert_eq!(
        accounts.config.data,
        Config {
            seed: 42,
            authority: Some(key(11)),
            mint_x: key(2),
            mint_y: key(3),
            fee: 30,
            locked: false,
            config_bump: 250,
            lp_bump: 249,
        }
    );
    assert_eq!(
        event,
        InitializeEvent {
            initializer: key(1),
            mint_x: key(2),
            mint_y: key(3),
            mint_lp: key(4),
            vault_x: key(6),
            vault_y: key(7),
            config: key(5),
            fee: 30,
        }
    );
}

#[test]
fn deposit_into_locked_pool_fails() {
    let p = pool(true, 10, 10);
    assert!(!p.needs_curve(5));
    assert_eq!(p.deposit(5, 100, 100, None), Err(AmmError::PoolLocked));
}

#[test]
fn deposit_of_nothing_fails() {
    let p = pool(false, 10, 10);
    assert!(!p.needs_curve(0));
    assert_eq!(p.deposit(0, 100, 100, None), Err(AmmError::InvalidAmount));
}

#[test]
fn first_deposit_takes_maxima() {
    let p = pool(false, 0, 0);
    assert!(!p.needs_curve(50));
    let (calls, event) = deposit(&p, 50, 30, 20, None).unwrap();
    assert_eq!(
        calls,
        vec![
            Invocation {
                instruction: Instruction::TokenTransfer { from: key(8), to: key(6), authority: key(1), amount: 30 },
                signer_seeds: vec![],
            },
            Invocation {
                instruction: Instruction::TokenTransfer { from: key(9), to: key(7), authority: key(1), amount: 20 },
                signer_seeds: vec![],
            },
            Invocation {
                instruction: Instruction::MintTo { mint: key(4), to: key(10), authority: key(5), amount: 50 },
                signer_seeds: config_seeds(),
            },
        ]
    );
    assert_eq!(
        event,
        DepositEvent {
            user: key(1),
            mint_x: key(2),
            mint_y: key(3),
            mint_lp: key(4),
            vault_x: key(6),
            vault_y: key(7),
            user_lp: key(10),
            config: key(5),
            max_x: 30,
            max_y: 20,
            amount: 50,
        }
    );
}

#[test]
fn later_deposit_takes_curve_amounts() {
    let p = pool(false, 100, 10);
    assert!(p.needs_curve(50));
    let calls = p.deposit(50, 8, 25, Some(XYAmounts { x: 5, y: 20 })).unwrap();
    assert_eq!(
        calls[0].instruction,
        Instruction::TokenTransfer { from: key(8), to: key(6), authority: key(1), amount: 5 }
    );
    assert_eq!(
        calls[1].instruction,
        Instruction::TokenTransfer { from: key(9), to: key(7), authority: key(1), amount: 20 }
    );
    assert_eq!(
        calls[2].instruction,
        Instruction::MintTo { mint: key(4), to: key(10), authority: key(5), amount: 50 }
    );
}

#[test]
fn deposit_over_slippage_limit_fails() {
    let p = pool(false, 100, 10);
    assert_eq!(p.deposit(50, 4, 25, Some(XYAmounts { x: 5, y: 20 })), Err(AmmError::SlippageExceeded));
    assert_eq!(p.deposit(50, 5, 19, Some(XYAmounts { x: 5, y: 20 })), Err(AmmError::SlippageExceeded));
    assert!(p.deposit(50, 5, 20, Some(XYAmounts { x: 5, y: 20 })).is_ok());
}

#[test]
fn deposit_with_empty_x_vault_and_no_supply_is_first() {
    // the pool counts as new when no liquidity tokens are out and the x vault is empty
    let p = pool(false, 0, 0);
    assert_eq!(p.vault_y.amount, 40);
    assert!(!p.needs_curve(1));
    assert!(p.deposit(1, 1, 1, None).is_ok());
    assert!(pool(false, 0, 1).needs_curve(1));
    assert!(pool(false, 1, 0).needs_curve(1));
}

#[test]
fn single_token_deposit_and_lp_mint() {
    let p = pool(false, 0, 0);
    assert_eq!(
        p.deposite_tokens(false, 9).unwrap().instruction,
        Instruction::TokenTransfer { from: key(9), to: key(7), authority: key(1), amount: 9 }
    );
    assert_eq!(p.mint_lp_tokens(3).unwrap().signer_seeds, config_seeds());
}
