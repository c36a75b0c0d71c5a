use vstd::prelude::*;
use crate::accounts::{Account, Mint, TokenAccount};
use crate::cpi::{Instruction, Invocation, le_bytes, seeds_view, single_byte, u64_le_bytes};
use crate::pubkey::Pubkey;

verus! {

/// The precision that the constant-product curve works at when it sizes a deposit.
pub const CURVE_PRECISION: u32 = 6;

/// A pool's settings: its pair of mints, its fee, and whether trading is stopped.
#[derive(Clone, Copy, Debug, PartialEq, Eq)]
pub struct Config {
    /// Tells apart the pools of one pair.
    pub seed: u64,
    /// No authority: the pool is public.
    pub authority: Option<Pubkey>,
    pub mint_x: Pubkey,
    pub mint_y: Pubkey,
    /// The pool's fee, in basis points.
    pub fee: u16,
    /// While true, no deposits are taken.
    pub locked: bool,
    pub config_bump: u8,
    pub lp_bump: u8,
}

#[derive(Clone, Copy, Debug, PartialEq, Eq, Structural)]
pub enum AmmError {
    PoolLocked,
    InvalidAmount,
    SlippageExceeded,
}

// ---------------------------------------------------------------- set-up

/// The bumps of the program addresses that creating a pool uses.
#[derive(Clone, Copy, Debug)]
pub struct InitializeBumps {
    pub config: u8,
    pub mint_lp: u8,
}

/// What creating a pool reads and writes.
pub struct Initialize {
    pub initializer: Pubkey,
    pub mint_x: Pubkey,
    pub mint_y: Pubkey,
    pub mint_lp: Pubkey,
    pub config: Account<Config>,
    pub vault_x: Pubkey,
    pub vault_y: Pubkey,
}

impl Initialize {
    /// The pool's settings as creating it records them: unlocked, for the two mints.
    pub open spec fn new_config(
        &self,
        seed: u64,
        fee: u16,
        authority: Option<Pubkey>,
        bumps: InitializeBumps,
    ) -> Config {
        Config {
            seed,
            authority,
            mint_x: self.mint_x,
            mint_y: self.mint_y,
            fee,
            locked: false,
            config_bump: bumps.config,
            lp_bump: bumps.mint_lp,
        }
    }

    /// Records the pool's settings in its config account.
    pub fn init(
        &mut self,
        seed: u64,
        fee: u16,
        authority: Option<Pubkey>,
        bumps: InitializeBumps,
    ) -> (r: Result<(), AmmError>)
        ensures
            r is Ok,
            final(self).config.data == old(self).new_config(seed, fee, authority, bumps),
            final(self).config.data.seed == seed,
            final(self).config.data.authority == authority,
            final(self).config.data.mint_x == old(self).mint_x,
            final(self).config.data.mint_y == old(self).mint_y,
            final(self).config.data.fee == fee,
            !final(self).config.data.locked,
            final(self).config.data.config_bump == bumps.config,
            final(self).config.data.lp_bump == bumps.mint_lp,
            *final(self) == (Initialize {
                config: Account { key: old(self).config.key, data: final(self).config.data },
                ..*old(self)
            }),
    {
        self.config.data = Config {
            seed,
            authority,
            mint_x: self.mint_x,
            mint_y: self.mint_y,
            fee,
            locked: false,
            config_bump: bumps.config,
            lp_bump: bumps.mint_lp,
        };
        Ok(())
    }
}

// ---------------------------------------------------------------- depositing

/// The amounts of each token that the constant-product curve asks for a deposit.
#[derive(Clone, Copy, Debug, PartialEq, Eq, Structural)]
pub struct XYAmounts {
    pub x: u64,
    pub y: u64,
}

/// The bytes of `b"config"`.
pub open spec fn config_tag() -> Seq<u8> {
    seq![99u8, 111u8, 110u8, 102u8, 105u8, 103u8]
}

/// The seeds of the pool's config address, with which it signs as mint authority.
pub open spec fn config_seeds(config: Config) -> Seq<Seq<u8>> {
    seq![config_tag(), le_bytes(config.seed as nat, 8), seq![config.config_bump]]
}

/// What depositing into a pool reads and writes.
pub struct Deposite {
    pub user: Pubkey,
    pub mint_x: Pubkey,
    pub mint_y: Pubkey,
    pub mint_lp: Mint,
    pub config: Account<Config>,
    pub vault_x: TokenAccount,
    pub vault_y: TokenAccount,
    pub user_x: TokenAccount,
    pub user_y: TokenAccount,
    pub user_lp: Pubkey,
}

impl Deposite {
    /// Whether the deposit is the pool's first: no liquidity tokens are out and the
    /// x vault is empty, so the depositor sets the amounts.
    pub open spec fn is_first_deposit(&self) -> bool {
        self.mint_lp.supply == 0 && self.vault_x.amount == 0
    }

    /// Whether a deposit for `amount` liquidity tokens asks the curve for its amounts.
    pub open spec fn asks_curve(&self, amount: u64) -> bool {
        !self.config.data.locked && amount != 0 && !self.is_first_deposit()
    }

    /// The amounts that a deposit takes: the caller's maxima on a first deposit, else
    /// what the curve asked for.
    pub open spec fn deposit_amounts(&self, max_x: u64, max_y: u64, curve: Option<XYAmounts>) -> (
        u64,
        u64,
    ) {
        if self.is_first_deposit() {
            (max_x, max_y)
        } else {
            (curve->Some_0.x, curve->Some_0.y)
        }
    }

    /// The call that moves `amount` tokens from the user into the pool's vault (of the
    /// x token where `is_x`, else of the y token).
    pub open spec fn token_deposit(&self, is_x: bool, amount: u64) -> Instruction {
        if is_x {
            Instruction::TokenTransfer {
                from: self.user_x.key,
                to: self.vault_x.key,
                authority: self.user,
                amount,
            }
        } else {
            Instruction::TokenTransfer {
                from: self.user_y.key,
                to: self.vault_y.key,
                authority: self.user,
                amount,
            }
        }
    }

    /// The call that mints `amount` liquidity tokens to the user, the pool signing.
    pub open spec fn lp_mint(&self, amount: u64) -> Instruction {
        Instruction::MintTo {
            mint: self.mint_lp.key,
            to: self.user_lp,
            authority: self.config.key,
            amount,
        }
    }

    /// Whether a deposit for `amount` liquidity tokens asks the curve for its amounts:
    /// the pool is open, the amount is not zero, and the deposit is not the first.
    pub fn needs_curve(&self, amount: u64) -> (r: bool)
        ensures
            r == self.asks_curve(amount),
    {
        !self.config.data.locked && amount != 0 && !(self.mint_lp.supply == 0
            && self.vault_x.amount == 0)
    }

    /// Deposits into the pool for `amount` liquidity tokens, taking at most `max_x`
    /// and `max_y` of the two tokens. `curve` is what the constant-product curve gave
    /// for the vaults, the supply and `amount`, where the deposit asks for it.
    pub fn deposit(&self, amount: u64, max_x: u64, max_y: u64, curve: Option<XYAmounts>) -> (r:
        Result<Vec<Invocation>, AmmError>)
        requires
            self.asks_curve(amount) ==> curve is Some,
        ensures
            self.config.data.locked <==> r == Err::<Vec<Invocation>, AmmError>(
                AmmError::PoolLocked,
            ),
            !self.config.data.locked && amount == 0 <==> r == Err::<Vec<Invocation>, AmmError>(
                AmmError::InvalidAmount,
            ),
            ({
                let (x, y) = self.deposit_amounts(max_x, max_y, curve);
                &&& !self.config.data.locked && amount != 0 && !(x <= max_x && y <= max_y) <==> r
                    == Err::<Vec<Invocation>, AmmError>(AmmError::SlippageExceeded)
                &&& !self.config.data.locked && amount != 0 && x <= max_x && y <= max_y ==> r is Ok
                &&& r matches Ok(calls) ==> {
                    &&& x <= max_x
                    &&& y <= max_y
                    &&& calls@.len() == 3
                    &&& calls@[0].is(self.token_deposit(true, x), seq![])
                    &&& calls@[0].instruction == (Instruction::TokenTransfer {
                        from: self.user_x.key,
                        to: self.vault_x.key,
                        authority: self.user,
                        amount: if self.mint_lp.supply == 0 && self.vault_x.amount == 0 {
                            max_x
                        } else {
                            curve->Some_0.x
                        },
                    })
                    &&& calls@[1].instruction == (Instruction::TokenTransfer {
                        from: self.user_y.key,
                        to: self.vault_y.key,
                        authority: self.user,
                        amount: if self.mint_lp.supply == 0 && self.vault_x.amount == 0 {
                            max_y
                        } else {
                            curve->Some_0.y
                        },
                    })
                    &&& calls@[1].is(self.token_deposit(false, y), seq![])
                    &&& calls@[2].is(self.lp_mint(amount), config_seeds(self.config.data))
                }
            }),
    {
        if self.config.data.locked {
            return Err(AmmError::PoolLocked);
        }
        if amount == 0 {
            return Err(AmmError::InvalidAmount);
        }
        let (x, y) = if self.mint_lp.supply == 0 && self.vault_x.amount == 0 {
            (max_x, max_y)
        } else {
            match curve {
                Some(amounts) => (amounts.x, amounts.y),
                None => (0, 0),
            }
        };
        if !(x <= max_x && y <= max_y) {
            return Err(AmmError::SlippageExceeded);
        }
        let deposit_x = match self.deposite_tokens(true, x) {
            Ok(inv) => inv,
            Err(e) => {
                return Err(e);
            },
        };
        let deposit_y = match self.deposite_tokens(false, y) {
            Ok(inv) => inv,
            Err(e) => {
                return Err(e);
            },
        };
        let mint = match self.mint_lp_tokens(amount) {
            Ok(inv) => inv,
            Err(e) => {
                return Err(e);
            },
        };
        let mut calls: Vec<Invocation> = Vec::new();
        calls.push(deposit_x);
        calls.push(deposit_y);
        calls.push(mint);
        Ok(calls)
    }

    /// The call that moves `amount` tokens from the user into the pool: x tokens where
    /// `is_x`, else y tokens.
    pub fn deposite_tokens(&self, is_x: bool, amount: u64) -> (r: Result<Invocation, AmmError>)
        ensures
            r matches Ok(inv) && inv.is(self.token_deposit(is_x, amount), seq![]),
    {
        let (from, to) = if is_x {
            (self.user_x.key, self.vault_x.key)
        } else {
            (self.user_y.key, self.vault_y.key)
        };
        Ok(Invocation::unsigned(Instruction::TokenTransfer { from, to, authority: self.user, amount }))
    }

    /// The call that mints `amount` liquidity tokens to the user, signed by the pool's
    /// config address.
    pub fn mint_lp_tokens(&self, amount: u64) -> (r: Result<Invocation, AmmError>)
        ensures
            r matches Ok(inv) && inv.is(self.lp_mint(amount), config_seeds(self.config.data)),
    {
        let mut seeds: Vec<Vec<u8>> = Vec::new();
        let tag: Vec<u8> = vec![99u8, 111u8, 110u8, 102u8, 105u8, 103u8];
        seeds.push(tag);
        seeds.push(u64_le_bytes(self.config.data.seed));
        seeds.push(single_byte(self.config.data.config_bump));
        assert(seeds_view(seeds@) =~= config_seeds(self.config.data));
        Ok(
            Invocation::signed(
                Instruction::MintTo {
                    mint: self.mint_lp.key,
                    to: self.user_lp,
                    authority: self.config.key,
                    amount,
                },
                seeds,
            ),
        )
    }
}

// ---------------------------------------------------------------- laws

/// Creating a pool records what it was given: the seed, the authority as passed
/// (none stays none: a public pool), the two mints of the accounts, the fee and the
/// bumps; the pool starts unlocked.
pub proof fn lemma_init_records_arguments(
    created: Initialize,
    seed: u64,
    fee: u16,
    authority: Option<Pubkey>,
    bumps: InitializeBumps,
)
    ensures
        created.new_config(seed, fee, authority, bumps).seed == seed,
        created.new_config(seed, fee, authority, bumps).authority == authority,
        created.new_config(seed, fee, authority, bumps).mint_x == created.mint_x,
        created.new_config(seed, fee, authority, bumps).mint_y == created.mint_y,
        created.new_config(seed, fee, authority, bumps).fee == fee,
        !created.new_config(seed, fee, authority, bumps).locked,
        created.new_config(seed, fee, authority, bumps).config_bump == bumps.config,
        created.new_config(seed, fee, authority, bumps).lp_bump == bumps.mint_lp,
{
}

/// A deposit takes the depositor's maxima only into a new pool, one with no
/// liquidity tokens out and an empty x vault; into any other pool, in particular
/// one with liquidity tokens out, it takes the curve's amounts.
pub proof fn lemma_deposit_takes_curve_amounts_unless_new(
    pool: Deposite,
    amount: u64,
    max_x: u64,
    max_y: u64,
    curve: Option<XYAmounts>,
)
    ensures
        pool.mint_lp.supply == 0 && pool.vault_x.amount == 0 ==> pool.deposit_amounts(
            max_x,
            max_y,
            curve,
        ) == (max_x, max_y),
        pool.mint_lp.supply != 0 || pool.vault_x.amount != 0 ==> pool.deposit_amounts(
            max_x,
            max_y,
            curve,
        ) == (curve->Some_0.x, curve->Some_0.y),
        !pool.config.data.locked && amount != 0 ==> (pool.asks_curve(amount) <==> (
        pool.mint_lp.supply != 0 || pool.vault_x.amount != 0)),
{
}

/// A pool that was just created is open: its first deposit of a non-zero amount
/// takes exactly the maxima given, so it passes the slippage check and goes through.
pub proof fn lemma_new_pool_takes_first_deposit(
    created: Initialize,
    seed: u64,
    fee: u16,
    authority: Option<Pubkey>,
    bumps: InitializeBumps,
    pool: Deposite,
    amount: u64,
    max_x: u64,
    max_y: u64,
    curve: Option<XYAmounts>,
)
    requires
        pool.config.data == created.new_config(seed, fee, authority, bumps),
        pool.is_first_deposit(),
        amount != 0,
    ensures
        !pool.config.data.locked,
        !pool.asks_curve(amount),
        pool.deposit_amounts(max_x, max_y, curve) == (max_x, max_y),
{
}

// ---------------------------------------------------------------- the program's instructions

/// Logged when a pool is created.
#[derive(Clone, Copy, Debug, PartialEq, Eq)]
pub struct InitializeEvent {
    pub initializer: Pubkey,
    pub mint_x: Pubkey,
    pub mint_y: Pubkey,
    pub mint_lp: Pubkey,
    pub vault_x: Pubkey,
    pub vault_y: Pubkey,
    pub config: Pubkey,
    pub fee: u16,
}

/// Logged when liquidity is deposited.
#[derive(Clone, Copy, Debug, PartialEq, Eq)]
pub struct DepositEvent {
    pub user: Pubkey,
    pub mint_x: Pubkey,
    pub mint_y: Pubkey,
    pub mint_lp: Pubkey,
    pub vault_x: Pubkey,
    pub vault_y: Pubkey,
    pub user_lp: Pubkey,
    pub config: Pubkey,
    pub max_x: u64,
    pub max_y: u64,
    pub amount: u64,
}

/// Logged when tokens are swapped through the pool.
#[derive(Clone, Copy, Debug, PartialEq, Eq)]
pub struct SwapEvent {
    pub user: Pubkey,
    pub mint_x: Pubkey,
    pub mint_y: Pubkey,
    pub mint_lp: Pubkey,
    pub vault_x: Pubkey,
    pub vault_y: Pubkey,
    pub config: Pubkey,
    pub amount: u64,
    pub min: u64,
}

/// Logged when liquidity is withdrawn.
#[derive(Clone, Copy, Debug, PartialEq, Eq)]
pub struct WithdrawEvent {
    pub user: Pubkey,
    pub mint_x: Pubkey,
    pub mint_y: Pubkey,
    pub mint_lp: Pubkey,
    pub vault_x: Pubkey,
    pub vault_y: Pubkey,
    pub user_lp: Pubkey,
    pub config: Pubkey,
    pub amount: u64,
    pub min_x: u64,
    pub min_y: u64,
}

/// Logged when a pool is locked or unlocked.
#[derive(Clone, Copy, Debug, PartialEq, Eq)]
pub struct UpdateEvent {
    pub user: Pubkey,
    pub config: Pubkey,
    pub locked: bool,
}

/// Creates a pool, and gives the event to log.
pub fn initialize(
    accounts: &mut Initialize,
    seed: u64,
    fee: u16,
    authority: Option<Pubkey>,
    bumps: InitializeBumps,
) -> (r: Result<InitializeEvent, AmmError>)
    ensures
        final(accounts).config.data == old(accounts).new_config(seed, fee, authority, bumps),
        final(accounts).config.data.seed == seed,
        final(accounts).config.data.authority == authority,
        final(accounts).config.data.mint_x == old(accounts).mint_x,
        final(accounts).config.data.mint_y == old(accounts).mint_y,
        final(accounts).config.data.fee == fee,
        !final(accounts).config.data.locked,
        final(accounts).config.data.config_bump == bumps.config,
        final(accounts).config.data.lp_bump == bumps.mint_lp,
        *final(accounts) == (Initialize {
            config: Account { key: old(accounts).config.key, data: final(accounts).config.data },
            ..*old(accounts)
        }),
        r == Ok::<InitializeEvent, AmmError>(
            InitializeEvent {
                initializer: old(accounts).initializer,
                mint_x: old(accounts).mint_x,
                mint_y: old(accounts).mint_y,
                mint_lp: old(accounts).mint_lp,
                vault_x: old(accounts).vault_x,
                vault_y: old(accounts).vault_y,
                config: old(accounts).config.key,
                fee,
            },
        ),
{
    match accounts.init(seed, fee, authority, bumps) {
        Ok(()) => {},
        Err(e) => {
            return Err(e);
        },
    }
    Ok(
        InitializeEvent {
            initializer: accounts.initializer,
            config: accounts.config.key,
            mint_lp: accounts.mint_lp,
            mint_x: accounts.mint_x,
            mint_y: accounts.mint_y,
            vault_x: accounts.vault_x,
            vault_y: accounts.vault_y,
            fee,
        },
    )
}

/// Deposits liquidity as `Deposite::deposit` does, and gives the event to log.
pub fn deposit(
    accounts: &Deposite,
    amount: u64,
    max_x: u64,
    max_y: u64,
    curve: Option<XYAmounts>,
) -> (r: Result<(Vec<Invocation>, DepositEvent), AmmError>)
    requires
        accounts.asks_curve(amount) ==> curve is Some,
    ensures
        accounts.config.data.locked <==> r == Err::<(Vec<Invocation>, DepositEvent), AmmError>(
            AmmError::PoolLocked,
        ),
        !accounts.config.data.locked && amount == 0 <==> r == Err::<
            (Vec<Invocation>, DepositEvent),
            AmmError,
        >(AmmError::InvalidAmount),
        ({
            let (x, y) = accounts.deposit_amounts(max_x, max_y, curve);
            &&& !accounts.config.data.locked && amount != 0 && !(x <= max_x && y <= max_y) <==> r
                == Err::<(Vec<Invocation>, DepositEvent), AmmError>(AmmError::SlippageExceeded)
            &&& !accounts.config.data.locked && amount != 0 && x <= max_x && y <= max_y ==> r is Ok
            &&& r matches Ok((calls, event)) ==> {
                &&& calls@.len() == 3
                &&& calls@[0].is(accounts.token_deposit(true, x), seq![])
                &&& calls@[0].instruction == (Instruction::TokenTransfer {
                    from: accounts.user_x.key,
                    to: accounts.vault_x.key,
                    authority: accounts.user,
                    amount: if accounts.mint_lp.supply == 0 && accounts.vault_x.amount == 0 {
                        max_x
                    } else {
                        curve->Some_0.x
                    },
                })
                &&& calls@[1].instruction == (Instruction::TokenTransfer {
                    from: accounts.user_y.key,
                    to: accounts.vault_y.key,
                    authority: accounts.user,
                    amount: if accounts.mint_lp.supply == 0 && accounts.vault_x.amount == 0 {
                        max_y
                    } else {
                        curve->Some_0.y
                    },
                })
                &&& calls@[1].is(accounts.token_deposit(false, y), seq![])
                &&& calls@[2].is(accounts.lp_mint(amount), config_seeds(accounts.config.data))
                &&& event == (DepositEvent {
                    user: accounts.user,
                    mint_x: accounts.mint_x,
                    mint_y: accounts.mint_y,
                    mint_lp: accounts.mint_lp.key,
                    vault_x: accounts.vault_x.key,
                    vault_y: accounts.vault_y.key,
                    user_lp: accounts.user_lp,
                    config: accounts.config.key,
                    max_x,
                    max_y,
                    amount,
                })
            }
        }),
{
    let calls = match accounts.deposit(amount, max_x, max_y, curve) {
        Ok(calls) => calls,
        Err(e) => {
            return Err(e);
        },
    };
    let event = DepositEvent {
        user: accounts.user,
        mint_x: accounts.mint_x,
        mint_y: accounts.mint_y,
        mint_lp: accounts.mint_lp.key,
        vault_x: accounts.vault_x.key,
        vault_y: accounts.vault_y.key,
        user_lp: accounts.user_lp,
        config: accounts.config.key,
        max_x,
        max_y,
        amount,
    };
    Ok((calls, event))
}

} // verus!
