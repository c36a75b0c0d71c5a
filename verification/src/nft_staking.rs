use vstd::prelude::*;
use crate::accounts::{Account, MetadataCollection, TokenAccount, in_collection};
use crate::cpi::{Instruction, Invocation, seeds_view, single_byte};
use crate::pubkey::Pubkey;

verus! {

/// Seconds in a day: staking points accrue per whole day staked.
pub const SECONDS_PER_DAY: i64 = 86400;

/// The staking rules, set once by the admin.
#[derive(Clone, Copy, Debug, PartialEq, Eq)]
pub struct StakeConfig {
    pub points_per_stake: u8,
    pub max_stake: u8,
    pub freeze_period: u32,
    pub reward_bump: u8,
    pub bump: u8,
}

/// What a user has earned and how many NFTs the user has staked.
#[derive(Clone, Copy, Debug, PartialEq, Eq)]
pub struct UserAccount {
    pub points: u32,
    pub amount_staked: u8,
    pub bump: u8,
}

/// One staked NFT: who staked it and when.
#[derive(Clone, Copy, Debug, PartialEq, Eq)]
pub struct StakeAccount {
    pub owner: Pubkey,
    pub mint: Pubkey,
    pub stake_at: i64,
    pub bump: u8,
}

#[derive(Clone, Copy, Debug, PartialEq, Eq, Structural)]
pub enum ErrorCode {
    CustomError,
    NotFrozen,
    NoStakes,
    InvalidNftAmount,
    InvalidStakeOwner,
    StillFrozen,
}

/// The message that goes with an error.
pub open spec fn error_message(e: ErrorCode) -> Seq<char> {
    match e {
        ErrorCode::CustomError => "Custom error message"@,
        ErrorCode::NotFrozen => "Still nft is not frozen"@,
        ErrorCode::NoStakes => "No NFTs staked"@,
        ErrorCode::InvalidNftAmount => "Invalid nft amount"@,
        ErrorCode::InvalidStakeOwner => "This NFT is not staked by the current user."@,
        ErrorCode::StillFrozen => "Still nft is not thawed."@,
    }
}

impl ErrorCode {
    /// The message that goes with the error.
    pub fn msg(&self) -> (s: &'static str)
        ensures
            s@ == error_message(*self),
    {
        match self {
            ErrorCode::CustomError => "Custom error message",
            ErrorCode::NotFrozen => "Still nft is not frozen",
            ErrorCode::NoStakes => "No NFTs staked",
            ErrorCode::InvalidNftAmount => "Invalid nft amount",
            ErrorCode::InvalidStakeOwner => "This NFT is not staked by the current user.",
            ErrorCode::StillFrozen => "Still nft is not thawed.",
        }
    }
}

// ---------------------------------------------------------------- set-up

/// The bumps of the program addresses that setting up staking uses.
#[derive(Clone, Copy, Debug, PartialEq, Eq)]
pub struct InitializeConfigBumps {
    pub config: u8,
    pub reward_mint: u8,
}

/// What setting up staking reads and writes.
pub struct InitializeConfig {
    pub admin: Pubkey,
    pub config: Account<StakeConfig>,
    pub reward_mint: Pubkey,
}

impl InitializeConfig {
    /// Records the staking rules in the config account.
    pub fn initialize_config(
        &mut self,
        max_stake: u8,
        points_per_stake: u8,
        freeze_period: u32,
        bumps: &InitializeConfigBumps,
    ) -> (r: Result<(), ErrorCode>)
        ensures
            r is Ok,
            final(self).config.data == (StakeConfig {
                max_stake,
                freeze_period,
                points_per_stake,
                reward_bump: bumps.reward_mint,
                bump: bumps.config,
            }),
            final(self).config.key == old(self).config.key,
            final(self).admin == old(self).admin,
            final(self).reward_mint == old(self).reward_mint,
    {
        self.config.data = StakeConfig {
            max_stake,
            freeze_period,
            points_per_stake,
            reward_bump: bumps.reward_mint,
            bump: bumps.config,
        };
        Ok(())
    }
}

/// The bumps of the program addresses that registering a user uses.
#[derive(Clone, Copy, Debug, PartialEq, Eq)]
pub struct InitializeUserBumps {
    pub user_account: u8,
}

/// What registering a user reads and writes.
pub struct InitializeUser {
    pub user: Pubkey,
    pub user_account: Account<UserAccount>,
}

impl InitializeUser {
    /// Starts the user with no points and nothing staked.
    pub fn initalize_user(&mut self, bumps: InitializeUserBumps) -> (r: Result<(), ErrorCode>)
        ensures
            r is Ok,
            final(self).user_account.data == (UserAccount {
                points: 0,
                amount_staked: 0,
                bump: bumps.user_account,
            }),
            final(self).user_account.key == old(self).user_account.key,
            final(self).user == old(self).user,
    {
        self.user_account.data = UserAccount { points: 0, amount_staked: 0, bump: bumps.user_account };
        Ok(())
    }
}

// ---------------------------------------------------------------- staking

/// The bytes of `b"stake"`.
pub open spec fn stake_tag() -> Seq<u8> {
    seq![115u8, 116u8, 97u8, 107u8, 101u8]
}

/// The seeds of the stake account's address, with which it signs.
pub open spec fn stake_seeds(user: Pubkey, nft_mint: Pubkey, bump: u8) -> Seq<Seq<u8>> {
    seq![stake_tag(), user@, nft_mint@, seq![bump]]
}

fn stake_signer_seeds(user: &Pubkey, nft_mint: &Pubkey, bump: u8) -> (s: Vec<Vec<u8>>)
    ensures
        seeds_view(s@) == stake_seeds(*user, *nft_mint, bump),
{
    let mut s: Vec<Vec<u8>> = Vec::new();
    let tag: Vec<u8> = vec![115u8, 116u8, 97u8, 107u8, 101u8];
    s.push(tag);
    s.push(user.to_bytes());
    s.push(nft_mint.to_bytes());
    s.push(single_byte(bump));
    assert(seeds_view(s@) =~= stake_seeds(*user, *nft_mint, bump));
    s
}

/// The user's account after staking one more NFT under `config`.
pub open spec fn after_stake(user: UserAccount, config: StakeConfig) -> UserAccount {
    UserAccount {
        points: (user.points + config.points_per_stake) as u32,
        amount_staked: (user.amount_staked + 1) as u8,
        ..user
    }
}

/// Whether staking with `user` under `config` stays within the counters' range
/// (the handler asserts the first and would overflow past the second).
pub open spec fn stake_fits(user: UserAccount, config: StakeConfig) -> bool {
    &&& user.amount_staked < config.max_stake
    &&& user.points + config.points_per_stake <= u32::MAX
}

/// The bumps of the program addresses that staking uses.
#[derive(Clone, Copy, Debug, PartialEq, Eq)]
pub struct StakeBumps {
    pub stake_account: u8,
}

/// What staking an NFT reads and writes.
pub struct Stake {
    pub user: Pubkey,
    pub user_account: Account<UserAccount>,
    pub config: Account<StakeConfig>,
    pub nft_mint: Pubkey,
    pub user_nft_ata: TokenAccount,
    pub stake_account: Account<StakeAccount>,
    pub vault_pda: Pubkey,
    pub metadata: Pubkey,
    pub edition: Pubkey,
    pub collection_mint: Pubkey,
}

/// What a successful stake at `now` gives: the calls `calls` (approve the stake
/// account as delegate of the NFT, then freeze the NFT with the stake account
/// signing) and the accounts `post`, where the user is credited and the stake is
/// recorded, and nothing else changes.
pub open spec fn stake_done(
    pre: Stake,
    bumps: StakeBumps,
    now: i64,
    calls: Seq<Invocation>,
    post: Stake,
) -> bool {
    &&& calls.len() == 2
    &&& calls[0].is(
        Instruction::Approve {
            to: pre.user_nft_ata.key,
            delegate: pre.stake_account.key,
            authority: pre.user,
            amount: 1,
        },
        seq![],
    )
    &&& calls[1].is(
        Instruction::FreezeDelegated {
            delegate: pre.stake_account.key,
            token_account: pre.user_nft_ata.key,
            edition: pre.edition,
            mint: pre.nft_mint,
        },
        stake_seeds(pre.user, pre.nft_mint, bumps.stake_account),
    )
    &&& post == (Stake {
        user_account: Account {
            key: pre.user_account.key,
            data: after_stake(pre.user_account.data, pre.config.data),
        },
        stake_account: Account {
            key: pre.stake_account.key,
            data: StakeAccount {
                owner: pre.user,
                mint: pre.nft_mint,
                stake_at: now,
                bump: bumps.stake_account,
            },
        },
        ..pre
    })
}

impl Stake {
    /// Whether the NFT's metadata, which names `collection`, puts the NFT in the
    /// collection of `collection_mint`: only verified members of it are taken.
    pub fn metadata_in_collection(&self, collection: &MetadataCollection) -> (r: bool)
        ensures
            r == (collection.key@ == self.collection_mint@ && collection.verified),
    {
        in_collection(collection, &self.collection_mint)
    }

    /// Stakes the NFT that the user holds, at time `now`: records the stake, delegates
    /// the NFT to the stake account, credits the user, and freezes the NFT in place.
    pub fn stake(&mut self, bumps: &StakeBumps, now: i64) -> (r: Result<Vec<Invocation>, ErrorCode>)
        requires
            old(self).user_nft_ata.amount == 1 ==> stake_fits(
                old(self).user_account.data,
                old(self).config.data,
            ),
        ensures
            old(self).user_nft_ata.amount != 1 <==> r is Err,
            r is Err ==> r == Err::<Vec<Invocation>, ErrorCode>(ErrorCode::InvalidNftAmount)
                && *final(self) == *old(self),
            r is Ok ==> old(self).user_account.data.amount_staked < old(self).config.data.max_stake,
            r matches Ok(calls) ==> stake_done(*old(self), *bumps, now, calls@, *final(self)),
    {
        if self.user_nft_ata.amount != 1 {
            return Err(ErrorCode::InvalidNftAmount);
        }
        self.stake_account.data = StakeAccount {
            owner: self.user,
            mint: self.nft_mint,
            stake_at: now,
            bump: bumps.stake_account,
        };
        let approve = Invocation::unsigned(
            Instruction::Approve {
                to: self.user_nft_ata.key,
                delegate: self.stake_account.key,
                authority: self.user,
                amount: 1,
            },
        );
        self.user_account.data.points = self.user_account.data.points
            + self.config.data.points_per_stake as u32;
        self.user_account.data.amount_staked = self.user_account.data.amount_staked + 1;
        let seeds = stake_signer_seeds(&self.user, &self.nft_mint, self.stake_account.data.bump);
        let freeze = Invocation::signed(
            Instruction::FreezeDelegated {
                delegate: self.stake_account.key,
                token_account: self.user_nft_ata.key,
                edition: self.edition,
                mint: self.nft_mint,
            },
            seeds,
        );
        let mut calls: Vec<Invocation> = Vec::new();
        calls.push(approve);
        calls.push(freeze);
        Ok(calls)
    }
}

// ---------------------------------------------------------------- unstaking

/// Whole days in `elapsed` seconds, as the handler counts them (cut to 32 bits).
pub open spec fn staked_days(elapsed: int) -> u32 {
    (elapsed / SECONDS_PER_DAY as int) as u32
}

/// The points that unstaking after `elapsed` seconds earns under `config`.
pub open spec fn unstake_points(elapsed: int, config: StakeConfig) -> int {
    staked_days(elapsed) * config.points_per_stake
}

/// The user's account after unstaking one NFT staked for `elapsed` seconds.
pub open spec fn after_unstake(user: UserAccount, config: StakeConfig, elapsed: int) -> UserAccount {
    UserAccount {
        points: (user.points + unstake_points(elapsed, config)) as u32,
        amount_staked: (user.amount_staked - 1) as u8,
        ..user
    }
}

/// Whether unstaking with `user` after `elapsed` seconds stays within the counters'
/// range: where it would not, the handler's arithmetic overflows.
pub open spec fn unstake_fits(user: UserAccount, config: StakeConfig, elapsed: int) -> bool {
    &&& unstake_points(elapsed, config) <= u32::MAX
    &&& user.points + unstake_points(elapsed, config) <= u32::MAX
}

/// What unstaking an NFT reads and writes.
pub struct Unstake {
    pub user: Pubkey,
    pub user_account: Account<UserAccount>,
    pub user_nft_ata: Pubkey,
    pub nft_mint: Pubkey,
    pub config: Account<StakeConfig>,
    pub stake_account: Account<StakeAccount>,
    pub vault_pda: Pubkey,
    pub collection_mint: Pubkey,
    pub edition: Pubkey,
}

/// What a successful unstake at `now` gives: the calls `calls` (thaw the NFT with
/// the stake account signing, then withdraw its delegation) and the accounts `post`,
/// where the user is credited for the whole days staked and counts one stake less,
/// and nothing else changes.
pub open spec fn unstake_done(pre: Unstake, now: i64, calls: Seq<Invocation>, post: Unstake) -> bool {
    &&& calls.len() == 2
    &&& calls[0].is(
        Instruction::ThawDelegated {
            delegate: pre.stake_account.key,
            token_account: pre.user_nft_ata,
            edition: pre.edition,
            mint: pre.nft_mint,
        },
        stake_seeds(pre.user, pre.nft_mint, pre.stake_account.data.bump),
    )
    &&& calls[1].is(Instruction::Revoke { source: pre.user_nft_ata, authority: pre.user }, seq![])
    &&& post == (Unstake {
        user_account: Account {
            key: pre.user_account.key,
            data: after_unstake(
                pre.user_account.data,
                pre.config.data,
                now - pre.stake_account.data.stake_at,
            ),
        },
        ..pre
    })
}

impl Unstake {
    /// Unstakes the NFT at time `now`, once its freeze period is over: credits the
    /// points of the whole days it was staked, thaws it, counts one stake less, and
    /// withdraws the stake account's delegation.
    pub fn unstake(&mut self, now: i64) -> (r: Result<Vec<Invocation>, ErrorCode>)
        requires
            i64::MIN <= now - old(self).stake_account.data.stake_at <= i64::MAX,
            now - old(self).stake_account.data.stake_at >= old(self).config.data.freeze_period
                && old(self).user_account.data.amount_staked > 0 ==> unstake_fits(
                old(self).user_account.data,
                old(self).config.data,
                now - old(self).stake_account.data.stake_at,
            ),
        ensures
            ({
                let elapsed = now - old(self).stake_account.data.stake_at;
                &&& elapsed < old(self).config.data.freeze_period <==> r
                    == Err::<Vec<Invocation>, ErrorCode>(ErrorCode::NotFrozen)
                &&& elapsed >= old(self).config.data.freeze_period
                    && old(self).user_account.data.amount_staked == 0 <==> r == Err::<
                    Vec<Invocation>,
                    ErrorCode,
                >(ErrorCode::NoStakes)
                &&& r is Err ==> *final(self) == *old(self) && (r == Err::<
                    Vec<Invocation>,
                    ErrorCode,
                >(ErrorCode::NotFrozen) || r == Err::<Vec<Invocation>, ErrorCode>(
                    ErrorCode::NoStakes,
                ))
                &&& r matches Ok(calls) ==> unstake_done(*old(self), now, calls@, *final(self))
                &&& r is Ok ==> final(self).user_account.data.points == old(self).user_account.data.points
                    + ((elapsed / 86400) as u32) * old(self).config.data.points_per_stake
                &&& r is Ok ==> final(self).user_account.data.amount_staked
                    == old(self).user_account.data.amount_staked - 1
            }),
    {
        let elapsed: i64 = now - self.stake_account.data.stake_at;
        if elapsed < self.config.data.freeze_period as i64 {
            return Err(ErrorCode::NotFrozen);
        }
        if self.user_account.data.amount_staked == 0 {
            return Err(ErrorCode::NoStakes);
        }
        let duration: u32 = (elapsed / SECONDS_PER_DAY) as u32;
        self.user_account.data.points = self.user_account.data.points + duration
            * (self.config.data.points_per_stake as u32);
        let seeds = stake_signer_seeds(&self.user, &self.nft_mint, self.stake_account.data.bump);
        let thaw = Invocation::signed(
            Instruction::ThawDelegated {
                delegate: self.stake_account.key,
                token_account: self.user_nft_ata,
                edition: self.edition,
                mint: self.nft_mint,
            },
            seeds,
        );
        self.user_account.data.amount_staked = self.user_account.data.amount_staked - 1;
        let revoke = Invocation::unsigned(
            Instruction::Revoke { source: self.user_nft_ata, authority: self.user },
        );
        let mut calls: Vec<Invocation> = Vec::new();
        calls.push(thaw);
        calls.push(revoke);
        Ok(calls)
    }
}

// ---------------------------------------------------------------- laws

/// Staking an NFT and then unstaking it leaves the user with as many NFTs staked as
/// before, and with the points of the stake plus those of the whole days staked.
pub proof fn lemma_stake_then_unstake_restores_count(
    user: UserAccount,
    config: StakeConfig,
    elapsed: int,
)
    requires
        stake_fits(user, config),
        unstake_fits(after_stake(user, config), config, elapsed),
    ensures
        after_unstake(after_stake(user, config), config, elapsed).amount_staked
            == user.amount_staked,
        after_unstake(after_stake(user, config), config, elapsed).points == user.points
            + config.points_per_stake + unstake_points(elapsed, config),
{
}

/// A stake at `t0` followed by the unstake of the same NFT at `t1`: the user ends with
/// as many NFTs staked as before and is credited the stake's points plus those of the
/// whole days between `t0` and `t1`; the unstake thaws what the stake froze, with the
/// same signer, and withdraws the delegation that the stake approved.
pub proof fn lemma_stake_round_trip(
    pre: Stake,
    bumps: StakeBumps,
    t0: i64,
    stake_calls: Seq<Invocation>,
    mid: Stake,
    unstaking: Unstake,
    t1: i64,
    unstake_calls: Seq<Invocation>,
    post: Unstake,
)
    requires
        stake_done(pre, bumps, t0, stake_calls, mid),
        stake_fits(pre.user_account.data, pre.config.data),
        unstaking.user == mid.user,
        unstaking.user_account == mid.user_account,
        unstaking.user_nft_ata == mid.user_nft_ata.key,
        unstaking.nft_mint == mid.nft_mint,
        unstaking.config == mid.config,
        unstaking.stake_account == mid.stake_account,
        unstaking.edition == mid.edition,
        unstake_fits(mid.user_account.data, mid.config.data, t1 - t0),
        unstake_done(unstaking, t1, unstake_calls, post),
    ensures
        post.user_account.data.amount_staked == pre.user_account.data.amount_staked,
        post.user_account.data.points == pre.user_account.data.points
            + pre.config.data.points_per_stake + unstake_points(t1 - t0, pre.config.data),
        unstake_calls[0].instruction == (match stake_calls[1].instruction {
            Instruction::FreezeDelegated { delegate, token_account, edition, mint } =>
                Instruction::ThawDelegated { delegate, token_account, edition, mint },
            other => other,
        }),
        seeds_view(unstake_calls[0].signer_seeds@) == seeds_view(stake_calls[1].signer_seeds@),
        unstake_calls[1].instruction == (match stake_calls[0].instruction {
            Instruction::Approve { to, authority, .. } => Instruction::Revoke {
                source: to,
                authority,
            },
            other => other,
        }),
{
}

/// An unstake that goes through credits `points_per_stake` for every whole day
/// since the stake was made, whatever the freeze period, and counts one stake less.
pub proof fn lemma_unstake_credits_every_whole_day(
    pre: Unstake,
    now: i64,
    calls: Seq<Invocation>,
    post: Unstake,
)
    requires
        unstake_done(pre, now, calls, post),
        pre.user_account.data.amount_staked > 0,
        now - pre.stake_account.data.stake_at >= 0,
        (now - pre.stake_account.data.stake_at) / 86400 <= u32::MAX,
        pre.user_account.data.points + ((now - pre.stake_account.data.stake_at) / 86400)
            * pre.config.data.points_per_stake <= u32::MAX,
    ensures
        post.user_account.data.points == pre.user_account.data.points + ((now
            - pre.stake_account.data.stake_at) / 86400) * pre.config.data.points_per_stake,
        post.user_account.data.amount_staked == pre.user_account.data.amount_staked - 1,
        post.config == pre.config,
        post.stake_account == pre.stake_account,
{
    let days = (now - pre.stake_account.data.stake_at) / 86400;
    assert(0 <= days * pre.config.data.points_per_stake) by (nonlinear_arith)
        requires
            0 <= days,
    ;
}

/// Neither staking nor unstaking takes points away from a user.
pub proof fn lemma_points_never_decrease(user: UserAccount, config: StakeConfig, elapsed: int)
    ensures
        stake_fits(user, config) ==> after_stake(user, config).points >= user.points,
        unstake_fits(user, config, elapsed) ==> after_unstake(user, config, elapsed).points
            >= user.points,
{
}

/// A user never has more NFTs staked than the config allows: a stake that goes
/// through (the handler asserts the user is below the limit) and an unstake both
/// keep that bound.
pub proof fn lemma_stake_limit_kept(user: UserAccount, config: StakeConfig, elapsed: int)
    requires
        user.amount_staked <= config.max_stake,
    ensures
        user.amount_staked < config.max_stake ==> after_stake(user, config).amount_staked
            <= config.max_stake,
        user.amount_staked > 0 ==> after_unstake(user, config, elapsed).amount_staked
            <= config.max_stake,
{
}

/// Whatever a call of `Stake::stake` ends in, the user stays within the stake limit:
/// a refused stake changes nothing, and a stake that goes through started below it.
pub proof fn lemma_stake_call_keeps_limit(
    pre: Stake,
    bumps: StakeBumps,
    now: i64,
    r: Result<Seq<Invocation>, ErrorCode>,
    post: Stake,
)
    requires
        pre.user_account.data.amount_staked <= pre.config.data.max_stake,
        r is Err ==> post == pre,
        r is Ok ==> pre.user_account.data.amount_staked < pre.config.data.max_stake,
        r matches Ok(calls) ==> stake_done(pre, bumps, now, calls, post),
    ensures
        post.user_account.data.amount_staked <= post.config.data.max_stake,
{
}

// ---------------------------------------------------------------- the program's instructions

/// Logged when the staking rules are set.
#[derive(Clone, Copy, Debug, PartialEq, Eq)]
pub struct InitializeConfigEvent {
    pub config: Pubkey,
    pub max_stake: u8,
    pub points_per_stake: u8,
    pub freeze_period: u32,
}

/// Logged when a user registers.
#[derive(Clone, Copy, Debug, PartialEq, Eq)]
pub struct InitializeUserEvent {
    pub points: u32,
    pub amount_staked: u8,
    pub user: Pubkey,
}

/// Logged when an NFT is staked.
#[derive(Clone, Copy, Debug, PartialEq, Eq)]
pub struct StakeEvent {
    pub owner: Pubkey,
    pub nft_mint: Pubkey,
    pub amount_staked: u8,
    pub stake_at: i64,
    pub stake_account: Pubkey,
}

/// Logged when an NFT is unstaked.
#[derive(Clone, Copy, Debug, PartialEq, Eq)]
pub struct UnstakeEvent {
    pub owner: Pubkey,
    pub nft_mint: Pubkey,
    pub amount_staked: u8,
    pub stake_account: Pubkey,
}

/// Registers a user, and gives the event to log.
pub fn initializ_user(accounts: &mut InitializeUser, bumps: InitializeUserBumps) -> (r: Result<
    InitializeUserEvent,
    ErrorCode,
>)
    ensures
        final(accounts).user_account.data == (UserAccount {
            points: 0,
            amount_staked: 0,
            bump: bumps.user_account,
        }),
        final(accounts).user_account.key == old(accounts).user_account.key,
        final(accounts).user == old(accounts).user,
        r == Ok::<InitializeUserEvent, ErrorCode>(
            InitializeUserEvent { amount_staked: 0, points: 0, user: old(accounts).user },
        ),
{
    accounts.initalize_user(bumps)?;
    Ok(
        InitializeUserEvent {
            amount_staked: accounts.user_account.data.amount_staked,
            points: accounts.user_account.data.points,
            user: accounts.user,
        },
    )
}

/// Sets the staking rules, and gives the event to log.
pub fn initialize_config(
    accounts: &mut InitializeConfig,
    max_stake: u8,
    points_per_stake: u8,
    freeze_period: u32,
    bumps: &InitializeConfigBumps,
) -> (r: Result<InitializeConfigEvent, ErrorCode>)
    ensures
        final(accounts).config.data == (StakeConfig {
            max_stake,
            freeze_period,
            points_per_stake,
            reward_bump: bumps.reward_mint,
            bump: bumps.config,
        }),
        final(accounts).config.key == old(accounts).config.key,
        final(accounts).admin == old(accounts).admin,
        final(accounts).reward_mint == old(accounts).reward_mint,
        r == Ok::<InitializeConfigEvent, ErrorCode>(
            InitializeConfigEvent {
                config: old(accounts).config.key,
                max_stake,
                points_per_stake,
                freeze_period,
            },
        ),
{
    accounts.initialize_config(max_stake, points_per_stake, freeze_period, bumps)?;
    Ok(
        InitializeConfigEvent {
            config: accounts.config.key,
            max_stake: accounts.config.data.max_stake,
            points_per_stake: accounts.config.data.points_per_stake,
            freeze_period: accounts.config.data.freeze_period,
        },
    )
}

/// Stakes an NFT at time `now`, and gives the calls to make and the event to log.
pub fn stake(accounts: &mut Stake, bumps: &StakeBumps, now: i64) -> (r: Result<
    (Vec<Invocation>, StakeEvent),
    ErrorCode,
>)
    requires
        old(accounts).user_nft_ata.amount == 1 ==> stake_fits(
            old(accounts).user_account.data,
            old(accounts).config.data,
        ),
    ensures
        old(accounts).user_nft_ata.amount != 1 <==> r is Err,
        r is Err ==> r == Err::<(Vec<Invocation>, StakeEvent), ErrorCode>(
            ErrorCode::InvalidNftAmount,
        ) && *final(accounts) == *old(accounts),
        r matches Ok((calls, event)) ==> {
            &&& stake_done(*old(accounts), *bumps, now, calls@, *final(accounts))
            &&& event == (StakeEvent {
                owner: final(accounts).user,
                nft_mint: final(accounts).nft_mint,
                amount_staked: final(accounts).user_account.data.amount_staked,
                stake_at: final(accounts).stake_account.data.stake_at,
                stake_account: final(accounts).stake_account.key,
            })
        },
{
    let calls = match accounts.stake(bumps, now) {
        Ok(calls) => calls,
        Err(e) => {
            return Err(e);
        },
    };
    let event = StakeEvent {
        owner: accounts.user,
        nft_mint: accounts.nft_mint,
        amount_staked: accounts.user_account.data.amount_staked,
        stake_at: accounts.stake_account.data.stake_at,
        stake_account: accounts.stake_account.key,
    };
    Ok((calls, event))
}

/// Unstakes an NFT at time `now`, and gives the calls to make and the event to log.
/// The last call closes the stake account, its rent going back to the user.
pub fn unstake(accounts: &mut Unstake, now: i64) -> (r: Result<
    (Vec<Invocation>, UnstakeEvent),
    ErrorCode,
>)
    requires
        i64::MIN <= now - old(accounts).stake_account.data.stake_at <= i64::MAX,
        now - old(accounts).stake_account.data.stake_at >= old(accounts).config.data.freeze_period
            && old(accounts).user_account.data.amount_staked > 0 ==> unstake_fits(
            old(accounts).user_account.data,
            old(accounts).config.data,
            now - old(accounts).stake_account.data.stake_at,
        ),
    ensures
        ({
            let elapsed = now - old(accounts).stake_account.data.stake_at;
            &&& elapsed < old(accounts).config.data.freeze_period <==> r == Err::<
                (Vec<Invocation>, UnstakeEvent),
                ErrorCode,
            >(ErrorCode::NotFrozen)
            &&& elapsed >= old(accounts).config.data.freeze_period
                && old(accounts).user_account.data.amount_staked == 0 <==> r == Err::<
                (Vec<Invocation>, UnstakeEvent),
                ErrorCode,
            >(ErrorCode::NoStakes)
            &&& r is Err ==> *final(accounts) == *old(accounts) && (r == Err::<
                (Vec<Invocation>, UnstakeEvent),
                ErrorCode,
            >(ErrorCode::NotFrozen) || r == Err::<(Vec<Invocation>, UnstakeEvent), ErrorCode>(
                ErrorCode::NoStakes,
            ))
            &&& r matches Ok((calls, event)) ==> {
                &&& calls@.len() == 3
                &&& unstake_done(*old(accounts), now, calls@.take(2), *final(accounts))
                &&& calls@[2].is(
                    Instruction::CloseProgramAccount {
                        account: old(accounts).stake_account.key,
                        destination: old(accounts).user,
                    },
                    seq![],
                )
                &&& event == (UnstakeEvent {
                    owner: old(accounts).user,
                    nft_mint: old(accounts).nft_mint,
                    amount_staked: final(accounts).user_account.data.amount_staked,
                    stake_account: old(accounts).stake_account.key,
                })
            }
        }),
{
    let mut calls = match accounts.unstake(now) {
        Ok(calls) => calls,
        Err(e) => {
            return Err(e);
        },
    };
    let ghost handler_calls = calls@;
    calls.push(
        Invocation::unsigned(
            Instruction::CloseProgramAccount {
                account: accounts.stake_account.key,
                destination: accounts.user,
            },
        ),
    );
    assert(calls@.take(2) =~= handler_calls);
    let event = UnstakeEvent {
        owner: accounts.user,
        nft_mint: accounts.nft_mint,
        amount_staked: accounts.user_account.data.amount_staked,
        stake_account: accounts.stake_account.key,
    };
    Ok((calls, event))
}

} // verus!
