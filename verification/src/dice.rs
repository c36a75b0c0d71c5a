use vstd::prelude::*;
use crate::accounts::{Account, SystemAccount};
use crate::cpi::{Instruction, Invocation, seeds_view, single_byte};
use crate::pubkey::Pubkey;

verus! {

/// The share of a win that the house keeps, in hundredths of a percent.
pub const HOUSE_EDGE: u16 = 150;

/// The winning multiplier, in percent.
pub const BASE_MULTIPLIER: u64 = 100;

/// A bet that a player placed on a roll of the die.
#[derive(Clone, Copy, Debug, PartialEq, Eq)]
pub struct Bet {
    pub amount: u64,
    pub player: Pubkey,
    pub slot: u64,
    /// Lets one player hold several bets.
    pub seed: u128,
    pub roll: u8,
    pub bump: u8,
    pub randomness_account: Pubkey,
    pub commit_slot: u64,
    pub is_resloved: bool,
}

#[derive(Clone, Copy, Debug, PartialEq, Eq, Structural)]
pub enum BetErrorCode {
    CustomError,
    BetAlreadyPlaced,
    BetAlreadyResloved,
    FailedToParseRandomness,
    RandomnessNotResloved,
    RandomnessExpired,
    InsufficientFunds,
}

/// The message that goes with an error.
pub open spec fn bet_error_message(e: BetErrorCode) -> Seq<char> {
    match e {
        BetErrorCode::CustomError => "Custom error message"@,
        BetErrorCode::BetAlreadyPlaced => "Bet already places"@,
        BetErrorCode::BetAlreadyResloved => "Bet is already being resloved"@,
        BetErrorCode::FailedToParseRandomness => "Failed to pare the randomness"@,
        BetErrorCode::RandomnessNotResloved => "Randomness is not resloved yet!"@,
        BetErrorCode::RandomnessExpired => "Randomness is expired!"@,
        BetErrorCode::InsufficientFunds => "Insuffient funds with the house"@,
    }
}

impl BetErrorCode {
    /// The message that goes with the error.
    pub fn msg(&self) -> (s: &'static str)
        ensures
            s@ == bet_error_message(*self),
    {
        match self {
            BetErrorCode::CustomError => "Custom error message",
            BetErrorCode::BetAlreadyPlaced => "Bet already places",
            BetErrorCode::BetAlreadyResloved => "Bet is already being resloved",
            BetErrorCode::FailedToParseRandomness => "Failed to pare the randomness",
            BetErrorCode::RandomnessNotResloved => "Randomness is not resloved yet!",
            BetErrorCode::RandomnessExpired => "Randomness is expired!",
            BetErrorCode::InsufficientFunds => "Insuffient funds with the house",
        }
    }
}

/// The bytes of `b"vault"`.
pub open spec fn vault_tag() -> Seq<u8> {
    seq![118u8, 97u8, 117u8, 108u8, 116u8]
}

fn vault_tag_bytes() -> (b: Vec<u8>)
    ensures
        b@ == vault_tag(),
{
    let b: Vec<u8> = vec![118u8, 97u8, 117u8, 108u8, 116u8];
    b
}

// ---------------------------------------------------------------- placing a bet

/// The bumps of the program addresses that placing a bet uses.
#[derive(Clone, Copy, Debug, PartialEq, Eq)]
pub struct PlaceBetBumps {
    pub vault: u8,
    pub bet: u8,
}

/// What placing a bet reads and writes.
pub struct PlaceBet {
    pub player: Pubkey,
    pub house: Pubkey,
    pub vault: SystemAccount,
    pub bet: Account<Bet>,
    pub randomness_account: Pubkey,
}

/// A bet account that holds a bet which is placed and still open.
pub open spec fn bet_is_placed(bet: Account<Bet>) -> bool {
    &&& !bet.data.is_resloved
    &&& bet.data.commit_slot != 0
    &&& bet.key@ != crate::pubkey::zero_key()
}

impl PlaceBet {
    /// Places a bet of `amount` lamports on `roll`, at `slot`: the stake goes from the
    /// player to the house's vault, and the bet account records the bet.
    pub fn create_bet(
        &mut self,
        amount: u64,
        roll: u8,
        seed: u128,
        randomness_account: Pubkey,
        bumps: &PlaceBetBumps,
        slot: u64,
    ) -> (r: Result<Invocation, BetErrorCode>)
        ensures
            bet_is_placed(old(self).bet) <==> r == Err::<Invocation, BetErrorCode>(
                BetErrorCode::BetAlreadyPlaced,
            ),
            r is Err ==> *final(self) == *old(self) && r == Err::<Invocation, BetErrorCode>(
                BetErrorCode::BetAlreadyPlaced,
            ),
            r matches Ok(inv) ==> {
                &&& inv.is(
                    Instruction::SystemTransfer {
                        from: old(self).player,
                        to: old(self).vault.key,
                        lamports: amount,
                    },
                    seq![],
                )
                &&& final(self).bet.data == (Bet {
                    amount,
                    player: old(self).player,
                    slot,
                    seed,
                    roll,
                    bump: bumps.bet,
                    randomness_account,
                    commit_slot: slot,
                    is_resloved: false,
                })
                &&& final(self).bet.key == old(self).bet.key
                &&& final(self).player == old(self).player
                &&& final(self).house == old(self).house
                &&& final(self).vault == old(self).vault
                &&& final(self).randomness_account == old(self).randomness_account
            },
    {
        if !self.bet.data.is_resloved && self.bet.data.commit_slot != 0
            && !self.bet.key.is_default() {
            return Err(BetErrorCode::BetAlreadyPlaced);
        }
        let transfer = Invocation::unsigned(
            Instruction::SystemTransfer { from: self.player, to: self.vault.key, lamports: amount },
        );
        self.bet.data = Bet {
            amount,
            player: self.player,
            slot,
            seed,
            roll,
            bump: bumps.bet,
            randomness_account,
            commit_slot: slot,
            is_resloved: false,
        };
        Ok(transfer)
    }
}

// ---------------------------------------------------------------- resolving a bet

/// The Keccak-256 digest of `data`.
pub uninterp spec fn keccak256(data: Seq<u8>) -> Seq<u8>;

/// Calls `solana_program::keccak::hash`, which gives the Keccak-256 digest of its
/// argument; the contract names that digest and claims nothing else of it.
#[verifier::external_body]
fn keccak_hash(data: &[u8]) -> (digest: [u8; 32])
    ensures
        digest@ == keccak256(data@),
{
    #[allow(deprecated)]
    let h = solana_program::keccak::hash(data);
    h.to_bytes()
}

/// What the randomness account gave at the current slot.
#[derive(Clone, Copy, Debug, PartialEq, Eq)]
pub enum Randomness {
    /// The account's data is not randomness.
    Unparsed,
    /// The randomness is not revealed at this slot.
    Unrevealed,
    /// The value revealed at this slot.
    Revealed([u8; 32]),
}

/// The face of the die that a digest gives.
pub open spec fn dice_roll(digest: Seq<u8>) -> int {
    (digest[0] % 6) + 1
}

/// The face of the die that a revealed value gives.
pub open spec fn roll_of(value: Seq<u8>) -> int {
    dice_roll(keccak256(value))
}

/// The fair payout of a winning bet of `amount`.
pub open spec fn fair_payout(amount: u64) -> int {
    (amount * BASE_MULTIPLIER) / 100
}

/// What a winning bet of `amount` pays the player: the fair payout less the house's cut.
pub open spec fn winnings(amount: u64) -> int {
    let fair = fair_payout(amount);
    fair - ((fair - amount) * HOUSE_EDGE) / 10_000
}

/// Rolls the die from a revealed random value: one plus the first byte of the
/// value's Keccak-256 digest modulo six.
pub fn roll_from_randomness(value: &[u8; 32]) -> (roll: u8)
    ensures
        roll == roll_of(value@),
        1 <= roll <= 6,
{
    let digest = keccak_hash(value.as_slice());
    (digest[0] % 6) + 1
}

/// What a winning bet of `amount` pays.
pub fn payout(amount: u64) -> (p: u64)
    requires
        amount * BASE_MULTIPLIER <= u64::MAX,
    ensures
        p == winnings(amount),
        p == amount,
{
    let fair_payout: u64 = (amount * BASE_MULTIPLIER) / 100;
    assert(fair_payout == amount) by (nonlinear_arith)
        requires
            fair_payout == (amount * 100) / 100,
    ;
    let margin: u64 = fair_payout - amount;
    assert(margin * 150 == 0) by (nonlinear_arith)
        requires
            margin == 0,
    ;
    let house_cut: u64 = (margin * (HOUSE_EDGE as u64)) / 10_000;
    fair_payout - house_cut
}

/// The bumps of the program addresses that resolving a bet uses.
#[derive(Clone, Copy, Debug, PartialEq, Eq)]
pub struct ResloveBetBumps {
    pub vault: u8,
}

/// What resolving a bet reads and writes.
pub struct ResloveBet {
    pub house: Pubkey,
    pub player: Pubkey,
    pub vault: SystemAccount,
    pub bet: Account<Bet>,
    pub randomness_account: Pubkey,
}

/// The lamports that resolving an open bet with a revealed `value` pays out.
pub open spec fn payout_for(bet: Bet, value: Seq<u8>) -> int {
    if roll_of(value) == bet.roll {
        winnings(bet.amount)
    } else {
        0
    }
}

/// Whether paying a winning bet of `bet` from `value` would overflow a `u64`.
pub open spec fn winnings_overflow(bet: Bet, randomness: Randomness) -> bool {
    &&& !bet.is_resloved
    &&& randomness matches Randomness::Revealed(v)
    &&& roll_of(v@) == bet.roll
    &&& bet.amount * BASE_MULTIPLIER > u64::MAX
}

/// The seeds of the house's vault address.
pub open spec fn vault_seeds(house: Pubkey, bump: u8) -> Seq<Seq<u8>> {
    seq![vault_tag(), house@, seq![bump]]
}

/// What resolving the bet in `pre` with `randomness` does: the result `r`, and the
/// accounts `post` after it.
pub open spec fn reslove_outcome(
    pre: ResloveBet,
    bumps: ResloveBetBumps,
    randomness: Randomness,
    r: Result<Option<Invocation>, BetErrorCode>,
    post: ResloveBet,
) -> bool {
    if pre.bet.data.is_resloved {
        r == Err::<Option<Invocation>, BetErrorCode>(BetErrorCode::BetAlreadyResloved)
            && post == pre
    } else {
        match randomness {
            Randomness::Unparsed => r == Err::<Option<Invocation>, BetErrorCode>(
                BetErrorCode::FailedToParseRandomness,
            ) && post == pre,
            Randomness::Unrevealed => r == Err::<Option<Invocation>, BetErrorCode>(
                BetErrorCode::RandomnessNotResloved,
            ) && post == pre,
            Randomness::Revealed(v) => {
                let pay = payout_for(pre.bet.data, v@);
                if pay > 0 && pre.vault.lamports < pay {
                    r == Err::<Option<Invocation>, BetErrorCode>(BetErrorCode::InsufficientFunds)
                        && post == pre
                } else {
                    &&& r is Ok
                    &&& post == ResloveBet {
                        bet: Account {
                            key: pre.bet.key,
                            data: Bet { is_resloved: true, ..pre.bet.data },
                        },
                        ..pre
                    }
                    &&& pay > 0 <==> r->Ok_0 is Some
                    &&& r->Ok_0 matches Some(inv) ==> inv.is(
                        Instruction::SystemTransfer {
                            from: pre.vault.key,
                            to: pre.player,
                            lamports: pay as u64,
                        },
                        vault_seeds(pre.house, bumps.vault),
                    )
                }
            },
        }
    }
}

impl ResloveBet {
    /// Resolves the bet with what the randomness account gave: rolls the die, pays a
    /// winner from the house's vault, and marks the bet resolved.
    pub fn reslove_bet(&mut self, bumps: &ResloveBetBumps, randomness: Randomness) -> (r: Result<
        Option<Invocation>,
        BetErrorCode,
    >)
        requires
            !winnings_overflow(old(self).bet.data, randomness),
        ensures
            reslove_outcome(*old(self), *bumps, randomness, r, *final(self)),
            randomness matches Randomness::Revealed(v) ==> (!old(self).bet.data.is_resloved && (
            keccak256(v@)[0] % 6) + 1 != old(self).bet.data.roll ==> r == Ok::<
                Option<Invocation>,
                BetErrorCode,
            >(None)),
    {
        if self.bet.data.is_resloved {
            return Err(BetErrorCode::BetAlreadyResloved);
        }
        let value = match randomness {
            Randomness::Unparsed => {
                return Err(BetErrorCode::FailedToParseRandomness);
            },
            Randomness::Unrevealed => {
                return Err(BetErrorCode::RandomnessNotResloved);
            },
            Randomness::Revealed(v) => v,
        };
        let final_roll = roll_from_randomness(&value);
        let mut payout_amount: u64 = 0;
        if final_roll == self.bet.data.roll {
            payout_amount = payout(self.bet.data.amount);
        }
        let mut transfer: Option<Invocation> = None;
        if payout_amount > 0 {
            if self.vault.lamports < payout_amount {
                return Err(BetErrorCode::InsufficientFunds);
            }
            let mut seeds: Vec<Vec<u8>> = Vec::new();
            seeds.push(vault_tag_bytes());
            seeds.push(self.house.to_bytes());
            seeds.push(single_byte(bumps.vault));
            assert(seeds_view(seeds@) =~= vault_seeds(self.house, bumps.vault));
            transfer = Some(
                Invocation::signed(
                    Instruction::SystemTransfer {
                        from: self.vault.key,
                        to: self.player,
                        lamports: payout_amount,
                    },
                    seeds,
                ),
            );
        }
        self.bet.data.is_resloved = true;
        Ok(transfer)
    }
}

impl ResloveBet {
    /// Resolves the bet as `reslove_bet` does, where paying a win cannot overflow a
    /// `u64`; gives `None`, and leaves the accounts as they are, where it would.
    pub fn reslove_bet_checked(&mut self, bumps: &ResloveBetBumps, randomness: Randomness) -> (r:
        Option<Result<Option<Invocation>, BetErrorCode>>)
        ensures
            winnings_overflow(old(self).bet.data, randomness) <==> r is None,
            r is None ==> *final(self) == *old(self),
            r matches Some(res) ==> reslove_outcome(*old(self), *bumps, randomness, res, *final(self)),
    {
        if !self.bet.data.is_resloved {
            if let Randomness::Revealed(v) = randomness {
                let roll = roll_from_randomness(&v);
                let amount = self.bet.data.amount;
                assert(amount > u64::MAX / 100 <==> amount * 100 > u64::MAX) by (nonlinear_arith);
                if roll == self.bet.data.roll && amount > u64::MAX / 100 {
                    return None;
                }
            }
        }
        Some(self.reslove_bet(bumps, randomness))
    }
}

/// A bet that was resolved stays resolved: resolving it once more fails with
/// `BetAlreadyResloved` and changes nothing.
pub proof fn lemma_resolved_bet_cannot_be_resolved_again(
    pre: ResloveBet,
    bumps: ResloveBetBumps,
    randomness: Randomness,
    r: Result<Option<Invocation>, BetErrorCode>,
    mid: ResloveBet,
    bumps2: ResloveBetBumps,
    randomness2: Randomness,
    r2: Result<Option<Invocation>, BetErrorCode>,
    post: ResloveBet,
)
    requires
        reslove_outcome(pre, bumps, randomness, r, mid),
        r is Ok,
        reslove_outcome(mid, bumps2, randomness2, r2, post),
    ensures
        mid.bet.data.is_resloved,
        r2 == Err::<Option<Invocation>, BetErrorCode>(BetErrorCode::BetAlreadyResloved),
        post == mid,
{
}

/// A revealed value decides the bet by its die face, one plus the first byte of its
/// Keccak-256 digest modulo six: a face other than the bet's roll pays nothing and
/// moves no lamports, only marking the bet resolved; the bet's own face pays the
/// stake back from the vault, where the vault holds it.
pub proof fn lemma_only_the_bet_face_pays(
    pre: ResloveBet,
    bumps: ResloveBetBumps,
    v: [u8; 32],
    r: Result<Option<Invocation>, BetErrorCode>,
    post: ResloveBet,
)
    requires
        reslove_outcome(pre, bumps, Randomness::Revealed(v), r, post),
        !pre.bet.data.is_resloved,
        pre.bet.data.amount * 100 <= u64::MAX,
    ensures
        (keccak256(v@)[0] % 6) + 1 != pre.bet.data.roll ==> {
            &&& r == Ok::<Option<Invocation>, BetErrorCode>(None)
            &&& post.vault == pre.vault
            &&& post.bet.data == (Bet { is_resloved: true, ..pre.bet.data })
        },
        (keccak256(v@)[0] % 6) + 1 == pre.bet.data.roll && 0 < pre.bet.data.amount
            <= pre.vault.lamports ==> (r matches Ok(Some(inv)) && inv.instruction
            == (Instruction::SystemTransfer {
            from: pre.vault.key,
            to: pre.player,
            lamports: pre.bet.data.amount,
        })),
        (keccak256(v@)[0] % 6) + 1 == pre.bet.data.roll && pre.vault.lamports
            < pre.bet.data.amount ==> r == Err::<Option<Invocation>, BetErrorCode>(
            BetErrorCode::InsufficientFunds,
        ),
{
    lemma_winnings_bounded(pre.bet.data.amount);
}

/// The die shows a face from one to six, whatever the revealed value.
pub proof fn lemma_roll_is_a_die_face(value: Seq<u8>)
    ensures
        1 <= roll_of(value) <= 6,
{
}

/// The house's cut of a win is never negative, so a win pays at most the fair payout;
/// with a multiplier of one hundred percent, a win pays back exactly the stake.
pub proof fn lemma_winnings_bounded(amount: u64)
    requires
        amount * BASE_MULTIPLIER <= u64::MAX,
    ensures
        fair_payout(amount) == amount,
        0 <= winnings(amount) <= fair_payout(amount),
        winnings(amount) == amount,
{
    assert((amount * 100) / 100 == amount) by (nonlinear_arith);
}

} // verus!
