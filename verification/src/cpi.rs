use vstd::prelude::*;
use crate::pubkey::Pubkey;

verus! {

/// A cross-program call that an instruction handler asks the runtime to make,
/// with the accounts it names given by address.
#[derive(Clone, Copy, Debug, PartialEq, Eq)]
pub enum Instruction {
    /// Moves lamports between system accounts.
    SystemTransfer { from: Pubkey, to: Pubkey, lamports: u64 },
    /// Moves tokens between token accounts of one mint.
    TokenTransfer { from: Pubkey, to: Pubkey, authority: Pubkey, amount: u64 },
    /// Moves tokens, checking the mint and its decimals.
    TokenTransferChecked {
        from: Pubkey,
        mint: Pubkey,
        to: Pubkey,
        authority: Pubkey,
        amount: u64,
        decimals: u8,
    },
    /// Mints new tokens into a token account.
    MintTo { mint: Pubkey, to: Pubkey, authority: Pubkey, amount: u64 },
    /// Closes a token account, sending its lamports to `destination`.
    CloseAccount { account: Pubkey, destination: Pubkey, authority: Pubkey },
    /// Lets `delegate` move up to `amount` tokens out of `to`.
    Approve { to: Pubkey, delegate: Pubkey, authority: Pubkey, amount: u64 },
    /// Withdraws any delegation on `source`.
    Revoke { source: Pubkey, authority: Pubkey },
    /// Freezes a delegated token account through the metadata program.
    FreezeDelegated { delegate: Pubkey, token_account: Pubkey, edition: Pubkey, mint: Pubkey },
    /// Closes a program-owned account: its lamports go to `destination` and its data
    /// is cleared.
    CloseProgramAccount { account: Pubkey, destination: Pubkey },
    /// Thaws a delegated token account through the metadata program.
    ThawDelegated { delegate: Pubkey, token_account: Pubkey, edition: Pubkey, mint: Pubkey },
}

/// One call to make, and the seeds of the program address that signs it
/// (no seeds: only the transaction's own signers sign).
#[derive(Clone, Debug, PartialEq, Eq)]
pub struct Invocation {
    pub instruction: Instruction,
    pub signer_seeds: Vec<Vec<u8>>,
}

/// The seeds of an invocation, each taken as its bytes.
pub open spec fn seeds_view(seeds: Seq<Vec<u8>>) -> Seq<Seq<u8>> {
    seeds.map_values(|s: Vec<u8>| s@)
}

impl Invocation {
    /// Whether this invocation makes `ins`, signed by the program address with `seeds`.
    pub open spec fn is(&self, ins: Instruction, seeds: Seq<Seq<u8>>) -> bool {
        &&& self.instruction == ins
        &&& seeds_view(self.signer_seeds@) == seeds
    }

    /// An invocation signed only by the transaction's signers.
    pub fn unsigned(instruction: Instruction) -> (r: Invocation)
        ensures
            r.is(instruction, seq![]),
    {
        let r = Invocation { instruction, signer_seeds: Vec::new() };
        assert(seeds_view(r.signer_seeds@) =~= seq![]);
        r
    }

    /// An invocation signed by the program address with `seeds`.
    pub fn signed(instruction: Instruction, signer_seeds: Vec<Vec<u8>>) -> (r: Invocation)
        ensures
            r.is(instruction, seeds_view(signer_seeds@)),
    {
        Invocation { instruction, signer_seeds }
    }
}

/// The `n` low bytes of `x`, least significant first.
pub open spec fn le_bytes(x: nat, n: nat) -> Seq<u8>
    decreases n,
{
    if n == 0 {
        seq![]
    } else {
        seq![(x % 256) as u8] + le_bytes(x / 256, (n - 1) as nat)
    }
}

/// The little-endian bytes of a `u64` (what `u64::to_le_bytes` gives).
pub fn u64_le_bytes(x: u64) -> (b: Vec<u8>)
    ensures
        b@ == le_bytes(x as nat, 8),
{
    let mut b: Vec<u8> = Vec::new();
    let mut rest: u64 = x;
    let mut i: usize = 0;
    while i < 8
        invariant
            i <= 8,
            b@ + le_bytes(rest as nat, (8 - i) as nat) == le_bytes(x as nat, 8),
        decreases 8 - i,
    {
        let byte: u8 = (rest % 256) as u8;
        let ghost before = b@;
        b.push(byte);
        assert(le_bytes(rest as nat, (8 - i) as nat) == seq![byte] + le_bytes(
            (rest / 256) as nat,
            (8 - i - 1) as nat,
        ));
        assert(before + le_bytes(rest as nat, (8 - i) as nat) =~= b@ + le_bytes(
            (rest / 256) as nat,
            (8 - i - 1) as nat,
        ));
        rest = rest / 256;
        i = i + 1;
    }
    assert(b@ + le_bytes(rest as nat, 0) =~= b@);
    b
}

/// A byte holding one value.
pub fn single_byte(x: u8) -> (b: Vec<u8>)
    ensures
        b@ == seq![x],
{
    let mut b: Vec<u8> = Vec::new();
    b.push(x);
    b
}

} // verus!
