# anchor_programs

The instruction logic of four Solana programs, written in Verus and proved
against its contracts:

- `amm`: a constant-product pool (creating a pool, depositing liquidity);
- `dice`: a dice game (placing a bet, resolving it from a randomness oracle);
- `marketplace`: an NFT marketplace (creating it, listing, buying, delisting);
- `nft_staking`: NFT staking for points (rules, users, staking, unstaking).

Each handler takes plain snapshots of the accounts it reads (`accounts`,
`pubkey`), updates the account data it owns, and returns the cross-program
calls to make, in order, with the seeds of the program address that signs
each (`cpi`). The program modules close with proof functions for the laws
that span several handlers; laws about one handler stand in its `ensures`.

`app/` is the on-chain side: it reads the accounts, the clock and the
randomness oracle, asks the constant-product curve for deposit amounts,
makes the planned calls through Anchor, writes the data back and logs the
events.

`tests/` runs the handlers on concrete accounts.
