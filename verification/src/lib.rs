//! The logic of a set of Solana programs: a constant-product pool, a dice game,
//! an NFT marketplace and NFT staking. Each instruction handler takes plain
//! snapshots of the accounts it reads, writes the account data it owns, and
//! gives back the cross-program calls to make, in order.

pub mod accounts;
pub mod amm;
pub mod cpi;
pub mod dice;
pub mod marketplace;
pub mod nft_staking;
pub mod pubkey;
