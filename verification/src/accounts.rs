use vstd::prelude::*;
use crate::pubkey::Pubkey;

verus! {

/// A system-owned account: its address and the lamports it holds.
#[derive(Clone, Copy, Debug, PartialEq, Eq)]
pub struct SystemAccount {
    pub key: Pubkey,
    pub lamports: u64,
}

/// A token account: its address and the tokens it holds.
#[derive(Clone, Copy, Debug, PartialEq, Eq)]
pub struct TokenAccount {
    pub key: Pubkey,
    pub amount: u64,
}

/// A token mint: its address and the tokens in circulation.
#[derive(Clone, Copy, Debug, PartialEq, Eq)]
pub struct Mint {
    pub key: Pubkey,
    pub supply: u64,
}

/// A program-owned account: its address and the data it holds.
#[derive(Debug, PartialEq, Eq)]
pub struct Account<T> {
    pub key: Pubkey,
    pub data: T,
}

/// The collection that an NFT's metadata names, and whether the collection's
/// authority has verified it.
#[derive(Clone, Copy, Debug, PartialEq, Eq)]
pub struct MetadataCollection {
    pub key: Pubkey,
    pub verified: bool,
}

/// Whether metadata that names `collection` puts its NFT in the collection of
/// `collection_mint`: the named collection is that mint, and it is verified.
pub fn in_collection(collection: &MetadataCollection, collection_mint: &Pubkey) -> (r: bool)
    ensures
        r == (collection.key@ == collection_mint@ && collection.verified),
{
    collection.key == *collection_mint && collection.verified
}

} // verus!
