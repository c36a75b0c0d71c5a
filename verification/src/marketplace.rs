use vstd::prelude::*;
use crate::accounts::{Account, MetadataCollection, in_collection};
use crate::cpi::{Instruction, Invocation, seeds_view, single_byte};
use crate::pubkey::Pubkey;

verus! {

/// A marketplace: who runs it, the fee it takes, and its name.
#[derive(Debug, PartialEq, Eq)]
pub struct Marketplace {
    pub admin: Pubkey,
    /// The fee on each sale, in tenths of a percent of the price.
    pub fee: u16,
    pub bump: u8,
    pub treasury_bump: u8,
    pub reward_bump: u8,
    pub name: String,
}

/// An NFT up for sale.
#[derive(Clone, Copy, Debug, PartialEq, Eq)]
pub struct Listing {
    pub seller: Pubkey,
    pub mint: Pubkey,
    pub price: u64,
    pub bump: u8,
}

#[derive(Clone, Copy, Debug, PartialEq, Eq, Structural)]
pub enum MarketplaceErrors {
    Unauthorized,
}

// ---------------------------------------------------------------- set-up

/// The bumps of the program addresses that creating a marketplace uses.
#[derive(Clone, Copy, Debug, PartialEq, Eq)]
pub struct InitializeBumps {
    pub marketplace: u8,
    pub treasury: u8,
    pub reward_mint: u8,
}

/// What creating a marketplace reads and writes.
pub struct Initialize {
    pub admin: Pubkey,
    pub marketplace: Account<Marketplace>,
    pub treasury: Pubkey,
    pub reward_mint: Pubkey,
}

impl Initialize {
    /// Records the marketplace, run by the admin, with its name and fee.
    pub fn init(&mut self, name: String, fee: u16, bumps: &InitializeBumps) -> (r: Result<
        (),
        MarketplaceErrors,
    >)
        ensures
            r is Ok,
            final(self).marketplace.data == (Marketplace {
                admin: old(self).admin,
                fee,
                bump: bumps.marketplace,
                treasury_bump: bumps.treasury,
                reward_bump: bumps.reward_mint,
                name,
            }),
            final(self).marketplace.key == old(self).marketplace.key,
            final(self).admin == old(self).admin,
            final(self).treasury == old(self).treasury,
            final(self).reward_mint == old(self).reward_mint,
    {
        self.marketplace.data = Marketplace {
            admin: self.admin,
            fee,
            bump: bumps.marketplace,
            treasury_bump: bumps.treasury,
            reward_bump: bumps.reward_mint,
            name,
        };
        Ok(())
    }
}

// ---------------------------------------------------------------- listing

/// The bumps of the program addresses that listing an NFT uses.
#[derive(Clone, Copy, Debug, PartialEq, Eq)]
pub struct ListBumps {
    pub listing: u8,
}

/// What listing an NFT reads and writes.
pub struct List {
    pub seller: Pubkey,
    pub listing: Account<Listing>,
    pub seller_mint: Pubkey,
    pub seller_ata: Pubkey,
    pub marketplace: Pubkey,
    pub vault: Pubkey,
    pub collection_mint: Pubkey,
    pub metadata: Pubkey,
    pub edition: Pubkey,
}

impl List {
    /// Whether the NFT's metadata, which names `collection`, puts the NFT in the
    /// collection of `collection_mint`: only verified members of it are taken.
    pub fn metadata_in_collection(&self, collection: &MetadataCollection) -> (r: bool)
        ensures
            r == (collection.key@ == self.collection_mint@ && collection.verified),
    {
        in_collection(collection, &self.collection_mint)
    }

    /// The NFT, moved from the seller into the listing's vault.
    pub open spec fn nft_deposit(&self) -> Instruction {
        Instruction::TokenTransferChecked {
            from: self.seller_ata,
            mint: self.seller_mint,
            to: self.vault,
            authority: self.seller,
            amount: 1,
            decimals: 0,
        }
    }

    /// Records the listing of the seller's NFT at `price`.
    pub fn list(&mut self, price: u64, bumps: &ListBumps) -> (r: Result<(), MarketplaceErrors>)
        ensures
            r is Ok,
            final(self).listing.data == (Listing {
                seller: old(self).seller,
                mint: old(self).seller_mint,
                price,
                bump: bumps.listing,
            }),
            *final(self) == (List {
                listing: Account { key: old(self).listing.key, data: final(self).listing.data },
                ..*old(self)
            }),
    {
        self.listing.data = Listing {
            seller: self.seller,
            mint: self.seller_mint,
            price,
            bump: bumps.listing,
        };
        Ok(())
    }

    /// The call that moves the NFT from the seller into the listing's vault.
    pub fn deposite_nft(&self) -> (r: Result<Invocation, MarketplaceErrors>)
        ensures
            r matches Ok(inv) && inv.is(self.nft_deposit(), seq![]),
    {
        Ok(
            Invocation::unsigned(
                Instruction::TokenTransferChecked {
                    from: self.seller_ata,
                    mint: self.seller_mint,
                    to: self.vault,
                    authority: self.seller,
                    amount: 1,
                    decimals: 0,
                },
            ),
        )
    }
}

// ---------------------------------------------------------------- buying

/// The marketplace's cut of a sale at `price` under `fee` (tenths of a percent).
pub open spec fn purchase_fee(fee: u16, price: u64) -> int {
    (fee * price) / 1000
}

/// What the seller receives of a sale at `price` under `fee`.
pub open spec fn seller_proceeds(fee: u16, price: u64) -> int {
    price - purchase_fee(fee, price)
}

/// Whether a sale at `price` under `fee` can be settled: where it cannot, the
/// handler's checked arithmetic fails and it panics.
pub open spec fn purchase_fits(fee: u16, price: u64) -> bool {
    &&& fee * price <= u64::MAX
    &&& purchase_fee(fee, price) <= price
}

/// The seeds of the listing's address, with which it signs for its vault.
pub open spec fn listing_seeds(marketplace: Pubkey, mint: Pubkey, bump: u8) -> Seq<Seq<u8>> {
    seq![marketplace@, mint@, seq![bump]]
}

fn listing_signer_seeds(marketplace: &Pubkey, mint: &Pubkey, bump: u8) -> (s: Vec<Vec<u8>>)
    ensures
        seeds_view(s@) == listing_seeds(*marketplace, *mint, bump),
{
    let mut s: Vec<Vec<u8>> = Vec::new();
    s.push(marketplace.to_bytes());
    s.push(mint.to_bytes());
    s.push(single_byte(bump));
    assert(seeds_view(s@) =~= listing_seeds(*marketplace, *mint, bump));
    s
}

/// What buying a listed NFT reads and writes.
pub struct Purchase {
    pub buyer: Pubkey,
    pub marketplace: Account<Marketplace>,
    pub seller: Pubkey,
    pub seller_mint: Pubkey,
    pub listing: Account<Listing>,
    pub buyer_ata: Pubkey,
    pub treasury: Pubkey,
    pub vault: Pubkey,
}

impl Purchase {
    /// The sale's price less the fee, paid by the buyer to the seller.
    pub open spec fn seller_payment(&self) -> Instruction {
        Instruction::SystemTransfer {
            from: self.buyer,
            to: self.seller,
            lamports: seller_proceeds(self.marketplace.data.fee, self.listing.data.price) as u64,
        }
    }

    /// The sale's fee, paid by the buyer to the marketplace's treasury.
    pub open spec fn fee_payment(&self) -> Instruction {
        Instruction::SystemTransfer {
            from: self.buyer,
            to: self.treasury,
            lamports: purchase_fee(self.marketplace.data.fee, self.listing.data.price) as u64,
        }
    }

    /// The NFT, moved from the vault to the buyer.
    pub open spec fn nft_delivery(&self) -> Instruction {
        Instruction::TokenTransferChecked {
            from: self.vault,
            mint: self.seller_mint,
            to: self.buyer_ata,
            authority: self.listing.key,
            amount: 1,
            decimals: 0,
        }
    }

    /// The emptied vault, closed with its rent going to the seller.
    pub open spec fn vault_closing(&self) -> Instruction {
        Instruction::CloseAccount {
            account: self.vault,
            destination: self.seller,
            authority: self.listing.key,
        }
    }

    /// The seeds with which the listing signs for its vault.
    pub open spec fn listing_signer(&self) -> Seq<Seq<u8>> {
        listing_seeds(self.marketplace.key, self.seller_mint, self.listing.data.bump)
    }

    /// The calls that pay for the NFT: the price less the fee to the seller, and the
    /// fee to the marketplace's treasury.
    pub fn transfer_amounts(&self) -> (r: Result<Vec<Invocation>, MarketplaceErrors>)
        requires
            purchase_fits(self.marketplace.data.fee, self.listing.data.price),
        ensures
            r matches Ok(calls) && {
                &&& calls@.len() == 2
                &&& calls@[0].is(self.seller_payment(), seq![])
                &&& calls@[1].is(self.fee_payment(), seq![])
                &&& calls@[0].instruction == (Instruction::SystemTransfer {
                    from: self.buyer,
                    to: self.seller,
                    lamports: (self.listing.data.price - (self.marketplace.data.fee
                        * self.listing.data.price) / 1000) as u64,
                })
                &&& calls@[1].instruction == (Instruction::SystemTransfer {
                    from: self.buyer,
                    to: self.treasury,
                    lamports: ((self.marketplace.data.fee * self.listing.data.price)
                        / 1000) as u64,
                })
            },
    {
        let fees: u64 = (self.marketplace.data.fee as u64) * self.listing.data.price / 1000;
        let amount: u64 = self.listing.data.price - fees;
        let to_seller = Invocation::unsigned(
            Instruction::SystemTransfer { from: self.buyer, to: self.seller, lamports: amount },
        );
        let to_treasury = Invocation::unsigned(
            Instruction::SystemTransfer { from: self.buyer, to: self.treasury, lamports: fees },
        );
        let mut calls: Vec<Invocation> = Vec::new();
        calls.push(to_seller);
        calls.push(to_treasury);
        Ok(calls)
    }

    /// The call that moves the NFT from the vault to the buyer, signed by the listing.
    pub fn transfer_nft(&self) -> (r: Result<Invocation, MarketplaceErrors>)
        ensures
            r matches Ok(inv) && inv.is(self.nft_delivery(), self.listing_signer()),
    {
        let seeds = listing_signer_seeds(
            &self.marketplace.key,
            &self.seller_mint,
            self.listing.data.bump,
        );
        Ok(
            Invocation::signed(
                Instruction::TokenTransferChecked {
                    from: self.vault,
                    mint: self.seller_mint,
                    to: self.buyer_ata,
                    authority: self.listing.key,
                    amount: 1,
                    decimals: 0,
                },
                seeds,
            ),
        )
    }

    /// The call that closes the emptied vault, its rent going to the seller.
    pub fn close_vault(&self) -> (r: Result<Invocation, MarketplaceErrors>)
        ensures
            r matches Ok(inv) && inv.is(self.vault_closing(), self.listing_signer()),
    {
        let seeds = listing_signer_seeds(
            &self.marketplace.key,
            &self.seller_mint,
            self.listing.data.bump,
        );
        Ok(
            Invocation::signed(
                Instruction::CloseAccount {
                    account: self.vault,
                    destination: self.seller,
                    authority: self.listing.key,
                },
                seeds,
            ),
        )
    }
}

// ---------------------------------------------------------------- delisting

/// What taking an NFT off sale reads and writes.
pub struct Delist {
    pub seller: Pubkey,
    pub listing: Account<Listing>,
    pub seller_mint: Pubkey,
    pub seller_ata: Pubkey,
    pub marketplace: Pubkey,
    pub vault: Pubkey,
}

impl Delist {
    /// The NFT, moved from the vault back to the seller.
    pub open spec fn nft_return(&self) -> Instruction {
        Instruction::TokenTransferChecked {
            from: self.vault,
            mint: self.seller_mint,
            to: self.seller_ata,
            authority: self.listing.key,
            amount: 1,
            decimals: 0,
        }
    }

    /// The vault, closed with its rent going to the seller.
    pub open spec fn vault_closing(&self) -> Instruction {
        Instruction::CloseAccount {
            account: self.vault,
            destination: self.seller,
            authority: self.listing.key,
        }
    }

    /// The seeds with which the listing signs for its vault.
    pub open spec fn listing_signer(&self) -> Seq<Seq<u8>> {
        listing_seeds(self.marketplace, self.seller_mint, self.listing.data.bump)
    }

    /// The listing account, closed with its rent going to the seller.
    pub open spec fn listing_closing(&self) -> Instruction {
        Instruction::CloseProgramAccount { account: self.listing.key, destination: self.seller }
    }

    /// Whether the one asking is the listing's seller.
    pub open spec fn by_seller(&self) -> bool {
        self.seller@ == self.listing.data.seller@
    }

    /// The call that gives the NFT back to its seller; only the listing's seller may.
    pub fn withdraw_nft(&self) -> (r: Result<Invocation, MarketplaceErrors>)
        ensures
            self.by_seller() <==> r is Ok,
            r is Err ==> r == Err::<Invocation, MarketplaceErrors>(
                MarketplaceErrors::Unauthorized,
            ),
            r matches Ok(inv) ==> inv.is(self.nft_return(), self.listing_signer()),
    {
        if self.seller != self.listing.data.seller {
            return Err(MarketplaceErrors::Unauthorized);
        }
        let seeds = listing_signer_seeds(&self.marketplace, &self.seller_mint, self.listing.data.bump);
        Ok(
            Invocation::signed(
                Instruction::TokenTransferChecked {
                    from: self.vault,
                    mint: self.seller_mint,
                    to: self.seller_ata,
                    authority: self.listing.key,
                    amount: 1,
                    decimals: 0,
                },
                seeds,
            ),
        )
    }

    /// The call that closes the vault, its rent going to the seller; only the
    /// listing's seller may.
    pub fn close_account(&self) -> (r: Result<Invocation, MarketplaceErrors>)
        ensures
            self.by_seller() <==> r is Ok,
            r is Err ==> r == Err::<Invocation, MarketplaceErrors>(
                MarketplaceErrors::Unauthorized,
            ),
            r matches Ok(inv) ==> inv.is(self.vault_closing(), self.listing_signer()),
    {
        if self.seller != self.listing.data.seller {
            return Err(MarketplaceErrors::Unauthorized);
        }
        let seeds = listing_signer_seeds(&self.marketplace, &self.seller_mint, self.listing.data.bump);
        Ok(
            Invocation::signed(
                Instruction::CloseAccount {
                    account: self.vault,
                    destination: self.seller,
                    authority: self.listing.key,
                },
                seeds,
            ),
        )
    }
}

// ---------------------------------------------------------------- laws

/// A sale splits its price between the seller and the marketplace, with nothing
/// lost or made: the seller's part and the fee add up to the price.
pub proof fn lemma_sale_splits_price(fee: u16, price: u64)
    requires
        purchase_fits(fee, price),
    ensures
        seller_proceeds(fee, price) + purchase_fee(fee, price) == price,
        0 <= purchase_fee(fee, price),
        0 <= seller_proceeds(fee, price),
{
    assert(0 <= (fee * price) / 1000) by (nonlinear_arith);
}

/// A purchase pays the treasury the fee, `fee * price / 1000` rounded down with the
/// product taken whole, and the seller the rest of the price; the two payments come
/// from the buyer and add up to the price.
pub proof fn lemma_purchase_payments(p: Purchase)
    requires
        p.marketplace.data.fee * p.listing.data.price <= u64::MAX,
        (p.marketplace.data.fee * p.listing.data.price) / 1000 <= p.listing.data.price,
    ensures
        purchase_fits(p.marketplace.data.fee, p.listing.data.price),
        p.fee_payment() == (Instruction::SystemTransfer {
            from: p.buyer,
            to: p.treasury,
            lamports: ((p.marketplace.data.fee * p.listing.data.price) / 1000) as u64,
        }),
        p.seller_payment() == (Instruction::SystemTransfer {
            from: p.buyer,
            to: p.seller,
            lamports: (p.listing.data.price - (p.marketplace.data.fee * p.listing.data.price)
                / 1000) as u64,
        }),
        ((p.marketplace.data.fee * p.listing.data.price) / 1000) + (p.listing.data.price - (
        p.marketplace.data.fee * p.listing.data.price) / 1000) == p.listing.data.price,
{
    let f = p.marketplace.data.fee;
    let pr = p.listing.data.price;
    assert(0 <= (f * pr) / 1000) by (nonlinear_arith);
}

/// A fee of at most a hundred percent (1000 tenths) never takes more than the price,
/// so such a sale can be settled wherever the product of fee and price fits a `u64`.
pub proof fn lemma_fee_within_price(fee: u16, price: u64)
    requires
        fee <= 1000,
        fee * price <= u64::MAX,
    ensures
        purchase_fee(fee, price) <= price,
        purchase_fits(fee, price),
{
    assert((fee * price) / 1000 <= price) by (nonlinear_arith)
        requires
            fee <= 1000,
    ;
}

/// Listing an NFT and then delisting it, by the same seller for the same listing,
/// goes through and undoes the listing: the NFT goes back from the vault to the
/// seller's token account it came from, and the vault and the listing are closed to
/// the seller.
pub proof fn lemma_list_then_delist_round_trip(
    listed: List,
    price: u64,
    bumps: ListBumps,
    delist: Delist,
)
    requires
        delist.seller == listed.seller,
        delist.listing == (Account {
            key: listed.listing.key,
            data: Listing {
                seller: listed.seller,
                mint: listed.seller_mint,
                price,
                bump: bumps.listing,
            },
        }),
        delist.seller_mint == listed.seller_mint,
        delist.seller_ata == listed.seller_ata,
        delist.marketplace == listed.marketplace,
        delist.vault == listed.vault,
    ensures
        delist.by_seller(),
        delist.nft_return() == (match listed.nft_deposit() {
            Instruction::TokenTransferChecked { from, mint, to, amount, decimals, .. } =>
                Instruction::TokenTransferChecked {
                from: to,
                mint,
                to: from,
                authority: delist.listing.key,
                amount,
                decimals,
            },
            other => other,
        }),
        delist.vault_closing() == (Instruction::CloseAccount {
            account: listed.vault,
            destination: listed.seller,
            authority: listed.listing.key,
        }),
        delist.listing_closing() == (Instruction::CloseProgramAccount {
            account: listed.listing.key,
            destination: listed.seller,
        }),
{
}

// ---------------------------------------------------------------- the program's instructions

/// Creates a marketplace.
pub fn init_marketplace(
    accounts: &mut Initialize,
    name: String,
    fee: u16,
    bumps: &InitializeBumps,
) -> (r: Result<(), MarketplaceErrors>)
    ensures
        r is Ok,
        final(accounts).marketplace.data == (Marketplace {
            admin: old(accounts).admin,
            fee,
            bump: bumps.marketplace,
            treasury_bump: bumps.treasury,
            reward_bump: bumps.reward_mint,
            name,
        }),
        final(accounts).marketplace.key == old(accounts).marketplace.key,
        final(accounts).admin == old(accounts).admin,
        final(accounts).treasury == old(accounts).treasury,
        final(accounts).reward_mint == old(accounts).reward_mint,
{
    accounts.init(name, fee, bumps)
}

/// Lists an NFT at `price`, and gives the call that moves it into the vault.
pub fn listing(accounts: &mut List, price: u64, bumps: &ListBumps) -> (r: Result<
    Vec<Invocation>,
    MarketplaceErrors,
>)
    ensures
        final(accounts).listing.data == (Listing {
            seller: old(accounts).seller,
            mint: old(accounts).seller_mint,
            price,
            bump: bumps.listing,
        }),
        *final(accounts) == (List {
            listing: Account { key: old(accounts).listing.key, data: final(accounts).listing.data },
            ..*old(accounts)
        }),
        r matches Ok(calls) && calls@.len() == 1 && calls@[0].is(old(accounts).nft_deposit(), seq![]),
{
    let ghost pre = *accounts;
    match accounts.list(price, bumps) {
        Ok(()) => {},
        Err(e) => {
            return Err(e);
        },
    }
    let deposit = match accounts.deposite_nft() {
        Ok(inv) => inv,
        Err(e) => {
            return Err(e);
        },
    };
    assert(accounts.nft_deposit() == pre.nft_deposit());
    let mut calls: Vec<Invocation> = Vec::new();
    calls.push(deposit);
    Ok(calls)
}

/// Buys the listed NFT: gives the calls that pay the seller and the treasury, deliver
/// the NFT to the buyer and close the vault, in that order.
pub fn purchase(accounts: &Purchase) -> (r: Result<Vec<Invocation>, MarketplaceErrors>)
    requires
        purchase_fits(accounts.marketplace.data.fee, accounts.listing.data.price),
    ensures
        r matches Ok(calls) && {
            &&& calls@.len() == 4
            &&& calls@[0].is(accounts.seller_payment(), seq![])
            &&& calls@[1].is(accounts.fee_payment(), seq![])
            &&& calls@[2].is(accounts.nft_delivery(), accounts.listing_signer())
            &&& calls@[3].is(accounts.vault_closing(), accounts.listing_signer())
        },
{
    let mut calls = match accounts.transfer_amounts() {
        Ok(calls) => calls,
        Err(e) => {
            return Err(e);
        },
    };
    let delivery = match accounts.transfer_nft() {
        Ok(inv) => inv,
        Err(e) => {
            return Err(e);
        },
    };
    let closing = match accounts.close_vault() {
        Ok(inv) => inv,
        Err(e) => {
            return Err(e);
        },
    };
    calls.push(delivery);
    calls.push(closing);
    Ok(calls)
}

/// Takes an NFT off sale: gives the calls that return it to the seller, close the
/// vault and close the listing, both with their rent going to the seller; only the
/// listing's seller may.
pub fn delisting(accounts: &Delist) -> (r: Result<Vec<Invocation>, MarketplaceErrors>)
    ensures
        accounts.by_seller() <==> r is Ok,
        r is Err ==> r == Err::<Vec<Invocation>, MarketplaceErrors>(
            MarketplaceErrors::Unauthorized,
        ),
        r matches Ok(calls) ==> {
            &&& calls@.len() == 3
            &&& calls@[0].is(accounts.nft_return(), accounts.listing_signer())
            &&& calls@[1].is(accounts.vault_closing(), accounts.listing_signer())
            &&& calls@[2].is(accounts.listing_closing(), seq![])
        },
{
    let back = match accounts.withdraw_nft() {
        Ok(inv) => inv,
        Err(e) => {
            return Err(e);
        },
    };
    let closing = match accounts.close_account() {
        Ok(inv) => inv,
        Err(e) => {
            return Err(e);
        },
    };
    let mut calls: Vec<Invocation> = Vec::new();
    calls.push(back);
    calls.push(closing);
    calls.push(
        Invocation::unsigned(
            Instruction::CloseProgramAccount {
                account: accounts.listing.key,
                destination: accounts.seller,
            },
        ),
    );
    Ok(calls)
}

} // verus!
