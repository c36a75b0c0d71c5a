use anchor_programs::accounts::{Account, MetadataCollection};
use anchor_programs::cpi::{Instruction, Invocation};
use anchor_programs::marketplace::{
    delisting, init_marketplace, listing, purchase, Delist, Initialize, InitializeBumps, List,
    ListBumps, Listing, Marketplace, MarketplaceErrors, Purchase,
};
use anchor_programs::pubkey::Pubkey;

fn key(b: u8) -> Pubkey {
    Pubkey::new_from_array([b; 32])
}

fn market(fee: u16) -> Marketplace {
    Marketplace {
        admin: key(1),
        fee,
        bump: 1,
        treasury_bump: 2,
        reward_bump: 3,
        name: "shop".to_string(),
    }
}

fn sold(price: u64) -> Listing {
    Listing { seller: key(2), mint: key(4), price, bump: 250 }
}

fn purchase_accounts(fee: u16, price: u64) -> Purchase {
    Purchase {
        buyer: key(5),
        marketplace: Account { key: key(6), data: market(fee) },
        seller: key(2),
        seller_mint: key(4),
        listing: Account { key: key(7), data: sold(price) },
        buyer_ata: key(8),
        treasury: key(9),
        vault: key(10),
    }
}

fn listing_seeds() -> Vec<Vec<u8>> {
    vec![vec![6u8; 32], vec![4u8; 32], vec![250]]
}

#[test]
fn init_marketplace_records_admin_fee_name() {
    let mut accounts = Initialize {
        admin: key(1),
        marketplace: Account { key: key(6), data: market(0) },
        treasury: key(9),
        reward_mint: key(11),
    };
    let bumps = InitializeBumps { marketplace: 10, treasury: 20, reward_mint: 30 };
    init_marketplace(&mut accounts, "nft bazaar".to_string(), 25, &bumps).unwrap();
    assert_eq!(
        accounts.marketplace.data,
        Marketplace {
            admin: key(1),
            fee: 25,
            bump: 10,
            treasury_bump: 20,
            reward_bump: 30,
            name: "nft bazaar".to_string(),
        }
    );
}

#[test]
fn listing_records_price_and_deposits_nft() {
    let mut accounts = List {
        seller: key(2),
        listing: Account { key: key(7), data: sold(0) },
        seller_mint: key(4),
        seller_ata: key(3),
        marketplace: key(6),
        vault: key(10),
        collection_mint: key(12),
        metadata: key(13),
        edition: key(14),
    };
    let calls = listing(&mut accounts, 900, &ListBumps { listing: 249 }).unwrap();
    assert_eq!(accounts.listing.data, Listing { seller: key(2), mint: key(4), price: 900, bump: 249 });
    assert_eq!(
        calls,
        vec![Invocation {
            instruction: Instruction::TokenTransferChecked {
                from: key(3),
                mint: key(4),
                to: key(10),
                authority: key(2),
                amount: 1,
                decimals: 0,
            },
            signer_seeds: vec![],
        }]
    );
}

#[test]
fn purchase_splits_price_between_seller_and_treasury() {
    let accounts = purchase_accounts(25, 1000);
    let calls = purchase(&accounts).unwrap();
    assert_eq!(calls.len(), 4);
    assert_eq!(
        calls[0].instruction,
        Instruction::SystemTransfer { from: key(5), to: key(2), lamports: 975 }
    );
    assert_eq!(
        calls[1].instruction,
        Instruction::SystemTransfer { from: key(5), to: key(9), lamports: 25 }
    );
    assert_eq!(
        calls[2],
        Invocation {
            instruction: Instruction::TokenTransferChecked {
                from: key(10),
                mint: key(4),
                to: key(8),
                authority: key(7),
                amount: 1,
                decimals: 0,
            },
            signer_seeds: listing_seeds(),
        }
    );
    assert_eq!(
        calls[3],
        Invocation {
            instruction: Instruction::CloseAccount { account: key(10), destination: key(2), authority: key(7) },
            signer_seeds: listing_seeds(),
        }
    );
}

#[test]
fn purchase_fee_rounds_down() {
    let accounts = purchase_accounts(3, 999);
    let calls = accounts.transfer_amounts().unwrap();
    // 3 * 999 / 1000 = 2
    assert_eq!(
        calls[1].instruction,
        Instruction::SystemTransfer { from: key(5), to: key(9), lamports: 2 }
    );
    assert_eq!(
        calls[0].instruction,
        Instruction::SystemTransfer { from: key(5), to: key(2), lamports: 997 }
    );
}

#[test]
fn purchase_with_whole_price_as_fee() {
    let accounts = purchase_accounts(1000, 77);
    let calls = accounts.transfer_amounts().unwrap();
    assert_eq!(calls[0].instruction, Instruction::SystemTransfer { from: key(5), to: key(2), lamports: 0 });
    assert_eq!(calls[1].instruction, Instruction::SystemTransfer { from: key(5), to: key(9), lamports: 77 });
}

fn delist_accounts(seller: Pubkey) -> Delist {
    Delist {
        seller,
        listing: Account { key: key(7), data: sold(500) },
        seller_mint: key(4),
        seller_ata: key(3),
        marketplace: key(6),
        vault: key(10),
    }
}

#[test]
fn delisting_returns_nft_to_seller() {
    let calls = delisting(&delist_accounts(key(2))).unwrap();
    assert_eq!(
        calls,
        vec![
            Invocation {
                instruction: Instruction::TokenTransferChecked {
                    from: key(10),
                    mint: key(4),
                    to: key(3),
                    authority: key(7),
                    amount: 1,
                    decimals: 0,
                },
                signer_seeds: listing_seeds(),
            },
            Invocation {
                instruction: Instruction::CloseAccount { account: key(10), destination: key(2), authority: key(7) },
                signer_seeds: listing_seeds(),
            },
            Invocation {
                instruction: Instruction::CloseProgramAccount { account: key(7), destination: key(2) },
                signer_seeds: vec![],
            },
        ]
    );
}

#[test]
fn delisting_by_someone_else_is_refused() {
    let accounts = delist_accounts(key(99));
    assert_eq!(delisting(&accounts), Err(MarketplaceErrors::Unauthorized));
    assert_eq!(accounts.withdraw_nft(), Err(MarketplaceErrors::Unauthorized));
    assert_eq!(accounts.close_account(), Err(MarketplaceErrors::Unauthorized));
    let mut almost = [2u8; 32];
    almost[31] = 3;
    assert_eq!(
        delist_accounts(Pubkey::new_from_array(almost)).withdraw_nft(),
        Err(MarketplaceErrors::Unauthorized)
    );
}

fn list_accounts() -> List {
    List {
        seller: key(2),
        listing: Account { key: key(7), data: sold(0) },
        seller_mint: key(4),
        seller_ata: key(3),
        marketplace: key(6),
        vault: key(10),
        collection_mint: key(12),
        metadata: key(13),
        edition: key(14),
    }
}

#[test]
fn listing_needs_verified_member_of_collection() {
    let l = list_accounts();
    assert!(l.metadata_in_collection(&MetadataCollection { key: key(12), verified: true }));
    assert!(!l.metadata_in_collection(&MetadataCollection { key: key(12), verified: false }));
    assert!(!l.metadata_in_collection(&MetadataCollection { key: key(11), verified: true }));
}

#[test]
fn list_then_delist_returns_nft() {
    let mut l = list_accounts();
    let deposit = listing(&mut l, 900, &ListBumps { listing: 250 }).unwrap();
    let d = Delist {
        seller: l.seller,
        listing: Account { key: l.listing.key, data: l.listing.data },
        seller_mint: l.seller_mint,
        seller_ata: l.seller_ata,
        marketplace: l.marketplace,
        vault: l.vault,
    };
    let back = delisting(&d).unwrap();
    match (deposit[0].instruction, back[0].instruction) {
        (
            Instruction::TokenTransferChecked { from: f1, to: t1, amount: a1, mint: m1, .. },
            Instruction::TokenTransferChecked { from: f2, to: t2, amount: a2, mint: m2, .. },
        ) => {
            assert_eq!((f1, t1, a1, m1), (t2, f2, a2, m2));
        }
        _ => panic!("expected two token transfers"),
    }
    assert_eq!(back[2].instruction, Instruction::CloseProgramAccount { account: key(7), destination: key(2) });
}
