use auction::admin::{create_settings, init, set_owner};
use auction::bidding::{authorize_start, place_bid, start, withdraw_bid};
use auction::errors::AuctionError;
use auction::settlement::{claim, end, redeem};
use auction::state::{Auction, Bid, Settings};
use auction::token::TokenAccount;
use auction::vault::{Key, Price, Vault, VaultState};

const MINT: u64 = 11;
const SETTINGS_ID: u64 = 21;
const AUCTION_ID: u64 = 22;
const VAULT_ID: u64 = 23;
const TREASURY_ID: u64 = 24;
const AUTHORITY_ID: u64 = 25;
const PRICING_ID: u64 = 26;
const OPENER: u64 = 31;
const RIVAL: u64 = 32;
const OPENER_ESCROW_ID: u64 = 41;
const RIVAL_ESCROW_ID: u64 = 42;

fn settings() -> Settings {
    // duration 1000, soft close 50, increment 10%, fee 5%.
    create_settings(1000, 50, 100_000_000, 50_000_000).unwrap()
}

fn vault() -> Vault {
    Vault {
        key: Key::VaultV1,
        token_program: 1,
        fraction_mint: 2,
        authority: AUTHORITY_ID,
        fraction_treasury: 3,
        redeem_treasury: 4,
        allow_further_share_creation: false,
        pricing_lookup_address: PRICING_ID,
        token_type_count: 1,
        state: VaultState::Active,
        locked_price_per_share: 1,
    }
}

fn pricing() -> Price {
    Price { key: Key::ExternalAccountKeyV1, price_per_share: 1, price_mint: MINT, allowed_to_combine: true }
}

/// Run a full `start` with reserve price 100 and opening bid 106: the
/// combine has already consumed 100 from the opener's account.
fn started() -> (Auction, Bid, TokenAccount, TokenAccount) {
    let s = settings();
    let mut paying = TokenAccount { mint: MINT, owner: OPENER, amount: 900 };
    let mut treasury = TokenAccount { mint: MINT, owner: AUCTION_ID, amount: 0 };
    let (auction, bid) = start(
        &s, SETTINGS_ID, AUCTION_ID, VAULT_ID, MINT, TREASURY_ID, OPENER_ESCROW_ID, OPENER,
        &mut paying, &mut treasury, 100, 106, 0,
    )
    .unwrap();
    (auction, bid, paying, treasury)
}

#[test]
fn init_and_set_owner() {
    let mut authority = init(7);
    assert_eq!(authority.owner, 7);
    set_owner(&mut authority, 9);
    assert_eq!(authority.owner, 9);
}

#[test]
fn create_settings_validates_fee() {
    assert_eq!(
        create_settings(1000, 50, 100_000_000, 1_000_000_001),
        Err(AuctionError::InvalidFacilitatorFee)
    );
    let s = create_settings(1000, 50, 100_000_000, 1_000_000_000).unwrap();
    assert_eq!(s.facilitator_fee, 1_000_000_000);
}

#[test]
fn authorize_start_passes_on_ready_vault() {
    let paying = TokenAccount { mint: MINT, owner: OPENER, amount: 1000 };
    assert_eq!(
        authorize_start(&vault(), &pricing(), PRICING_ID, AUTHORITY_ID, &paying, 106),
        Ok(())
    );
}

#[test]
fn authorize_start_checks_funds_first() {
    let paying = TokenAccount { mint: MINT, owner: OPENER, amount: 105 };
    assert_eq!(
        authorize_start(&vault(), &pricing(), PRICING_ID, AUTHORITY_ID, &paying, 106),
        Err(AuctionError::InsufficientFunds)
    );
}

#[test]
fn authorize_start_checks_vault_owner() {
    let mut v = vault();
    v.authority = 99;
    let paying = TokenAccount { mint: MINT, owner: OPENER, amount: 1000 };
    assert_eq!(
        authorize_start(&v, &pricing(), PRICING_ID, AUTHORITY_ID, &paying, 106),
        Err(AuctionError::VaultNotOwnedByAuctionAuthority)
    );
}

#[test]
fn authorize_start_checks_pricing_linkage() {
    let paying = TokenAccount { mint: MINT, owner: OPENER, amount: 1000 };
    assert_eq!(
        authorize_start(&vault(), &pricing(), 99, AUTHORITY_ID, &paying, 106),
        Err(AuctionError::PriceAccountDoesNotMatchVaultAccount)
    );
}

#[test]
fn authorize_start_checks_combine_gate() {
    let mut p = pricing();
    p.allowed_to_combine = false;
    let paying = TokenAccount { mint: MINT, owner: OPENER, amount: 1000 };
    assert_eq!(
        authorize_start(&vault(), &p, PRICING_ID, AUTHORITY_ID, &paying, 106),
        Err(AuctionError::VaultCannotCurrentlyBeCombined)
    );
}

#[test]
fn authorize_start_checks_vault_state() {
    let mut v = vault();
    v.state = VaultState::Combined;
    let paying = TokenAccount { mint: MINT, owner: OPENER, amount: 1000 };
    assert_eq!(
        authorize_start(&vault(), &pricing(), PRICING_ID, AUTHORITY_ID, &paying, 106),
        Ok(())
    );
    assert_eq!(
        authorize_start(&v, &pricing(), PRICING_ID, AUTHORITY_ID, &paying, 106),
        Err(AuctionError::VaultNotInActiveState)
    );
}

#[test]
fn start_opens_auction_and_funds_treasury() {
    let (auction, bid, paying, treasury) = started();
    assert_eq!(
        auction,
        Auction {
            start_timestamp: 0,
            end_timestamp: 1000,
            payment_mint: MINT,
            top_bid: 106,
            top_bidder: OPENER,
            reserve_price: 100,
            settings: SETTINGS_ID,
            vault: VAULT_ID,
            payment_treasury: TREASURY_ID,
            fee_paid: false,
        }
    );
    assert_eq!(
        bid,
        Bid {
            bidder: OPENER,
            auction: AUCTION_ID,
            amount: 106,
            timestamp: 0,
            withdrawable: false,
            token_account: OPENER_ESCROW_ID,
        }
    );
    // The combine consumed 100; the remaining 6 of the opening bid moved to
    // the treasury.
    assert_eq!(paying.amount, 894);
    assert_eq!(treasury.amount, 6);
}

#[test]
fn start_rejects_bid_below_grossed_up_minimum() {
    let s = settings();
    let mut paying = TokenAccount { mint: MINT, owner: OPENER, amount: 900 };
    let mut treasury = TokenAccount { mint: MINT, owner: AUCTION_ID, amount: 0 };
    let r = start(
        &s, SETTINGS_ID, AUCTION_ID, VAULT_ID, MINT, TREASURY_ID, OPENER_ESCROW_ID, OPENER,
        &mut paying, &mut treasury, 100, 100, 0,
    );
    assert_eq!(r, Err(AuctionError::BidLessThanReservePrice));
    assert_eq!(paying.amount, 900);
    assert_eq!(treasury.amount, 0);
}

#[test]
fn place_bid_replaces_top_and_refunds_prior() {
    let (mut auction, mut opener_bid, _, mut treasury) = started();
    let mut opener_escrow = TokenAccount { mint: MINT, owner: OPENER_ESCROW_ID, amount: 0 };
    let mut rival_paying = TokenAccount { mint: MINT, owner: RIVAL, amount: 500 };
    let s = settings();
    let new_bid = place_bid(
        &mut auction, AUCTION_ID, &s, &mut opener_bid, &mut opener_escrow, &mut treasury,
        &mut rival_paying, RIVAL, RIVAL_ESCROW_ID, 116, 10,
    )
    .unwrap();
    assert_eq!(auction.top_bid, 116);
    assert_eq!(auction.top_bidder, RIVAL);
    assert_eq!(auction.end_timestamp, 1000);
    assert_eq!(new_bid.amount, 116);
    assert_eq!(new_bid.timestamp, 10);
    assert!(!new_bid.withdrawable);
    // The prior top bid was refunded in full into its escrow and marked
    // withdrawable.
    assert!(opener_bid.withdrawable);
    assert_eq!(opener_escrow.amount, 106);
    // Treasury holds the new bid minus the reserve already in the vault.
    assert_eq!(treasury.amount, 16);
    assert_eq!(rival_paying.amount, 384);
}

#[test]
fn place_bid_rejects_insufficient_increase() {
    let (mut auction, mut opener_bid, _, mut treasury) = started();
    let mut opener_escrow = TokenAccount { mint: MINT, owner: OPENER_ESCROW_ID, amount: 0 };
    let mut rival_paying = TokenAccount { mint: MINT, owner: RIVAL, amount: 500 };
    let s = settings();
    // The bar is 106 + floor(10.6) == 116; 115 is too low.
    let r = place_bid(
        &mut auction, AUCTION_ID, &s, &mut opener_bid, &mut opener_escrow, &mut treasury,
        &mut rival_paying, RIVAL, RIVAL_ESCROW_ID, 115, 10,
    );
    assert_eq!(r, Err(AuctionError::BidTooLow));
    assert_eq!(auction.top_bid, 106);
    assert_eq!(treasury.amount, 6);
    assert_eq!(rival_paying.amount, 500);
}

#[test]
fn place_bid_rejects_after_close() {
    let (mut auction, mut opener_bid, _, mut treasury) = started();
    let mut opener_escrow = TokenAccount { mint: MINT, owner: OPENER_ESCROW_ID, amount: 0 };
    let mut rival_paying = TokenAccount { mint: MINT, owner: RIVAL, amount: 500 };
    let s = settings();
    let r = place_bid(
        &mut auction, AUCTION_ID, &s, &mut opener_bid, &mut opener_escrow, &mut treasury,
        &mut rival_paying, RIVAL, RIVAL_ESCROW_ID, 116, 1000,
    );
    assert_eq!(r, Err(AuctionError::AuctionHasEnded));
}

#[test]
fn place_bid_rejects_insufficient_funds() {
    let (mut auction, mut opener_bid, _, mut treasury) = started();
    let mut opener_escrow = TokenAccount { mint: MINT, owner: OPENER_ESCROW_ID, amount: 0 };
    let mut rival_paying = TokenAccount { mint: MINT, owner: RIVAL, amount: 115 };
    let s = settings();
    let r = place_bid(
        &mut auction, AUCTION_ID, &s, &mut opener_bid, &mut opener_escrow, &mut treasury,
        &mut rival_paying, RIVAL, RIVAL_ESCROW_ID, 116, 10,
    );
    assert_eq!(r, Err(AuctionError::InsufficientFunds));
}

#[test]
fn soft_close_extends_only_inside_window() {
    let s = settings();
    // A bid at 960 leaves 40 < 50 remaining: the close moves to 960 + 50.
    let (mut auction, mut opener_bid, _, mut treasury) = started();
    let mut opener_escrow = TokenAccount { mint: MINT, owner: OPENER_ESCROW_ID, amount: 0 };
    let mut rival_paying = TokenAccount { mint: MINT, owner: RIVAL, amount: 500 };
    place_bid(
        &mut auction, AUCTION_ID, &s, &mut opener_bid, &mut opener_escrow, &mut treasury,
        &mut rival_paying, RIVAL, RIVAL_ESCROW_ID, 116, 960,
    )
    .unwrap();
    assert_eq!(auction.end_timestamp, 1010);
    // A bid at 900 leaves 100 >= 50 remaining: the close stays put.
    let (mut auction, mut opener_bid, _, mut treasury) = started();
    let mut opener_escrow = TokenAccount { mint: MINT, owner: OPENER_ESCROW_ID, amount: 0 };
    let mut rival_paying = TokenAccount { mint: MINT, owner: RIVAL, amount: 500 };
    place_bid(
        &mut auction, AUCTION_ID, &s, &mut opener_bid, &mut opener_escrow, &mut treasury,
        &mut rival_paying, RIVAL, RIVAL_ESCROW_ID, 116, 900,
    )
    .unwrap();
    assert_eq!(auction.end_timestamp, 1000);
}

#[test]
fn withdraw_bid_protects_top_bidder() {
    let (auction, opener_bid, _, _) = started();
    let mut escrow = TokenAccount { mint: MINT, owner: OPENER_ESCROW_ID, amount: 0 };
    let mut dest = TokenAccount { mint: MINT, owner: OPENER, amount: 0 };
    let r = withdraw_bid(&auction, &opener_bid, &mut escrow, &mut dest);
    assert_eq!(r, Err(AuctionError::CannotWithdrawTopBid));
    assert_eq!(dest.amount, 0);
}

#[test]
fn withdraw_bid_drains_outbid_escrow() {
    let (mut auction, mut opener_bid, _, mut treasury) = started();
    let mut opener_escrow = TokenAccount { mint: MINT, owner: OPENER_ESCROW_ID, amount: 0 };
    let mut rival_paying = TokenAccount { mint: MINT, owner: RIVAL, amount: 500 };
    let s = settings();
    place_bid(
        &mut auction, AUCTION_ID, &s, &mut opener_bid, &mut opener_escrow, &mut treasury,
        &mut rival_paying, RIVAL, RIVAL_ESCROW_ID, 116, 10,
    )
    .unwrap();
    let mut dest = TokenAccount { mint: MINT, owner: OPENER, amount: 3 };
    let r = withdraw_bid(&auction, &opener_bid, &mut opener_escrow, &mut dest);
    assert_eq!(r, Ok(()));
    assert_eq!(opener_escrow.amount, 0);
    assert_eq!(dest.amount, 109);
}

#[test]
fn end_delivers_fee_exactly_once() {
    // Top bid 1000 at a 5% fee: the facilitator receives 50 and the
    // treasury keeps 950 for redemption.
    let s = settings();
    let mut auction = Auction {
        start_timestamp: 0,
        end_timestamp: 1000,
        payment_mint: MINT,
        top_bid: 1000,
        top_bidder: RIVAL,
        reserve_price: 0,
        settings: SETTINGS_ID,
        vault: VAULT_ID,
        payment_treasury: TREASURY_ID,
        fee_paid: false,
    };
    let mut treasury = TokenAccount { mint: MINT, owner: AUCTION_ID, amount: 1000 };
    let mut fee_acct = TokenAccount { mint: MINT, owner: AUTHORITY_ID, amount: 0 };
    assert_eq!(end(&mut auction, &s, &mut treasury, &mut fee_acct, 1000), Ok(()));
    assert!(auction.fee_paid);
    assert_eq!(fee_acct.amount, 50);
    assert_eq!(treasury.amount, 950);
    // A second delivery fails and moves nothing.
    assert_eq!(
        end(&mut auction, &s, &mut treasury, &mut fee_acct, 2000),
        Err(AuctionError::FeeAlreadyDelivered)
    );
    assert_eq!(fee_acct.amount, 50);
    assert_eq!(treasury.amount, 950);
}

#[test]
fn end_rejects_open_auction() {
    let s = settings();
    let (mut auction, _, _, mut treasury) = started();
    let mut fee_acct = TokenAccount { mint: MINT, owner: AUTHORITY_ID, amount: 0 };
    assert_eq!(
        end(&mut auction, &s, &mut treasury, &mut fee_acct, 999),
        Err(AuctionError::AuctionHasNotEnded)
    );
    assert!(!auction.fee_paid);
}

#[test]
fn redeem_waits_for_fee_delivery() {
    let (auction, _, _, mut treasury) = started();
    let mut dest = TokenAccount { mint: MINT, owner: RIVAL, amount: 0 };
    assert_eq!(
        redeem(&auction, &mut treasury, &mut dest, 10, 100, 1000),
        Err(AuctionError::FeeHasNotBeenDelivered)
    );
    assert_eq!(
        redeem(&auction, &mut treasury, &mut dest, 10, 100, 500),
        Err(AuctionError::AuctionHasNotEnded)
    );
}

#[test]
fn redeem_pays_pro_rata_until_exhaustion() {
    let auction = Auction {
        start_timestamp: 0,
        end_timestamp: 1000,
        payment_mint: MINT,
        top_bid: 1000,
        top_bidder: RIVAL,
        reserve_price: 0,
        settings: SETTINGS_ID,
        vault: VAULT_ID,
        payment_treasury: TREASURY_ID,
        fee_paid: true,
    };
    let mut treasury = TokenAccount { mint: MINT, owner: AUCTION_ID, amount: 950 };
    let mut dest_a = TokenAccount { mint: MINT, owner: 61, amount: 0 };
    let mut dest_b = TokenAccount { mint: MINT, owner: 62, amount: 0 };
    let mut dest_c = TokenAccount { mint: MINT, owner: 63, amount: 0 };
    // Three holders redeem 10, then 30, then the final 60 of 100 fractions;
    // each sees the balance and supply current at its own step.
    assert_eq!(redeem(&auction, &mut treasury, &mut dest_a, 10, 100, 1000), Ok(95));
    assert_eq!(treasury.amount, 855);
    assert_eq!(redeem(&auction, &mut treasury, &mut dest_b, 30, 90, 1000), Ok(285));
    assert_eq!(treasury.amount, 570);
    assert_eq!(redeem(&auction, &mut treasury, &mut dest_c, 60, 60, 1000), Ok(570));
    // The final redemption drained the treasury to exactly zero, and the
    // payouts sum to what it held after the fee.
    assert_eq!(treasury.amount, 0);
    assert_eq!(dest_a.amount + dest_b.amount + dest_c.amount, 950);
}

#[test]
fn claim_frames_withdraw_request_for_winner() {
    let (auction, _, _, _) = started();
    let ix = claim(
        &auction, OPENER, 1, 1000, 71, 72, 73, 74, VAULT_ID, 75, AUTHORITY_ID, 76, 77, 78,
    )
    .unwrap();
    assert_eq!(ix.program_id, 71);
    let ids: Vec<u64> = ix.accounts.iter().map(|m| m.pubkey).collect();
    assert_eq!(ids, vec![72, 73, 74, VAULT_ID, 75, AUTHORITY_ID, 76, 77, 78]);
    // Only the vault authority signs.
    assert!(ix.accounts[5].is_signer);
    assert_eq!(ix.accounts.iter().filter(|m| m.is_signer).count(), 1);
    // Tag 5, then the amount in little-endian.
    assert_eq!(ix.data, vec![5, 1, 0, 0, 0, 0, 0, 0, 0]);
}

#[test]
fn claim_rejects_non_winner_and_open_auction() {
    let (auction, _, _, _) = started();
    assert_eq!(
        claim(&auction, RIVAL, 1, 1000, 71, 72, 73, 74, VAULT_ID, 75, AUTHORITY_ID, 76, 77, 78)
            .unwrap_err(),
        AuctionError::NotAuctionWinner
    );
    assert_eq!(
        claim(&auction, OPENER, 1, 999, 71, 72, 73, 74, VAULT_ID, 75, AUTHORITY_ID, 76, 77, 78)
            .unwrap_err(),
        AuctionError::AuctionHasNotEnded
    );
}

#[test]
fn monotonic_bidding_over_a_sequence() {
    // Repeated accepted bids each clear the 10% bar over their predecessor.
    let s = settings();
    let (mut auction, mut top, _, mut treasury) = started();
    let mut amounts = vec![106u64];
    let mut bidder: u64 = 100;
    for round in 0..5 {
        let bar = auction.top_bid + auction.top_bid / 10;
        let offered = bar + round as u64;
        let mut escrow = TokenAccount { mint: MINT, owner: 0, amount: 0 };
        let mut paying = TokenAccount { mint: MINT, owner: bidder, amount: offered };
        top = place_bid(
            &mut auction, AUCTION_ID, &s, &mut top, &mut escrow, &mut treasury, &mut paying,
            bidder, bidder + 1000, offered, 10,
        )
        .unwrap();
        amounts.push(offered);
        bidder += 1;
    }
    for w in amounts.windows(2) {
        assert!(w[1] >= w[0] + w[0] / 10);
    }
}
