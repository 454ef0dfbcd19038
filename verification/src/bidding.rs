//! Opening an auction and competing for it: admission of the opening bid
//! after the vault is combined, admission of subsequent bids, and withdrawal
//! of outbid records.
//!
//! The custodial combine operation is performed by the host between
//! [`authorize_start`] and [`start`]: the gateway returns no value, so the
//! host observes the amount it consumed from the opener's paying account as
//! a balance difference and hands it to [`start`] as the reserve price.

use vstd::prelude::*;

use crate::errors::AuctionError;
use crate::state::{Auction, Bid, Settings, MAX_FACILITATOR_FEE};
use crate::token::{transfer, TokenAccount};
use crate::utils;
use crate::utils::{
    spec_bid_accepted, spec_minimum_bid_increase, spec_minimum_starting_bid,
};
use crate::vault::{Price, Vault, VaultState};

verus! {

/// The checks that gate the combine call when an auction is started, in the
/// order they are reported: funds, vault ownership, pricing linkage, the
/// oracle's combine gate, the vault's custodial state.
pub open spec fn spec_start_gate(
    vault: Vault,
    external_pricing_account: Price,
    external_pricing_account_id: u64,
    authority_id: u64,
    paying_token_account: TokenAccount,
    bid_amount: u64,
) -> Result<(), AuctionError> {
    if paying_token_account.amount < bid_amount {
        Err(AuctionError::InsufficientFunds)
    } else if vault.authority != authority_id {
        Err(AuctionError::VaultNotOwnedByAuctionAuthority)
    } else if vault.pricing_lookup_address != external_pricing_account_id {
        Err(AuctionError::PriceAccountDoesNotMatchVaultAccount)
    } else if !external_pricing_account.allowed_to_combine {
        Err(AuctionError::VaultCannotCurrentlyBeCombined)
    } else if vault.state != VaultState::Active {
        Err(AuctionError::VaultNotInActiveState)
    } else {
        Ok(())
    }
}

/// The admission decision [`start`] makes once the reserve price is known:
/// the opening bid must clear the grossed-up minimum, and the minimum itself
/// must be computable.
pub open spec fn spec_start_admission(
    settings: Settings,
    reserve_price: u64,
    bid_amount: u64,
) -> Result<(), AuctionError> {
    if settings.facilitator_fee == MAX_FACILITATOR_FEE {
        Err(AuctionError::NumericalOverflowError)
    } else if spec_minimum_starting_bid(reserve_price, settings.facilitator_fee) > u64::MAX {
        Err(AuctionError::NumericalOverflowError)
    } else if bid_amount < spec_minimum_starting_bid(reserve_price, settings.facilitator_fee) {
        Err(AuctionError::BidLessThanReservePrice)
    } else {
        Ok(())
    }
}

/// Validate that a vault is ready to be combined for an opening bid.  Only
/// when this returns `Ok` may the host invoke the gateway's combine
/// operation; the combine consumes the reserve price from the opener's
/// paying account, which [`start`] then settles against.
pub fn authorize_start(
    vault: &Vault,
    external_pricing_account: &Price,
    external_pricing_account_id: u64,
    authority_id: u64,
    paying_token_account: &TokenAccount,
    bid_amount: u64,
) -> (r: Result<(), AuctionError>)
    ensures
        r == spec_start_gate(
            *vault,
            *external_pricing_account,
            external_pricing_account_id,
            authority_id,
            *paying_token_account,
            bid_amount,
        ),
{
    match utils::assert_sufficient_funds(paying_token_account, bid_amount) {
        Ok(u) => u,
        Err(e) => { return Err(e) },
    };
    match utils::assert_vault_owned_by_auction_program_authority(vault, authority_id) {
        Ok(u) => u,
        Err(e) => { return Err(e) },
    };
    match utils::assert_correct_pricing_account(vault, external_pricing_account_id) {
        Ok(u) => u,
        Err(e) => { return Err(e) },
    };
    match utils::assert_vault_allowed_to_combine(external_pricing_account) {
        Ok(u) => u,
        Err(e) => { return Err(e) },
    };
    match utils::assert_vault_in_active_state(vault) {
        Ok(u) => u,
        Err(e) => { return Err(e) },
    };
    Ok(())
}

/// Open the auction after the vault has been combined.
///
/// `reserve_price` is the amount the combine operation consumed from the
/// opener's paying account, observed by the host as a balance difference.
/// On success the portion of the opening bid not already consumed moves into
/// the payment treasury, and the new auction and its opening bid record are
/// returned for the host to store under `auction_id` and the derived bid
/// key.  On failure nothing changes.
pub fn start(
    settings: &Settings,
    settings_id: u64,
    auction_id: u64,
    vault_id: u64,
    payment_mint: u64,
    payment_treasury_id: u64,
    bid_token_account_id: u64,
    bidder: u64,
    paying_token_account: &mut TokenAccount,
    payment_treasury: &mut TokenAccount,
    reserve_price: u64,
    bid_amount: u64,
    now: u64,
) -> (r: Result<(Auction, Bid), AuctionError>)
    requires
        settings.wf(),
        now + settings.duration <= u64::MAX,
        old(paying_token_account).mint == old(payment_treasury).mint,
        old(paying_token_account).amount + reserve_price >= bid_amount,
        old(payment_treasury).amount + bid_amount <= u64::MAX,
    ensures
        spec_start_admission(*settings, reserve_price, bid_amount) matches Err(e) ==> {
            &&& r == Err::<(Auction, Bid), AuctionError>(e)
            &&& *final(paying_token_account) == *old(paying_token_account)
            &&& *final(payment_treasury) == *old(payment_treasury)
        },
        spec_start_admission(*settings, reserve_price, bid_amount) is Ok ==> {
            &&& bid_amount >= reserve_price
            &&& r == Ok::<(Auction, Bid), AuctionError>(
                (
                    (Auction {
                        start_timestamp: now,
                        end_timestamp: (now + settings.duration) as u64,
                        payment_mint,
                        top_bid: bid_amount,
                        top_bidder: bidder,
                        reserve_price,
                        settings: settings_id,
                        vault: vault_id,
                        payment_treasury: payment_treasury_id,
                        fee_paid: false,
                    }),
                    (Bid {
                        bidder,
                        auction: auction_id,
                        amount: bid_amount,
                        timestamp: now,
                        withdrawable: false,
                        token_account: bid_token_account_id,
                    }),
                ),
            )
            &&& final(paying_token_account).amount == old(paying_token_account).amount - (
            bid_amount - reserve_price)
            &&& final(payment_treasury).amount == old(payment_treasury).amount + (bid_amount
                - reserve_price)
            &&& final(paying_token_account).mint == old(paying_token_account).mint
            &&& final(paying_token_account).owner == old(paying_token_account).owner
            &&& final(payment_treasury).mint == old(payment_treasury).mint
            &&& final(payment_treasury).owner == old(payment_treasury).owner
        },
        r matches Ok(pair) ==> pair.0.wf(),
{
    let minimum_bid = match utils::calculate_minimum_starting_bid(
        reserve_price,
        settings.facilitator_fee,
    ) {
        Ok(v) => v,
        Err(e) => { return Err(e) },
    };
    match utils::assert_bid_meets_reserve_price(bid_amount, minimum_bid) {
        Ok(u) => u,
        Err(e) => { return Err(e) },
    };
    proof {
        utils::lemma_minimum_starting_bid_at_least_reserve(reserve_price, settings.facilitator_fee);
    }
    transfer(paying_token_account, payment_treasury, bid_amount - reserve_price);
    let bid = Bid {
        bidder,
        auction: auction_id,
        amount: bid_amount,
        timestamp: now,
        withdrawable: false,
        token_account: bid_token_account_id,
    };
    let auction = Auction {
        start_timestamp: now,
        end_timestamp: now + settings.duration,
        payment_mint,
        top_bid: bid_amount,
        top_bidder: bidder,
        reserve_price,
        settings: settings_id,
        vault: vault_id,
        payment_treasury: payment_treasury_id,
        fee_paid: false,
    };
    Ok((auction, bid))
}

/// The checks that gate a subsequent bid, in the order they are reported:
/// funds, the auction still being open, and the admission bar over the
/// current top bid.
pub open spec fn spec_place_bid_gate(
    auction: Auction,
    settings: Settings,
    paying_token_account: TokenAccount,
    bid_amount: u64,
    now: u64,
) -> Result<(), AuctionError> {
    if paying_token_account.amount < bid_amount {
        Err(AuctionError::InsufficientFunds)
    } else if now >= auction.end_timestamp {
        Err(AuctionError::AuctionHasEnded)
    } else if spec_minimum_bid_increase(auction.top_bid, settings.bid_increment) > u64::MAX {
        Err(AuctionError::NumericalOverflowError)
    } else if !spec_bid_accepted(auction.top_bid, bid_amount, settings.bid_increment) {
        Err(AuctionError::BidTooLow)
    } else {
        Ok(())
    }
}

/// Place a bid on an open auction.
///
/// On success, in one atomic step: the bid amount moves from the bidder's
/// paying account into the payment treasury; the prior top bid is refunded
/// in full from the treasury into its own escrow account and its record
/// marked withdrawable; the auction's top bid and bidder are replaced; and
/// if less than the soft-close period remained, the close is pushed out to
/// `now + soft_close_period`, guaranteeing a reaction window after every
/// accepted bid.  On failure nothing changes.
pub fn place_bid(
    auction: &mut Auction,
    auction_id: u64,
    settings: &Settings,
    top_bid: &mut Bid,
    top_bid_token_account: &mut TokenAccount,
    payment_treasury: &mut TokenAccount,
    paying_token_account: &mut TokenAccount,
    bidder: u64,
    bid_token_account_id: u64,
    bid_amount: u64,
    now: u64,
) -> (r: Result<Bid, AuctionError>)
    requires
        settings.wf(),
        old(auction).wf(),
        old(top_bid).bidder == old(auction).top_bidder,
        old(top_bid).auction == auction_id,
        old(top_bid).amount == old(auction).top_bid,
        old(paying_token_account).mint == old(payment_treasury).mint,
        old(payment_treasury).mint == old(top_bid_token_account).mint,
        old(payment_treasury).amount + bid_amount <= u64::MAX,
        old(top_bid_token_account).amount + old(auction).top_bid <= u64::MAX,
        now + settings.soft_close_period <= u64::MAX,
    ensures
        spec_place_bid_gate(*old(auction), *settings, *old(paying_token_account), bid_amount, now)
            matches Err(e) ==> {
            &&& r == Err::<Bid, AuctionError>(e)
            &&& *final(auction) == *old(auction)
            &&& *final(top_bid) == *old(top_bid)
            &&& *final(top_bid_token_account) == *old(top_bid_token_account)
            &&& *final(payment_treasury) == *old(payment_treasury)
            &&& *final(paying_token_account) == *old(paying_token_account)
        },
        spec_place_bid_gate(*old(auction), *settings, *old(paying_token_account), bid_amount, now)
            is Ok ==> {
            &&& spec_bid_accepted(old(auction).top_bid, bid_amount, settings.bid_increment)
            &&& r == Ok::<Bid, AuctionError>(
                (Bid {
                    bidder,
                    auction: auction_id,
                    amount: bid_amount,
                    timestamp: now,
                    withdrawable: false,
                    token_account: bid_token_account_id,
                }),
            )
            &&& *final(top_bid) == (Bid {
                bidder: old(top_bid).bidder,
                auction: old(top_bid).auction,
                amount: old(top_bid).amount,
                timestamp: old(top_bid).timestamp,
                withdrawable: true,
                token_account: old(top_bid).token_account,
            })
            &&& *final(auction) == (Auction {
                start_timestamp: old(auction).start_timestamp,
                end_timestamp: (if old(auction).end_timestamp - now
                    < settings.soft_close_period {
                    (now + settings.soft_close_period) as u64
                } else {
                    old(auction).end_timestamp
                }),
                payment_mint: old(auction).payment_mint,
                top_bid: bid_amount,
                top_bidder: bidder,
                reserve_price: old(auction).reserve_price,
                settings: old(auction).settings,
                vault: old(auction).vault,
                payment_treasury: old(auction).payment_treasury,
                fee_paid: old(auction).fee_paid,
            })
            &&& final(auction).wf()
            &&& final(top_bid_token_account).amount == old(top_bid_token_account).amount + old(
                auction,
            ).top_bid
            &&& final(payment_treasury).amount == old(payment_treasury).amount + bid_amount - old(
                auction,
            ).top_bid
            &&& final(paying_token_account).amount == old(paying_token_account).amount - bid_amount
            &&& final(top_bid_token_account).mint == old(top_bid_token_account).mint
            &&& final(top_bid_token_account).owner == old(top_bid_token_account).owner
            &&& final(payment_treasury).mint == old(payment_treasury).mint
            &&& final(payment_treasury).owner == old(payment_treasury).owner
            &&& final(paying_token_account).mint == old(paying_token_account).mint
            &&& final(paying_token_account).owner == old(paying_token_account).owner
        },
{
    match utils::assert_sufficient_funds(paying_token_account, bid_amount) {
        Ok(u) => u,
        Err(e) => { return Err(e) },
    };
    match utils::assert_auction_has_not_ended(auction, now) {
        Ok(u) => u,
        Err(e) => { return Err(e) },
    };
    match utils::assert_sufficient_bid(bid_amount, auction.top_bid, settings.bid_increment) {
        Ok(u) => u,
        Err(e) => { return Err(e) },
    };
    proof {
        utils::lemma_minimum_bid_increase_nonneg(auction.top_bid, settings.bid_increment);
    }
    transfer(paying_token_account, payment_treasury, bid_amount);
    let bid = Bid {
        bidder,
        auction: auction_id,
        amount: bid_amount,
        timestamp: now,
        withdrawable: false,
        token_account: bid_token_account_id,
    };
    transfer(payment_treasury, top_bid_token_account, top_bid.amount);
    top_bid.withdrawable = true;
    auction.top_bid = bid_amount;
    auction.top_bidder = bidder;
    let time_remaining = auction.end_timestamp - now;
    if time_remaining < settings.soft_close_period {
        auction.end_timestamp = now + settings.soft_close_period;
    }
    Ok(bid)
}

/// Withdraw an outbid record: its escrow is drained in full to a
/// destination of the bidder's choosing, after which the host closes the
/// record and the escrow account.  The current top bidder's record always
/// fails this check — winning funds stay escrowed until the bidder is
/// outbid.  Only the record's owner reaches this operation; the host admits
/// nobody else.
pub fn withdraw_bid(
    auction: &Auction,
    bid: &Bid,
    bid_token_account: &mut TokenAccount,
    to_account: &mut TokenAccount,
) -> (r: Result<(), AuctionError>)
    requires
        old(bid_token_account).mint == old(to_account).mint,
        old(to_account).amount + old(bid_token_account).amount <= u64::MAX,
    ensures
        bid.bidder == auction.top_bidder ==> r == Err::<(), AuctionError>(
            AuctionError::CannotWithdrawTopBid,
        ) && *final(bid_token_account) == *old(bid_token_account) && *final(to_account) == *old(
            to_account,
        ),
        bid.bidder != auction.top_bidder ==> {
            &&& r == Ok::<(), AuctionError>(())
            &&& final(bid_token_account).amount == 0
            &&& final(to_account).amount == old(to_account).amount + old(bid_token_account).amount
            &&& final(bid_token_account).mint == old(bid_token_account).mint
            &&& final(bid_token_account).owner == old(bid_token_account).owner
            &&& final(to_account).mint == old(to_account).mint
            &&& final(to_account).owner == old(to_account).owner
        },
{
    match utils::assert_not_top_bidder(bid.bidder, auction.top_bidder) {
        Ok(u) => u,
        Err(e) => { return Err(e) },
    };
    let amount = bid_token_account.amount;
    transfer(bid_token_account, to_account, amount);
    Ok(())
}

} // verus!
