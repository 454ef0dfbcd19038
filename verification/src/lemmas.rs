//! System-wide guarantees of the engine, stated and proved over the same
//! spec functions the operations' contracts use.

use vstd::prelude::*;

use crate::errors::AuctionError;
use crate::settlement::{spec_end_gate, spec_redeem_gate};
use crate::state::{Auction, Settings, MAX_FACILITATOR_FEE};
use crate::utils::{
    lemma_fee_within_margin, lemma_minimum_bid_increase_nonneg, lemma_redeem_payment_bounds,
    spec_bid_accepted, spec_fee, spec_minimum_starting_bid, spec_redeem_payment,
};

verus! {

/// Solvency of settlement: as long as the fee is undelivered, the payment
/// treasury of an auction holds exactly the margin of the top bid over the
/// reserve price — `start` establishes this on a fresh treasury and
/// `place_bid` preserves it, as their contracts state.  Because the opening
/// minimum grossed the reserve price up by the fee ratio and later bids
/// only rise, that margin always covers the facilitator fee: `end` can
/// never find the treasury short.
pub proof fn lemma_backed_auction_covers_fee(
    auction: Auction,
    settings: Settings,
    treasury_amount: u64,
)
    requires
        settings.wf(),
        settings.facilitator_fee < MAX_FACILITATOR_FEE,
        auction.top_bid >= spec_minimum_starting_bid(
            auction.reserve_price,
            settings.facilitator_fee,
        ),
        treasury_amount == auction.top_bid - auction.reserve_price,
    ensures
        treasury_amount >= spec_fee(auction.top_bid, settings.facilitator_fee),
{
    lemma_fee_within_margin(auction.top_bid, auction.reserve_price, settings.facilitator_fee);
}

/// Monotonic bidding: in any sequence of accepted bids on one auction —
/// each clearing its predecessor by at least the minimum increase, as
/// `place_bid` admits them — the bid amounts never decrease.
pub proof fn lemma_bids_monotonic(bids: Seq<u64>, bid_increment: u64)
    requires
        forall|i: int| #![trigger bids[i]]
            0 <= i < bids.len() - 1 ==> spec_bid_accepted(bids[i], bids[i + 1], bid_increment),
    ensures
        forall|i: int, j: int| #![trigger bids[i], bids[j]]
            0 <= i <= j < bids.len() ==> bids[i] <= bids[j],
    decreases bids.len(),
{
    if bids.len() > 1 {
        let prefix = bids.drop_last();
        assert(forall|i: int| #![trigger prefix[i]]
            0 <= i < prefix.len() - 1 ==> spec_bid_accepted(
                prefix[i],
                prefix[i + 1],
                bid_increment,
            ));
        lemma_bids_monotonic(prefix, bid_increment);
        lemma_minimum_bid_increase_nonneg(bids[bids.len() - 2], bid_increment);
        assert(spec_bid_accepted(bids[bids.len() - 2], bids[bids.len() - 1], bid_increment));
        assert forall|i: int, j: int| 0 <= i <= j < bids.len() implies bids[i] <= bids[j] by {
            if j < bids.len() - 1 {
                assert(prefix[i] <= prefix[j]);
            } else if i < bids.len() - 1 {
                assert(prefix[i] <= prefix[bids.len() - 2]);
            }
        }
    }
}

/// The auction state after a successful fee delivery: only `fee_paid`
/// changes, and it becomes true.
pub open spec fn spec_after_fee_delivery(auction: Auction) -> Auction {
    Auction {
        start_timestamp: auction.start_timestamp,
        end_timestamp: auction.end_timestamp,
        payment_mint: auction.payment_mint,
        top_bid: auction.top_bid,
        top_bidder: auction.top_bidder,
        reserve_price: auction.reserve_price,
        settings: auction.settings,
        vault: auction.vault,
        payment_treasury: auction.payment_treasury,
        fee_paid: true,
    }
}

/// Fee idempotence: `end` can succeed at most once per auction.  Once its
/// gate passes and `fee_paid` is set, every later `end` fails with the
/// already-delivered condition, whatever the clock says.
pub proof fn lemma_fee_settled_exactly_once(auction: Auction, now: u64, later: u64)
    requires
        spec_end_gate(auction, now) is Ok,
    ensures
        spec_end_gate(spec_after_fee_delivery(auction), later) == Err::<(), AuctionError>(
            AuctionError::FeeAlreadyDelivered,
        ),
{
}

/// The other half of fee idempotence: before the first successful `end`,
/// `redeem` never passes its gate, and once the auction has closed it fails
/// with the not-yet-delivered condition.
pub proof fn lemma_redeem_waits_for_fee_delivery(auction: Auction, now: u64)
    requires
        !auction.fee_paid,
    ensures
        spec_redeem_gate(auction, now) is Err,
        now >= auction.end_timestamp ==> spec_redeem_gate(auction, now) == Err::<
            (),
            AuctionError,
        >(AuctionError::FeeHasNotBeenDelivered),
{
}

/// Whether a sequence of redemption amounts is admissible against an
/// outstanding fraction supply: each step burns no more fractions than
/// remain, and never redeems against an exhausted supply.
pub open spec fn spec_redemption_run_valid(supply: u64, amounts: Seq<u64>) -> bool
    decreases amounts.len(),
{
    amounts.len() == 0 || {
        &&& 0 < supply
        &&& amounts[0] <= supply
        &&& spec_redemption_run_valid((supply - amounts[0]) as u64, amounts.drop_first())
    }
}

/// The treasury balance left after a sequence of redemptions, each paid
/// pro-rata against the balance and supply current at its own step.
pub open spec fn spec_treasury_after(treasury: u64, supply: u64, amounts: Seq<u64>) -> u64
    decreases amounts.len(),
{
    if amounts.len() == 0 {
        treasury
    } else {
        spec_treasury_after(
            (treasury - spec_redeem_payment(treasury, amounts[0], supply)) as u64,
            (supply - amounts[0]) as u64,
            amounts.drop_first(),
        )
    }
}

/// The sum of the payouts of a sequence of redemptions.
pub open spec fn spec_total_payout(treasury: u64, supply: u64, amounts: Seq<u64>) -> int
    decreases amounts.len(),
{
    if amounts.len() == 0 {
        0
    } else {
        spec_redeem_payment(treasury, amounts[0], supply) + spec_total_payout(
            (treasury - spec_redeem_payment(treasury, amounts[0], supply)) as u64,
            (supply - amounts[0]) as u64,
            amounts.drop_first(),
        )
    }
}

/// The total fraction amount a sequence of redemptions burns.
pub open spec fn spec_total_fractions(amounts: Seq<u64>) -> int
    decreases amounts.len(),
{
    if amounts.len() == 0 {
        0
    } else {
        amounts[0] + spec_total_fractions(amounts.drop_first())
    }
}

/// Redemption conservation: over any admissible sequence of redemptions the
/// payouts sum to exactly what left the treasury, and never exceed what it
/// held when redemption began.  No rounding remainder is ever distributed;
/// it stays in the treasury.
pub proof fn lemma_redemption_conservation(treasury: u64, supply: u64, amounts: Seq<u64>)
    requires
        spec_redemption_run_valid(supply, amounts),
    ensures
        spec_total_payout(treasury, supply, amounts) == treasury - spec_treasury_after(
            treasury,
            supply,
            amounts,
        ),
        0 <= spec_total_payout(treasury, supply, amounts) <= treasury,
    decreases amounts.len(),
{
    if amounts.len() > 0 {
        lemma_redeem_payment_bounds(treasury, amounts[0], supply);
        lemma_redemption_conservation(
            (treasury - spec_redeem_payment(treasury, amounts[0], supply)) as u64,
            (supply - amounts[0]) as u64,
            amounts.drop_first(),
        );
    }
}

/// A redemption run that burns the whole outstanding supply leaves the
/// treasury at exactly zero: the final step's pro-rata share is the whole
/// remaining balance.
pub proof fn lemma_full_redemption_drains_treasury(treasury: u64, supply: u64, amounts: Seq<u64>)
    requires
        spec_redemption_run_valid(supply, amounts),
        amounts.len() > 0,
        spec_total_fractions(amounts) == supply,
    ensures
        spec_treasury_after(treasury, supply, amounts) == 0,
    decreases amounts.len(),
{
    lemma_redeem_payment_bounds(treasury, amounts[0], supply);
    let next_treasury = (treasury - spec_redeem_payment(treasury, amounts[0], supply)) as u64;
    let next_supply = (supply - amounts[0]) as u64;
    if amounts.len() == 1 {
        assert(spec_total_fractions(amounts.drop_first()) == 0);
        assert(amounts[0] == supply);
        assert(spec_treasury_after(next_treasury, next_supply, amounts.drop_first())
            == next_treasury);
    } else {
        lemma_full_redemption_drains_treasury(next_treasury, next_supply, amounts.drop_first());
    }
}

} // verus!
