//! Settling a closed auction: delivering the facilitator fee, claiming the
//! vault's contents, and redeeming fractions against the treasury.

use vstd::prelude::*;

use crate::errors::AuctionError;
use crate::state::{Auction, Settings};
use crate::token::{transfer, TokenAccount};
use crate::utils;
use crate::utils::{spec_fee, spec_redeem_payment};
use crate::vault::{
    create_withdraw_tokens_instruction, spec_withdraw_tokens_accounts, spec_withdraw_tokens_data,
    Instruction,
};

verus! {

/// The checks that gate fee delivery, in the order they are reported: the
/// fee must not have been delivered before, and the auction must have
/// closed.  Because delivery flips `fee_paid`, this gate can pass at most
/// once in an auction's life.
pub open spec fn spec_end_gate(auction: Auction, now: u64) -> Result<(), AuctionError> {
    if auction.fee_paid {
        Err(AuctionError::FeeAlreadyDelivered)
    } else if now < auction.end_timestamp {
        Err(AuctionError::AuctionHasNotEnded)
    } else {
        Ok(())
    }
}

/// Officially end the auction: move the facilitator's cut of the top bid
/// from the payment treasury to the owner's fee account and mark the fee
/// delivered, opening the auction for redemptions.  On failure nothing
/// changes.
///
/// The treasury can always cover the fee in a well-formed history: the
/// opening minimum bid was grossed up so that the margin of the top bid
/// over the reserve price — exactly what the treasury holds — is at least
/// the fee ([`crate::utils::lemma_fee_within_margin`]).
pub fn end(
    auction: &mut Auction,
    settings: &Settings,
    payment_treasury: &mut TokenAccount,
    fee_token_account: &mut TokenAccount,
    now: u64,
) -> (r: Result<(), AuctionError>)
    requires
        settings.wf(),
        old(payment_treasury).mint == old(fee_token_account).mint,
        spec_end_gate(*old(auction), now) is Ok ==> old(payment_treasury).amount >= spec_fee(
            old(auction).top_bid,
            settings.facilitator_fee,
        ),
        old(fee_token_account).amount + spec_fee(old(auction).top_bid, settings.facilitator_fee)
            <= u64::MAX,
    ensures
        spec_end_gate(*old(auction), now) matches Err(e) ==> {
            &&& r == Err::<(), AuctionError>(e)
            &&& *final(auction) == *old(auction)
            &&& *final(payment_treasury) == *old(payment_treasury)
            &&& *final(fee_token_account) == *old(fee_token_account)
        },
        spec_end_gate(*old(auction), now) is Ok ==> {
            &&& r == Ok::<(), AuctionError>(())
            &&& *final(auction) == (Auction {
                start_timestamp: old(auction).start_timestamp,
                end_timestamp: old(auction).end_timestamp,
                payment_mint: old(auction).payment_mint,
                top_bid: old(auction).top_bid,
                top_bidder: old(auction).top_bidder,
                reserve_price: old(auction).reserve_price,
                settings: old(auction).settings,
                vault: old(auction).vault,
                payment_treasury: old(auction).payment_treasury,
                fee_paid: true,
            })
            &&& final(payment_treasury).amount == old(payment_treasury).amount - spec_fee(
                old(auction).top_bid,
                settings.facilitator_fee,
            )
            &&& final(fee_token_account).amount == old(fee_token_account).amount + spec_fee(
                old(auction).top_bid,
                settings.facilitator_fee,
            )
            &&& final(payment_treasury).mint == old(payment_treasury).mint
            &&& final(payment_treasury).owner == old(payment_treasury).owner
            &&& final(fee_token_account).mint == old(fee_token_account).mint
            &&& final(fee_token_account).owner == old(fee_token_account).owner
        },
{
    match utils::assert_fee_not_delivered(auction) {
        Ok(u) => u,
        Err(e) => { return Err(e) },
    };
    match utils::assert_auction_has_ended(auction, now) {
        Ok(u) => u,
        Err(e) => { return Err(e) },
    };
    proof {
        utils::lemma_fee_at_most_top_bid(auction.top_bid, settings.facilitator_fee);
    }
    let fee = match utils::calculate_fee(auction.top_bid, settings.facilitator_fee) {
        Ok(v) => v,
        Err(e) => { return Err(e) },
    };
    transfer(payment_treasury, fee_token_account, fee);
    auction.fee_paid = true;
    Ok(())
}

/// The checks that gate a claim, in the order they are reported: the
/// auction must have closed, and the claimer must be the winner.
pub open spec fn spec_claim_gate(auction: Auction, claimer: u64, now: u64) -> Result<
    (),
    AuctionError,
> {
    if now < auction.end_timestamp {
        Err(AuctionError::AuctionHasNotEnded)
    } else if auction.top_bidder != claimer {
        Err(AuctionError::NotAuctionWinner)
    } else {
        Ok(())
    }
}

/// Claim the contents of the auctioned vault.  On success the framed
/// withdraw request is returned for the host to invoke under the protocol
/// authority's signature.  The amount is not bounded here: the custody
/// program itself enforces the bound against the vault's remaining
/// contents.
pub fn claim(
    auction: &Auction,
    claimer: u64,
    amount: u64,
    now: u64,
    vault_program_id: u64,
    destination_token_account_id: u64,
    safety_deposit_box_id: u64,
    locked_token_account_id: u64,
    vault_account_id: u64,
    fraction_mint_id: u64,
    authority_id: u64,
    vault_pda_id: u64,
    token_program_id: u64,
    rent_sysvar_id: u64,
) -> (r: Result<Instruction, AuctionError>)
    ensures
        spec_claim_gate(*auction, claimer, now) matches Err(e) ==> r == Err::<
            Instruction,
            AuctionError,
        >(e),
        spec_claim_gate(*auction, claimer, now) is Ok ==> {
            &&& r is Ok
            &&& r matches Ok(ix) ==> {
                &&& ix.program_id == vault_program_id
                &&& ix.accounts@ =~= spec_withdraw_tokens_accounts(
                    destination_token_account_id,
                    safety_deposit_box_id,
                    locked_token_account_id,
                    vault_account_id,
                    fraction_mint_id,
                    authority_id,
                    vault_pda_id,
                    token_program_id,
                    rent_sysvar_id,
                )
                &&& ix.data@ =~= spec_withdraw_tokens_data(amount)
            }
        },
{
    match utils::assert_auction_has_ended(auction, now) {
        Ok(u) => u,
        Err(e) => { return Err(e) },
    };
    match utils::assert_auction_winner(claimer, auction.top_bidder) {
        Ok(u) => u,
        Err(e) => { return Err(e) },
    };
    Ok(
        create_withdraw_tokens_instruction(
            vault_program_id,
            destination_token_account_id,
            safety_deposit_box_id,
            locked_token_account_id,
            vault_account_id,
            fraction_mint_id,
            authority_id,
            vault_pda_id,
            amount,
            token_program_id,
            rent_sysvar_id,
        ),
    )
}

/// The checks that gate a redemption, in the order they are reported: the
/// auction must have closed, and the facilitator's cut must already have
/// been reserved — redemption never starts before the fee is delivered.
pub open spec fn spec_redeem_gate(auction: Auction, now: u64) -> Result<(), AuctionError> {
    if now < auction.end_timestamp {
        Err(AuctionError::AuctionHasNotEnded)
    } else if !auction.fee_paid {
        Err(AuctionError::FeeHasNotBeenDelivered)
    } else {
        Ok(())
    }
}

/// Redeem `fraction_amount` of the caller's fraction tokens for their
/// pro-rata share of what remains in the payment treasury.
///
/// `fraction_amount` and `fraction_supply` are the caller's fraction
/// balance and the outstanding fraction supply as observed before the
/// gateway burns the fractions; the payment is computed against the
/// treasury balance observed now, not a cached one, so repeated partial
/// redemptions each see an accurate share of what remains.  On success the
/// payment is returned and moved to the destination; redeeming the whole
/// remaining supply drains the treasury to exactly zero, after which the
/// host closes it.  On failure nothing changes.
pub fn redeem(
    auction: &Auction,
    payment_treasury: &mut TokenAccount,
    destination_token_account: &mut TokenAccount,
    fraction_amount: u64,
    fraction_supply: u64,
    now: u64,
) -> (r: Result<u64, AuctionError>)
    requires
        fraction_amount <= fraction_supply,
        old(payment_treasury).mint == old(destination_token_account).mint,
        old(destination_token_account).amount + old(payment_treasury).amount <= u64::MAX,
    ensures
        spec_redeem_gate(*auction, now) matches Err(e) ==> {
            &&& r == Err::<u64, AuctionError>(e)
            &&& *final(payment_treasury) == *old(payment_treasury)
            &&& *final(destination_token_account) == *old(destination_token_account)
        },
        spec_redeem_gate(*auction, now) is Ok && fraction_supply == 0 ==> {
            &&& r == Err::<u64, AuctionError>(AuctionError::NumericalOverflowError)
            &&& *final(payment_treasury) == *old(payment_treasury)
            &&& *final(destination_token_account) == *old(destination_token_account)
        },
        spec_redeem_gate(*auction, now) is Ok && fraction_supply > 0 ==> {
            &&& r == Ok::<u64, AuctionError>(
                spec_redeem_payment(
                    old(payment_treasury).amount,
                    fraction_amount,
                    fraction_supply,
                ) as u64,
            )
            &&& final(payment_treasury).amount == old(payment_treasury).amount
                - spec_redeem_payment(
                old(payment_treasury).amount,
                fraction_amount,
                fraction_supply,
            )
            &&& final(destination_token_account).amount == old(destination_token_account).amount
                + spec_redeem_payment(
                old(payment_treasury).amount,
                fraction_amount,
                fraction_supply,
            )
            &&& fraction_amount == fraction_supply ==> final(payment_treasury).amount == 0
            &&& final(payment_treasury).mint == old(payment_treasury).mint
            &&& final(payment_treasury).owner == old(payment_treasury).owner
            &&& final(destination_token_account).mint == old(destination_token_account).mint
            &&& final(destination_token_account).owner == old(destination_token_account).owner
        },
{
    match utils::assert_auction_has_ended(auction, now) {
        Ok(u) => u,
        Err(e) => { return Err(e) },
    };
    match utils::assert_fee_delivered(auction) {
        Ok(u) => u,
        Err(e) => { return Err(e) },
    };
    proof {
        if fraction_supply > 0 {
            utils::lemma_redeem_payment_bounds(
                payment_treasury.amount,
                fraction_amount,
                fraction_supply,
            );
        }
    }
    let payment = match utils::calculate_redeem_payment(
        payment_treasury.amount,
        fraction_amount,
        fraction_supply,
    ) {
        Ok(v) => v,
        Err(e) => { return Err(e) },
    };
    transfer(payment_treasury, destination_token_account, payment);
    Ok(payment)
}

} // verus!
