//! The arithmetic core and the shared precondition checks.
//!
//! All four arithmetic paths — minimum starting bid, minimum bid increase,
//! facilitator fee, redemption payment — multiply in 128-bit width before
//! dividing, so the multiply itself can never overflow; a quotient that does
//! not fit the 64-bit ledger is a fatal [`AuctionError::NumericalOverflowError`],
//! never silently truncated.  Division is floor except for the minimum
//! starting bid, which rounds up so the computed minimum never undershoots
//! the exact rational reserve requirement.

use vstd::arithmetic::div_mod::{
    lemma_div_is_ordered, lemma_div_multiples_vanish, lemma_fundamental_div_mod,
    lemma_fundamental_div_mod_converse,
};
use vstd::arithmetic::mul::lemma_mul_inequality;
use vstd::prelude::*;

use crate::errors::AuctionError;
use crate::state::{Auction, MAX_BID_INCREMENT, MAX_FACILITATOR_FEE};
use crate::token::TokenAccount;
use crate::vault::{Price, Vault, VaultState};

verus! {

/// Floor of `top_bid * bid_increment / MAX_BID_INCREMENT`: the least amount
/// a new bid must exceed the current top bid by.
pub open spec fn spec_minimum_bid_increase(top_bid: u64, bid_increment: u64) -> int {
    (top_bid * bid_increment) / (MAX_BID_INCREMENT as int)
}

/// Floor of `top_bid * facilitator_fee / MAX_FACILITATOR_FEE`: the
/// facilitator's cut of the winning payment.
pub open spec fn spec_fee(top_bid: u64, facilitator_fee: u64) -> int {
    (top_bid * facilitator_fee) / (MAX_FACILITATOR_FEE as int)
}

/// Floor of `remaining * amount / fraction_supply`: the pro-rata share of
/// the remaining treasury owed for `amount` of `fraction_supply` fractions.
/// Meaningful only for a positive supply.
pub open spec fn spec_redeem_payment(remaining: u64, amount: u64, fraction_supply: u64) -> int {
    (remaining * amount) / (fraction_supply as int)
}

/// Ceiling of `reserve_price * MAX_FACILITATOR_FEE / (MAX_FACILITATOR_FEE -
/// facilitator_fee)`: the least opening bid that still leaves the fraction
/// holders at least `reserve_price` after the facilitator fee is deducted.
/// Meaningful only for a fee ratio below the denominator.
pub open spec fn spec_minimum_starting_bid(reserve_price: u64, facilitator_fee: u64) -> int {
    (reserve_price * MAX_FACILITATOR_FEE + (MAX_FACILITATOR_FEE - facilitator_fee) - 1) / (
    MAX_FACILITATOR_FEE - facilitator_fee)
}

/// Whether `bid_amount` clears the admission bar over the current top bid.
/// Stated over unbounded integers, so the bar is exact even when it exceeds
/// the 64-bit range.
pub open spec fn spec_bid_accepted(top_bid: u64, bid_amount: u64, bid_increment: u64) -> bool {
    bid_amount >= top_bid + spec_minimum_bid_increase(top_bid, bid_increment)
}

/// The product of two 64-bit values always fits the 128-bit intermediate.
proof fn lemma_u64_mul_fits_u128(a: u64, b: u64)
    ensures
        a * b <= u128::MAX,
{
    assert(a * b <= u64::MAX * u64::MAX) by (nonlinear_arith)
        requires
            a <= u64::MAX,
            b <= u64::MAX,
    ;
}

/// The minimum bid increase is never negative.
pub proof fn lemma_minimum_bid_increase_nonneg(top_bid: u64, bid_increment: u64)
    ensures
        spec_minimum_bid_increase(top_bid, bid_increment) >= 0,
{
    assert((top_bid * bid_increment) / (MAX_BID_INCREMENT as int) >= 0) by (nonlinear_arith)
        requires
            top_bid >= 0,
            bid_increment >= 0,
    ;
}

/// A fee ratio within its denominator never takes more than the whole bid.
pub proof fn lemma_fee_at_most_top_bid(top_bid: u64, facilitator_fee: u64)
    requires
        facilitator_fee <= MAX_FACILITATOR_FEE,
    ensures
        0 <= spec_fee(top_bid, facilitator_fee) <= top_bid,
{
    let m = MAX_FACILITATOR_FEE as int;
    lemma_mul_inequality(facilitator_fee as int, m, top_bid as int);
    assert(top_bid * facilitator_fee == facilitator_fee * top_bid) by (nonlinear_arith);
    assert(top_bid * m == m * top_bid) by (nonlinear_arith);
    lemma_div_is_ordered(top_bid * facilitator_fee, top_bid * m, m);
    lemma_div_multiples_vanish(top_bid as int, m);
    assert((top_bid * facilitator_fee) / m >= 0) by (nonlinear_arith)
        requires
            top_bid >= 0,
            facilitator_fee >= 0,
            m > 0,
    ;
}

/// The minimum starting bid never undershoots the reserve price.
pub proof fn lemma_minimum_starting_bid_at_least_reserve(reserve_price: u64, facilitator_fee: u64)
    requires
        facilitator_fee < MAX_FACILITATOR_FEE,
    ensures
        spec_minimum_starting_bid(reserve_price, facilitator_fee) >= reserve_price,
{
    let r = reserve_price as int;
    let m = MAX_FACILITATOR_FEE as int;
    let d = m - facilitator_fee;
    let num = r * m + d - 1;
    lemma_mul_inequality(d, m, r);
    assert(d * r == r * d) by (nonlinear_arith);
    assert(m * r == r * m) by (nonlinear_arith);
    lemma_fundamental_div_mod_converse(r * d + d - 1, d, r, d - 1);
    lemma_div_is_ordered(r * d + d - 1, num, d);
}

/// The purpose of the minimum starting bid: once the top bid has cleared it,
/// the facilitator fee always fits inside the margin above the reserve
/// price, so the fraction holders keep at least the reserve price.
pub proof fn lemma_fee_within_margin(top_bid: u64, reserve_price: u64, facilitator_fee: u64)
    requires
        facilitator_fee < MAX_FACILITATOR_FEE,
        top_bid >= spec_minimum_starting_bid(reserve_price, facilitator_fee),
    ensures
        spec_fee(top_bid, facilitator_fee) <= top_bid - reserve_price,
{
    let t = top_bid as int;
    let r = reserve_price as int;
    let m = MAX_FACILITATOR_FEE as int;
    let f = facilitator_fee as int;
    let d = m - f;
    let num = r * m + d - 1;
    let q = num / d;
    lemma_fundamental_div_mod(num, d);
    assert(num % d < d && num % d >= 0) by (nonlinear_arith)
        requires
            d > 0,
            num >= 0,
            num % d == num - d * (num / d),
            q == num / d,
    ;
    assert(d * q >= r * m) by {
        assert(num == d * q + num % d);
    };
    lemma_mul_inequality(q, t, d);
    assert(q * d == d * q) by (nonlinear_arith);
    assert(t * d == d * t) by (nonlinear_arith);
    assert(d * t >= r * m);
    assert(t * f <= (t - r) * m) by (nonlinear_arith)
        requires
            (m - f) * t >= r * m,
            d == m - f,
            d * t == (m - f) * t,
    ;
    lemma_div_is_ordered(t * f, (t - r) * m, m);
    lemma_div_multiples_vanish(t - r, m);
    assert(((t - r) * m) / m == t - r) by {
        assert((t - r) * m == m * (t - r)) by (nonlinear_arith);
    };
}

/// A pro-rata payment for part of the supply never exceeds the remaining
/// treasury, and redeeming the whole supply takes exactly what remains.
pub proof fn lemma_redeem_payment_bounds(remaining: u64, amount: u64, fraction_supply: u64)
    requires
        0 < fraction_supply,
        amount <= fraction_supply,
    ensures
        0 <= spec_redeem_payment(remaining, amount, fraction_supply) <= remaining,
        amount == fraction_supply ==> spec_redeem_payment(remaining, amount, fraction_supply)
            == remaining,
{
    let t = remaining as int;
    let s = fraction_supply as int;
    lemma_mul_inequality(amount as int, s, t);
    assert(amount * t == t * amount) by (nonlinear_arith);
    assert(s * t == t * s) by (nonlinear_arith);
    lemma_div_is_ordered(t * amount, t * s, s);
    lemma_div_multiples_vanish(t, s);
    assert((t * s) / s == t) by {
        assert(t * s == s * t) by (nonlinear_arith);
    };
    assert((t * amount) / s >= 0) by (nonlinear_arith)
        requires
            t >= 0,
            amount >= 0,
            s > 0,
    ;
}

/// Minimum opening bid for a freshly combined vault: the reserve price
/// grossed up by the facilitator fee, rounded in the fraction holders'
/// favor.  A fee ratio equal to the denominator has no finite answer and is
/// a numerical error, as is a minimum beyond the 64-bit ledger.
pub fn calculate_minimum_starting_bid(reserve_price: u64, facilitator_fee: u64) -> (r: Result<
    u64,
    AuctionError,
>)
    requires
        facilitator_fee <= MAX_FACILITATOR_FEE,
    ensures
        facilitator_fee == MAX_FACILITATOR_FEE ==> r == Err::<u64, AuctionError>(
            AuctionError::NumericalOverflowError,
        ),
        facilitator_fee < MAX_FACILITATOR_FEE && spec_minimum_starting_bid(
            reserve_price,
            facilitator_fee,
        ) <= u64::MAX ==> r == Ok::<u64, AuctionError>(
            spec_minimum_starting_bid(reserve_price, facilitator_fee) as u64,
        ),
        facilitator_fee < MAX_FACILITATOR_FEE && spec_minimum_starting_bid(
            reserve_price,
            facilitator_fee,
        ) > u64::MAX ==> r == Err::<u64, AuctionError>(AuctionError::NumericalOverflowError),
{
    if facilitator_fee == MAX_FACILITATOR_FEE {
        return Err(AuctionError::NumericalOverflowError);
    }
    let divisor: u64 = MAX_FACILITATOR_FEE - facilitator_fee;
    proof {
        assert((reserve_price as int) * (MAX_FACILITATOR_FEE as int) + (divisor - 1)
            <= u64::MAX * u64::MAX + u64::MAX) by (nonlinear_arith)
            requires
                reserve_price <= u64::MAX,
                MAX_FACILITATOR_FEE <= u64::MAX,
                1 <= divisor <= u64::MAX,
        ;
    }
    let numerator: u128 = (reserve_price as u128) * (MAX_FACILITATOR_FEE as u128) + ((divisor
        - 1) as u128);
    let quotient: u128 = numerator / (divisor as u128);
    if quotient > u64::MAX as u128 {
        Err(AuctionError::NumericalOverflowError)
    } else {
        Ok(quotient as u64)
    }
}

/// Minimum amount a new bid must exceed the current top bid by.
pub fn calculate_minimum_bid_increase(top_bid: u64, bid_increment: u64) -> (r: Result<
    u64,
    AuctionError,
>)
    ensures
        spec_minimum_bid_increase(top_bid, bid_increment) <= u64::MAX ==> r == Ok::<
            u64,
            AuctionError,
        >(spec_minimum_bid_increase(top_bid, bid_increment) as u64),
        spec_minimum_bid_increase(top_bid, bid_increment) > u64::MAX ==> r == Err::<
            u64,
            AuctionError,
        >(AuctionError::NumericalOverflowError),
{
    proof {
        lemma_u64_mul_fits_u128(top_bid, bid_increment);
    }
    let product: u128 = (top_bid as u128) * (bid_increment as u128);
    let quotient: u128 = product / (MAX_BID_INCREMENT as u128);
    if quotient > u64::MAX as u128 {
        Err(AuctionError::NumericalOverflowError)
    } else {
        Ok(quotient as u64)
    }
}

/// The facilitator's cut of the winning payment.
pub fn calculate_fee(top_bid: u64, facilitator_fee: u64) -> (r: Result<u64, AuctionError>)
    ensures
        spec_fee(top_bid, facilitator_fee) <= u64::MAX ==> r == Ok::<u64, AuctionError>(
            spec_fee(top_bid, facilitator_fee) as u64,
        ),
        spec_fee(top_bid, facilitator_fee) > u64::MAX ==> r == Err::<u64, AuctionError>(
            AuctionError::NumericalOverflowError,
        ),
{
    proof {
        lemma_u64_mul_fits_u128(top_bid, facilitator_fee);
    }
    let product: u128 = (top_bid as u128) * (facilitator_fee as u128);
    let quotient: u128 = product / (MAX_FACILITATOR_FEE as u128);
    if quotient > u64::MAX as u128 {
        Err(AuctionError::NumericalOverflowError)
    } else {
        Ok(quotient as u64)
    }
}

/// A fraction holder's pro-rata share of the remaining treasury.  A zero
/// fraction supply has no defined share and is a numerical error.
pub fn calculate_redeem_payment(remaining: u64, amount: u64, fraction_supply: u64) -> (r: Result<
    u64,
    AuctionError,
>)
    ensures
        fraction_supply == 0 ==> r == Err::<u64, AuctionError>(
            AuctionError::NumericalOverflowError,
        ),
        fraction_supply > 0 && spec_redeem_payment(remaining, amount, fraction_supply)
            <= u64::MAX ==> r == Ok::<u64, AuctionError>(
            spec_redeem_payment(remaining, amount, fraction_supply) as u64,
        ),
        fraction_supply > 0 && spec_redeem_payment(remaining, amount, fraction_supply)
            > u64::MAX ==> r == Err::<u64, AuctionError>(AuctionError::NumericalOverflowError),
{
    if fraction_supply == 0 {
        return Err(AuctionError::NumericalOverflowError);
    }
    proof {
        lemma_u64_mul_fits_u128(remaining, amount);
    }
    let product: u128 = (remaining as u128) * (amount as u128);
    let quotient: u128 = product / (fraction_supply as u128);
    if quotient > u64::MAX as u128 {
        Err(AuctionError::NumericalOverflowError)
    } else {
        Ok(quotient as u64)
    }
}

/// The auction must have closed already.
pub fn assert_auction_has_ended(auction: &Auction, now: u64) -> (r: Result<(), AuctionError>)
    ensures
        r == (if now < auction.end_timestamp {
            Err::<(), AuctionError>(AuctionError::AuctionHasNotEnded)
        } else {
            Ok::<(), AuctionError>(())
        }),
{
    if now < auction.end_timestamp {
        return Err(AuctionError::AuctionHasNotEnded);
    }
    Ok(())
}

/// The auction must still be open.
pub fn assert_auction_has_not_ended(auction: &Auction, now: u64) -> (r: Result<(), AuctionError>)
    ensures
        r == (if now >= auction.end_timestamp {
            Err::<(), AuctionError>(AuctionError::AuctionHasEnded)
        } else {
            Ok::<(), AuctionError>(())
        }),
{
    if now >= auction.end_timestamp {
        return Err(AuctionError::AuctionHasEnded);
    }
    Ok(())
}

/// The facilitator fee must have been delivered already.
pub fn assert_fee_delivered(auction: &Auction) -> (r: Result<(), AuctionError>)
    ensures
        r == (if !auction.fee_paid {
            Err::<(), AuctionError>(AuctionError::FeeHasNotBeenDelivered)
        } else {
            Ok::<(), AuctionError>(())
        }),
{
    if !auction.fee_paid {
        return Err(AuctionError::FeeHasNotBeenDelivered);
    }
    Ok(())
}

/// The facilitator fee must not have been delivered yet.
pub fn assert_fee_not_delivered(auction: &Auction) -> (r: Result<(), AuctionError>)
    ensures
        r == (if auction.fee_paid {
            Err::<(), AuctionError>(AuctionError::FeeAlreadyDelivered)
        } else {
            Ok::<(), AuctionError>(())
        }),
{
    if auction.fee_paid {
        return Err(AuctionError::FeeAlreadyDelivered);
    }
    Ok(())
}

/// The paying account must hold at least the bid amount.
pub fn assert_sufficient_funds(token_account: &TokenAccount, amount: u64) -> (r: Result<
    (),
    AuctionError,
>)
    ensures
        r == (if token_account.amount < amount {
            Err::<(), AuctionError>(AuctionError::InsufficientFunds)
        } else {
            Ok::<(), AuctionError>(())
        }),
{
    if token_account.amount < amount {
        return Err(AuctionError::InsufficientFunds);
    }
    Ok(())
}

/// The vault must be owned by the auction protocol's authority.
pub fn assert_vault_owned_by_auction_program_authority(vault: &Vault, authority_id: u64) -> (r:
    Result<(), AuctionError>)
    ensures
        r == (if vault.authority != authority_id {
            Err::<(), AuctionError>(AuctionError::VaultNotOwnedByAuctionAuthority)
        } else {
            Ok::<(), AuctionError>(())
        }),
{
    if vault.authority != authority_id {
        return Err(AuctionError::VaultNotOwnedByAuctionAuthority);
    }
    Ok(())
}

/// The supplied pricing record must be the vault's pricing lookup address.
pub fn assert_correct_pricing_account(vault: &Vault, external_pricing_account_id: u64) -> (r:
    Result<(), AuctionError>)
    ensures
        r == (if vault.pricing_lookup_address != external_pricing_account_id {
            Err::<(), AuctionError>(AuctionError::PriceAccountDoesNotMatchVaultAccount)
        } else {
            Ok::<(), AuctionError>(())
        }),
{
    if vault.pricing_lookup_address != external_pricing_account_id {
        return Err(AuctionError::PriceAccountDoesNotMatchVaultAccount);
    }
    Ok(())
}

/// The pricing oracle must currently permit combining the vault.
pub fn assert_vault_allowed_to_combine(external_pricing_account: &Price) -> (r: Result<
    (),
    AuctionError,
>)
    ensures
        r == (if !external_pricing_account.allowed_to_combine {
            Err::<(), AuctionError>(AuctionError::VaultCannotCurrentlyBeCombined)
        } else {
            Ok::<(), AuctionError>(())
        }),
{
    if !external_pricing_account.allowed_to_combine {
        return Err(AuctionError::VaultCannotCurrentlyBeCombined);
    }
    Ok(())
}

/// The vault must be in the active custodial state.
pub fn assert_vault_in_active_state(vault: &Vault) -> (r: Result<(), AuctionError>)
    ensures
        r == (if vault.state != VaultState::Active {
            Err::<(), AuctionError>(AuctionError::VaultNotInActiveState)
        } else {
            Ok::<(), AuctionError>(())
        }),
{
    if vault.state != VaultState::Active {
        return Err(AuctionError::VaultNotInActiveState);
    }
    Ok(())
}

/// The opening bid must clear the computed minimum.
pub fn assert_bid_meets_reserve_price(bid: u64, reserve_price: u64) -> (r: Result<
    (),
    AuctionError,
>)
    ensures
        r == (if bid < reserve_price {
            Err::<(), AuctionError>(AuctionError::BidLessThanReservePrice)
        } else {
            Ok::<(), AuctionError>(())
        }),
{
    if bid < reserve_price {
        return Err(AuctionError::BidLessThanReservePrice);
    }
    Ok(())
}

/// A new bid must exceed the top bid by at least the minimum increase.
pub fn assert_sufficient_bid(bid: u64, top_bid: u64, bid_increment: u64) -> (r: Result<
    (),
    AuctionError,
>)
    ensures
        spec_minimum_bid_increase(top_bid, bid_increment) > u64::MAX ==> r == Err::<
            (),
            AuctionError,
        >(AuctionError::NumericalOverflowError),
        spec_minimum_bid_increase(top_bid, bid_increment) <= u64::MAX ==> r == (if spec_bid_accepted(
            top_bid,
            bid,
            bid_increment,
        ) {
            Ok::<(), AuctionError>(())
        } else {
            Err::<(), AuctionError>(AuctionError::BidTooLow)
        }),
{
    let minimum_bid_increase = match calculate_minimum_bid_increase(top_bid, bid_increment) {
        Ok(v) => v,
        Err(e) => { return Err(e) },
    };
    if minimum_bid_increase > u64::MAX - top_bid {
        return Err(AuctionError::BidTooLow);
    }
    if bid < top_bid + minimum_bid_increase {
        return Err(AuctionError::BidTooLow);
    }
    Ok(())
}

/// Only a bidder who is not currently winning may withdraw.
pub fn assert_not_top_bidder(bidder: u64, top_bidder: u64) -> (r: Result<(), AuctionError>)
    ensures
        r == (if top_bidder == bidder {
            Err::<(), AuctionError>(AuctionError::CannotWithdrawTopBid)
        } else {
            Ok::<(), AuctionError>(())
        }),
{
    if top_bidder == bidder {
        return Err(AuctionError::CannotWithdrawTopBid);
    }
    Ok(())
}

/// Only the auction winner can claim the winnings.
pub fn assert_auction_winner(claimer: u64, winner: u64) -> (r: Result<(), AuctionError>)
    ensures
        r == (if winner != claimer {
            Err::<(), AuctionError>(AuctionError::NotAuctionWinner)
        } else {
            Ok::<(), AuctionError>(())
        }),
{
    if winner != claimer {
        return Err(AuctionError::NotAuctionWinner);
    }
    Ok(())
}

} // verus!
