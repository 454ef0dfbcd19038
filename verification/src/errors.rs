//! The distinguishable reasons an auction operation can abort.

use vstd::prelude::*;

verus! {

/// Every operation of the engine is fail-fast: the first failing
/// precondition aborts the whole operation with one of these reasons and no
/// entity is mutated.  No failure is ever swallowed or mapped to a partial
/// result.
#[derive(Clone, Copy, Debug, PartialEq, Eq, Structural)]
pub enum AuctionError {
    /// A fee, minimum-bid or redemption computation left the representable
    /// range.  Never silently saturated or wrapped.
    NumericalOverflowError,
    /// The supplied pricing record is not the vault's pricing lookup address.
    PriceAccountDoesNotMatchVaultAccount,
    /// The pricing record does not currently permit combining the vault.
    VaultCannotCurrentlyBeCombined,
    /// The vault is not in the active custodial state.
    VaultNotInActiveState,
    /// The vault is not owned by the auction program authority.
    VaultNotOwnedByAuctionAuthority,
    /// The opening bid is below the minimum derived from the reserve price.
    BidLessThanReservePrice,
    /// The bid is not larger, or not sufficiently larger, than the top bid.
    BidTooLow,
    /// The auction has already finished.
    AuctionHasEnded,
    /// The auction has not yet finished.
    AuctionHasNotEnded,
    /// Only the auction winner can claim the winnings.
    NotAuctionWinner,
    /// The current top bid cannot be withdrawn.
    CannotWithdrawTopBid,
    /// The facilitator fee ratio exceeds its denominator.
    InvalidFacilitatorFee,
    /// The paying token account holds less than the bid amount.
    InsufficientFunds,
    /// The facilitator fee has already been delivered.
    FeeAlreadyDelivered,
    /// The facilitator fee has not yet been delivered.
    FeeHasNotBeenDelivered,
}

impl AuctionError {
    /// A human-readable description, mirroring the protocol's error table.
    pub fn message(&self) -> &'static str {
        match self {
            AuctionError::NumericalOverflowError => "A numerical error occurred",
            AuctionError::PriceAccountDoesNotMatchVaultAccount => {
                "The given price account is not the vault account's pricing lookup address"
            },
            AuctionError::VaultCannotCurrentlyBeCombined => {
                "The vault is not currently allowed to combined"
            },
            AuctionError::VaultNotInActiveState => "The vault is not in the active state",
            AuctionError::VaultNotOwnedByAuctionAuthority => {
                "The vault is not owned by the auction authority"
            },
            AuctionError::BidLessThanReservePrice => {
                "The bid is not greater than or equal to the reserve price"
            },
            AuctionError::BidTooLow => {
                "The bid is either not larger or not sufficiently larger than the current bid"
            },
            AuctionError::AuctionHasEnded => "The auction has already finished",
            AuctionError::AuctionHasNotEnded => "The auction has not yet finished",
            AuctionError::NotAuctionWinner => "Only the auction winner can claim the winnings",
            AuctionError::CannotWithdrawTopBid => "Top bid cannot be withdrawn",
            AuctionError::InvalidFacilitatorFee => "Invalid facilitator fee",
            AuctionError::InsufficientFunds => {
                "Paying token account must have at least the bid amount of tokens"
            },
            AuctionError::FeeAlreadyDelivered => "Fee has already been delivered",
            AuctionError::FeeHasNotBeenDelivered => "Fee has not yet been delivered",
        }
    }
}

} // verus!
