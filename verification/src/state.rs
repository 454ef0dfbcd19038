//! The durable entities of the auction protocol and their invariants.
//!
//! Accounts of the host ledger are named by plain `u64` identities here; the
//! engine only ever compares them for equality.

use vstd::prelude::*;

verus! {

/// Denominator of the facilitator fee ratio: a `facilitator_fee` of
/// `MAX_FACILITATOR_FEE` would be a 100% fee.
pub const MAX_FACILITATOR_FEE: u64 = 1_000_000_000;

/// Denominator of the bid increment ratio: a `bid_increment` of
/// `MAX_BID_INCREMENT` demands that each bid double the previous one.
pub const MAX_BID_INCREMENT: u64 = 1_000_000_000;

/// Immutable-per-instance auction parameters, created once by the protocol
/// owner and referenced by any number of auctions.
#[derive(Clone, Copy, Debug, PartialEq, Eq, Structural)]
pub struct Settings {
    /// How long an auction initially runs, in seconds.
    pub duration: u64,
    /// Minimum reaction window guaranteed after any accepted bid, in seconds.
    pub soft_close_period: u64,
    /// Minimum bid increase as parts per `MAX_BID_INCREMENT` of the top bid.
    pub bid_increment: u64,
    /// Facilitator's cut as parts per `MAX_FACILITATOR_FEE` of the top bid.
    pub facilitator_fee: u64,
}

impl Settings {
    /// Invariant enforced when the settings record is created: the fee ratio
    /// never exceeds its denominator.
    pub open spec fn wf(self) -> bool {
        self.facilitator_fee <= MAX_FACILITATOR_FEE
    }
}

/// One auction per vault.  Created by `start`, mutated by `place_bid` and
/// `end`, never deleted: the record persists as settlement history.
#[derive(Clone, Copy, Debug, PartialEq, Eq, Structural)]
pub struct Auction {
    /// When the auction was started.
    pub start_timestamp: u64,
    /// When the auction closes; extended by soft-close bids.
    pub end_timestamp: u64,
    /// Mint of the token the auction is paid in.
    pub payment_mint: u64,
    /// The highest accepted bid.  Always at least `reserve_price`.
    pub top_bid: u64,
    /// Bidder holding the highest accepted bid.
    pub top_bidder: u64,
    /// Amount consumed from the opener by the vault's combine operation; the
    /// minimum total value the fraction holders must receive.
    pub reserve_price: u64,
    /// The settings record this auction was started under.
    pub settings: u64,
    /// The vault whose contents are being auctioned.
    pub vault: u64,
    /// Escrow account accumulating the winning payment.
    pub payment_treasury: u64,
    /// Whether the facilitator fee has been delivered.  Transitions
    /// false to true exactly once, never back.
    pub fee_paid: bool,
}

impl Auction {
    /// Structural invariant: the auction never closes before it starts, and
    /// the top bid never falls below the reserve price.
    pub open spec fn wf(self) -> bool {
        &&& self.start_timestamp <= self.end_timestamp
        &&& self.reserve_price <= self.top_bid
    }
}

/// One live bid record per (bidder, auction) pair.  Created by `start` or
/// `place_bid`, marked withdrawable when outbid, destroyed by `withdraw_bid`.
#[derive(Clone, Copy, Debug, PartialEq, Eq, Structural)]
pub struct Bid {
    /// The bidder who owns this record.
    pub bidder: u64,
    /// The auction this bid was placed on.
    pub auction: u64,
    /// The escrowed bid amount.
    pub amount: u64,
    /// When the bid was accepted.
    pub timestamp: u64,
    /// Set when the bid is outbid; the current top bid is never withdrawable.
    pub withdrawable: bool,
    /// The escrow token account whose transfer authority is this record.
    pub token_account: u64,
}

/// The protocol's global authority: holds the identity of the owner entitled
/// to administrative operations and to the facilitator fee.
#[derive(Clone, Copy, Debug, PartialEq, Eq, Structural)]
pub struct Authority {
    /// The current protocol owner.
    pub owner: u64,
}

} // verus!
