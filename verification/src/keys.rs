//! Deterministic derivation of entity identities.
//!
//! The host addresses each entity by a key derived from a tag and the
//! identities it depends on — conceptually a keyed hash of those
//! components.  Here the key is the structured preimage itself, which makes
//! the scheme's guarantee direct: keys of different schemes never collide,
//! and within a scheme equal keys mean equal components.  This is what
//! makes an auction unique per vault and a live bid unique per
//! (bidder, auction) pair.

use vstd::prelude::*;

verus! {

/// A derived entity identity: the derivation scheme's tag together with the
/// components it was derived from.
#[derive(Clone, Copy, Debug, PartialEq, Eq, Structural)]
pub enum EntityKey {
    /// The protocol's global authority, one per deployed protocol.
    Authority { program_id: u64 },
    /// An auction, one per vault.
    Auction { vault_id: u64 },
    /// A bid record, one live record per (bidder, auction) pair.
    Bid { bidder_id: u64, auction_id: u64 },
}

/// The authority key of a deployed protocol.
pub fn authority_key(program_id: u64) -> (r: EntityKey)
    ensures
        r == (EntityKey::Authority { program_id }),
{
    EntityKey::Authority { program_id }
}

/// The auction key of a vault.
pub fn auction_key(vault_id: u64) -> (r: EntityKey)
    ensures
        r == (EntityKey::Auction { vault_id }),
{
    EntityKey::Auction { vault_id }
}

/// The bid key of a bidder on an auction.
pub fn bid_key(bidder_id: u64, auction_id: u64) -> (r: EntityKey)
    ensures
        r == (EntityKey::Bid { bidder_id, auction_id }),
{
    EntityKey::Bid { bidder_id, auction_id }
}

/// The derivation is injective: two entities share a key only if they are
/// derived from the same scheme with the same components.  In a store
/// keyed by `EntityKey` there is therefore at most one auction per vault
/// and at most one live bid per (bidder, auction) pair.
pub proof fn lemma_entity_key_injective(k1: EntityKey, k2: EntityKey)
    requires
        k1 == k2,
    ensures
        k1 matches EntityKey::Auction { vault_id: v1 } ==> k2 matches EntityKey::Auction {
            vault_id: v2,
        } && v1 == v2,
        k1 matches EntityKey::Bid { bidder_id: b1, auction_id: a1 } ==> k2 matches EntityKey::Bid {
            bidder_id: b2,
            auction_id: a2,
        } && b1 == b2 && a1 == a2,
{
}

} // verus!
