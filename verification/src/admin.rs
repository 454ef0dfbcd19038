//! Administrative bootstrap: registering the protocol authority and the
//! shared auction settings.

use vstd::prelude::*;

use crate::errors::AuctionError;
use crate::state::{Authority, Settings, MAX_FACILITATOR_FEE};

verus! {

/// Register the protocol's global authority, owned by the caller.
pub fn init(signer: u64) -> (r: Authority)
    ensures
        r == (Authority { owner: signer }),
{
    Authority { owner: signer }
}

/// Hand the protocol over to a new owner.  The host admits this operation
/// only under the current owner's signature.
pub fn set_owner(authority: &mut Authority, new_owner: u64)
    ensures
        *final(authority) == (Authority { owner: new_owner }),
{
    authority.owner = new_owner;
}

/// Create an immutable settings record.  The host admits this operation
/// only under the protocol owner's signature.  The facilitator fee ratio is
/// validated here, and only here: every later fee computation may rely on it
/// staying within its denominator.
pub fn create_settings(
    duration: u64,
    soft_close_period: u64,
    bid_increment: u64,
    facilitator_fee: u64,
) -> (r: Result<Settings, AuctionError>)
    ensures
        facilitator_fee > MAX_FACILITATOR_FEE ==> r == Err::<Settings, AuctionError>(
            AuctionError::InvalidFacilitatorFee,
        ),
        facilitator_fee <= MAX_FACILITATOR_FEE ==> r == Ok::<Settings, AuctionError>(
            (Settings { duration, soft_close_period, bid_increment, facilitator_fee }),
        ),
        r matches Ok(s) ==> s.wf(),
{
    if facilitator_fee > MAX_FACILITATOR_FEE {
        return Err(AuctionError::InvalidFacilitatorFee);
    }
    Ok(Settings { duration, soft_close_period, bid_increment, facilitator_fee })
}

} // verus!
