//! A plain-value model of the fungible token ledger the engine settles in.
//!
//! The host's token component keeps one balance per account; the engine only
//! ever moves whole amounts between two accounts of the same mint inside one
//! atomic operation.  Modelling the balances directly lets every transfer be
//! verified to conserve funds.

use vstd::prelude::*;

verus! {

/// A fungible token account: what the engine reads of the ledger's record.
#[derive(Clone, Copy, Debug, PartialEq, Eq, Structural)]
pub struct TokenAccount {
    /// The mint this account holds tokens of.
    pub mint: u64,
    /// The account's owner, entitled to move its funds.
    pub owner: u64,
    /// The current balance.
    pub amount: u64,
}

/// Move `amount` tokens between two accounts of one mint.  The sum of the two
/// balances is conserved; no other field changes.
pub fn transfer(from: &mut TokenAccount, to: &mut TokenAccount, amount: u64)
    requires
        old(from).mint == old(to).mint,
        old(from).amount >= amount,
        old(to).amount + amount <= u64::MAX,
    ensures
        final(from).amount == old(from).amount - amount,
        final(to).amount == old(to).amount + amount,
        final(from).mint == old(from).mint,
        final(from).owner == old(from).owner,
        final(to).mint == old(to).mint,
        final(to).owner == old(to).owner,
        final(from).amount + final(to).amount == old(from).amount + old(to).amount,
{
    from.amount = from.amount - amount;
    to.amount = to.amount + amount;
}

} // verus!
