//! The token custody primitive: movable token balances held in named
//! accounts. Minting and transfers are the only ways a balance changes,
//! and both state the exact balance movement in their contracts.

use vstd::prelude::*;

verus! {

/// A token balance held by one account.
///
/// Which mint the balance is denominated in and who owns the account are
/// decided by whatever keys the account is filed under; the primitive
/// itself only moves the balance.
#[derive(Clone, Copy, Debug, PartialEq, Eq, Structural)]
pub struct TokenAccount {
    pub amount: u64,
}

impl TokenAccount {
    /// A freshly created account holds nothing.
    pub fn new() -> (acct: TokenAccount)
        ensures
            acct.amount == 0,
    {
        TokenAccount { amount: 0 }
    }
}

/// Mint `amount` new units into `recipient`.
pub fn mint_to(recipient: &mut TokenAccount, amount: u64)
    requires
        old(recipient).amount + amount <= u64::MAX,
    ensures
        final(recipient).amount == old(recipient).amount + amount,
{
    recipient.amount = recipient.amount + amount;
}

/// Move `amount` units from `from` to `to`.
pub fn transfer(from: &mut TokenAccount, to: &mut TokenAccount, amount: u64)
    requires
        old(from).amount >= amount,
        old(to).amount + amount <= u64::MAX,
    ensures
        final(from).amount == old(from).amount - amount,
        final(to).amount == old(to).amount + amount,
{
    from.amount = from.amount - amount;
    to.amount = to.amount + amount;
}

} // verus!
