//! Typed failures surfaced by the ledger operations.
//!
//! Every failure is synchronous and leaves no partial state change: the
//! enclosing operation either commits every effect its contract states or
//! none of them.

use vstd::prelude::*;

verus! {

/// Failures of the reward and reputation engine.
#[derive(Clone, Copy, Debug, PartialEq, Eq, Structural)]
pub enum DsxError {
    /// The user's daily contribution was already rewarded in this epoch.
    AlreadyContributedToday,
    /// Disbursing the amount would push the epoch's total over the quota.
    DailyLimitExceeded,
    /// The computed reward amount is zero.
    NoRewardEarned,
    /// The user does not meet the badge's eligibility predicate.
    BadgeRequirementNotMet,
}

/// Failures of the cosmetic template registry and the stake escrow.
#[derive(Clone, Copy, Debug, PartialEq, Eq, Structural)]
pub enum CosmeticError {
    /// The caller is not the required authority or owner.
    Unauthorized,
    /// The template's supply cap is already fully minted.
    MaxSupplyReached,
    /// The caller does not hold exactly one unit of the item token.
    CosmeticNotOwned,
    /// The item's declared type does not match the supplied type tag.
    InvalidCosmeticType,
    /// A stake record for this item and profile already exists.
    CosmeticAlreadyStaked,
    /// No stake record exists for this item and profile.
    CosmeticNotStaked,
}

/// Failures of the keyed record store itself.
#[derive(Clone, Copy, Debug, PartialEq, Eq, Structural)]
pub enum StoreError {
    /// Creating a record whose key is already taken.
    KeyExists,
    /// Reading or mutating a record that does not exist.
    NoSuchKey,
}

/// What a reward-ledger operation can fail with: either the store could
/// not supply the records the operation declared, or the engine refused.
#[derive(Clone, Copy, Debug, PartialEq, Eq, Structural)]
pub enum ScoringLedgerError {
    Store(StoreError),
    Program(DsxError),
}

/// What an item-ledger operation can fail with: either the store could
/// not supply the records the operation declared, or the registry or
/// escrow refused.
#[derive(Clone, Copy, Debug, PartialEq, Eq, Structural)]
pub enum CosmeticLedgerError {
    Store(StoreError),
    Program(CosmeticError),
}

} // verus!
