//! Ledger-style record managers for a social/gaming platform: a reward
//! distribution engine with daily quotas and reputation scoring, and a
//! token-custody engine for staking collectible items against a profile.
//!
//! All state lives in plain records addressed by deterministic keys; every
//! operation is a transition function whose effect is pinned down by its
//! contract. The execution environment (sequencer, clock, token transport)
//! supplies timestamps and performs the movements the contracts describe.

pub mod badges;
pub mod cosmetic_ledger;
pub mod cosmetics;
pub mod custody;
pub mod errors;
pub mod laws;
pub mod metadata;
pub mod scoring_ledger;
pub mod scoring;

use vstd::prelude::*;

verus! {

/// Length of one epoch (a day) in seconds.
pub const SECONDS_PER_DAY: u64 = 86400;

/// The epoch (day number) a timestamp falls in.
pub open spec fn spec_epoch_day(now: u64) -> u64 {
    now / SECONDS_PER_DAY
}

/// The epoch (day number) a timestamp falls in.
pub fn epoch_day(now: u64) -> (d: u64)
    ensures
        d == spec_epoch_day(now),
{
    now / SECONDS_PER_DAY
}

} // verus!
