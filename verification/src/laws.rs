//! The library's cross-operation guarantees, each proved from the same
//! spec-level transitions that the executable operations are verified
//! against.

use vstd::prelude::*;

use crate::badges::spec_badge_eligible;
use crate::cosmetics::CosmeticRegistry;
use crate::cosmetics::CosmeticTemplateAccount;
use crate::cosmetics::spec_mint_allowed;
use crate::cosmetics::spec_minted_template;
use crate::cosmetics::spec_staked_balances;
use crate::cosmetics::spec_unstaked_balances;
use crate::custody::TokenAccount;
use crate::errors::DsxError;
use crate::scoring::DAILY_CONTRIBUTION_REWARD;
use crate::scoring::RewardEvent;
use crate::scoring::ScoringConfig;
use crate::scoring::UserScoring;
use crate::scoring::spec_disbursed_config;
use crate::scoring::spec_reward_daily;
use crate::spec_epoch_day;

verus! {

/// The config after a whole sequence of quota-checked disbursements, each
/// given as (amount, wall-clock time).
pub open spec fn spec_run_disbursements(config: ScoringConfig, calls: Seq<(u64, u64)>)
    -> ScoringConfig
    decreases calls.len(),
{
    if calls.len() == 0 {
        config
    } else {
        spec_run_disbursements(
            spec_disbursed_config(config, calls[0].0, spec_epoch_day(calls[0].1)),
            calls.drop_first(),
        )
    }
}

/// Daily quota invariant, one step: a quota-checked disbursement keeps the
/// daily counter within the quota, whether or not it pays.
pub proof fn lemma_disbursement_preserves_quota(config: ScoringConfig, amount: u64, day: u64)
    requires
        config.wf(),
    ensures
        spec_disbursed_config(config, amount, day).wf(),
        spec_disbursed_config(config, amount, day).daily_limit == config.daily_limit,
{
}

/// Daily quota invariant: for any sequence of disbursements from a
/// well-formed config, the daily counter never exceeds the quota — not at
/// the end and not after any prefix of the sequence.
pub proof fn lemma_daily_quota_invariant(config: ScoringConfig, calls: Seq<(u64, u64)>)
    requires
        config.wf(),
    ensures
        spec_run_disbursements(config, calls).wf(),
        forall|k: int|
            0 <= k <= calls.len() ==> #[trigger] spec_run_disbursements(
                config,
                calls.take(k),
            ).wf(),
    decreases calls.len(),
{
    if calls.len() > 0 {
        let next = spec_disbursed_config(config, calls[0].0, spec_epoch_day(calls[0].1));
        lemma_disbursement_preserves_quota(config, calls[0].0, spec_epoch_day(calls[0].1));
        lemma_daily_quota_invariant(next, calls.drop_first());
        assert forall|k: int| 0 <= k <= calls.len() implies #[trigger] spec_run_disbursements(
            config,
            calls.take(k),
        ).wf() by {
            if k == 0 {
                assert(calls.take(0).len() == 0);
            } else {
                assert(calls.take(k).drop_first() =~= calls.drop_first().take(k - 1));
                assert(spec_run_disbursements(config, calls.take(k))
                    == spec_run_disbursements(next, calls.drop_first().take(k - 1)));
            }
        }
    }
}

/// Idempotent daily reward: when the first call of an epoch pays, a second
/// call in the same epoch fails with `AlreadyContributedToday`, changes
/// nothing, and the user's total has grown by exactly one reward amount.
pub proof fn lemma_daily_reward_idempotent(
    config: ScoringConfig,
    user_scoring: UserScoring,
    recipient: TokenAccount,
    now1: u64,
    now2: u64,
)
    requires
        spec_epoch_day(now1) == spec_epoch_day(now2),
        spec_reward_daily(config, user_scoring, recipient, now1).3 is Ok,
        user_scoring.total_earned + DAILY_CONTRIBUTION_REWARD <= u64::MAX,
    ensures
        ({
            let (c1, u1, a1, r1) = spec_reward_daily(config, user_scoring, recipient, now1);
            let (c2, u2, a2, r2) = spec_reward_daily(c1, u1, a1, now2);
            &&& r2 == Err::<RewardEvent, DsxError>(DsxError::AlreadyContributedToday)
            &&& c2 == c1 && u2 == u1 && a2 == a1
            &&& u1.total_earned == user_scoring.total_earned + DAILY_CONTRIBUTION_REWARD
        }),
{
}

/// The template record after a number of mint attempts.
pub open spec fn spec_mint_n(t: CosmeticTemplateAccount, n: nat) -> CosmeticTemplateAccount
    decreases n,
{
    if n == 0 {
        t
    } else {
        spec_minted_template(spec_mint_n(t, (n - 1) as nat))
    }
}

/// Supply cap: from a fresh template capped at `max_supply`, each of the
/// first `max_supply` mint attempts is allowed and raises the counter by
/// one, and the attempt after that is refused with the counter still at
/// the cap.
pub proof fn lemma_supply_cap(t: CosmeticTemplateAccount, k: nat)
    requires
        t.total_minted == 0,
        t.cosmetic_data.max_supply > 0,
        k <= t.cosmetic_data.max_supply,
    ensures
        spec_mint_n(t, k).total_minted == k,
        spec_mint_n(t, k).cosmetic_data == t.cosmetic_data,
        k < t.cosmetic_data.max_supply ==> spec_mint_allowed(spec_mint_n(t, k)),
        k == t.cosmetic_data.max_supply ==> !spec_mint_allowed(spec_mint_n(t, k)),
    decreases k,
{
    if k > 0 {
        lemma_supply_cap(t, (k - 1) as nat);
    }
}

/// Stake/unstake round-trip: staking an item and then unstaking it returns
/// the caller's balance, the vault's balance, and the active-stake counter
/// to their pre-stake values.
pub proof fn lemma_stake_unstake_round_trip(
    registry: CosmeticRegistry,
    user_account: TokenAccount,
    vault: TokenAccount,
)
    requires
        registry.active_stakes < u64::MAX,
        user_account.amount >= 1,
        vault.amount < u64::MAX,
    ensures
        ({
            let (r1, u1, v1) = spec_staked_balances(registry, user_account, vault);
            let (r2, u2, v2) = spec_unstaked_balances(r1, u1, v1);
            r2 == registry && u2 == user_account && v2 == vault
        }),
{
}

/// Badge gating: the influencer badge is awarded exactly when the user has
/// at least ten referrals; the caller-supplied requirement value plays no
/// part in it.
pub proof fn lemma_influencer_badge_gating(user_scoring: UserScoring, requirement_met: u64)
    ensures
        spec_badge_eligible(user_scoring, "influencer"@, requirement_met) <==> user_scoring
            .referral_count >= 10,
{
    reveal_strlit("founder");
    reveal_strlit("influencer");
    assert("influencer"@.len() == 10 && "founder"@.len() == 7);
}

} // verus!
