//! The reward engine and reputation calculator.
//!
//! A singleton `ScoringConfig` record tracks the rolling daily quota; one
//! `UserScoring` record per user accumulates what was earned. Every reward
//! operation funnels through the quota-checked disbursement step
//! (`mint_dsx_tokens`), whose whole effect on the config is the spec-level
//! transition `spec_disbursed_config`. The clock is the environment's: each
//! operation takes the current wall-clock time as an argument.

use vstd::prelude::*;

use crate::custody::TokenAccount;
use crate::custody::mint_to;
use crate::errors::DsxError;
use crate::spec_epoch_day;
use crate::epoch_day;

verus! {

/// Smallest indivisible amount of one whole reward token.
pub const TOKEN_UNIT: u64 = 1_000_000_000;

/// At most 1000 whole tokens leave the program per epoch.
pub const DAILY_LIMIT: u64 = 1000 * TOKEN_UNIT;

/// Fixed payout for the once-a-day contribution reward.
pub const DAILY_CONTRIBUTION_REWARD: u64 = 50 * TOKEN_UNIT;

/// Fixed payout per referral.
pub const REFERRAL_REWARD: u64 = 100 * TOKEN_UNIT;

/// Content engagement pays one whole token per engagement point ...
pub const CONTENT_REWARD_UNIT: u64 = TOKEN_UNIT;

/// ... capped per call at 25 whole tokens.
pub const CONTENT_REWARD_CAP: u64 = 25 * TOKEN_UNIT;

/// Community participation pays ten whole tokens per point, uncapped.
pub const PARTICIPATION_REWARD_RATE: u64 = 10 * TOKEN_UNIT;

/// Reputation is bounded to keep any single accumulating field from
/// dominating.
pub const MAX_REPUTATION: u64 = 100000;

/// Earning 10000 whole tokens qualifies for the whale badge.
pub const WHALE_THRESHOLD: u64 = 10000 * TOKEN_UNIT;

/// Global state of the reward program: the singleton record behind the
/// daily quota.
#[derive(Clone, Copy, Debug, PartialEq, Eq, Structural)]
pub struct ScoringConfig {
    pub authority: u64,
    pub dsx_mint: u64,
    pub total_distributed: u64,
    pub daily_distributed: u64,
    pub daily_limit: u64,
    pub last_reset_day: u64,
}

impl ScoringConfig {
    /// The daily quota invariant: what was disbursed in the epoch in force
    /// never exceeds the quota.
    pub open spec fn wf(self) -> bool {
        self.daily_distributed <= self.daily_limit
    }
}

/// Per-user accumulated reward state, created once per owner.
#[derive(Clone, Copy, Debug, PartialEq, Eq, Structural)]
pub struct UserScoring {
    pub user: u64,
    pub total_earned: u64,
    pub last_daily_contribution: u64,
    pub referral_count: u64,
    pub content_score: u64,
    pub community_participation: u64,
}

/// Which reward operation produced an event.
#[derive(Clone, Copy, Debug, PartialEq, Eq, Structural)]
pub enum RewardType {
    DailyContribution,
    Referral,
    ContentEngagement,
    CommunityParticipation,
}

/// Appended to the audit log after each successful reward operation.
#[derive(Clone, Copy, Debug, PartialEq, Eq, Structural)]
pub struct RewardEvent {
    pub user: u64,
    pub reward_type: RewardType,
    pub amount: u64,
    pub timestamp: u64,
}

/// Create the singleton reward-program record.
pub fn initialize_scoring(authority: u64, dsx_mint: u64) -> (config: ScoringConfig)
    ensures
        config == (ScoringConfig {
            authority,
            dsx_mint,
            total_distributed: 0,
            daily_distributed: 0,
            daily_limit: DAILY_LIMIT,
            last_reset_day: 0,
        }),
        config.wf(),
{
    ScoringConfig {
        authority,
        dsx_mint,
        total_distributed: 0,
        daily_distributed: 0,
        daily_limit: DAILY_LIMIT,
        last_reset_day: 0,
    }
}

/// Create a user's accumulated-reward record, all counters at zero.
pub fn initialize_user_scoring(user: u64) -> (user_scoring: UserScoring)
    ensures
        user_scoring == (UserScoring {
            user,
            total_earned: 0,
            last_daily_contribution: 0,
            referral_count: 0,
            content_score: 0,
            community_participation: 0,
        }),
{
    UserScoring {
        user,
        total_earned: 0,
        last_daily_contribution: 0,
        referral_count: 0,
        content_score: 0,
        community_participation: 0,
    }
}

/// The config after the epoch rollover: entering a new epoch resets the
/// daily counter and advances the stored epoch; within the same epoch
/// nothing changes.
pub open spec fn spec_rolled(config: ScoringConfig, day: u64) -> ScoringConfig {
    if config.last_reset_day == day {
        config
    } else {
        ScoringConfig { daily_distributed: 0, last_reset_day: day, ..config }
    }
}

/// Whether disbursing `amount` in the epoch of `day` stays within the quota.
pub open spec fn spec_disburse_allowed(config: ScoringConfig, amount: u64, day: u64) -> bool {
    spec_rolled(config, day).daily_distributed + amount <= config.daily_limit
}

/// The whole effect of one quota-checked disbursement on the config: the
/// epoch rollover is retained whether or not the payment goes through; the
/// counters grow only when it does.
pub open spec fn spec_disbursed_config(config: ScoringConfig, amount: u64, day: u64) -> ScoringConfig {
    let rolled = spec_rolled(config, day);
    if spec_disburse_allowed(config, amount, day) {
        ScoringConfig {
            daily_distributed: (rolled.daily_distributed + amount) as u64,
            total_distributed: (rolled.total_distributed + amount) as u64,
            ..rolled
        }
    } else {
        rolled
    }
}

/// The shared quota-checked disbursement step: roll the epoch over if it
/// changed, fail if the amount would break the quota, otherwise mint the
/// amount into the recipient's account and advance the counters.
pub fn mint_dsx_tokens(
    config: &mut ScoringConfig,
    recipient: &mut TokenAccount,
    amount: u64,
    now: u64,
) -> (r: Result<(), DsxError>)
    requires
        old(config).wf(),
        old(config).total_distributed + amount <= u64::MAX,
        old(recipient).amount + amount <= u64::MAX,
    ensures
        *final(config) == spec_disbursed_config(*old(config), amount, spec_epoch_day(now)),
        final(config).wf(),
        r is Ok <==> spec_disburse_allowed(*old(config), amount, spec_epoch_day(now)),
        r is Ok ==> final(recipient).amount == old(recipient).amount + amount,
        r is Err ==> r == Err::<(), DsxError>(DsxError::DailyLimitExceeded)
            && *final(recipient) == *old(recipient),
{
    let day = epoch_day(now);
    if config.last_reset_day != day {
        config.daily_distributed = 0;
        config.last_reset_day = day;
    }
    if amount > config.daily_limit - config.daily_distributed {
        return Err(DsxError::DailyLimitExceeded);
    }
    mint_to(recipient, amount);
    config.daily_distributed = config.daily_distributed + amount;
    config.total_distributed = config.total_distributed + amount;
    Ok(())
}

/// The whole effect of one daily-contribution reward: at most one payout
/// per user per epoch.
pub open spec fn spec_reward_daily(
    config: ScoringConfig,
    user_scoring: UserScoring,
    recipient: TokenAccount,
    now: u64,
) -> (ScoringConfig, UserScoring, TokenAccount, Result<RewardEvent, DsxError>) {
    let day = spec_epoch_day(now);
    if user_scoring.last_daily_contribution == day {
        (config, user_scoring, recipient, Err(DsxError::AlreadyContributedToday))
    } else if !spec_disburse_allowed(config, DAILY_CONTRIBUTION_REWARD, day) {
        (spec_disbursed_config(config, DAILY_CONTRIBUTION_REWARD, day), user_scoring, recipient,
            Err(DsxError::DailyLimitExceeded))
    } else {
        (
            spec_disbursed_config(config, DAILY_CONTRIBUTION_REWARD, day),
            UserScoring {
                last_daily_contribution: day,
                total_earned: (user_scoring.total_earned + DAILY_CONTRIBUTION_REWARD) as u64,
                ..user_scoring
            },
            TokenAccount { amount: (recipient.amount + DAILY_CONTRIBUTION_REWARD) as u64 },
            Ok(RewardEvent {
                user: user_scoring.user,
                reward_type: RewardType::DailyContribution,
                amount: DAILY_CONTRIBUTION_REWARD,
                timestamp: now,
            }),
        )
    }
}

/// Reward the user's daily contribution: fails if this epoch's payout was
/// already made, pays a fixed amount otherwise, subject to the daily quota.
pub fn reward_daily_contribution(
    config: &mut ScoringConfig,
    user_scoring: &mut UserScoring,
    recipient: &mut TokenAccount,
    now: u64,
) -> (r: Result<RewardEvent, DsxError>)
    requires
        old(config).wf(),
        old(config).total_distributed + DAILY_CONTRIBUTION_REWARD <= u64::MAX,
        old(recipient).amount + DAILY_CONTRIBUTION_REWARD <= u64::MAX,
        old(user_scoring).total_earned + DAILY_CONTRIBUTION_REWARD <= u64::MAX,
    ensures
        ({
            let (c, u, a, res) = spec_reward_daily(
                *old(config), *old(user_scoring), *old(recipient), now);
            *final(config) == c && *final(user_scoring) == u && *final(recipient) == a && r == res
        }),
        final(config).wf(),
{
    let day = epoch_day(now);
    if user_scoring.last_daily_contribution == day {
        return Err(DsxError::AlreadyContributedToday);
    }
    match mint_dsx_tokens(config, recipient, DAILY_CONTRIBUTION_REWARD, now) {
        Err(e) => Err(e),
        Ok(()) => {
            user_scoring.last_daily_contribution = day;
            user_scoring.total_earned = user_scoring.total_earned + DAILY_CONTRIBUTION_REWARD;
            Ok(RewardEvent {
                user: user_scoring.user,
                reward_type: RewardType::DailyContribution,
                amount: DAILY_CONTRIBUTION_REWARD,
                timestamp: now,
            })
        },
    }
}

/// The whole effect of one referral reward: a fixed payout per call, no
/// dedup of the referred user; the caller is trusted to call once per
/// genuine referral.
pub open spec fn spec_reward_referral(
    config: ScoringConfig,
    user_scoring: UserScoring,
    recipient: TokenAccount,
    now: u64,
) -> (ScoringConfig, UserScoring, TokenAccount, Result<RewardEvent, DsxError>) {
    let day = spec_epoch_day(now);
    if !spec_disburse_allowed(config, REFERRAL_REWARD, day) {
        (spec_disbursed_config(config, REFERRAL_REWARD, day), user_scoring, recipient,
            Err(DsxError::DailyLimitExceeded))
    } else {
        (
            spec_disbursed_config(config, REFERRAL_REWARD, day),
            UserScoring {
                referral_count: (user_scoring.referral_count + 1) as u64,
                total_earned: (user_scoring.total_earned + REFERRAL_REWARD) as u64,
                ..user_scoring
            },
            TokenAccount { amount: (recipient.amount + REFERRAL_REWARD) as u64 },
            Ok(RewardEvent {
                user: user_scoring.user,
                reward_type: RewardType::Referral,
                amount: REFERRAL_REWARD,
                timestamp: now,
            }),
        )
    }
}

/// Reward a successful referral: a fixed payout per call, subject to the
/// daily quota. Which user was referred is recorded by the caller only.
pub fn reward_referral(
    config: &mut ScoringConfig,
    user_scoring: &mut UserScoring,
    recipient: &mut TokenAccount,
    referred_user: u64,
    now: u64,
) -> (r: Result<RewardEvent, DsxError>)
    requires
        old(config).wf(),
        old(config).total_distributed + REFERRAL_REWARD <= u64::MAX,
        old(recipient).amount + REFERRAL_REWARD <= u64::MAX,
        old(user_scoring).total_earned + REFERRAL_REWARD <= u64::MAX,
        old(user_scoring).referral_count < u64::MAX,
    ensures
        ({
            let (c, u, a, res) = spec_reward_referral(
                *old(config), *old(user_scoring), *old(recipient), now);
            *final(config) == c && *final(user_scoring) == u && *final(recipient) == a && r == res
        }),
        final(config).wf(),
{
    let _ = referred_user;
    match mint_dsx_tokens(config, recipient, REFERRAL_REWARD, now) {
        Err(e) => Err(e),
        Ok(()) => {
            user_scoring.referral_count = user_scoring.referral_count + 1;
            user_scoring.total_earned = user_scoring.total_earned + REFERRAL_REWARD;
            Ok(RewardEvent {
                user: user_scoring.user,
                reward_type: RewardType::Referral,
                amount: REFERRAL_REWARD,
                timestamp: now,
            })
        },
    }
}

/// The reward owed for an engagement score: one token unit per point,
/// capped per call.
pub open spec fn spec_content_reward(engagement_score: u64) -> u64 {
    if engagement_score * CONTENT_REWARD_UNIT >= CONTENT_REWARD_CAP {
        CONTENT_REWARD_CAP
    } else {
        (engagement_score * CONTENT_REWARD_UNIT) as u64
    }
}

/// The whole effect of one content-engagement reward.
pub open spec fn spec_reward_content(
    config: ScoringConfig,
    user_scoring: UserScoring,
    recipient: TokenAccount,
    engagement_score: u64,
    now: u64,
) -> (ScoringConfig, UserScoring, TokenAccount, Result<RewardEvent, DsxError>) {
    let day = spec_epoch_day(now);
    let amount = spec_content_reward(engagement_score);
    if amount == 0 {
        (config, user_scoring, recipient, Err(DsxError::NoRewardEarned))
    } else if !spec_disburse_allowed(config, amount, day) {
        (spec_disbursed_config(config, amount, day), user_scoring, recipient,
            Err(DsxError::DailyLimitExceeded))
    } else {
        (
            spec_disbursed_config(config, amount, day),
            UserScoring {
                content_score: (user_scoring.content_score + engagement_score) as u64,
                total_earned: (user_scoring.total_earned + amount) as u64,
                ..user_scoring
            },
            TokenAccount { amount: (recipient.amount + amount) as u64 },
            Ok(RewardEvent {
                user: user_scoring.user,
                reward_type: RewardType::ContentEngagement,
                amount,
                timestamp: now,
            }),
        )
    }
}

/// Reward content engagement: pays in proportion to the engagement score,
/// capped per call; a zero reward is refused outright.
pub fn reward_content_engagement(
    config: &mut ScoringConfig,
    user_scoring: &mut UserScoring,
    recipient: &mut TokenAccount,
    engagement_score: u64,
    now: u64,
) -> (r: Result<RewardEvent, DsxError>)
    requires
        old(config).wf(),
        old(config).total_distributed + CONTENT_REWARD_CAP <= u64::MAX,
        old(recipient).amount + CONTENT_REWARD_CAP <= u64::MAX,
        old(user_scoring).total_earned + CONTENT_REWARD_CAP <= u64::MAX,
        old(user_scoring).content_score + engagement_score <= u64::MAX,
    ensures
        ({
            let (c, u, a, res) = spec_reward_content(
                *old(config), *old(user_scoring), *old(recipient), engagement_score, now);
            *final(config) == c && *final(user_scoring) == u && *final(recipient) == a && r == res
        }),
        final(config).wf(),
{
    let amount: u64 = if engagement_score >= 25 {
        proof {
            assert(engagement_score * CONTENT_REWARD_UNIT >= 25 * CONTENT_REWARD_UNIT)
                by (nonlinear_arith)
                requires engagement_score >= 25;
        }
        CONTENT_REWARD_CAP
    } else {
        engagement_score * CONTENT_REWARD_UNIT
    };
    assert(amount == spec_content_reward(engagement_score));
    if amount == 0 {
        return Err(DsxError::NoRewardEarned);
    }
    match mint_dsx_tokens(config, recipient, amount, now) {
        Err(e) => Err(e),
        Ok(()) => {
            user_scoring.content_score = user_scoring.content_score + engagement_score;
            user_scoring.total_earned = user_scoring.total_earned + amount;
            Ok(RewardEvent {
                user: user_scoring.user,
                reward_type: RewardType::ContentEngagement,
                amount,
                timestamp: now,
            })
        },
    }
}

/// The whole effect of one community-participation reward: a fixed rate
/// per point, uncapped per call (beyond the daily quota itself).
pub open spec fn spec_reward_participation(
    config: ScoringConfig,
    user_scoring: UserScoring,
    recipient: TokenAccount,
    participation_points: u64,
    now: u64,
) -> (ScoringConfig, UserScoring, TokenAccount, Result<RewardEvent, DsxError>) {
    let day = spec_epoch_day(now);
    let amount = (participation_points * PARTICIPATION_REWARD_RATE) as u64;
    if !spec_disburse_allowed(config, amount, day) {
        (spec_disbursed_config(config, amount, day), user_scoring, recipient,
            Err(DsxError::DailyLimitExceeded))
    } else {
        (
            spec_disbursed_config(config, amount, day),
            UserScoring {
                community_participation:
                    (user_scoring.community_participation + participation_points) as u64,
                total_earned: (user_scoring.total_earned + amount) as u64,
                ..user_scoring
            },
            TokenAccount { amount: (recipient.amount + amount) as u64 },
            Ok(RewardEvent {
                user: user_scoring.user,
                reward_type: RewardType::CommunityParticipation,
                amount,
                timestamp: now,
            }),
        )
    }
}

/// Reward community participation: pays a fixed rate per point, subject to
/// the daily quota.
pub fn reward_community_participation(
    config: &mut ScoringConfig,
    user_scoring: &mut UserScoring,
    recipient: &mut TokenAccount,
    participation_points: u64,
    now: u64,
) -> (r: Result<RewardEvent, DsxError>)
    requires
        old(config).wf(),
        participation_points * PARTICIPATION_REWARD_RATE <= u64::MAX,
        old(config).total_distributed + participation_points * PARTICIPATION_REWARD_RATE
            <= u64::MAX,
        old(recipient).amount + participation_points * PARTICIPATION_REWARD_RATE <= u64::MAX,
        old(user_scoring).total_earned + participation_points * PARTICIPATION_REWARD_RATE
            <= u64::MAX,
        old(user_scoring).community_participation + participation_points <= u64::MAX,
    ensures
        ({
            let (c, u, a, res) = spec_reward_participation(
                *old(config), *old(user_scoring), *old(recipient), participation_points, now);
            *final(config) == c && *final(user_scoring) == u && *final(recipient) == a && r == res
        }),
        final(config).wf(),
{
    let amount: u64 = participation_points * PARTICIPATION_REWARD_RATE;
    match mint_dsx_tokens(config, recipient, amount, now) {
        Err(e) => Err(e),
        Ok(()) => {
            user_scoring.community_participation =
                user_scoring.community_participation + participation_points;
            user_scoring.total_earned = user_scoring.total_earned + amount;
            Ok(RewardEvent {
                user: user_scoring.user,
                reward_type: RewardType::CommunityParticipation,
                amount,
                timestamp: now,
            })
        },
    }
}

/// The reputation formula: a weighted aggregate of the user's accumulated
/// fields, bounded above. A pure function of the record.
pub open spec fn spec_reputation(user_scoring: UserScoring) -> u64 {
    let total = user_scoring.total_earned / TOKEN_UNIT
        + user_scoring.referral_count * 50
        + user_scoring.content_score * 3
        + user_scoring.community_participation * 10;
    if total >= MAX_REPUTATION {
        MAX_REPUTATION
    } else {
        total as u64
    }
}

/// Derive the user's reputation score from the accumulated record.
pub fn calculate_reputation_score(user_scoring: &UserScoring) -> (r: u64)
    ensures
        r == spec_reputation(*user_scoring),
{
    let base_score: u128 = (user_scoring.total_earned / TOKEN_UNIT) as u128;
    let referral_bonus: u128 = (user_scoring.referral_count as u128) * 50;
    let content_bonus: u128 = (user_scoring.content_score as u128) * 3;
    let participation_bonus: u128 = (user_scoring.community_participation as u128) * 10;
    let total: u128 = base_score + referral_bonus + content_bonus + participation_bonus;
    if total >= MAX_REPUTATION as u128 {
        MAX_REPUTATION
    } else {
        total as u64
    }
}

/// Read-only query for the user's current reputation score.
pub fn get_reputation_score(user_scoring: &UserScoring) -> (r: u64)
    ensures
        r == spec_reputation(*user_scoring),
{
    calculate_reputation_score(user_scoring)
}

} // verus!
