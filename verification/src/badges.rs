//! The badge eligibility evaluator and reputation propagation.
//!
//! Both operations end in a synchronous call into the external Profile
//! Service inside the same atomic operation. Locally they are read-only, so
//! each returns the request it wants carried out — the attach or the score
//! update — and the environment performs it; if that call fails the whole
//! operation aborts with nothing to roll back here.

use vstd::prelude::*;

use crate::errors::DsxError;
use crate::scoring::UserScoring;
use crate::scoring::WHALE_THRESHOLD;
use crate::scoring::spec_reputation;
use crate::scoring::calculate_reputation_score;

verus! {

/// Emitted when a reputation score was computed and handed to the Profile
/// Service; it carries everything the service's score update needs.
#[derive(Clone, Copy, Debug, PartialEq, Eq, Structural)]
pub struct ReputationCalculatedEvent {
    pub user: u64,
    pub reputation_score: u64,
    pub dsx_earned: u64,
    pub referrals: u64,
    pub content_score: u64,
    pub timestamp: u64,
}

/// Emitted when a badge award passed the eligibility check; it carries
/// everything the Profile Service's badge attach needs.
#[derive(Clone, Debug, PartialEq, Eq)]
pub struct BadgeAwardedEvent {
    pub user: u64,
    pub badge_id: String,
    pub requirement_met: u64,
    pub timestamp: u64,
}

/// Whether two string slices hold the same characters.
fn str_eq(a: &str, b: &str) -> (r: bool)
    ensures
        r == (a@ == b@),
{
    a.to_owned() == b.to_owned()
}

/// The fixed eligibility table: which accumulated record earns which badge.
/// `requirement_met` is supplied by the caller for the streak badges only,
/// which are not derived locally. Unknown badge ids are never eligible.
pub open spec fn spec_badge_eligible(
    user_scoring: UserScoring,
    badge_id: Seq<char>,
    requirement_met: u64,
) -> bool {
    if badge_id == "founder"@ {
        user_scoring.referral_count >= 1
    } else if badge_id == "influencer"@ {
        user_scoring.referral_count >= 10
    } else if badge_id == "content_creator"@ {
        user_scoring.content_score >= 100
    } else if badge_id == "daily_streak_7"@ {
        requirement_met >= 7
    } else if badge_id == "daily_streak_30"@ {
        requirement_met >= 30
    } else if badge_id == "whale"@ {
        user_scoring.total_earned >= WHALE_THRESHOLD
    } else {
        false
    }
}

/// Evaluate the eligibility table on the user's record.
pub fn badge_eligible(user_scoring: &UserScoring, badge_id: &str, requirement_met: u64) -> (r:
    bool)
    ensures
        r == spec_badge_eligible(*user_scoring, badge_id@, requirement_met),
{
    if str_eq(badge_id, "founder") {
        user_scoring.referral_count >= 1
    } else if str_eq(badge_id, "influencer") {
        user_scoring.referral_count >= 10
    } else if str_eq(badge_id, "content_creator") {
        user_scoring.content_score >= 100
    } else if str_eq(badge_id, "daily_streak_7") {
        requirement_met >= 7
    } else if str_eq(badge_id, "daily_streak_30") {
        requirement_met >= 30
    } else if str_eq(badge_id, "whale") {
        user_scoring.total_earned >= WHALE_THRESHOLD
    } else {
        false
    }
}

/// Award a badge: on ineligibility fail with `BadgeRequirementNotMet` and
/// request no external call; on eligibility return the attach request for
/// the Profile Service, whose failure aborts the whole operation.
pub fn award_achievement_badge(
    user_scoring: &UserScoring,
    badge_id: &str,
    requirement_met: u64,
    now: u64,
) -> (r: Result<BadgeAwardedEvent, DsxError>)
    ensures
        r is Ok <==> spec_badge_eligible(*user_scoring, badge_id@, requirement_met),
        r is Ok ==> {
            &&& r->Ok_0.user == user_scoring.user
            &&& r->Ok_0.badge_id@ == badge_id@
            &&& r->Ok_0.requirement_met == requirement_met
            &&& r->Ok_0.timestamp == now
        },
        r is Err ==> r == Err::<BadgeAwardedEvent, DsxError>(DsxError::BadgeRequirementNotMet),
{
    if !badge_eligible(user_scoring, badge_id, requirement_met) {
        return Err(DsxError::BadgeRequirementNotMet);
    }
    Ok(BadgeAwardedEvent {
        user: user_scoring.user,
        badge_id: badge_id.to_owned(),
        requirement_met,
        timestamp: now,
    })
}

/// Compute the user's reputation and return the score update to store
/// against the profile, together with the audit event's fields. Locally
/// read-only; the Profile Service call is the environment's to perform.
pub fn update_reputation_score(user_scoring: &UserScoring, now: u64) -> (ev:
    ReputationCalculatedEvent)
    ensures
        ev == (ReputationCalculatedEvent {
            user: user_scoring.user,
            reputation_score: spec_reputation(*user_scoring),
            dsx_earned: user_scoring.total_earned,
            referrals: user_scoring.referral_count,
            content_score: user_scoring.content_score,
            timestamp: now,
        }),
{
    let reputation = calculate_reputation_score(user_scoring);
    ReputationCalculatedEvent {
        user: user_scoring.user,
        reputation_score: reputation,
        dsx_earned: user_scoring.total_earned,
        referrals: user_scoring.referral_count,
        content_score: user_scoring.content_score,
        timestamp: now,
    }
}

} // verus!
