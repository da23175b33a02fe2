use neoengine::badges::award_achievement_badge;
use neoengine::badges::badge_eligible;
use neoengine::badges::update_reputation_score;
use neoengine::errors::DsxError;
use neoengine::scoring::TOKEN_UNIT;
use neoengine::scoring::initialize_user_scoring;

#[test]
fn influencer_badge_is_gated_on_ten_referrals() {
    let mut user = initialize_user_scoring(42);
    user.referral_count = 9;
    let refused = award_achievement_badge(&user, "influencer", 0, 777);
    assert_eq!(refused, Err(DsxError::BadgeRequirementNotMet));

    user.referral_count = 10;
    let awarded = award_achievement_badge(&user, "influencer", 0, 777).unwrap();
    assert_eq!(awarded.user, 42);
    assert_eq!(awarded.badge_id, "influencer");
    assert_eq!(awarded.requirement_met, 0);
    assert_eq!(awarded.timestamp, 777);
}

#[test]
fn badge_thresholds() {
    let mut user = initialize_user_scoring(42);

    assert!(!badge_eligible(&user, "founder", 0));
    user.referral_count = 1;
    assert!(badge_eligible(&user, "founder", 0));

    user.content_score = 99;
    assert!(!badge_eligible(&user, "content_creator", 0));
    user.content_score = 100;
    assert!(badge_eligible(&user, "content_creator", 0));

    // Streak badges go by the caller-supplied requirement alone.
    assert!(!badge_eligible(&user, "daily_streak_7", 6));
    assert!(badge_eligible(&user, "daily_streak_7", 7));
    assert!(!badge_eligible(&user, "daily_streak_30", 29));
    assert!(badge_eligible(&user, "daily_streak_30", 30));

    user.total_earned = 10_000 * TOKEN_UNIT - 1;
    assert!(!badge_eligible(&user, "whale", 0));
    user.total_earned = 10_000 * TOKEN_UNIT;
    assert!(badge_eligible(&user, "whale", 0));
}

#[test]
fn unknown_badge_ids_are_never_eligible() {
    let mut user = initialize_user_scoring(42);
    user.referral_count = u64::MAX;
    user.content_score = u64::MAX;
    user.total_earned = u64::MAX;
    assert!(!badge_eligible(&user, "archon", u64::MAX));
    assert!(!badge_eligible(&user, "", u64::MAX));
    let refused = award_achievement_badge(&user, "archon", u64::MAX, 1);
    assert_eq!(refused, Err(DsxError::BadgeRequirementNotMet));
}

#[test]
fn reputation_update_carries_the_record_fields() {
    let mut user = initialize_user_scoring(42);
    user.total_earned = 500 * TOKEN_UNIT;
    user.referral_count = 2;
    user.content_score = 10;
    user.community_participation = 1;

    let ev = update_reputation_score(&user, 999);
    assert_eq!(ev.user, 42);
    assert_eq!(ev.reputation_score, 640);
    assert_eq!(ev.dsx_earned, 500 * TOKEN_UNIT);
    assert_eq!(ev.referrals, 2);
    assert_eq!(ev.content_score, 10);
    assert_eq!(ev.timestamp, 999);
}
