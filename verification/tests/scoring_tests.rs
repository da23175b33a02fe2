use neoengine::custody::TokenAccount;
use neoengine::epoch_day;
use neoengine::errors::DsxError;
use neoengine::scoring::CONTENT_REWARD_CAP;
use neoengine::scoring::DAILY_CONTRIBUTION_REWARD;
use neoengine::scoring::DAILY_LIMIT;
use neoengine::scoring::MAX_REPUTATION;
use neoengine::scoring::PARTICIPATION_REWARD_RATE;
use neoengine::scoring::REFERRAL_REWARD;
use neoengine::scoring::RewardType;
use neoengine::scoring::TOKEN_UNIT;
use neoengine::scoring::calculate_reputation_score;
use neoengine::scoring::get_reputation_score;
use neoengine::scoring::initialize_scoring;
use neoengine::scoring::initialize_user_scoring;
use neoengine::scoring::mint_dsx_tokens;
use neoengine::scoring::reward_community_participation;
use neoengine::scoring::reward_content_engagement;
use neoengine::scoring::reward_daily_contribution;
use neoengine::scoring::reward_referral;

const DAY: u64 = 86400;

#[test]
fn epoch_day_buckets_timestamps() {
    assert_eq!(epoch_day(0), 0);
    assert_eq!(epoch_day(86399), 0);
    assert_eq!(epoch_day(86400), 1);
    assert_eq!(epoch_day(100 * DAY + 12345), 100);
}

#[test]
fn initialize_scoring_sets_quota() {
    let config = initialize_scoring(7, 9);
    assert_eq!(config.authority, 7);
    assert_eq!(config.dsx_mint, 9);
    assert_eq!(config.total_distributed, 0);
    assert_eq!(config.daily_distributed, 0);
    assert_eq!(config.daily_limit, 1000 * TOKEN_UNIT);
    assert_eq!(config.daily_limit, DAILY_LIMIT);
    assert_eq!(config.last_reset_day, 0);
}

#[test]
fn daily_reward_pays_once_per_epoch() {
    let mut config = initialize_scoring(7, 9);
    let mut user = initialize_user_scoring(42);
    let mut account = TokenAccount::new();
    let now = 100 * DAY + 5;

    let first = reward_daily_contribution(&mut config, &mut user, &mut account, now);
    let event = first.expect("first daily reward of the epoch pays");
    assert_eq!(event.user, 42);
    assert_eq!(event.amount, DAILY_CONTRIBUTION_REWARD);
    assert_eq!(event.amount, 50 * TOKEN_UNIT);
    assert_eq!(event.reward_type, RewardType::DailyContribution);
    assert_eq!(event.timestamp, now);
    assert_eq!(account.amount, 50 * TOKEN_UNIT);
    assert_eq!(user.total_earned, 50 * TOKEN_UNIT);
    assert_eq!(user.last_daily_contribution, 100);

    // Second call in the same epoch: refused, nothing moves.
    let config_before = config;
    let user_before = user;
    let account_before = account;
    let second = reward_daily_contribution(&mut config, &mut user, &mut account, now + 60);
    assert_eq!(second, Err(DsxError::AlreadyContributedToday));
    assert_eq!(config, config_before);
    assert_eq!(user, user_before);
    assert_eq!(account, account_before);

    // Next epoch: pays again, and the payout day advances strictly.
    let third = reward_daily_contribution(&mut config, &mut user, &mut account, now + DAY);
    assert!(third.is_ok());
    assert_eq!(user.total_earned, 100 * TOKEN_UNIT);
    assert_eq!(user.last_daily_contribution, 101);
}

#[test]
fn daily_quota_holds_over_a_sequence_of_rewards() {
    let mut config = initialize_scoring(7, 9);
    let mut user = initialize_user_scoring(42);
    let mut account = TokenAccount::new();
    let now = 10 * DAY;

    // 1000 whole tokens per day; referrals pay 100 each: ten fit, the
    // eleventh breaks the quota and nothing of it is disbursed.
    for _ in 0..10 {
        let r = reward_referral(&mut config, &mut user, &mut account, 1, now);
        assert!(r.is_ok());
        assert!(config.daily_distributed <= config.daily_limit);
    }
    assert_eq!(config.daily_distributed, 1000 * TOKEN_UNIT);
    assert_eq!(user.referral_count, 10);

    let blocked = reward_referral(&mut config, &mut user, &mut account, 2, now);
    assert_eq!(blocked, Err(DsxError::DailyLimitExceeded));
    assert_eq!(config.daily_distributed, 1000 * TOKEN_UNIT);
    assert_eq!(account.amount, 1000 * TOKEN_UNIT);
    assert_eq!(user.referral_count, 10);

    // A new epoch resets the counter and the quota opens again.
    let next_day = reward_referral(&mut config, &mut user, &mut account, 2, now + DAY);
    assert!(next_day.is_ok());
    assert_eq!(config.daily_distributed, 100 * TOKEN_UNIT);
    assert_eq!(config.last_reset_day, 11);
    assert_eq!(config.total_distributed, 1100 * TOKEN_UNIT);
}

#[test]
fn quota_failure_keeps_the_epoch_rollover() {
    let mut config = initialize_scoring(7, 9);
    config.daily_distributed = 990 * TOKEN_UNIT;
    config.last_reset_day = 5;
    let mut account = TokenAccount::new();

    // Same epoch: 990 + 100 > 1000, the payment is refused and the
    // counter is untouched.
    let r = mint_dsx_tokens(&mut config, &mut account, REFERRAL_REWARD, 5 * DAY + 1);
    assert_eq!(r, Err(DsxError::DailyLimitExceeded));
    assert_eq!(config.daily_distributed, 990 * TOKEN_UNIT);
    assert_eq!(account.amount, 0);

    // New epoch, amount above the whole quota: the rollover itself is
    // retained even though the payment fails.
    config.daily_distributed = 990 * TOKEN_UNIT;
    let r2 = mint_dsx_tokens(&mut config, &mut account, DAILY_LIMIT + 1, 6 * DAY);
    assert_eq!(r2, Err(DsxError::DailyLimitExceeded));
    assert_eq!(config.last_reset_day, 6);
    assert_eq!(config.daily_distributed, 0);
    assert_eq!(account.amount, 0);
}

#[test]
fn referral_pays_fixed_amount_without_dedup() {
    let mut config = initialize_scoring(7, 9);
    let mut user = initialize_user_scoring(42);
    let mut account = TokenAccount::new();
    let now = 3 * DAY;

    // The same referred user claimed twice still pays twice: dedup is the
    // caller's duty.
    let r1 = reward_referral(&mut config, &mut user, &mut account, 77, now).unwrap();
    let r2 = reward_referral(&mut config, &mut user, &mut account, 77, now).unwrap();
    assert_eq!(r1.amount, 100 * TOKEN_UNIT);
    assert_eq!(r2.amount, 100 * TOKEN_UNIT);
    assert_eq!(r1.reward_type, RewardType::Referral);
    assert_eq!(user.referral_count, 2);
    assert_eq!(user.total_earned, 200 * TOKEN_UNIT);
    assert_eq!(account.amount, 200 * TOKEN_UNIT);
}

#[test]
fn content_engagement_is_capped_per_call() {
    let mut config = initialize_scoring(7, 9);
    let mut user = initialize_user_scoring(42);
    let mut account = TokenAccount::new();
    let now = 3 * DAY;

    let small = reward_content_engagement(&mut config, &mut user, &mut account, 5, now).unwrap();
    assert_eq!(small.amount, 5 * TOKEN_UNIT);
    assert_eq!(small.reward_type, RewardType::ContentEngagement);

    let capped = reward_content_engagement(&mut config, &mut user, &mut account, 30, now).unwrap();
    assert_eq!(capped.amount, CONTENT_REWARD_CAP);
    assert_eq!(capped.amount, 25 * TOKEN_UNIT);

    assert_eq!(user.content_score, 35);
    assert_eq!(user.total_earned, 30 * TOKEN_UNIT);
}

#[test]
fn zero_engagement_earns_nothing() {
    let mut config = initialize_scoring(7, 9);
    let mut user = initialize_user_scoring(42);
    let mut account = TokenAccount::new();

    let r = reward_content_engagement(&mut config, &mut user, &mut account, 0, 3 * DAY);
    assert_eq!(r, Err(DsxError::NoRewardEarned));
    assert_eq!(user.content_score, 0);
    assert_eq!(user.total_earned, 0);
    assert_eq!(account.amount, 0);
}

#[test]
fn participation_pays_per_point_uncapped() {
    let mut config = initialize_scoring(7, 9);
    let mut user = initialize_user_scoring(42);
    let mut account = TokenAccount::new();
    let now = 3 * DAY;

    let r = reward_community_participation(&mut config, &mut user, &mut account, 3, now).unwrap();
    assert_eq!(r.amount, 3 * PARTICIPATION_REWARD_RATE);
    assert_eq!(r.amount, 30 * TOKEN_UNIT);
    assert_eq!(r.reward_type, RewardType::CommunityParticipation);
    assert_eq!(user.community_participation, 3);

    // Zero points is not refused: it pays zero.
    let zero = reward_community_participation(&mut config, &mut user, &mut account, 0, now).unwrap();
    assert_eq!(zero.amount, 0);
    assert_eq!(user.community_participation, 3);
    assert_eq!(user.total_earned, 30 * TOKEN_UNIT);
}

#[test]
fn reputation_formula_and_determinism() {
    let mut user = initialize_user_scoring(42);
    user.total_earned = 500 * TOKEN_UNIT;
    user.referral_count = 2;
    user.content_score = 10;
    user.community_participation = 1;

    // 500 + 2*50 + 10*3 + 1*10 = 640
    assert_eq!(calculate_reputation_score(&user), 640);
    // A pure function of the record: an unchanged record scores the same.
    assert_eq!(calculate_reputation_score(&user), 640);
    assert_eq!(get_reputation_score(&user), 640);
}

#[test]
fn reputation_is_capped() {
    let mut user = initialize_user_scoring(42);
    user.referral_count = 100_000;
    assert_eq!(calculate_reputation_score(&user), MAX_REPUTATION);

    user.referral_count = u64::MAX;
    user.content_score = u64::MAX;
    user.community_participation = u64::MAX;
    user.total_earned = u64::MAX;
    assert_eq!(calculate_reputation_score(&user), 100_000);
}
