use neoengine::cosmetic_ledger::CosmeticLedger;
use neoengine::cosmetics::CosmeticTemplate;
use neoengine::errors::CosmeticError;
use neoengine::errors::CosmeticLedgerError;
use neoengine::errors::DsxError;
use neoengine::errors::ScoringLedgerError;
use neoengine::errors::StoreError;
use neoengine::scoring::TOKEN_UNIT;
use neoengine::scoring_ledger::ScoringLedger;

const DAY: u64 = 86400;

fn frame_template(max_supply: u64) -> CosmeticTemplate {
    CosmeticTemplate {
        name: "Neon Frame".to_string(),
        description: "A glowing frame effect".to_string(),
        cosmetic_type: "frame".to_string(),
        rarity: "epic".to_string(),
        collection: "Genesis".to_string(),
        image_cid: "QmNeonFrameCid".to_string(),
        tradable: true,
        max_supply,
    }
}

#[test]
fn user_records_are_created_once() {
    let mut ledger = ScoringLedger::new(7, 9);
    assert_eq!(ledger.register_user(42), Ok(()));
    assert_eq!(ledger.register_user(42), Err(StoreError::KeyExists));
    assert_eq!(ledger.register_user(43), Ok(()));
    assert_eq!(ledger.users.len(), 2);
}

#[test]
fn rewards_need_a_registered_user() {
    let mut ledger = ScoringLedger::new(7, 9);
    let r = ledger.reward_daily_contribution(42, 5 * DAY);
    assert_eq!(r, Err(ScoringLedgerError::Store(StoreError::NoSuchKey)));
    assert_eq!(ledger.get_reputation_score(42),
        Err(ScoringLedgerError::Store(StoreError::NoSuchKey)));
}

#[test]
fn ledger_quota_holds_over_mixed_reward_calls() {
    let mut ledger = ScoringLedger::new(7, 9);
    ledger.register_user(1).unwrap();
    ledger.register_user(2).unwrap();
    let now = 50 * DAY;

    // 50 + 100 + 25 + 800 = 975 whole tokens spent of the 1000 quota.
    assert!(ledger.reward_daily_contribution(1, now).is_ok());
    assert!(ledger.reward_referral(2, 1, now).is_ok());
    assert!(ledger.reward_content_engagement(1, 30, now).is_ok());
    assert!(ledger.reward_community_participation(2, 80, now).is_ok());
    assert!(ledger.config.daily_distributed <= ledger.config.daily_limit);
    assert_eq!(ledger.config.daily_distributed, 975 * TOKEN_UNIT);

    // 30 more whole tokens would cross the quota.
    let blocked = ledger.reward_community_participation(1, 3, now);
    assert_eq!(blocked, Err(ScoringLedgerError::Program(DsxError::DailyLimitExceeded)));
    assert_eq!(ledger.config.daily_distributed, 975 * TOKEN_UNIT);

    // 25 fit exactly.
    assert!(ledger.reward_content_engagement(2, 25, now).is_ok());
    assert_eq!(ledger.config.daily_distributed, 1000 * TOKEN_UNIT);
    assert!(ledger.config.daily_distributed <= ledger.config.daily_limit);
}

#[test]
fn ledger_daily_reward_is_idempotent_within_an_epoch() {
    let mut ledger = ScoringLedger::new(7, 9);
    ledger.register_user(42).unwrap();
    let now = 50 * DAY;

    let first = ledger.reward_daily_contribution(42, now).unwrap();
    assert_eq!(first.amount, 50 * TOKEN_UNIT);
    let second = ledger.reward_daily_contribution(42, now + 100);
    assert_eq!(second, Err(ScoringLedgerError::Program(DsxError::AlreadyContributedToday)));
    assert_eq!(ledger.users[0].record.total_earned, 50 * TOKEN_UNIT);
    assert_eq!(ledger.users[0].account.amount, 50 * TOKEN_UNIT);
}

#[test]
fn ledger_badges_and_reputation() {
    let mut ledger = ScoringLedger::new(7, 9);
    ledger.register_user(42).unwrap();
    let now = 50 * DAY;
    for _ in 0..2 {
        ledger.reward_referral(42, 5, now).unwrap();
    }

    // 200 earned tokens and two referrals: 200 + 100 = 300.
    assert_eq!(ledger.get_reputation_score(42), Ok(300));
    let ev = ledger.update_reputation_score(42, now).unwrap();
    assert_eq!(ev.reputation_score, 300);
    assert_eq!(ev.referrals, 2);

    let refused = ledger.award_achievement_badge(42, "influencer", 0, now);
    assert_eq!(refused,
        Err(ScoringLedgerError::Program(DsxError::BadgeRequirementNotMet)));
    let founder = ledger.award_achievement_badge(42, "founder", 0, now).unwrap();
    assert_eq!(founder.badge_id, "founder");
}

#[test]
fn template_ids_are_unique_and_authority_checked() {
    let mut ledger = CosmeticLedger::new(7);
    let refused = ledger.create_cosmetic_template(8, "neon_frame".to_string(),
        frame_template(3), 1000);
    assert_eq!(refused,
        Err(CosmeticLedgerError::Program(CosmeticError::Unauthorized)));
    assert_eq!(ledger.templates.len(), 0);
    assert_eq!(ledger.registry.total_cosmetics_created, 0);

    assert!(ledger.create_cosmetic_template(7, "neon_frame".to_string(),
        frame_template(3), 1000).is_ok());
    let duplicate = ledger.create_cosmetic_template(7, "neon_frame".to_string(),
        frame_template(3), 1001);
    assert_eq!(duplicate, Err(CosmeticLedgerError::Store(StoreError::KeyExists)));
    assert_eq!(ledger.templates.len(), 1);
    assert_eq!(ledger.registry.total_cosmetics_created, 1);
}

#[test]
fn ledger_supply_cap() {
    let mut ledger = CosmeticLedger::new(7);
    let id = "neon_frame".to_string();
    ledger.create_cosmetic_template(7, id.clone(), frame_template(3), 1000).unwrap();

    for k in 0..3u64 {
        assert!(ledger.mint_cosmetic(&id, 900 + k, 42 + k, 2000 + k).is_ok());
    }
    assert_eq!(ledger.templates[0].total_minted, 3);

    let blocked = ledger.mint_cosmetic(&id, 903, 50, 2010);
    assert_eq!(blocked,
        Err(CosmeticLedgerError::Program(CosmeticError::MaxSupplyReached)));
    assert_eq!(ledger.templates[0].total_minted, 3);
    assert_eq!(ledger.items.len(), 3);
    assert_eq!(ledger.holdings.len(), 3);
}

#[test]
fn mint_needs_a_template_and_fresh_ids() {
    let mut ledger = CosmeticLedger::new(7);
    let missing = ledger.mint_cosmetic(&"ghost".to_string(), 900, 42, 2000);
    assert_eq!(missing, Err(CosmeticLedgerError::Store(StoreError::NoSuchKey)));

    let id = "neon_frame".to_string();
    ledger.create_cosmetic_template(7, id.clone(), frame_template(0), 1000).unwrap();
    ledger.mint_cosmetic(&id, 900, 42, 2000).unwrap();
    let duplicate = ledger.mint_cosmetic(&id, 900, 43, 2001);
    assert_eq!(duplicate, Err(CosmeticLedgerError::Store(StoreError::KeyExists)));
}

#[test]
fn ledger_stake_unstake_round_trip() {
    let mut ledger = CosmeticLedger::new(7);
    let id = "neon_frame".to_string();
    ledger.create_cosmetic_template(7, id.clone(), frame_template(0), 1000).unwrap();
    ledger.mint_cosmetic(&id, 900, 42, 2000).unwrap();

    assert_eq!(ledger.holdings[0].account.amount, 1);
    assert!(!ledger.is_cosmetic_staked(900, 500));

    let staked = ledger
        .stake_cosmetic_to_profile(42, 900, 500, "frame".to_string(), 3000)
        .unwrap();
    assert_eq!(staked.user, 42);
    assert_eq!(staked.cosmetic_mint, 900);
    assert_eq!(staked.profile_mint, 500);
    assert_eq!(staked.cosmetic_type, "frame");
    assert_eq!(ledger.holdings[0].account.amount, 0);
    assert_eq!(ledger.vaults[0].account.amount, 1);
    assert_eq!(ledger.registry.active_stakes, 1);
    assert_eq!(ledger.stakes.len(), 1);
    assert!(ledger.is_cosmetic_staked(900, 500));

    let unstaked = ledger.unstake_cosmetic_from_profile(42, 900, 500, 4000).unwrap();
    assert_eq!(unstaked.cosmetic_type, "frame");
    assert_eq!(ledger.holdings[0].account.amount, 1);
    assert_eq!(ledger.vaults[0].account.amount, 0);
    assert_eq!(ledger.registry.active_stakes, 0);
    assert_eq!(ledger.stakes.len(), 0);
    assert!(!ledger.is_cosmetic_staked(900, 500));
}

#[test]
fn double_staking_the_same_pair_is_refused() {
    let mut ledger = CosmeticLedger::new(7);
    let id = "neon_frame".to_string();
    ledger.create_cosmetic_template(7, id.clone(), frame_template(0), 1000).unwrap();
    ledger.mint_cosmetic(&id, 900, 42, 2000).unwrap();
    ledger.stake_cosmetic_to_profile(42, 900, 500, "frame".to_string(), 3000).unwrap();

    let again = ledger.stake_cosmetic_to_profile(42, 900, 500, "frame".to_string(), 3001);
    assert_eq!(again,
        Err(CosmeticLedgerError::Program(CosmeticError::CosmeticAlreadyStaked)));

    // Staking the escrowed item to another profile fails on custody: the
    // caller no longer holds the unit.
    let elsewhere = ledger.stake_cosmetic_to_profile(42, 900, 501, "frame".to_string(), 3002);
    assert_eq!(elsewhere,
        Err(CosmeticLedgerError::Program(CosmeticError::CosmeticNotOwned)));
    assert_eq!(ledger.registry.active_stakes, 1);
}

#[test]
fn ledger_stake_checks_type_and_ownership() {
    let mut ledger = CosmeticLedger::new(7);
    let id = "neon_frame".to_string();
    ledger.create_cosmetic_template(7, id.clone(), frame_template(0), 1000).unwrap();
    ledger.mint_cosmetic(&id, 900, 42, 2000).unwrap();

    let wrong_type = ledger.stake_cosmetic_to_profile(42, 900, 500,
        "background".to_string(), 3000);
    assert_eq!(wrong_type,
        Err(CosmeticLedgerError::Program(CosmeticError::InvalidCosmeticType)));

    let not_holder = ledger.stake_cosmetic_to_profile(43, 900, 500,
        "frame".to_string(), 3000);
    assert_eq!(not_holder, Err(CosmeticLedgerError::Store(StoreError::NoSuchKey)));
}

#[test]
fn ledger_unstake_errors() {
    let mut ledger = CosmeticLedger::new(7);
    let id = "neon_frame".to_string();
    ledger.create_cosmetic_template(7, id.clone(), frame_template(0), 1000).unwrap();
    ledger.mint_cosmetic(&id, 900, 42, 2000).unwrap();

    let never_staked = ledger.unstake_cosmetic_from_profile(42, 900, 500, 4000);
    assert_eq!(never_staked,
        Err(CosmeticLedgerError::Program(CosmeticError::CosmeticNotStaked)));

    ledger.stake_cosmetic_to_profile(42, 900, 500, "frame".to_string(), 3000).unwrap();
    let stranger = ledger.unstake_cosmetic_from_profile(43, 900, 500, 4000);
    assert_eq!(stranger, Err(CosmeticLedgerError::Store(StoreError::NoSuchKey)));
    assert!(ledger.is_cosmetic_staked(900, 500));
}
