use base64::Engine;

use neoengine::cosmetics::CosmeticMetadata;
use neoengine::cosmetics::CosmeticStakeRecord;
use neoengine::cosmetics::CosmeticTemplate;
use neoengine::cosmetics::create_cosmetic_template;
use neoengine::cosmetics::initialize_cosmetic_registry;
use neoengine::cosmetics::mint_cosmetic;
use neoengine::cosmetics::stake_cosmetic_to_profile;
use neoengine::cosmetics::unstake_cosmetic_from_profile;
use neoengine::custody::TokenAccount;
use neoengine::errors::CosmeticError;
use neoengine::metadata::create_cosmetic_metadata;
use neoengine::metadata::generate_cosmetic_metadata_uri;
use neoengine::metadata::slug_of;

fn frame_template(max_supply: u64) -> CosmeticTemplate {
    CosmeticTemplate {
        name: "Neon Frame".to_string(),
        description: "A glowing frame effect".to_string(),
        cosmetic_type: "frame".to_string(),
        rarity: "epic".to_string(),
        collection: "Genesis".to_string(),
        image_cid: "QmNeonFrameCid".to_string(),
        tradable: true,
        max_supply,
    }
}

#[test]
fn template_creation_is_authority_only() {
    let mut registry = initialize_cosmetic_registry(7);
    let refused = create_cosmetic_template(
        &mut registry,
        8,
        "neon_frame".to_string(),
        frame_template(10),
        1000,
    );
    assert_eq!(refused.unwrap_err(), CosmeticError::Unauthorized);
    assert_eq!(registry.total_cosmetics_created, 0);

    let (template, event) = create_cosmetic_template(
        &mut registry,
        7,
        "neon_frame".to_string(),
        frame_template(10),
        1000,
    )
    .unwrap();
    assert_eq!(registry.total_cosmetics_created, 1);
    assert_eq!(template.template_id, "neon_frame");
    assert_eq!(template.total_minted, 0);
    assert_eq!(template.created_at, 1000);
    assert_eq!(event.template_id, "neon_frame");
    assert_eq!(event.cosmetic_type, "frame");
    assert_eq!(event.rarity, "epic");
    assert!(event.tradable);
    assert_eq!(event.timestamp, 1000);
}

#[test]
fn mint_respects_the_supply_cap() {
    let mut registry = initialize_cosmetic_registry(7);
    let (mut template, _) = create_cosmetic_template(
        &mut registry,
        7,
        "neon_frame".to_string(),
        frame_template(3),
        1000,
    )
    .unwrap();

    for k in 0..3u64 {
        let mut recipient_account = TokenAccount::new();
        let r = mint_cosmetic(&mut template, &mut recipient_account, 900 + k, 42, 2000 + k);
        assert!(r.is_ok());
        assert_eq!(recipient_account.amount, 1);
        assert_eq!(template.total_minted, k + 1);
    }
    assert_eq!(template.total_minted, 3);

    let mut recipient_account = TokenAccount::new();
    let blocked = mint_cosmetic(&mut template, &mut recipient_account, 903, 42, 2010);
    assert_eq!(blocked.unwrap_err(), CosmeticError::MaxSupplyReached);
    assert_eq!(template.total_minted, 3);
    assert_eq!(recipient_account.amount, 0);
}

#[test]
fn zero_max_supply_means_unlimited() {
    let mut registry = initialize_cosmetic_registry(7);
    let (mut template, _) = create_cosmetic_template(
        &mut registry,
        7,
        "neon_frame".to_string(),
        frame_template(0),
        1000,
    )
    .unwrap();
    for k in 0..5u64 {
        let mut recipient_account = TokenAccount::new();
        assert!(mint_cosmetic(&mut template, &mut recipient_account, 900 + k, 42, 2000).is_ok());
    }
    assert_eq!(template.total_minted, 5);
}

#[test]
fn minted_event_and_metadata_come_from_the_template() {
    let mut registry = initialize_cosmetic_registry(7);
    let (mut template, _) = create_cosmetic_template(
        &mut registry,
        7,
        "neon_frame".to_string(),
        frame_template(10),
        1000,
    )
    .unwrap();
    let mut recipient_account = TokenAccount::new();
    let (token_metadata, event) =
        mint_cosmetic(&mut template, &mut recipient_account, 900, 42, 2000).unwrap();

    assert_eq!(event.recipient, 42);
    assert_eq!(event.cosmetic_mint, 900);
    assert_eq!(event.template_id, "neon_frame");
    assert_eq!(event.cosmetic_type, "frame");
    assert_eq!(event.rarity, "epic");
    assert!(event.tradable);
    assert_eq!(event.timestamp, 2000);

    assert_eq!(token_metadata.name, "Neon Frame");
    assert_eq!(token_metadata.symbol, "NEOCOS");
    assert_eq!(token_metadata.seller_fee_basis_points, 250);
    assert_eq!(token_metadata.creator_share, 100);
    assert!(!token_metadata.creator_verified);
    assert!(!token_metadata.is_mutable);
    assert_eq!(token_metadata.uri, generate_cosmetic_metadata_uri(&frame_template(10)));
}

#[test]
fn untradable_items_carry_no_resale_fee() {
    let mut data = frame_template(10);
    data.tradable = false;
    let m = create_cosmetic_metadata(&data, "uri".to_string());
    assert_eq!(m.seller_fee_basis_points, 0);
    assert_eq!(m.uri, "uri");
}

#[test]
fn slug_folds_spaces_and_case() {
    assert_eq!(slug_of("Neon Frame"), "neon-frame");
    assert_eq!(slug_of(""), "");
    assert_eq!(slug_of("ABC xyz 42"), "abc-xyz-42");
}

#[test]
fn metadata_uri_is_the_encoded_json_document() {
    let data = frame_template(10);
    let uri = generate_cosmetic_metadata_uri(&data);

    let json = "{\"name\":\"Neon Frame\",\"symbol\":\"NEOCOS\",\"description\":\"A glowing frame effect\",\"image\":\"ipfs://QmNeonFrameCid\",\"external_url\":\"https://neoengine.xyz/cosmetics/neon-frame\",\"attributes\":[{\"trait_type\":\"Type\",\"value\":\"frame\"},{\"trait_type\":\"Rarity\",\"value\":\"epic\"},{\"trait_type\":\"Collection\",\"value\":\"Genesis\"},{\"trait_type\":\"Tradable\",\"value\":\"true\"}]}";
    let encoded = base64::engine::general_purpose::STANDARD.encode(json);
    let expected = format!("data:application/json;base64,{}", encoded);
    assert_eq!(uri, expected);
}

#[test]
fn stake_requires_holding_exactly_one_unit() {
    let mut registry = initialize_cosmetic_registry(7);
    let mut user_account = TokenAccount::new();
    let mut vault = TokenAccount::new();
    let metadata = CosmeticMetadata {
        cosmetic_type: "frame".to_string(),
        rarity: "epic".to_string(),
        tradable: true,
    };

    let refused = stake_cosmetic_to_profile(
        &mut registry,
        &mut user_account,
        &mut vault,
        42,
        900,
        500,
        "frame".to_string(),
        &metadata,
        3000,
    );
    assert_eq!(refused.unwrap_err(), CosmeticError::CosmeticNotOwned);
    assert_eq!(registry.active_stakes, 0);
    assert_eq!(vault.amount, 0);
}

#[test]
fn stake_checks_the_declared_type() {
    let mut registry = initialize_cosmetic_registry(7);
    let mut user_account = TokenAccount { amount: 1 };
    let mut vault = TokenAccount::new();
    let metadata = CosmeticMetadata {
        cosmetic_type: "frame".to_string(),
        rarity: "epic".to_string(),
        tradable: true,
    };

    let refused = stake_cosmetic_to_profile(
        &mut registry,
        &mut user_account,
        &mut vault,
        42,
        900,
        500,
        "background".to_string(),
        &metadata,
        3000,
    );
    assert_eq!(refused.unwrap_err(), CosmeticError::InvalidCosmeticType);
    assert_eq!(user_account.amount, 1);
    assert_eq!(vault.amount, 0);
    assert_eq!(registry.active_stakes, 0);
}

#[test]
fn stake_then_unstake_restores_the_balances() {
    let mut registry = initialize_cosmetic_registry(7);
    let mut user_account = TokenAccount { amount: 1 };
    let mut vault = TokenAccount::new();
    let metadata = CosmeticMetadata {
        cosmetic_type: "frame".to_string(),
        rarity: "epic".to_string(),
        tradable: true,
    };

    let (record, staked) = stake_cosmetic_to_profile(
        &mut registry,
        &mut user_account,
        &mut vault,
        42,
        900,
        500,
        "frame".to_string(),
        &metadata,
        3000,
    )
    .unwrap();
    assert_eq!(user_account.amount, 0);
    assert_eq!(vault.amount, 1);
    assert_eq!(registry.active_stakes, 1);
    assert_eq!(record.user, 42);
    assert_eq!(record.cosmetic_mint, 900);
    assert_eq!(record.profile_mint, 500);
    assert_eq!(record.cosmetic_type, "frame");
    assert_eq!(record.staked_at, 3000);
    assert_eq!(staked.user, 42);
    assert_eq!(staked.timestamp, 3000);

    let unstaked =
        unstake_cosmetic_from_profile(&mut registry, &mut user_account, &mut vault, &record, 42, 4000)
            .unwrap();
    assert_eq!(user_account.amount, 1);
    assert_eq!(vault.amount, 0);
    assert_eq!(registry.active_stakes, 0);
    assert_eq!(unstaked.user, 42);
    assert_eq!(unstaked.cosmetic_mint, 900);
    assert_eq!(unstaked.profile_mint, 500);
    assert_eq!(unstaked.cosmetic_type, "frame");
    assert_eq!(unstaked.timestamp, 4000);
}

#[test]
fn only_the_recorded_owner_may_unstake() {
    let mut registry = initialize_cosmetic_registry(7);
    let mut user_account = TokenAccount::new();
    let mut vault = TokenAccount { amount: 1 };
    let record = CosmeticStakeRecord {
        user: 42,
        cosmetic_mint: 900,
        profile_mint: 500,
        cosmetic_type: "frame".to_string(),
        staked_at: 3000,
    };
    registry.active_stakes = 1;

    let refused =
        unstake_cosmetic_from_profile(&mut registry, &mut user_account, &mut vault, &record, 43, 4000);
    assert_eq!(refused.unwrap_err(), CosmeticError::Unauthorized);
    assert_eq!(user_account.amount, 0);
    assert_eq!(vault.amount, 1);
    assert_eq!(registry.active_stakes, 1);
}
