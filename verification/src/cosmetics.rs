//! The cosmetic template registry and the stake custody escrow.
//!
//! Templates are admin-defined item types with an optional supply cap that
//! is enforced when an item is minted. A minted item can be staked to a
//! profile: the single unit moves into a vault scoped to the (item,
//! profile) pair, a stake record is created whose lifetime exactly
//! brackets the custody, and unstaking moves the unit back and destroys
//! the record.

use vstd::prelude::*;

use crate::custody::TokenAccount;
use crate::custody::transfer;
use crate::errors::CosmeticError;
use crate::metadata::TokenMetadata;
use crate::metadata::uri_fields_bounded;
use crate::metadata::spec_metadata_uri;
use crate::metadata::generate_cosmetic_metadata_uri;
use crate::metadata::create_cosmetic_metadata;

verus! {

/// Global counters of the item program: the singleton registry record.
#[derive(Clone, Copy, Debug, PartialEq, Eq, Structural)]
pub struct CosmeticRegistry {
    pub authority: u64,
    pub total_cosmetics_created: u64,
    pub active_stakes: u64,
}

/// An item type definition as supplied by the authority.
#[derive(Clone, Debug, PartialEq, Eq)]
pub struct CosmeticTemplate {
    pub name: String,
    pub description: String,
    pub cosmetic_type: String,
    pub rarity: String,
    pub collection: String,
    pub image_cid: String,
    pub tradable: bool,
    /// Zero means unlimited supply.
    pub max_supply: u64,
}

/// The stored template record: the definition plus mint-time counters.
#[derive(Clone, Debug, PartialEq, Eq)]
pub struct CosmeticTemplateAccount {
    pub template_id: String,
    pub cosmetic_data: CosmeticTemplate,
    pub total_minted: u64,
    pub created_at: u64,
}

impl CosmeticTemplateAccount {
    /// The supply-cap invariant: a capped template never has more minted
    /// than its cap.
    pub open spec fn wf(self) -> bool {
        self.cosmetic_data.max_supply == 0 || self.total_minted
            <= self.cosmetic_data.max_supply
    }
}

/// One active stake of one minted item on one profile; exists exactly
/// while the item sits in the matching vault.
#[derive(Clone, Debug, PartialEq, Eq)]
pub struct CosmeticStakeRecord {
    pub user: u64,
    pub cosmetic_mint: u64,
    pub profile_mint: u64,
    pub cosmetic_type: String,
    pub staked_at: u64,
}

/// The item facts the escrow checks at stake time.
#[derive(Clone, Debug, PartialEq, Eq)]
pub struct CosmeticMetadata {
    pub cosmetic_type: String,
    pub rarity: String,
    pub tradable: bool,
}

/// Appended to the audit log when a template is created.
#[derive(Clone, Debug, PartialEq, Eq)]
pub struct CosmeticTemplateCreatedEvent {
    pub template_id: String,
    pub cosmetic_type: String,
    pub rarity: String,
    pub tradable: bool,
    pub timestamp: u64,
}

/// Appended to the audit log when an item is minted.
#[derive(Clone, Debug, PartialEq, Eq)]
pub struct CosmeticMintedEvent {
    pub recipient: u64,
    pub cosmetic_mint: u64,
    pub template_id: String,
    pub cosmetic_type: String,
    pub rarity: String,
    pub tradable: bool,
    pub timestamp: u64,
}

/// Appended to the audit log when an item is staked.
#[derive(Clone, Debug, PartialEq, Eq)]
pub struct CosmeticStakedEvent {
    pub user: u64,
    pub cosmetic_mint: u64,
    pub profile_mint: u64,
    pub cosmetic_type: String,
    pub timestamp: u64,
}

/// Appended to the audit log when an item is unstaked.
#[derive(Clone, Debug, PartialEq, Eq)]
pub struct CosmeticUnstakedEvent {
    pub user: u64,
    pub cosmetic_mint: u64,
    pub profile_mint: u64,
    pub cosmetic_type: String,
    pub timestamp: u64,
}

/// Create the singleton registry record, all counters at zero.
pub fn initialize_cosmetic_registry(authority: u64) -> (registry: CosmeticRegistry)
    ensures
        registry == (CosmeticRegistry { authority, total_cosmetics_created: 0, active_stakes: 0 }),
{
    CosmeticRegistry { authority, total_cosmetics_created: 0, active_stakes: 0 }
}

/// Define a new item template. Only the registry's stored authority may do
/// so; anyone else fails with `Unauthorized` and the registry is untouched.
pub fn create_cosmetic_template(
    registry: &mut CosmeticRegistry,
    authority: u64,
    template_id: String,
    cosmetic_data: CosmeticTemplate,
    now: u64,
) -> (r: Result<(CosmeticTemplateAccount, CosmeticTemplateCreatedEvent), CosmeticError>)
    requires
        old(registry).total_cosmetics_created < u64::MAX,
    ensures
        r is Ok <==> authority == old(registry).authority,
        r is Err ==> r == Err::<(CosmeticTemplateAccount, CosmeticTemplateCreatedEvent),
            CosmeticError>(CosmeticError::Unauthorized) && *final(registry) == *old(registry),
        r is Ok ==> {
            &&& *final(registry) == (CosmeticRegistry {
                total_cosmetics_created: (old(registry).total_cosmetics_created + 1) as u64,
                ..*old(registry)
            })
            &&& r->Ok_0.0 == (CosmeticTemplateAccount {
                template_id,
                cosmetic_data,
                total_minted: 0,
                created_at: now,
            })
            &&& r->Ok_0.0.wf()
            &&& r->Ok_0.1.template_id@ == template_id@
            &&& r->Ok_0.1.cosmetic_type@ == cosmetic_data.cosmetic_type@
            &&& r->Ok_0.1.rarity@ == cosmetic_data.rarity@
            &&& r->Ok_0.1.tradable == cosmetic_data.tradable
            &&& r->Ok_0.1.timestamp == now
        },
{
    if authority != registry.authority {
        return Err(CosmeticError::Unauthorized);
    }
    let event = CosmeticTemplateCreatedEvent {
        template_id: template_id.clone(),
        cosmetic_type: cosmetic_data.cosmetic_type.clone(),
        rarity: cosmetic_data.rarity.clone(),
        tradable: cosmetic_data.tradable,
        timestamp: now,
    };
    let template = CosmeticTemplateAccount { template_id, cosmetic_data, total_minted: 0, created_at: now };
    registry.total_cosmetics_created = registry.total_cosmetics_created + 1;
    Ok((template, event))
}

/// Whether the template still has supply left to mint.
pub open spec fn spec_mint_allowed(t: CosmeticTemplateAccount) -> bool {
    !(t.cosmetic_data.max_supply > 0 && t.total_minted >= t.cosmetic_data.max_supply)
}

/// The whole effect of one mint attempt on the template record.
pub open spec fn spec_minted_template(t: CosmeticTemplateAccount) -> CosmeticTemplateAccount {
    if spec_mint_allowed(t) {
        CosmeticTemplateAccount { total_minted: (t.total_minted + 1) as u64, ..t }
    } else {
        t
    }
}

/// Mint one unit of a freshly created item token to the recipient,
/// attaching metadata composed from the template; fails with
/// `MaxSupplyReached` once a capped template is fully minted.
pub fn mint_cosmetic(
    template: &mut CosmeticTemplateAccount,
    recipient_account: &mut TokenAccount,
    cosmetic_mint: u64,
    recipient: u64,
    now: u64,
) -> (r: Result<(TokenMetadata, CosmeticMintedEvent), CosmeticError>)
    requires
        old(template).total_minted < u64::MAX,
        old(recipient_account).amount < u64::MAX,
        uri_fields_bounded(old(template).cosmetic_data),
    ensures
        *final(template) == spec_minted_template(*old(template)),
        r is Ok <==> spec_mint_allowed(*old(template)),
        old(template).wf() ==> final(template).wf(),
        r is Err ==> r == Err::<(TokenMetadata, CosmeticMintedEvent), CosmeticError>(
            CosmeticError::MaxSupplyReached) && *final(recipient_account) == *old(
            recipient_account),
        r is Ok ==> {
            &&& final(recipient_account).amount == old(recipient_account).amount + 1
            &&& r->Ok_0.0.name@ == old(template).cosmetic_data.name@
            &&& r->Ok_0.0.uri@ == spec_metadata_uri(old(template).cosmetic_data)
            &&& r->Ok_0.0.seller_fee_basis_points == (if old(template).cosmetic_data.tradable {
                250u16
            } else {
                0u16
            })
            &&& r->Ok_0.1 == (CosmeticMintedEvent {
                recipient,
                cosmetic_mint,
                template_id: r->Ok_0.1.template_id,
                cosmetic_type: r->Ok_0.1.cosmetic_type,
                rarity: r->Ok_0.1.rarity,
                tradable: old(template).cosmetic_data.tradable,
                timestamp: now,
            })
            &&& r->Ok_0.1.template_id@ == old(template).template_id@
            &&& r->Ok_0.1.cosmetic_type@ == old(template).cosmetic_data.cosmetic_type@
            &&& r->Ok_0.1.rarity@ == old(template).cosmetic_data.rarity@
        },
{
    if template.cosmetic_data.max_supply > 0 && template.total_minted
        >= template.cosmetic_data.max_supply {
        return Err(CosmeticError::MaxSupplyReached);
    }
    recipient_account.amount = recipient_account.amount + 1;
    let metadata_uri = generate_cosmetic_metadata_uri(&template.cosmetic_data);
    let token_metadata = create_cosmetic_metadata(&template.cosmetic_data, metadata_uri);
    template.total_minted = template.total_minted + 1;
    let event = CosmeticMintedEvent {
        recipient,
        cosmetic_mint,
        template_id: template.template_id.clone(),
        cosmetic_type: template.cosmetic_data.cosmetic_type.clone(),
        rarity: template.cosmetic_data.rarity.clone(),
        tradable: template.cosmetic_data.tradable,
        timestamp: now,
    };
    Ok((token_metadata, event))
}

/// The effect of a successful stake on the counters and balances: the unit
/// leaves the caller's account for the vault and one more stake is active.
pub open spec fn spec_staked_balances(
    registry: CosmeticRegistry,
    user_account: TokenAccount,
    vault: TokenAccount,
) -> (CosmeticRegistry, TokenAccount, TokenAccount) {
    (
        CosmeticRegistry { active_stakes: (registry.active_stakes + 1) as u64, ..registry },
        TokenAccount { amount: (user_account.amount - 1) as u64 },
        TokenAccount { amount: (vault.amount + 1) as u64 },
    )
}

/// The effect of a successful unstake: the exact reverse.
pub open spec fn spec_unstaked_balances(
    registry: CosmeticRegistry,
    user_account: TokenAccount,
    vault: TokenAccount,
) -> (CosmeticRegistry, TokenAccount, TokenAccount) {
    (
        CosmeticRegistry { active_stakes: (registry.active_stakes - 1) as u64, ..registry },
        TokenAccount { amount: (user_account.amount + 1) as u64 },
        TokenAccount { amount: (vault.amount - 1) as u64 },
    )
}

/// Stake an item to a profile: the caller must hold exactly one unit of
/// the item token and the item's declared type must match the supplied
/// tag; the unit then moves into the scoped vault and a stake record is
/// created.
pub fn stake_cosmetic_to_profile(
    registry: &mut CosmeticRegistry,
    user_cosmetic_account: &mut TokenAccount,
    stake_vault: &mut TokenAccount,
    user: u64,
    cosmetic_mint: u64,
    profile_mint: u64,
    cosmetic_type: String,
    item_metadata: &CosmeticMetadata,
    now: u64,
) -> (r: Result<(CosmeticStakeRecord, CosmeticStakedEvent), CosmeticError>)
    requires
        old(registry).active_stakes < u64::MAX,
        old(stake_vault).amount < u64::MAX,
    ensures
        old(user_cosmetic_account).amount != 1 ==> r == Err::<(CosmeticStakeRecord,
            CosmeticStakedEvent), CosmeticError>(CosmeticError::CosmeticNotOwned),
        old(user_cosmetic_account).amount == 1 && item_metadata.cosmetic_type@ != cosmetic_type@
            ==> r == Err::<(CosmeticStakeRecord, CosmeticStakedEvent), CosmeticError>(
            CosmeticError::InvalidCosmeticType),
        r is Err ==> *final(registry) == *old(registry) && *final(user_cosmetic_account) == *old(
            user_cosmetic_account) && *final(stake_vault) == *old(stake_vault),
        r is Ok <==> old(user_cosmetic_account).amount == 1 && item_metadata.cosmetic_type@
            == cosmetic_type@,
        r is Ok ==> {
            &&& (*final(registry), *final(user_cosmetic_account), *final(stake_vault))
                == spec_staked_balances(*old(registry), *old(user_cosmetic_account), *old(
                stake_vault))
            &&& r->Ok_0.0.user == user
            &&& r->Ok_0.0.cosmetic_mint == cosmetic_mint
            &&& r->Ok_0.0.profile_mint == profile_mint
            &&& r->Ok_0.0.cosmetic_type@ == cosmetic_type@
            &&& r->Ok_0.0.staked_at == now
            &&& r->Ok_0.1.user == user
            &&& r->Ok_0.1.cosmetic_mint == cosmetic_mint
            &&& r->Ok_0.1.profile_mint == profile_mint
            &&& r->Ok_0.1.cosmetic_type@ == cosmetic_type@
            &&& r->Ok_0.1.timestamp == now
        },
{
    if user_cosmetic_account.amount != 1 {
        return Err(CosmeticError::CosmeticNotOwned);
    }
    if !(item_metadata.cosmetic_type == cosmetic_type) {
        return Err(CosmeticError::InvalidCosmeticType);
    }
    transfer(user_cosmetic_account, stake_vault, 1);
    let event = CosmeticStakedEvent {
        user,
        cosmetic_mint,
        profile_mint,
        cosmetic_type: cosmetic_type.clone(),
        timestamp: now,
    };
    let stake_record = CosmeticStakeRecord {
        user,
        cosmetic_mint,
        profile_mint,
        cosmetic_type,
        staked_at: now,
    };
    registry.active_stakes = registry.active_stakes + 1;
    Ok((stake_record, event))
}

/// Unstake an item from a profile: only the stake record's recorded owner
/// may, the unit moves from the vault back to the caller, and the caller
/// is to destroy the record. The vault holds the unit exactly while the
/// record exists, which is what the balance preconditions state.
pub fn unstake_cosmetic_from_profile(
    registry: &mut CosmeticRegistry,
    user_cosmetic_account: &mut TokenAccount,
    stake_vault: &mut TokenAccount,
    stake_record: &CosmeticStakeRecord,
    user: u64,
    now: u64,
) -> (r: Result<CosmeticUnstakedEvent, CosmeticError>)
    requires
        old(stake_vault).amount == 1,
        old(user_cosmetic_account).amount < u64::MAX,
        old(registry).active_stakes >= 1,
    ensures
        r is Ok <==> user == stake_record.user,
        r is Err ==> r == Err::<CosmeticUnstakedEvent, CosmeticError>(CosmeticError::Unauthorized)
            && *final(registry) == *old(registry) && *final(user_cosmetic_account) == *old(
            user_cosmetic_account) && *final(stake_vault) == *old(stake_vault),
        r is Ok ==> {
            &&& (*final(registry), *final(user_cosmetic_account), *final(stake_vault))
                == spec_unstaked_balances(*old(registry), *old(user_cosmetic_account), *old(
                stake_vault))
            &&& r->Ok_0.user == user
            &&& r->Ok_0.cosmetic_mint == stake_record.cosmetic_mint
            &&& r->Ok_0.profile_mint == stake_record.profile_mint
            &&& r->Ok_0.cosmetic_type@ == stake_record.cosmetic_type@
            &&& r->Ok_0.timestamp == now
        },
{
    if user != stake_record.user {
        return Err(CosmeticError::Unauthorized);
    }
    transfer(stake_vault, user_cosmetic_account, 1);
    registry.active_stakes = registry.active_stakes - 1;
    Ok(CosmeticUnstakedEvent {
        user,
        cosmetic_mint: stake_record.cosmetic_mint,
        profile_mint: stake_record.profile_mint,
        cosmetic_type: stake_record.cosmetic_type.clone(),
        timestamp: now,
    })
}

} // verus!
