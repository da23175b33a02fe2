//! The item program's record store: the singleton registry, the template
//! records keyed by template id, one metadata record and one holding per
//! minted item, the scoped vaults, and the active stake records.
//!
//! The store carries the custody invariant: a stake record for an (item,
//! profile) pair exists exactly while the matching vault holds the one
//! unit of the item, and the registry's active-stake counter equals the
//! number of records.

use vstd::prelude::*;

use crate::cosmetics::CosmeticMetadata;
use crate::cosmetics::CosmeticMintedEvent;
use crate::cosmetics::CosmeticRegistry;
use crate::cosmetics::CosmeticStakeRecord;
use crate::cosmetics::CosmeticStakedEvent;
use crate::cosmetics::CosmeticTemplate;
use crate::cosmetics::CosmeticTemplateAccount;
use crate::cosmetics::CosmeticTemplateCreatedEvent;
use crate::cosmetics::CosmeticUnstakedEvent;
use crate::cosmetics::create_cosmetic_template;
use crate::cosmetics::initialize_cosmetic_registry;
use crate::cosmetics::mint_cosmetic;
use crate::cosmetics::spec_mint_allowed;
use crate::cosmetics::spec_minted_template;
use crate::cosmetics::stake_cosmetic_to_profile;
use crate::cosmetics::unstake_cosmetic_from_profile;
use crate::custody::TokenAccount;
use crate::errors::CosmeticError;
use crate::errors::CosmeticLedgerError;
use crate::errors::StoreError;
use crate::metadata::TokenMetadata;
use crate::metadata::spec_metadata_uri;
use crate::metadata::uri_fields_bounded;

verus! {

/// One user's token account for one minted item.
#[derive(Clone, Copy, Debug, PartialEq, Eq, Structural)]
pub struct HoldingEntry {
    pub owner: u64,
    pub cosmetic_mint: u64,
    pub account: TokenAccount,
}

/// The custody account scoped to one (item, profile) pair.
#[derive(Clone, Copy, Debug, PartialEq, Eq, Structural)]
pub struct VaultEntry {
    pub cosmetic_mint: u64,
    pub profile_mint: u64,
    pub account: TokenAccount,
}

/// The declared facts of one minted item, recorded at mint time and read
/// at stake time.
#[derive(Clone, Debug, PartialEq, Eq)]
pub struct MintedItem {
    pub cosmetic_mint: u64,
    pub metadata: CosmeticMetadata,
}

/// The item program's state.
#[derive(Debug)]
pub struct CosmeticLedger {
    pub registry: CosmeticRegistry,
    pub templates: Vec<CosmeticTemplateAccount>,
    pub items: Vec<MintedItem>,
    pub holdings: Vec<HoldingEntry>,
    pub vaults: Vec<VaultEntry>,
    pub stakes: Vec<CosmeticStakeRecord>,
}

impl CosmeticLedger {
    pub open spec fn templates_unique(self) -> bool {
        forall|i: int, j: int|
            #![trigger self.templates@[i], self.templates@[j]]
            0 <= i < j < self.templates@.len() ==> self.templates@[i].template_id@
                != self.templates@[j].template_id@
    }

    pub open spec fn items_unique(self) -> bool {
        forall|i: int, j: int|
            #![trigger self.items@[i], self.items@[j]]
            0 <= i < j < self.items@.len() ==> self.items@[i].cosmetic_mint
                != self.items@[j].cosmetic_mint
    }

    pub open spec fn holdings_unique(self) -> bool {
        forall|i: int, j: int|
            #![trigger self.holdings@[i], self.holdings@[j]]
            0 <= i < j < self.holdings@.len() ==> !(self.holdings@[i].owner
                == self.holdings@[j].owner && self.holdings@[i].cosmetic_mint
                == self.holdings@[j].cosmetic_mint)
    }

    pub open spec fn vaults_unique(self) -> bool {
        forall|i: int, j: int|
            #![trigger self.vaults@[i], self.vaults@[j]]
            0 <= i < j < self.vaults@.len() ==> !(self.vaults@[i].cosmetic_mint
                == self.vaults@[j].cosmetic_mint && self.vaults@[i].profile_mint
                == self.vaults@[j].profile_mint)
    }

    pub open spec fn stakes_unique(self) -> bool {
        forall|i: int, j: int|
            #![trigger self.stakes@[i], self.stakes@[j]]
            0 <= i < j < self.stakes@.len() ==> !(self.stakes@[i].cosmetic_mint
                == self.stakes@[j].cosmetic_mint && self.stakes@[i].profile_mint
                == self.stakes@[j].profile_mint)
    }

    /// Every stored template respects its own supply cap.
    pub open spec fn templates_wf(self) -> bool {
        forall|i: int|
            0 <= i < self.templates@.len() ==> (#[trigger] self.templates@[i]).wf()
    }

    /// The custody invariant: a vault holds the one unit exactly while the
    /// matching stake record exists.
    pub open spec fn custody_ok(self) -> bool {
        &&& forall|i: int|
            0 <= i < self.stakes@.len() ==> self.spec_has_vault(
                (#[trigger] self.stakes@[i]).cosmetic_mint,
                self.stakes@[i].profile_mint,
            ) && self.spec_vault(
                self.stakes@[i].cosmetic_mint,
                self.stakes@[i].profile_mint,
            ).account.amount == 1
        &&& forall|i: int|
            0 <= i < self.vaults@.len() && !self.spec_has_stake(
                (#[trigger] self.vaults@[i]).cosmetic_mint,
                self.vaults@[i].profile_mint,
            ) ==> self.vaults@[i].account.amount == 0
    }

    /// Well-formed: unique keys everywhere, templates within their caps,
    /// custody in force, and the counter equal to the number of active
    /// stakes.
    pub open spec fn wf(self) -> bool {
        &&& self.templates_unique()
        &&& self.items_unique()
        &&& self.holdings_unique()
        &&& self.vaults_unique()
        &&& self.stakes_unique()
        &&& self.templates_wf()
        &&& self.custody_ok()
        &&& self.registry.active_stakes == self.stakes@.len()
    }

    pub open spec fn spec_has_template(self, template_id: Seq<char>) -> bool {
        exists|i: int|
            0 <= i < self.templates@.len() && (#[trigger] self.templates@[i]).template_id@
                == template_id
    }

    pub open spec fn spec_template_index(self, template_id: Seq<char>) -> int {
        choose|i: int|
            0 <= i < self.templates@.len() && (#[trigger] self.templates@[i]).template_id@
                == template_id
    }

    pub open spec fn spec_template(self, template_id: Seq<char>) -> CosmeticTemplateAccount {
        self.templates@[self.spec_template_index(template_id)]
    }

    pub open spec fn spec_has_item(self, cosmetic_mint: u64) -> bool {
        exists|i: int|
            0 <= i < self.items@.len() && (#[trigger] self.items@[i]).cosmetic_mint
                == cosmetic_mint
    }

    pub open spec fn spec_item_index(self, cosmetic_mint: u64) -> int {
        choose|i: int|
            0 <= i < self.items@.len() && (#[trigger] self.items@[i]).cosmetic_mint
                == cosmetic_mint
    }

    pub open spec fn spec_item(self, cosmetic_mint: u64) -> MintedItem {
        self.items@[self.spec_item_index(cosmetic_mint)]
    }

    pub open spec fn spec_has_holding(self, owner: u64, cosmetic_mint: u64) -> bool {
        exists|i: int|
            0 <= i < self.holdings@.len() && (#[trigger] self.holdings@[i]).owner == owner
                && self.holdings@[i].cosmetic_mint == cosmetic_mint
    }

    pub open spec fn spec_holding_index(self, owner: u64, cosmetic_mint: u64) -> int {
        choose|i: int|
            0 <= i < self.holdings@.len() && (#[trigger] self.holdings@[i]).owner == owner
                && self.holdings@[i].cosmetic_mint == cosmetic_mint
    }

    pub open spec fn spec_holding(self, owner: u64, cosmetic_mint: u64) -> HoldingEntry {
        self.holdings@[self.spec_holding_index(owner, cosmetic_mint)]
    }

    pub open spec fn spec_has_vault(self, cosmetic_mint: u64, profile_mint: u64) -> bool {
        exists|i: int|
            0 <= i < self.vaults@.len() && (#[trigger] self.vaults@[i]).cosmetic_mint
                == cosmetic_mint && self.vaults@[i].profile_mint == profile_mint
    }

    pub open spec fn spec_vault_index(self, cosmetic_mint: u64, profile_mint: u64) -> int {
        choose|i: int|
            0 <= i < self.vaults@.len() && (#[trigger] self.vaults@[i]).cosmetic_mint
                == cosmetic_mint && self.vaults@[i].profile_mint == profile_mint
    }

    pub open spec fn spec_vault(self, cosmetic_mint: u64, profile_mint: u64) -> VaultEntry {
        self.vaults@[self.spec_vault_index(cosmetic_mint, profile_mint)]
    }

    pub open spec fn spec_has_stake(self, cosmetic_mint: u64, profile_mint: u64) -> bool {
        exists|i: int|
            0 <= i < self.stakes@.len() && (#[trigger] self.stakes@[i]).cosmetic_mint
                == cosmetic_mint && self.stakes@[i].profile_mint == profile_mint
    }

    pub open spec fn spec_stake_index(self, cosmetic_mint: u64, profile_mint: u64) -> int {
        choose|i: int|
            0 <= i < self.stakes@.len() && (#[trigger] self.stakes@[i]).cosmetic_mint
                == cosmetic_mint && self.stakes@[i].profile_mint == profile_mint
    }

    pub open spec fn spec_stake(self, cosmetic_mint: u64, profile_mint: u64)
        -> CosmeticStakeRecord {
        self.stakes@[self.spec_stake_index(cosmetic_mint, profile_mint)]
    }

    pub proof fn lemma_template_index_is(self, template_id: Seq<char>, i: int)
        requires
            self.templates_unique(),
            0 <= i < self.templates@.len(),
            self.templates@[i].template_id@ == template_id,
        ensures
            self.spec_has_template(template_id),
            self.spec_template_index(template_id) == i,
            self.spec_template(template_id) == self.templates@[i],
    {
        assert(self.spec_has_template(template_id));
        let j = self.spec_template_index(template_id);
        if i < j {
            assert(self.templates@[i].template_id@ != self.templates@[j].template_id@);
        } else if j < i {
            assert(self.templates@[j].template_id@ != self.templates@[i].template_id@);
        }
    }

    pub proof fn lemma_item_index_is(self, cosmetic_mint: u64, i: int)
        requires
            self.items_unique(),
            0 <= i < self.items@.len(),
            self.items@[i].cosmetic_mint == cosmetic_mint,
        ensures
            self.spec_has_item(cosmetic_mint),
            self.spec_item_index(cosmetic_mint) == i,
            self.spec_item(cosmetic_mint) == self.items@[i],
    {
        assert(self.spec_has_item(cosmetic_mint));
        let j = self.spec_item_index(cosmetic_mint);
        if i < j {
            assert(self.items@[i].cosmetic_mint != self.items@[j].cosmetic_mint);
        } else if j < i {
            assert(self.items@[j].cosmetic_mint != self.items@[i].cosmetic_mint);
        }
    }

    pub proof fn lemma_holding_index_is(self, owner: u64, cosmetic_mint: u64, i: int)
        requires
            self.holdings_unique(),
            0 <= i < self.holdings@.len(),
            self.holdings@[i].owner == owner,
            self.holdings@[i].cosmetic_mint == cosmetic_mint,
        ensures
            self.spec_has_holding(owner, cosmetic_mint),
            self.spec_holding_index(owner, cosmetic_mint) == i,
            self.spec_holding(owner, cosmetic_mint) == self.holdings@[i],
    {
        assert(self.spec_has_holding(owner, cosmetic_mint));
        let j = self.spec_holding_index(owner, cosmetic_mint);
        if i < j {
            assert(!(self.holdings@[i].owner == self.holdings@[j].owner
                && self.holdings@[i].cosmetic_mint == self.holdings@[j].cosmetic_mint));
        } else if j < i {
            assert(!(self.holdings@[j].owner == self.holdings@[i].owner
                && self.holdings@[j].cosmetic_mint == self.holdings@[i].cosmetic_mint));
        }
    }

    pub proof fn lemma_vault_index_is(self, cosmetic_mint: u64, profile_mint: u64, i: int)
        requires
            self.vaults_unique(),
            0 <= i < self.vaults@.len(),
            self.vaults@[i].cosmetic_mint == cosmetic_mint,
            self.vaults@[i].profile_mint == profile_mint,
        ensures
            self.spec_has_vault(cosmetic_mint, profile_mint),
            self.spec_vault_index(cosmetic_mint, profile_mint) == i,
            self.spec_vault(cosmetic_mint, profile_mint) == self.vaults@[i],
    {
        assert(self.spec_has_vault(cosmetic_mint, profile_mint));
        let j = self.spec_vault_index(cosmetic_mint, profile_mint);
        if i < j {
            assert(!(self.vaults@[i].cosmetic_mint == self.vaults@[j].cosmetic_mint
                && self.vaults@[i].profile_mint == self.vaults@[j].profile_mint));
        } else if j < i {
            assert(!(self.vaults@[j].cosmetic_mint == self.vaults@[i].cosmetic_mint
                && self.vaults@[j].profile_mint == self.vaults@[i].profile_mint));
        }
    }

    pub proof fn lemma_stake_index_is(self, cosmetic_mint: u64, profile_mint: u64, i: int)
        requires
            self.stakes_unique(),
            0 <= i < self.stakes@.len(),
            self.stakes@[i].cosmetic_mint == cosmetic_mint,
            self.stakes@[i].profile_mint == profile_mint,
        ensures
            self.spec_has_stake(cosmetic_mint, profile_mint),
            self.spec_stake_index(cosmetic_mint, profile_mint) == i,
            self.spec_stake(cosmetic_mint, profile_mint) == self.stakes@[i],
    {
        assert(self.spec_has_stake(cosmetic_mint, profile_mint));
        let j = self.spec_stake_index(cosmetic_mint, profile_mint);
        if i < j {
            assert(!(self.stakes@[i].cosmetic_mint == self.stakes@[j].cosmetic_mint
                && self.stakes@[i].profile_mint == self.stakes@[j].profile_mint));
        } else if j < i {
            assert(!(self.stakes@[j].cosmetic_mint == self.stakes@[i].cosmetic_mint
                && self.stakes@[j].profile_mint == self.stakes@[i].profile_mint));
        }
    }

    fn find_template(&self, template_id: &String) -> (r: Option<usize>)
        ensures
            match r {
                Some(i) => i < self.templates@.len() && self.templates@[i as int].template_id@
                    == template_id@,
                None => !self.spec_has_template(template_id@),
            },
    {
        let n = self.templates.len();
        let mut i: usize = 0;
        while i < n
            invariant
                n == self.templates@.len(),
                i <= n,
                forall|j: int|
                    0 <= j < i ==> (#[trigger] self.templates@[j]).template_id@ != template_id@,
            decreases n - i,
        {
            if self.templates[i].template_id == *template_id {
                return Some(i);
            }
            i = i + 1;
        }
        None
    }

    fn find_item(&self, cosmetic_mint: u64) -> (r: Option<usize>)
        ensures
            match r {
                Some(i) => i < self.items@.len() && self.items@[i as int].cosmetic_mint
                    == cosmetic_mint,
                None => !self.spec_has_item(cosmetic_mint),
            },
    {
        let n = self.items.len();
        let mut i: usize = 0;
        while i < n
            invariant
                n == self.items@.len(),
                i <= n,
                forall|j: int|
                    0 <= j < i ==> (#[trigger] self.items@[j]).cosmetic_mint != cosmetic_mint,
            decreases n - i,
        {
            if self.items[i].cosmetic_mint == cosmetic_mint {
                return Some(i);
            }
            i = i + 1;
        }
        None
    }

    fn find_holding(&self, owner: u64, cosmetic_mint: u64) -> (r: Option<usize>)
        ensures
            match r {
                Some(i) => i < self.holdings@.len() && self.holdings@[i as int].owner == owner
                    && self.holdings@[i as int].cosmetic_mint == cosmetic_mint,
                None => !self.spec_has_holding(owner, cosmetic_mint),
            },
    {
        let n = self.holdings.len();
        let mut i: usize = 0;
        while i < n
            invariant
                n == self.holdings@.len(),
                i <= n,
                forall|j: int|
                    0 <= j < i ==> !((#[trigger] self.holdings@[j]).owner == owner
                        && self.holdings@[j].cosmetic_mint == cosmetic_mint),
            decreases n - i,
        {
            if self.holdings[i].owner == owner && self.holdings[i].cosmetic_mint == cosmetic_mint {
                return Some(i);
            }
            i = i + 1;
        }
        None
    }

    fn find_vault(&self, cosmetic_mint: u64, profile_mint: u64) -> (r: Option<usize>)
        ensures
            match r {
                Some(i) => i < self.vaults@.len() && self.vaults@[i as int].cosmetic_mint
                    == cosmetic_mint && self.vaults@[i as int].profile_mint == profile_mint,
                None => !self.spec_has_vault(cosmetic_mint, profile_mint),
            },
    {
        let n = self.vaults.len();
        let mut i: usize = 0;
        while i < n
            invariant
                n == self.vaults@.len(),
                i <= n,
                forall|j: int|
                    0 <= j < i ==> !((#[trigger] self.vaults@[j]).cosmetic_mint == cosmetic_mint
                        && self.vaults@[j].profile_mint == profile_mint),
            decreases n - i,
        {
            if self.vaults[i].cosmetic_mint == cosmetic_mint && self.vaults[i].profile_mint
                == profile_mint {
                return Some(i);
            }
            i = i + 1;
        }
        None
    }

    fn find_stake(&self, cosmetic_mint: u64, profile_mint: u64) -> (r: Option<usize>)
        ensures
            match r {
                Some(i) => i < self.stakes@.len() && self.stakes@[i as int].cosmetic_mint
                    == cosmetic_mint && self.stakes@[i as int].profile_mint == profile_mint,
                None => !self.spec_has_stake(cosmetic_mint, profile_mint),
            },
    {
        let n = self.stakes.len();
        let mut i: usize = 0;
        while i < n
            invariant
                n == self.stakes@.len(),
                i <= n,
                forall|j: int|
                    0 <= j < i ==> !((#[trigger] self.stakes@[j]).cosmetic_mint == cosmetic_mint
                        && self.stakes@[j].profile_mint == profile_mint),
            decreases n - i,
        {
            if self.stakes[i].cosmetic_mint == cosmetic_mint && self.stakes[i].profile_mint
                == profile_mint {
                return Some(i);
            }
            i = i + 1;
        }
        None
    }

    /// Create the item program: the singleton registry and nothing minted
    /// or staked yet.
    pub fn new(authority: u64) -> (ledger: CosmeticLedger)
        ensures
            ledger.registry == (CosmeticRegistry {
                authority,
                total_cosmetics_created: 0,
                active_stakes: 0,
            }),
            ledger.templates@.len() == 0,
            ledger.items@.len() == 0,
            ledger.holdings@.len() == 0,
            ledger.vaults@.len() == 0,
            ledger.stakes@.len() == 0,
            ledger.wf(),
    {
        CosmeticLedger {
            registry: initialize_cosmetic_registry(authority),
            templates: Vec::new(),
            items: Vec::new(),
            holdings: Vec::new(),
            vaults: Vec::new(),
            stakes: Vec::new(),
        }
    }

    /// Define a new template under a fresh id (see the record-level
    /// operation): the authority check comes first, then the id must be
    /// free.
    pub fn create_cosmetic_template(
        &mut self,
        authority: u64,
        template_id: String,
        cosmetic_data: CosmeticTemplate,
        now: u64,
    ) -> (r: Result<CosmeticTemplateCreatedEvent, CosmeticLedgerError>)
        requires
            old(self).wf(),
            old(self).registry.total_cosmetics_created < u64::MAX,
        ensures
            final(self).wf(),
            authority != old(self).registry.authority ==> r == Err::<CosmeticTemplateCreatedEvent,
                CosmeticLedgerError>(CosmeticLedgerError::Program(CosmeticError::Unauthorized))
                && *final(self) == *old(self),
            authority == old(self).registry.authority && old(self).spec_has_template(template_id@)
                ==> r == Err::<CosmeticTemplateCreatedEvent, CosmeticLedgerError>(
                CosmeticLedgerError::Store(StoreError::KeyExists),
            ) && *final(self) == *old(self),
            authority == old(self).registry.authority && !old(self).spec_has_template(template_id@)
                ==> {
                &&& r is Ok
                &&& r->Ok_0.template_id@ == template_id@
                &&& r->Ok_0.cosmetic_type@ == cosmetic_data.cosmetic_type@
                &&& r->Ok_0.rarity@ == cosmetic_data.rarity@
                &&& r->Ok_0.tradable == cosmetic_data.tradable
                &&& r->Ok_0.timestamp == now
                &&& final(self).registry == (CosmeticRegistry {
                    total_cosmetics_created: (old(self).registry.total_cosmetics_created + 1) as u64,
                    ..old(self).registry
                })
                &&& final(self).templates@ == old(self).templates@.push(
                    CosmeticTemplateAccount {
                        template_id,
                        cosmetic_data,
                        total_minted: 0,
                        created_at: now,
                    },
                )
                &&& final(self).items@ == old(self).items@
                &&& final(self).holdings@ == old(self).holdings@
                &&& final(self).vaults@ == old(self).vaults@
                &&& final(self).stakes@ == old(self).stakes@
            },
    {
        if authority != self.registry.authority {
            return Err(CosmeticLedgerError::Program(CosmeticError::Unauthorized));
        }
        match self.find_template(&template_id) {
            Some(i) => {
                proof {
                    self.lemma_template_index_is(template_id@, i as int);
                }
                Err(CosmeticLedgerError::Store(StoreError::KeyExists))
            },
            None => {
                match create_cosmetic_template(&mut self.registry, authority, template_id,
                    cosmetic_data, now) {
                    Err(e) => Err(CosmeticLedgerError::Program(e)),
                    Ok((template, event)) => {
                        self.templates.push(template);
                        proof {
                            let pre = old(self).templates@;
                            let post = self.templates@;
                            assert forall|x: int, y: int|
                                #![trigger post[x], post[y]]
                                0 <= x < y < post.len() implies post[x].template_id@
                                != post[y].template_id@ by {
                                if y < post.len() - 1 {
                                    assert(pre[x].template_id@ != pre[y].template_id@);
                                } else {
                                    assert(post[y].template_id@ == template_id@);
                                    assert(post[x] == pre[x]);
                                    assert(!old(self).spec_has_template(template_id@));
                                }
                            }
                            assert forall|i: int|
                                0 <= i < post.len() implies (#[trigger] post[i]).wf() by {
                                if i < post.len() - 1 {
                                    assert(pre[i].wf());
                                }
                            }
                            assert(self.custody_ok()) by {
                                assert(self.vaults@ == old(self).vaults@);
                                assert(self.stakes@ == old(self).stakes@);
                                assert forall|i: int|
                                    0 <= i < self.stakes@.len() implies self.spec_has_vault(
                                    (#[trigger] self.stakes@[i]).cosmetic_mint,
                                    self.stakes@[i].profile_mint,
                                ) && self.spec_vault(
                                    self.stakes@[i].cosmetic_mint,
                                    self.stakes@[i].profile_mint,
                                ).account.amount == 1 by {
                                    let c = self.stakes@[i].cosmetic_mint;
                                    let p = self.stakes@[i].profile_mint;
                                    assert(old(self).stakes@[i] == self.stakes@[i]);
                                    let vi = old(self).spec_vault_index(c, p);
                                    assert(old(self).spec_has_vault(c, p));
                                    assert(old(self).vaults@[vi].cosmetic_mint == c
                                        && old(self).vaults@[vi].profile_mint == p);
                                    self.lemma_vault_index_is(c, p, vi);
                                }
                                assert forall|i: int|
                                    0 <= i < self.vaults@.len() && !self.spec_has_stake(
                                    (#[trigger] self.vaults@[i]).cosmetic_mint,
                                    self.vaults@[i].profile_mint,
                                ) implies self.vaults@[i].account.amount == 0 by {
                                    assert(!old(self).spec_has_stake(
                                        old(self).vaults@[i].cosmetic_mint,
                                        old(self).vaults@[i].profile_mint,
                                    ));
                                }
                            }
                        }
                        Ok(event)
                    },
                }
            },
        }
    }

    /// Mint one item from a template to a recipient (see the record-level
    /// operation): the item id must be fresh and the supply cap holds.
    pub fn mint_cosmetic(
        &mut self,
        template_id: &String,
        cosmetic_mint: u64,
        recipient: u64,
        now: u64,
    ) -> (r: Result<(TokenMetadata, CosmeticMintedEvent), CosmeticLedgerError>)
        requires
            old(self).wf(),
            old(self).spec_has_template(template_id@) ==> old(self).spec_template(
                template_id@,
            ).total_minted < u64::MAX && uri_fields_bounded(
                old(self).spec_template(template_id@).cosmetic_data,
            ),
        ensures
            final(self).wf(),
            !old(self).spec_has_template(template_id@) ==> r == Err::<(TokenMetadata,
                CosmeticMintedEvent), CosmeticLedgerError>(
                CosmeticLedgerError::Store(StoreError::NoSuchKey),
            ) && *final(self) == *old(self),
            old(self).spec_has_template(template_id@) && old(self).spec_has_item(cosmetic_mint)
                ==> r == Err::<(TokenMetadata, CosmeticMintedEvent), CosmeticLedgerError>(
                CosmeticLedgerError::Store(StoreError::KeyExists),
            ) && *final(self) == *old(self),
            old(self).spec_has_template(template_id@) && !old(self).spec_has_item(cosmetic_mint)
                && old(self).spec_has_holding(recipient, cosmetic_mint) ==> r == Err::<(
                TokenMetadata,
                CosmeticMintedEvent,
            ), CosmeticLedgerError>(CosmeticLedgerError::Store(StoreError::KeyExists))
                && *final(self) == *old(self),
            old(self).spec_has_template(template_id@) && !old(self).spec_has_item(cosmetic_mint)
                && !old(self).spec_has_holding(recipient, cosmetic_mint) && !spec_mint_allowed(
                old(self).spec_template(template_id@),
            ) ==> r == Err::<(TokenMetadata, CosmeticMintedEvent), CosmeticLedgerError>(
                CosmeticLedgerError::Program(CosmeticError::MaxSupplyReached),
            ) && *final(self) == *old(self),
            old(self).spec_has_template(template_id@) && !old(self).spec_has_item(cosmetic_mint)
                && !old(self).spec_has_holding(recipient, cosmetic_mint) && spec_mint_allowed(
                old(self).spec_template(template_id@),
            ) ==> ({
                let t = old(self).spec_template(template_id@);
                &&& r is Ok
                &&& r->Ok_0.0.name@ == t.cosmetic_data.name@
                &&& r->Ok_0.0.uri@ == spec_metadata_uri(t.cosmetic_data)
                &&& r->Ok_0.1.recipient == recipient
                &&& r->Ok_0.1.cosmetic_mint == cosmetic_mint
                &&& r->Ok_0.1.template_id@ == t.template_id@
                &&& r->Ok_0.1.cosmetic_type@ == t.cosmetic_data.cosmetic_type@
                &&& r->Ok_0.1.rarity@ == t.cosmetic_data.rarity@
                &&& r->Ok_0.1.tradable == t.cosmetic_data.tradable
                &&& r->Ok_0.1.timestamp == now
                &&& final(self).templates@ == old(self).templates@.update(
                    old(self).spec_template_index(template_id@),
                    spec_minted_template(t),
                )
                &&& final(self).holdings@ == old(self).holdings@.push(
                    HoldingEntry {
                        owner: recipient,
                        cosmetic_mint,
                        account: TokenAccount { amount: 1 },
                    },
                )
                &&& ({
                    let it = final(self).items@.last();
                    &&& final(self).items@ == old(self).items@.push(it)
                    &&& it.cosmetic_mint == cosmetic_mint
                    &&& it.metadata.cosmetic_type@ == t.cosmetic_data.cosmetic_type@
                    &&& it.metadata.rarity@ == t.cosmetic_data.rarity@
                    &&& it.metadata.tradable == t.cosmetic_data.tradable
                })
                &&& final(self).registry == old(self).registry
                &&& final(self).vaults@ == old(self).vaults@
                &&& final(self).stakes@ == old(self).stakes@
            }),
    {
        let ti = match self.find_template(template_id) {
            None => {
                return Err(CosmeticLedgerError::Store(StoreError::NoSuchKey));
            },
            Some(i) => i,
        };
        proof {
            self.lemma_template_index_is(template_id@, ti as int);
        }
        match self.find_item(cosmetic_mint) {
            Some(i) => {
                proof {
                    self.lemma_item_index_is(cosmetic_mint, i as int);
                }
                return Err(CosmeticLedgerError::Store(StoreError::KeyExists));
            },
            None => {},
        }
        match self.find_holding(recipient, cosmetic_mint) {
            Some(i) => {
                proof {
                    self.lemma_holding_index_is(recipient, cosmetic_mint, i as int);
                }
                return Err(CosmeticLedgerError::Store(StoreError::KeyExists));
            },
            None => {},
        }
        if self.templates[ti].cosmetic_data.max_supply > 0 && self.templates[ti].total_minted
            >= self.templates[ti].cosmetic_data.max_supply {
            return Err(CosmeticLedgerError::Program(CosmeticError::MaxSupplyReached));
        }
        let mut recipient_account = TokenAccount::new();
        let template = &mut self.templates[ti];
        let minted = mint_cosmetic(template, &mut recipient_account, cosmetic_mint, recipient,
            now);
        match minted {
            Err(e) => Err(CosmeticLedgerError::Program(e)),
            Ok((token_metadata, event)) => {
                let item = MintedItem {
                    cosmetic_mint,
                    metadata: CosmeticMetadata {
                        cosmetic_type: event.cosmetic_type.clone(),
                        rarity: event.rarity.clone(),
                        tradable: event.tradable,
                    },
                };
                self.items.push(item);
                self.holdings.push(
                    HoldingEntry { owner: recipient, cosmetic_mint, account: recipient_account },
                );
                proof {
                    let post = *self;
                    assert forall|x: int, y: int|
                        #![trigger post.templates@[x], post.templates@[y]]
                        0 <= x < y < post.templates@.len() implies post.templates@[x].template_id@
                        != post.templates@[y].template_id@ by {
                        assert(old(self).templates@[x].template_id@ != old(self).templates@[y].template_id@);
                    }
                    assert forall|x: int, y: int|
                        #![trigger post.items@[x], post.items@[y]]
                        0 <= x < y < post.items@.len() implies post.items@[x].cosmetic_mint
                        != post.items@[y].cosmetic_mint by {
                        if y < post.items@.len() - 1 {
                            assert(old(self).items@[x].cosmetic_mint != old(self).items@[y].cosmetic_mint);
                        } else {
                            assert(post.items@[y].cosmetic_mint == cosmetic_mint);
                            assert(post.items@[x] == old(self).items@[x]);
                            assert(!old(self).spec_has_item(cosmetic_mint));
                        }
                    }
                    assert forall|x: int, y: int|
                        #![trigger post.holdings@[x], post.holdings@[y]]
                        0 <= x < y < post.holdings@.len() implies !(post.holdings@[x].owner
                        == post.holdings@[y].owner && post.holdings@[x].cosmetic_mint
                        == post.holdings@[y].cosmetic_mint) by {
                        if y < post.holdings@.len() - 1 {
                            assert(!(old(self).holdings@[x].owner == old(self).holdings@[y].owner
                                && old(self).holdings@[x].cosmetic_mint == old(self).holdings@[y].cosmetic_mint));
                        } else {
                            assert(post.holdings@[y].owner == recipient);
                            assert(post.holdings@[y].cosmetic_mint == cosmetic_mint);
                            assert(post.holdings@[x] == old(self).holdings@[x]);
                            assert(!old(self).spec_has_holding(recipient, cosmetic_mint));
                        }
                    }
                    assert(post.templates_wf()) by {
                        assert forall|i: int|
                            0 <= i < post.templates@.len() implies (
                        #[trigger] post.templates@[i]).wf() by {
                            if i != ti as int {
                                assert(old(self).templates@[i].wf());
                            }
                        }
                    }
                    assert(post.custody_ok()) by {
                        assert(post.vaults@ == old(self).vaults@);
                        assert(post.stakes@ == old(self).stakes@);
                        assert forall|i: int|
                            0 <= i < post.stakes@.len() implies post.spec_has_vault(
                            (#[trigger] post.stakes@[i]).cosmetic_mint,
                            post.stakes@[i].profile_mint,
                        ) && post.spec_vault(
                            post.stakes@[i].cosmetic_mint,
                            post.stakes@[i].profile_mint,
                        ).account.amount == 1 by {
                            let c = post.stakes@[i].cosmetic_mint;
                            let p = post.stakes@[i].profile_mint;
                            let vi = old(self).spec_vault_index(c, p);
                            assert(old(self).spec_has_vault(c, p));
                            assert(old(self).vaults@[vi].cosmetic_mint == c
                                && old(self).vaults@[vi].profile_mint == p);
                            post.lemma_vault_index_is(c, p, vi);
                        }
                        assert forall|i: int|
                            0 <= i < post.vaults@.len() && !post.spec_has_stake(
                            (#[trigger] post.vaults@[i]).cosmetic_mint,
                            post.vaults@[i].profile_mint,
                        ) implies post.vaults@[i].account.amount == 0 by {
                            assert(!old(self).spec_has_stake(
                                old(self).vaults@[i].cosmetic_mint,
                                old(self).vaults@[i].profile_mint,
                            ));
                        }
                    }
                }
                Ok((token_metadata, event))
            },
        }
    }

    /// Stake a minted item to a profile (see the record-level operation):
    /// the caller's holding and the item's declared facts are looked up,
    /// double-staking the same pair is refused, and the unit moves into
    /// the scoped vault, created on first use.
    pub fn stake_cosmetic_to_profile(
        &mut self,
        user: u64,
        cosmetic_mint: u64,
        profile_mint: u64,
        cosmetic_type: String,
        now: u64,
    ) -> (r: Result<CosmeticStakedEvent, CosmeticLedgerError>)
        requires
            old(self).wf(),
            old(self).registry.active_stakes < u64::MAX,
        ensures
            final(self).wf(),
            !old(self).spec_has_holding(user, cosmetic_mint) ==> r == Err::<CosmeticStakedEvent,
                CosmeticLedgerError>(CosmeticLedgerError::Store(StoreError::NoSuchKey)) && *final(self) == *old(self),
            old(self).spec_has_holding(user, cosmetic_mint) && !old(self).spec_has_item(
                cosmetic_mint,
            ) ==> r == Err::<CosmeticStakedEvent, CosmeticLedgerError>(
                CosmeticLedgerError::Store(StoreError::NoSuchKey),
            ) && *final(self) == *old(self),
            old(self).spec_has_holding(user, cosmetic_mint) && old(self).spec_has_item(
                cosmetic_mint,
            ) && old(self).spec_has_stake(cosmetic_mint, profile_mint) ==> r == Err::<
                CosmeticStakedEvent,
                CosmeticLedgerError,
            >(CosmeticLedgerError::Program(CosmeticError::CosmeticAlreadyStaked)) && *final(self)
                == *old(self),
            old(self).spec_has_holding(user, cosmetic_mint) && old(self).spec_has_item(
                cosmetic_mint,
            ) && !old(self).spec_has_stake(cosmetic_mint, profile_mint) && old(self).spec_holding(
                user,
                cosmetic_mint,
            ).account.amount != 1 ==> r == Err::<CosmeticStakedEvent, CosmeticLedgerError>(
                CosmeticLedgerError::Program(CosmeticError::CosmeticNotOwned),
            ) && *final(self) == *old(self),
            old(self).spec_has_holding(user, cosmetic_mint) && old(self).spec_has_item(
                cosmetic_mint,
            ) && !old(self).spec_has_stake(cosmetic_mint, profile_mint) && old(self).spec_holding(
                user,
                cosmetic_mint,
            ).account.amount == 1 && old(self).spec_item(cosmetic_mint).metadata.cosmetic_type@
                != cosmetic_type@ ==> r == Err::<CosmeticStakedEvent, CosmeticLedgerError>(
                CosmeticLedgerError::Program(CosmeticError::InvalidCosmeticType),
            ) && *final(self) == *old(self),
            old(self).spec_has_holding(user, cosmetic_mint) && old(self).spec_has_item(
                cosmetic_mint,
            ) && !old(self).spec_has_stake(cosmetic_mint, profile_mint) && old(self).spec_holding(
                user,
                cosmetic_mint,
            ).account.amount == 1 && old(self).spec_item(cosmetic_mint).metadata.cosmetic_type@
                == cosmetic_type@ ==> ({
                let hidx = old(self).spec_holding_index(user, cosmetic_mint);
                let held = old(self).holdings@[hidx];
                &&& r is Ok
                &&& r->Ok_0.user == user
                &&& r->Ok_0.cosmetic_mint == cosmetic_mint
                &&& r->Ok_0.profile_mint == profile_mint
                &&& r->Ok_0.cosmetic_type@ == cosmetic_type@
                &&& r->Ok_0.timestamp == now
                &&& final(self).holdings@ == old(self).holdings@.update(
                    hidx,
                    HoldingEntry { account: TokenAccount { amount: 0 }, ..held },
                )
                &&& final(self).spec_has_vault(cosmetic_mint, profile_mint)
                &&& final(self).spec_vault(cosmetic_mint, profile_mint).account.amount == 1
                &&& ({
                    let rec = final(self).stakes@.last();
                    &&& final(self).stakes@ == old(self).stakes@.push(rec)
                    &&& rec.user == user
                    &&& rec.cosmetic_mint == cosmetic_mint
                    &&& rec.profile_mint == profile_mint
                    &&& rec.cosmetic_type@ == cosmetic_type@
                    &&& rec.staked_at == now
                })
                &&& final(self).registry == (CosmeticRegistry {
                    active_stakes: (old(self).registry.active_stakes + 1) as u64,
                    ..old(self).registry
                })
                &&& final(self).templates@ == old(self).templates@
                &&& final(self).items@ == old(self).items@
            }),
    {
        let hidx = match self.find_holding(user, cosmetic_mint) {
            None => {
                return Err(CosmeticLedgerError::Store(StoreError::NoSuchKey));
            },
            Some(i) => i,
        };
        proof {
            self.lemma_holding_index_is(user, cosmetic_mint, hidx as int);
        }
        let iidx = match self.find_item(cosmetic_mint) {
            None => {
                return Err(CosmeticLedgerError::Store(StoreError::NoSuchKey));
            },
            Some(i) => i,
        };
        proof {
            self.lemma_item_index_is(cosmetic_mint, iidx as int);
        }
        match self.find_stake(cosmetic_mint, profile_mint) {
            Some(i) => {
                proof {
                    self.lemma_stake_index_is(cosmetic_mint, profile_mint, i as int);
                }
                return Err(CosmeticLedgerError::Program(CosmeticError::CosmeticAlreadyStaked));
            },
            None => {},
        }
        if self.holdings[hidx].account.amount != 1 {
            return Err(CosmeticLedgerError::Program(CosmeticError::CosmeticNotOwned));
        }
        if !(self.items[iidx].metadata.cosmetic_type == cosmetic_type) {
            return Err(CosmeticLedgerError::Program(CosmeticError::InvalidCosmeticType));
        }
        let vidx = match self.find_vault(cosmetic_mint, profile_mint) {
            Some(i) => {
                proof {
                    self.lemma_vault_index_is(cosmetic_mint, profile_mint, i as int);
                }
                i
            },
            None => {
                self.vaults.push(
                    VaultEntry { cosmetic_mint, profile_mint, account: TokenAccount::new() },
                );
                proof {
                    let post = *self;
                    let n = post.vaults@.len() - 1;
                    assert forall|x: int, y: int|
                        #![trigger post.vaults@[x], post.vaults@[y]]
                        0 <= x < y < post.vaults@.len() implies !(post.vaults@[x].cosmetic_mint
                        == post.vaults@[y].cosmetic_mint && post.vaults@[x].profile_mint
                        == post.vaults@[y].profile_mint) by {
                        if y < n {
                            assert(!(old(self).vaults@[x].cosmetic_mint == old(self).vaults@[y].cosmetic_mint && old(self).vaults@[x].profile_mint == old(self).vaults@[y].profile_mint));
                        } else {
                            assert(post.vaults@[y].cosmetic_mint == cosmetic_mint);
                            assert(post.vaults@[y].profile_mint == profile_mint);
                            assert(post.vaults@[x] == old(self).vaults@[x]);
                            assert(!old(self).spec_has_vault(cosmetic_mint, profile_mint));
                        }
                    }
                    self.lemma_vault_index_is(cosmetic_mint, profile_mint, n);
                }
                self.vaults.len() - 1
            },
        };
        let ghost mid = *self;
        proof {
            assert(mid.vaults@[vidx as int].cosmetic_mint == cosmetic_mint);
            assert(mid.vaults@[vidx as int].profile_mint == profile_mint);
            // a vault with no stake record holds nothing, whether it
            // existed before or was just created
            if (vidx as int) < old(self).vaults@.len() {
                assert(old(self).vaults@[vidx as int].account.amount == 0);
            }
            assert(mid.vaults@[vidx as int].account.amount == 0);
        }
        let holding = &mut self.holdings[hidx];
        let vault_ref = &mut self.vaults[vidx];
        let res = stake_cosmetic_to_profile(&mut self.registry, &mut holding.account,
            &mut vault_ref.account, user, cosmetic_mint, profile_mint, cosmetic_type,
            &self.items[iidx].metadata, now);
        match res {
            Err(e) => Err(CosmeticLedgerError::Program(e)),
            Ok((stake_record, event)) => {
                self.stakes.push(stake_record);
                proof {
                    let post = *self;
                    let sn = post.stakes@.len() - 1;
                    assert(post.vaults@ == mid.vaults@.update(
                        vidx as int,
                        post.vaults@[vidx as int],
                    ));
                    assert forall|x: int, y: int|
                        #![trigger post.stakes@[x], post.stakes@[y]]
                        0 <= x < y < post.stakes@.len() implies !(post.stakes@[x].cosmetic_mint
                        == post.stakes@[y].cosmetic_mint && post.stakes@[x].profile_mint
                        == post.stakes@[y].profile_mint) by {
                        if y < sn {
                            assert(!(old(self).stakes@[x].cosmetic_mint == old(self).stakes@[y].cosmetic_mint && old(self).stakes@[x].profile_mint == old(self).stakes@[y].profile_mint));
                        } else {
                            assert(post.stakes@[y].cosmetic_mint == cosmetic_mint
                                && post.stakes@[y].profile_mint == profile_mint);
                            assert(!old(self).spec_has_stake(cosmetic_mint, profile_mint));
                            assert(post.stakes@[x] == old(self).stakes@[x]);
                        }
                    }
                    assert forall|x: int, y: int|
                        #![trigger post.vaults@[x], post.vaults@[y]]
                        0 <= x < y < post.vaults@.len() implies !(post.vaults@[x].cosmetic_mint
                        == post.vaults@[y].cosmetic_mint && post.vaults@[x].profile_mint
                        == post.vaults@[y].profile_mint) by {
                        assert(!(mid.vaults@[x].cosmetic_mint == mid.vaults@[y].cosmetic_mint
                            && mid.vaults@[x].profile_mint == mid.vaults@[y].profile_mint));
                        assert(post.vaults@[x].cosmetic_mint == mid.vaults@[x].cosmetic_mint);
                        assert(post.vaults@[x].profile_mint == mid.vaults@[x].profile_mint);
                        assert(post.vaults@[y].cosmetic_mint == mid.vaults@[y].cosmetic_mint);
                        assert(post.vaults@[y].profile_mint == mid.vaults@[y].profile_mint);
                    }
                    assert forall|x: int, y: int|
                        #![trigger post.holdings@[x], post.holdings@[y]]
                        0 <= x < y < post.holdings@.len() implies !(post.holdings@[x].owner
                        == post.holdings@[y].owner && post.holdings@[x].cosmetic_mint
                        == post.holdings@[y].cosmetic_mint) by {
                        assert(!(old(self).holdings@[x].owner == old(self).holdings@[y].owner
                            && old(self).holdings@[x].cosmetic_mint == old(self).holdings@[y].cosmetic_mint));
                        assert(post.holdings@[x].owner == old(self).holdings@[x].owner);
                        assert(post.holdings@[x].cosmetic_mint == old(self).holdings@[x].cosmetic_mint);
                        assert(post.holdings@[y].owner == old(self).holdings@[y].owner);
                        assert(post.holdings@[y].cosmetic_mint == old(self).holdings@[y].cosmetic_mint);
                    }
                    post.lemma_vault_index_is(cosmetic_mint, profile_mint, vidx as int);
                    assert(post.custody_ok()) by {
                        assert forall|i: int|
                            0 <= i < post.stakes@.len() implies post.spec_has_vault(
                            (#[trigger] post.stakes@[i]).cosmetic_mint,
                            post.stakes@[i].profile_mint,
                        ) && post.spec_vault(
                            post.stakes@[i].cosmetic_mint,
                            post.stakes@[i].profile_mint,
                        ).account.amount == 1 by {
                            let c = post.stakes@[i].cosmetic_mint;
                            let p = post.stakes@[i].profile_mint;
                            if i < sn {
                                assert(old(self).stakes@[i] == post.stakes@[i]);
                                let vi = old(self).spec_vault_index(c, p);
                                assert(old(self).spec_has_vault(c, p));
                                assert(old(self).vaults@[vi].cosmetic_mint == c
                                    && old(self).vaults@[vi].profile_mint == p
                                    && old(self).vaults@[vi].account.amount == 1);
                                assert(vi != vidx as int);
                                assert(post.vaults@[vi] == old(self).vaults@[vi]);
                                post.lemma_vault_index_is(c, p, vi);
                            } else {
                                assert(c == cosmetic_mint && p == profile_mint);
                            }
                        }
                        assert forall|i: int|
                            0 <= i < post.vaults@.len() && !post.spec_has_stake(
                            (#[trigger] post.vaults@[i]).cosmetic_mint,
                            post.vaults@[i].profile_mint,
                        ) implies post.vaults@[i].account.amount == 0 by {
                            let c = post.vaults@[i].cosmetic_mint;
                            let p = post.vaults@[i].profile_mint;
                            assert(post.stakes@[sn].cosmetic_mint == cosmetic_mint);
                            if i == vidx as int {
                                assert(post.spec_has_stake(c, p));
                            } else {
                                if i < old(self).vaults@.len() {
                                    assert(old(self).vaults@[i] == post.vaults@[i]);
                                    if old(self).spec_has_stake(c, p) {
                                        let si = old(self).spec_stake_index(c, p);
                                        assert(old(self).stakes@[si] == post.stakes@[si]);
                                        assert(post.spec_has_stake(c, p));
                                    }
                                    assert(!old(self).spec_has_stake(c, p));
                                } else {
                                    assert(i == mid.vaults@.len() - 1 && i == vidx as int);
                                }
                            }
                        }
                    }
                }
                Ok(event)
            },
        }
    }

    /// Unstake an item from a profile (see the record-level operation):
    /// the record must exist and only its recorded owner may undo it; the
    /// unit moves from the vault back to the caller's account and the
    /// record is destroyed.
    pub fn unstake_cosmetic_from_profile(
        &mut self,
        user: u64,
        cosmetic_mint: u64,
        profile_mint: u64,
        now: u64,
    ) -> (r: Result<CosmeticUnstakedEvent, CosmeticLedgerError>)
        requires
            old(self).wf(),
            old(self).spec_has_holding(user, cosmetic_mint) ==> old(self).spec_holding(
                user,
                cosmetic_mint,
            ).account.amount < u64::MAX,
        ensures
            final(self).wf(),
            !old(self).spec_has_stake(cosmetic_mint, profile_mint) ==> r == Err::<
                CosmeticUnstakedEvent,
                CosmeticLedgerError,
            >(CosmeticLedgerError::Program(CosmeticError::CosmeticNotStaked)) && *final(self)
                == *old(self),
            old(self).spec_has_stake(cosmetic_mint, profile_mint) && !old(self).spec_has_holding(
                user,
                cosmetic_mint,
            ) ==> r == Err::<CosmeticUnstakedEvent, CosmeticLedgerError>(
                CosmeticLedgerError::Store(StoreError::NoSuchKey),
            ) && *final(self) == *old(self),
            old(self).spec_has_stake(cosmetic_mint, profile_mint) && old(self).spec_has_holding(
                user,
                cosmetic_mint,
            ) && user != old(self).spec_stake(cosmetic_mint, profile_mint).user ==> r == Err::<
                CosmeticUnstakedEvent,
                CosmeticLedgerError,
            >(CosmeticLedgerError::Program(CosmeticError::Unauthorized)) && *final(self) == *old(self),
            old(self).spec_has_stake(cosmetic_mint, profile_mint) && old(self).spec_has_holding(
                user,
                cosmetic_mint,
            ) && user == old(self).spec_stake(cosmetic_mint, profile_mint).user ==> ({
                let sidx = old(self).spec_stake_index(cosmetic_mint, profile_mint);
                let hidx = old(self).spec_holding_index(user, cosmetic_mint);
                let vidx = old(self).spec_vault_index(cosmetic_mint, profile_mint);
                let held = old(self).holdings@[hidx];
                let vlt = old(self).vaults@[vidx];
                &&& r is Ok
                &&& r->Ok_0.user == user
                &&& r->Ok_0.cosmetic_mint == cosmetic_mint
                &&& r->Ok_0.profile_mint == profile_mint
                &&& r->Ok_0.cosmetic_type@ == old(self).spec_stake(
                    cosmetic_mint,
                    profile_mint,
                ).cosmetic_type@
                &&& r->Ok_0.timestamp == now
                &&& final(self).stakes@ == old(self).stakes@.remove(sidx)
                &&& final(self).holdings@ == old(self).holdings@.update(
                    hidx,
                    HoldingEntry {
                        account: TokenAccount { amount: (held.account.amount + 1) as u64 },
                        ..held
                    },
                )
                &&& final(self).vaults@ == old(self).vaults@.update(
                    vidx,
                    VaultEntry { account: TokenAccount { amount: 0 }, ..vlt },
                )
                &&& final(self).registry == (CosmeticRegistry {
                    active_stakes: (old(self).registry.active_stakes - 1) as u64,
                    ..old(self).registry
                })
                &&& final(self).templates@ == old(self).templates@
                &&& final(self).items@ == old(self).items@
            }),
    {
        let sidx = match self.find_stake(cosmetic_mint, profile_mint) {
            None => {
                return Err(CosmeticLedgerError::Program(CosmeticError::CosmeticNotStaked));
            },
            Some(i) => i,
        };
        proof {
            self.lemma_stake_index_is(cosmetic_mint, profile_mint, sidx as int);
        }
        let hidx = match self.find_holding(user, cosmetic_mint) {
            None => {
                return Err(CosmeticLedgerError::Store(StoreError::NoSuchKey));
            },
            Some(i) => i,
        };
        proof {
            self.lemma_holding_index_is(user, cosmetic_mint, hidx as int);
        }
        let vidx = match self.find_vault(cosmetic_mint, profile_mint) {
            None => {
                proof {
                    assert(old(self).spec_has_vault(cosmetic_mint, profile_mint));
                }
                // the custody invariant rules this out
                return Err(CosmeticLedgerError::Store(StoreError::NoSuchKey));
            },
            Some(i) => i,
        };
        proof {
            self.lemma_vault_index_is(cosmetic_mint, profile_mint, vidx as int);
            assert(self.vaults@[vidx as int].account.amount == 1);
            assert(self.registry.active_stakes >= 1);
        }
        let stake_user = self.stakes[sidx].user;
        if user != stake_user {
            return Err(CosmeticLedgerError::Program(CosmeticError::Unauthorized));
        }
        let holding = &mut self.holdings[hidx];
        let vault_ref = &mut self.vaults[vidx];
        let res = unstake_cosmetic_from_profile(&mut self.registry, &mut holding.account,
            &mut vault_ref.account, &self.stakes[sidx], user, now);
        match res {
            Err(e) => Err(CosmeticLedgerError::Program(e)),
            Ok(event) => {
                self.stakes.remove(sidx);
                proof {
                    let post = *self;
                    let pre = *old(self);
                    assert forall|x: int, y: int|
                        #![trigger post.stakes@[x], post.stakes@[y]]
                        0 <= x < y < post.stakes@.len() implies !(post.stakes@[x].cosmetic_mint
                        == post.stakes@[y].cosmetic_mint && post.stakes@[x].profile_mint
                        == post.stakes@[y].profile_mint) by {
                        let xo: int = if x < sidx as int {
                            x
                        } else {
                            x + 1
                        };
                        let yo: int = if y < sidx as int {
                            y
                        } else {
                            y + 1
                        };
                        assert(post.stakes@[x] == pre.stakes@[xo]);
                        assert(post.stakes@[y] == pre.stakes@[yo]);
                        assert(!(pre.stakes@[xo].cosmetic_mint == pre.stakes@[yo].cosmetic_mint
                            && pre.stakes@[xo].profile_mint == pre.stakes@[yo].profile_mint));
                    }
                    assert forall|x: int, y: int|
                        #![trigger post.vaults@[x], post.vaults@[y]]
                        0 <= x < y < post.vaults@.len() implies !(post.vaults@[x].cosmetic_mint
                        == post.vaults@[y].cosmetic_mint && post.vaults@[x].profile_mint
                        == post.vaults@[y].profile_mint) by {
                        assert(!(pre.vaults@[x].cosmetic_mint == pre.vaults@[y].cosmetic_mint
                            && pre.vaults@[x].profile_mint == pre.vaults@[y].profile_mint));
                        assert(post.vaults@[x].cosmetic_mint == pre.vaults@[x].cosmetic_mint);
                        assert(post.vaults@[x].profile_mint == pre.vaults@[x].profile_mint);
                        assert(post.vaults@[y].cosmetic_mint == pre.vaults@[y].cosmetic_mint);
                        assert(post.vaults@[y].profile_mint == pre.vaults@[y].profile_mint);
                    }
                    assert forall|x: int, y: int|
                        #![trigger post.holdings@[x], post.holdings@[y]]
                        0 <= x < y < post.holdings@.len() implies !(post.holdings@[x].owner
                        == post.holdings@[y].owner && post.holdings@[x].cosmetic_mint
                        == post.holdings@[y].cosmetic_mint) by {
                        assert(!(pre.holdings@[x].owner == pre.holdings@[y].owner
                            && pre.holdings@[x].cosmetic_mint == pre.holdings@[y].cosmetic_mint));
                        assert(post.holdings@[x].owner == pre.holdings@[x].owner);
                        assert(post.holdings@[x].cosmetic_mint == pre.holdings@[x].cosmetic_mint);
                        assert(post.holdings@[y].owner == pre.holdings@[y].owner);
                        assert(post.holdings@[y].cosmetic_mint == pre.holdings@[y].cosmetic_mint);
                    }
                    assert(post.custody_ok()) by {
                        assert forall|i: int|
                            0 <= i < post.stakes@.len() implies post.spec_has_vault(
                            (#[trigger] post.stakes@[i]).cosmetic_mint,
                            post.stakes@[i].profile_mint,
                        ) && post.spec_vault(
                            post.stakes@[i].cosmetic_mint,
                            post.stakes@[i].profile_mint,
                        ).account.amount == 1 by {
                            let io: int = if i < sidx as int {
                                i
                            } else {
                                i + 1
                            };
                            assert(post.stakes@[i] == pre.stakes@[io]);
                            let c = post.stakes@[i].cosmetic_mint;
                            let p = post.stakes@[i].profile_mint;
                            let vi = pre.spec_vault_index(c, p);
                            assert(pre.spec_has_vault(c, p));
                            assert(pre.vaults@[vi].cosmetic_mint == c && pre.vaults@[vi].profile_mint
                                == p && pre.vaults@[vi].account.amount == 1);
                            assert(io != sidx as int);
                            assert(!(c == cosmetic_mint && p == profile_mint));
                            assert(vi != vidx as int);
                            assert(post.vaults@[vi] == pre.vaults@[vi]);
                            post.lemma_vault_index_is(c, p, vi);
                        }
                        assert forall|i: int|
                            0 <= i < post.vaults@.len() && !post.spec_has_stake(
                            (#[trigger] post.vaults@[i]).cosmetic_mint,
                            post.vaults@[i].profile_mint,
                        ) implies post.vaults@[i].account.amount == 0 by {
                            let c = post.vaults@[i].cosmetic_mint;
                            let p = post.vaults@[i].profile_mint;
                            if i == vidx as int {
                            } else {
                                assert(post.vaults@[i] == pre.vaults@[i]);
                                if pre.spec_has_stake(c, p) {
                                    let si = pre.spec_stake_index(c, p);
                                    assert(pre.stakes@[si].cosmetic_mint == c
                                        && pre.stakes@[si].profile_mint == p);
                                    assert(!(c == cosmetic_mint && p == profile_mint));
                                    assert(si != sidx as int);
                                    let sn: int = if si < sidx as int {
                                        si
                                    } else {
                                        si - 1
                                    };
                                    assert(post.stakes@[sn] == pre.stakes@[si]);
                                    assert(post.spec_has_stake(c, p));
                                }
                                assert(!pre.spec_has_stake(c, p));
                            }
                        }
                    }
                }
                Ok(event)
            },
        }
    }

    /// Whether a stake record exists for this item and profile.
    pub fn is_cosmetic_staked(&self, cosmetic_mint: u64, profile_mint: u64) -> (r: bool)
        ensures
            r == self.spec_has_stake(cosmetic_mint, profile_mint),
    {
        self.find_stake(cosmetic_mint, profile_mint).is_some()
    }
}

} // verus!
