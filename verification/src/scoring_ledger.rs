//! The reward program's record store: the singleton config plus one
//! record and one token account per user, each addressed by the owner's
//! id. Operations declare the records they touch, fail immediately when
//! one is missing, and otherwise apply exactly the record-level
//! transitions of the reward engine.

use vstd::prelude::*;

use crate::badges::BadgeAwardedEvent;
use crate::badges::ReputationCalculatedEvent;
use crate::badges::award_achievement_badge;
use crate::badges::spec_badge_eligible;
use crate::badges::update_reputation_score;
use crate::custody::TokenAccount;
use crate::errors::DsxError;
use crate::errors::ScoringLedgerError;
use crate::errors::StoreError;
use crate::scoring::CONTENT_REWARD_CAP;
use crate::scoring::DAILY_CONTRIBUTION_REWARD;
use crate::scoring::PARTICIPATION_REWARD_RATE;
use crate::scoring::REFERRAL_REWARD;
use crate::scoring::RewardEvent;
use crate::scoring::ScoringConfig;
use crate::scoring::UserScoring;
use crate::scoring::initialize_scoring;
use crate::scoring::initialize_user_scoring;
use crate::scoring::reward_community_participation;
use crate::scoring::reward_content_engagement;
use crate::scoring::reward_daily_contribution;
use crate::scoring::reward_referral;
use crate::scoring::spec_reputation;
use crate::scoring::spec_reward_content;
use crate::scoring::spec_reward_daily;
use crate::scoring::spec_reward_participation;
use crate::scoring::spec_reward_referral;
use crate::scoring::calculate_reputation_score;

verus! {

/// A user's two records: the accumulated reward state and the token
/// account the rewards are minted into.
#[derive(Clone, Copy, Debug, PartialEq, Eq, Structural)]
pub struct UserEntry {
    pub record: UserScoring,
    pub account: TokenAccount,
}

/// Wrap a reward-engine outcome into a ledger outcome.
pub open spec fn spec_wrap_dsx(res: Result<RewardEvent, DsxError>) -> Result<
    RewardEvent,
    ScoringLedgerError,
> {
    match res {
        Ok(ev) => Ok(ev),
        Err(e) => Err(ScoringLedgerError::Program(e)),
    }
}

/// The reward program's state: the singleton config and the per-user
/// records, keyed by owner id.
#[derive(Debug)]
pub struct ScoringLedger {
    pub config: ScoringConfig,
    pub users: Vec<UserEntry>,
}

impl ScoringLedger {
    /// Well-formed: the quota invariant holds and each user has at most
    /// one entry.
    pub open spec fn wf(self) -> bool {
        &&& self.config.wf()
        &&& forall|i: int, j: int|
            #![trigger self.users@[i], self.users@[j]]
            0 <= i < j < self.users@.len() ==> self.users@[i].record.user
                != self.users@[j].record.user
    }

    /// Whether a record exists for this user.
    pub open spec fn spec_has_user(self, user: u64) -> bool {
        exists|i: int|
            0 <= i < self.users@.len() && (#[trigger] self.users@[i]).record.user == user
    }

    /// Where this user's entry sits.
    pub open spec fn spec_user_index(self, user: u64) -> int {
        choose|i: int|
            0 <= i < self.users@.len() && (#[trigger] self.users@[i]).record.user == user
    }

    /// This user's entry.
    pub open spec fn spec_user(self, user: u64) -> UserEntry {
        self.users@[self.spec_user_index(user)]
    }

    /// Create the reward program: the singleton config and no users yet.
    pub fn new(authority: u64, dsx_mint: u64) -> (ledger: ScoringLedger)
        ensures
            ledger.config == initialize_scoring_spec(authority, dsx_mint),
            ledger.users@.len() == 0,
            ledger.wf(),
    {
        ScoringLedger { config: initialize_scoring(authority, dsx_mint), users: Vec::new() }
    }

    fn find_user(&self, user: u64) -> (r: Option<usize>)
        ensures
            match r {
                Some(i) => i < self.users@.len() && self.users@[i as int].record.user == user,
                None => !self.spec_has_user(user),
            },
    {
        let n = self.users.len();
        let mut i: usize = 0;
        while i < n
            invariant
                n == self.users@.len(),
                i <= n,
                forall|j: int| 0 <= j < i ==> (#[trigger] self.users@[j]).record.user != user,
            decreases n - i,
        {
            if self.users[i].record.user == user {
                return Some(i);
            }
            i = i + 1;
        }
        None
    }

    /// In a well-formed ledger an entry's position is determined by its
    /// key.
    pub proof fn lemma_user_index_is(self, user: u64, i: int)
        requires
            self.wf(),
            0 <= i < self.users@.len(),
            self.users@[i].record.user == user,
        ensures
            self.spec_has_user(user),
            self.spec_user_index(user) == i,
            self.spec_user(user) == self.users@[i],
    {
        assert(self.spec_has_user(user));
        let j = self.spec_user_index(user);
        if i < j {
            assert(self.users@[i].record.user != self.users@[j].record.user);
        } else if j < i {
            assert(self.users@[j].record.user != self.users@[i].record.user);
        }
    }

    /// Create the user's reward record and token account, both empty;
    /// fails if the user already has one.
    pub fn register_user(&mut self, user: u64) -> (r: Result<(), StoreError>)
        requires
            old(self).wf(),
        ensures
            final(self).wf(),
            final(self).config == old(self).config,
            old(self).spec_has_user(user) ==> r == Err::<(), StoreError>(StoreError::KeyExists)
                && *final(self) == *old(self),
            !old(self).spec_has_user(user) ==> r == Ok::<(), StoreError>(()) && final(self).users@
                == old(self).users@.push(
                UserEntry {
                    record: initialize_user_scoring_spec(user),
                    account: TokenAccount { amount: 0 },
                },
            ),
            final(self).spec_has_user(user),
    {
        match self.find_user(user) {
            Some(i) => {
                proof {
                    self.lemma_user_index_is(user, i as int);
                }
                Err(StoreError::KeyExists)
            },
            None => {
                let record = initialize_user_scoring(user);
                let account = TokenAccount::new();
                self.users.push(UserEntry { record, account });
                proof {
                    let n = self.users@.len() - 1;
                    assert(self.users@[n].record.user == user);
                }
                Ok(())
            },
        }
    }

    /// Reward the user's daily contribution (see the record-level
    /// operation): the looked-up records move exactly along
    /// `spec_reward_daily`.
    pub fn reward_daily_contribution(&mut self, user: u64, now: u64) -> (r: Result<
        RewardEvent,
        ScoringLedgerError,
    >)
        requires
            old(self).wf(),
            old(self).config.total_distributed + DAILY_CONTRIBUTION_REWARD <= u64::MAX,
            old(self).spec_has_user(user) ==> old(self).spec_user(user).record.total_earned
                + DAILY_CONTRIBUTION_REWARD <= u64::MAX && old(self).spec_user(user).account.amount
                + DAILY_CONTRIBUTION_REWARD <= u64::MAX,
        ensures
            final(self).wf(),
            !old(self).spec_has_user(user) ==> r == Err::<RewardEvent, ScoringLedgerError>(
                ScoringLedgerError::Store(StoreError::NoSuchKey),
            ) && *final(self) == *old(self),
            old(self).spec_has_user(user) ==> ({
                let idx = old(self).spec_user_index(user);
                let entry = old(self).users@[idx];
                let (c, u, a, res) = spec_reward_daily(old(self).config, entry.record,
                    entry.account, now);
                &&& final(self).config == c
                &&& final(self).users@ == old(self).users@.update(
                    idx,
                    UserEntry { record: u, account: a },
                )
                &&& r == spec_wrap_dsx(res)
            }),
    {
        let i = match self.find_user(user) {
            None => {
                return Err(ScoringLedgerError::Store(StoreError::NoSuchKey));
            },
            Some(i) => i,
        };
        proof {
            self.lemma_user_index_is(user, i as int);
        }
        let entry = &mut self.users[i];
        let res = reward_daily_contribution(&mut self.config, &mut entry.record,
            &mut entry.account, now);
        proof {
            lemma_user_update_keeps_wf(old(self).users@, self.users@, i as int);
        }
        match res {
            Ok(ev) => Ok(ev),
            Err(e) => Err(ScoringLedgerError::Program(e)),
        }
    }

    /// Reward a referral (see the record-level operation).
    pub fn reward_referral(&mut self, user: u64, referred_user: u64, now: u64) -> (r: Result<
        RewardEvent,
        ScoringLedgerError,
    >)
        requires
            old(self).wf(),
            old(self).config.total_distributed + REFERRAL_REWARD <= u64::MAX,
            old(self).spec_has_user(user) ==> old(self).spec_user(user).record.total_earned
                + REFERRAL_REWARD <= u64::MAX && old(self).spec_user(user).account.amount
                + REFERRAL_REWARD <= u64::MAX && old(self).spec_user(user).record.referral_count
                < u64::MAX,
        ensures
            final(self).wf(),
            !old(self).spec_has_user(user) ==> r == Err::<RewardEvent, ScoringLedgerError>(
                ScoringLedgerError::Store(StoreError::NoSuchKey),
            ) && *final(self) == *old(self),
            old(self).spec_has_user(user) ==> ({
                let idx = old(self).spec_user_index(user);
                let entry = old(self).users@[idx];
                let (c, u, a, res) = spec_reward_referral(old(self).config, entry.record,
                    entry.account, now);
                &&& final(self).config == c
                &&& final(self).users@ == old(self).users@.update(
                    idx,
                    UserEntry { record: u, account: a },
                )
                &&& r == spec_wrap_dsx(res)
            }),
    {
        let i = match self.find_user(user) {
            None => {
                return Err(ScoringLedgerError::Store(StoreError::NoSuchKey));
            },
            Some(i) => i,
        };
        proof {
            self.lemma_user_index_is(user, i as int);
        }
        let entry = &mut self.users[i];
        let res = reward_referral(&mut self.config, &mut entry.record, &mut entry.account,
            referred_user, now);
        proof {
            lemma_user_update_keeps_wf(old(self).users@, self.users@, i as int);
        }
        match res {
            Ok(ev) => Ok(ev),
            Err(e) => Err(ScoringLedgerError::Program(e)),
        }
    }

    /// Reward content engagement (see the record-level operation).
    pub fn reward_content_engagement(&mut self, user: u64, engagement_score: u64, now: u64) -> (r:
        Result<RewardEvent, ScoringLedgerError>)
        requires
            old(self).wf(),
            old(self).config.total_distributed + CONTENT_REWARD_CAP <= u64::MAX,
            old(self).spec_has_user(user) ==> old(self).spec_user(user).record.total_earned
                + CONTENT_REWARD_CAP <= u64::MAX && old(self).spec_user(user).account.amount
                + CONTENT_REWARD_CAP <= u64::MAX && old(self).spec_user(user).record.content_score
                + engagement_score <= u64::MAX,
        ensures
            final(self).wf(),
            !old(self).spec_has_user(user) ==> r == Err::<RewardEvent, ScoringLedgerError>(
                ScoringLedgerError::Store(StoreError::NoSuchKey),
            ) && *final(self) == *old(self),
            old(self).spec_has_user(user) ==> ({
                let idx = old(self).spec_user_index(user);
                let entry = old(self).users@[idx];
                let (c, u, a, res) = spec_reward_content(old(self).config, entry.record,
                    entry.account, engagement_score, now);
                &&& final(self).config == c
                &&& final(self).users@ == old(self).users@.update(
                    idx,
                    UserEntry { record: u, account: a },
                )
                &&& r == spec_wrap_dsx(res)
            }),
    {
        let i = match self.find_user(user) {
            None => {
                return Err(ScoringLedgerError::Store(StoreError::NoSuchKey));
            },
            Some(i) => i,
        };
        proof {
            self.lemma_user_index_is(user, i as int);
        }
        let entry = &mut self.users[i];
        let res = reward_content_engagement(&mut self.config, &mut entry.record,
            &mut entry.account, engagement_score, now);
        proof {
            lemma_user_update_keeps_wf(old(self).users@, self.users@, i as int);
        }
        match res {
            Ok(ev) => Ok(ev),
            Err(e) => Err(ScoringLedgerError::Program(e)),
        }
    }

    /// Reward community participation (see the record-level operation).
    pub fn reward_community_participation(
        &mut self,
        user: u64,
        participation_points: u64,
        now: u64,
    ) -> (r: Result<RewardEvent, ScoringLedgerError>)
        requires
            old(self).wf(),
            participation_points * PARTICIPATION_REWARD_RATE <= u64::MAX,
            old(self).config.total_distributed + participation_points * PARTICIPATION_REWARD_RATE
                <= u64::MAX,
            old(self).spec_has_user(user) ==> old(self).spec_user(user).record.total_earned
                + participation_points * PARTICIPATION_REWARD_RATE <= u64::MAX && old(
                self,
            ).spec_user(user).account.amount + participation_points * PARTICIPATION_REWARD_RATE
                <= u64::MAX && old(self).spec_user(user).record.community_participation
                + participation_points <= u64::MAX,
        ensures
            final(self).wf(),
            !old(self).spec_has_user(user) ==> r == Err::<RewardEvent, ScoringLedgerError>(
                ScoringLedgerError::Store(StoreError::NoSuchKey),
            ) && *final(self) == *old(self),
            old(self).spec_has_user(user) ==> ({
                let idx = old(self).spec_user_index(user);
                let entry = old(self).users@[idx];
                let (c, u, a, res) = spec_reward_participation(old(self).config, entry.record,
                    entry.account, participation_points, now);
                &&& final(self).config == c
                &&& final(self).users@ == old(self).users@.update(
                    idx,
                    UserEntry { record: u, account: a },
                )
                &&& r == spec_wrap_dsx(res)
            }),
    {
        let i = match self.find_user(user) {
            None => {
                return Err(ScoringLedgerError::Store(StoreError::NoSuchKey));
            },
            Some(i) => i,
        };
        proof {
            self.lemma_user_index_is(user, i as int);
        }
        let entry = &mut self.users[i];
        let res = reward_community_participation(&mut self.config, &mut entry.record,
            &mut entry.account, participation_points, now);
        proof {
            lemma_user_update_keeps_wf(old(self).users@, self.users@, i as int);
        }
        match res {
            Ok(ev) => Ok(ev),
            Err(e) => Err(ScoringLedgerError::Program(e)),
        }
    }

    /// Read-only query: the user's current reputation score.
    pub fn get_reputation_score(&self, user: u64) -> (r: Result<u64, ScoringLedgerError>)
        requires
            self.wf(),
        ensures
            self.spec_has_user(user) ==> r == Ok::<u64, ScoringLedgerError>(
                spec_reputation(self.spec_user(user).record),
            ),
            !self.spec_has_user(user) ==> r == Err::<u64, ScoringLedgerError>(
                ScoringLedgerError::Store(StoreError::NoSuchKey),
            ),
    {
        match self.find_user(user) {
            None => Err(ScoringLedgerError::Store(StoreError::NoSuchKey)),
            Some(i) => {
                proof {
                    self.lemma_user_index_is(user, i as int);
                }
                Ok(calculate_reputation_score(&self.users[i].record))
            },
        }
    }

    /// Compute the user's reputation and return the Profile Service score
    /// update; read-only locally.
    pub fn update_reputation_score(&self, user: u64, now: u64) -> (r: Result<
        ReputationCalculatedEvent,
        ScoringLedgerError,
    >)
        requires
            self.wf(),
        ensures
            self.spec_has_user(user) ==> r is Ok && r->Ok_0 == update_reputation_spec(
                self.spec_user(user).record,
                now,
            ),
            !self.spec_has_user(user) ==> r == Err::<ReputationCalculatedEvent,
                ScoringLedgerError>(ScoringLedgerError::Store(StoreError::NoSuchKey)),
    {
        match self.find_user(user) {
            None => Err(ScoringLedgerError::Store(StoreError::NoSuchKey)),
            Some(i) => {
                proof {
                    self.lemma_user_index_is(user, i as int);
                }
                Ok(update_reputation_score(&self.users[i].record, now))
            },
        }
    }

    /// Evaluate a badge award against the user's record; on eligibility
    /// the returned event is the Profile Service attach request.
    pub fn award_achievement_badge(
        &self,
        user: u64,
        badge_id: &str,
        requirement_met: u64,
        now: u64,
    ) -> (r: Result<BadgeAwardedEvent, ScoringLedgerError>)
        requires
            self.wf(),
        ensures
            !self.spec_has_user(user) ==> r == Err::<BadgeAwardedEvent, ScoringLedgerError>(
                ScoringLedgerError::Store(StoreError::NoSuchKey),
            ),
            self.spec_has_user(user) ==> {
                &&& r is Ok <==> spec_badge_eligible(
                    self.spec_user(user).record,
                    badge_id@,
                    requirement_met,
                )
                &&& r is Ok ==> r->Ok_0.user == user && r->Ok_0.badge_id@ == badge_id@
                    && r->Ok_0.requirement_met == requirement_met && r->Ok_0.timestamp == now
                &&& r is Err ==> r == Err::<BadgeAwardedEvent, ScoringLedgerError>(
                    ScoringLedgerError::Program(DsxError::BadgeRequirementNotMet),
                )
            },
    {
        match self.find_user(user) {
            None => Err(ScoringLedgerError::Store(StoreError::NoSuchKey)),
            Some(i) => {
                proof {
                    self.lemma_user_index_is(user, i as int);
                }
                match award_achievement_badge(&self.users[i].record, badge_id, requirement_met,
                    now) {
                    Ok(ev) => Ok(ev),
                    Err(e) => Err(ScoringLedgerError::Program(e)),
                }
            },
        }
    }
}

/// What `initialize_scoring` returns, for stating the constructor's
/// contract.
pub open spec fn initialize_scoring_spec(authority: u64, dsx_mint: u64) -> ScoringConfig {
    ScoringConfig {
        authority,
        dsx_mint,
        total_distributed: 0,
        daily_distributed: 0,
        daily_limit: crate::scoring::DAILY_LIMIT,
        last_reset_day: 0,
    }
}

/// What `initialize_user_scoring` returns, for stating contracts.
pub open spec fn initialize_user_scoring_spec(user: u64) -> UserScoring {
    UserScoring {
        user,
        total_earned: 0,
        last_daily_contribution: 0,
        referral_count: 0,
        content_score: 0,
        community_participation: 0,
    }
}

/// What `update_reputation_score` returns, for stating contracts.
pub open spec fn update_reputation_spec(record: UserScoring, now: u64)
    -> ReputationCalculatedEvent {
    ReputationCalculatedEvent {
        user: record.user,
        reputation_score: spec_reputation(record),
        dsx_earned: record.total_earned,
        referrals: record.referral_count,
        content_score: record.content_score,
        timestamp: now,
    }
}

/// Updating one entry in place, without touching its key, keeps the keys
/// unique.
proof fn lemma_user_update_keeps_wf(pre: Seq<UserEntry>, post: Seq<UserEntry>, i: int)
    requires
        0 <= i < pre.len(),
        post == pre.update(i, post[i]),
        post[i].record.user == pre[i].record.user,
        forall|x: int, y: int|
            #![trigger pre[x], pre[y]]
            0 <= x < y < pre.len() ==> pre[x].record.user != pre[y].record.user,
    ensures
        forall|x: int, y: int|
            #![trigger post[x], post[y]]
            0 <= x < y < post.len() ==> post[x].record.user != post[y].record.user,
{
    assert forall|x: int, y: int|
        #![trigger post[x], post[y]]
        0 <= x < y < post.len() implies post[x].record.user != post[y].record.user by {
        assert(pre[x].record.user != pre[y].record.user);
        assert(post[x].record.user == pre[x].record.user);
        assert(post[y].record.user == pre[y].record.user);
    }
}

} // verus!
